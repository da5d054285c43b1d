//! The earlier bAsset farmer contract: its reward index, the aTerra it sells
//! to repay the loan, the nAsset it mints for deposits and the bAsset it pays
//! out for withdrawals, and the identifiers of its sub-messages.
use vstd::prelude::*;
use crate::math::{Decimal256, Uint256, dec_scale, div_dec_spec, mul_dec_spec, u256_bound};

verus! {

/// The farmer's reward accounting and balances.
#[derive(Clone, Copy, Debug, PartialEq, Eq, Structural)]
pub struct State {
    pub global_reward_index: Decimal256,
    pub last_reward_amount: Decimal256,
    pub ust_buffer_balance: Uint256,
    pub aterra_balance: Uint256,
}

/// The reward index after observing the balances (decimals by atomics):
/// `(global_reward_index, last_reward_amount)`.
///
/// The reward is what the stables (held plus aTerra value) exceed the loan
/// by; its change since the last observation, per cAsset token, moves the
/// index up or down.  Without a reward both are reset to zero.
pub open spec fn farmer_reward_index_spec(
    index: int,
    last_reward: int,
    borrowed_amount: int,
    aterra_amount: int,
    aterra_exchange_rate: int,
    ust_amount: int,
    casset_token_supply: int,
) -> (int, int) {
    let ust_balance = mul_dec_spec(aterra_amount, aterra_exchange_rate) + ust_amount;
    let current = (ust_balance - borrowed_amount) * dec_scale();
    let supply = casset_token_supply * dec_scale();
    if borrowed_amount >= ust_balance {
        (0, 0)
    } else if current < last_reward {
        (index - (last_reward - current) * dec_scale() / supply, current)
    } else {
        (index + (current - last_reward) * dec_scale() / supply, current)
    }
}

pub open spec fn farmer_reward_index_ok(
    index: int,
    last_reward: int,
    borrowed_amount: int,
    aterra_amount: int,
    aterra_exchange_rate: int,
    ust_amount: int,
    casset_token_supply: int,
) -> bool {
    let ust_balance = mul_dec_spec(aterra_amount, aterra_exchange_rate) + ust_amount;
    let current = (ust_balance - borrowed_amount) * dec_scale();
    let supply = casset_token_supply * dec_scale();
    &&& aterra_amount * aterra_exchange_rate < u256_bound()
    &&& ust_balance < u256_bound()
    &&& supply < u256_bound()
    &&& borrowed_amount < ust_balance ==> {
        &&& current < u256_bound()
        &&& supply != 0
        &&& current < last_reward ==> {
            &&& (last_reward - current) * dec_scale() < u256_bound()
            &&& (last_reward - current) * dec_scale() / supply <= index
        }
        &&& current >= last_reward ==> {
            &&& (current - last_reward) * dec_scale() < u256_bound()
            &&& index + (current - last_reward) * dec_scale() / supply < u256_bound()
        }
    }
}

/// Moves the reward index by the change of the reward since the last call,
/// divided by the cAsset supply.
pub fn calculate_reward_index(
    state: &mut State,
    borrowed_amount: Uint256,
    aterra_amount: Uint256,
    aterra_exchange_rate: Decimal256,
    ust_amount: Uint256,
    casset_token_supply: Uint256,
)
    requires
        farmer_reward_index_ok(
            old(state).global_reward_index@ as int,
            old(state).last_reward_amount@ as int,
            borrowed_amount@ as int,
            aterra_amount@ as int,
            aterra_exchange_rate@ as int,
            ust_amount@ as int,
            casset_token_supply@ as int,
        ),
    ensures
        (final(state).global_reward_index@ as int, final(state).last_reward_amount@ as int)
            == farmer_reward_index_spec(
            old(state).global_reward_index@ as int,
            old(state).last_reward_amount@ as int,
            borrowed_amount@ as int,
            aterra_amount@ as int,
            aterra_exchange_rate@ as int,
            ust_amount@ as int,
            casset_token_supply@ as int,
        ),
        final(state).ust_buffer_balance == old(state).ust_buffer_balance,
        final(state).aterra_balance == old(state).aterra_balance,
{
    let ust_balance = aterra_amount.mul_dec(aterra_exchange_rate).add(ust_amount);
    let decimal_casset_token_supply = Decimal256::from_uint256(casset_token_supply);
    if ust_balance.le(&borrowed_amount) {
        state.global_reward_index = Decimal256::zero();
        state.last_reward_amount = Decimal256::zero();
    } else {
        let current_total_reward_amount = Decimal256::from_uint256(
            ust_balance.sub(borrowed_amount),
        );
        if current_total_reward_amount.lt(&state.last_reward_amount) {
            let new_reward_amount_negative = state.last_reward_amount.sub(
                current_total_reward_amount,
            );
            state.global_reward_index = state.global_reward_index.sub(
                new_reward_amount_negative.div(decimal_casset_token_supply),
            );
        } else {
            let new_reward_amount = current_total_reward_amount.sub(state.last_reward_amount);
            state.global_reward_index = state.global_reward_index.add(
                new_reward_amount.div(decimal_casset_token_supply),
            );
        }
        state.last_reward_amount = current_total_reward_amount;
    }
}

/// aTerra to sell (see `calculate_aterra_amount_to_sell`).
pub open spec fn aterra_amount_to_sell_spec(
    aterra_balance: int,
    ust_buffer_balance: int,
    aterra_exchange_rate: int,
    repay_amount: int,
    aim_buffer_size: int,
) -> int {
    let total = mul_dec_spec(aterra_balance, aterra_exchange_rate) + ust_buffer_balance;
    if aterra_exchange_rate == 0 {
        0
    } else if repay_amount > total {
        aterra_balance
    } else if total - repay_amount < aim_buffer_size {
        aterra_balance
    } else if ust_buffer_balance > aim_buffer_size {
        if ust_buffer_balance - aim_buffer_size >= repay_amount {
            0
        } else {
            div_dec_spec(repay_amount - (ust_buffer_balance - aim_buffer_size), aterra_exchange_rate)
        }
    } else {
        div_dec_spec(repay_amount + (aim_buffer_size - ust_buffer_balance), aterra_exchange_rate)
    }
}

pub open spec fn aterra_amount_to_sell_ok(
    aterra_balance: int,
    ust_buffer_balance: int,
    aterra_exchange_rate: int,
    repay_amount: int,
    aim_buffer_size: int,
) -> bool {
    let total = mul_dec_spec(aterra_balance, aterra_exchange_rate) + ust_buffer_balance;
    aterra_exchange_rate == 0 || {
        &&& aterra_balance * aterra_exchange_rate < u256_bound()
        &&& total < u256_bound()
        &&& (repay_amount <= total && total - repay_amount >= aim_buffer_size) ==> if ust_buffer_balance
            > aim_buffer_size {
            (repay_amount - (ust_buffer_balance - aim_buffer_size)) * dec_scale() < u256_bound()
        } else {
            repay_amount + (aim_buffer_size - ust_buffer_balance) < u256_bound() && (repay_amount
                + (aim_buffer_size - ust_buffer_balance)) * dec_scale() < u256_bound()
        }
    }
}

/// aTerra to sell to repay `repay_amount` and keep `aim_buffer_size` stables:
/// everything when the holdings do not cover the repayment, or leave less
/// than the buffer after it; otherwise only what the buffer above its aim
/// cannot pay, or what repays the loan and refills the buffer.
pub fn calculate_aterra_amount_to_sell(
    state: &State,
    aterra_exchange_rate: Decimal256,
    repay_amount: Uint256,
    aim_buffer_size: Uint256,
) -> (r: Uint256)
    requires
        aterra_amount_to_sell_ok(
            state.aterra_balance@ as int,
            state.ust_buffer_balance@ as int,
            aterra_exchange_rate@ as int,
            repay_amount@ as int,
            aim_buffer_size@ as int,
        ),
    ensures
        r@ == aterra_amount_to_sell_spec(
            state.aterra_balance@ as int,
            state.ust_buffer_balance@ as int,
            aterra_exchange_rate@ as int,
            repay_amount@ as int,
            aim_buffer_size@ as int,
        ),
{
    if aterra_exchange_rate.is_zero() {
        //no reason to sell
        return Uint256::zero();
    }
    let current_aterra_balance = state.aterra_balance;
    let current_buffer_balance = state.ust_buffer_balance;
    let current_total_stable_balance = current_aterra_balance.mul_dec(aterra_exchange_rate).add(
        current_buffer_balance,
    );
    if current_total_stable_balance.lt(&repay_amount) {
        //if we need to repay more than we have - means we farming with loss
        //- repay as much as can
        state.aterra_balance
    } else if current_total_stable_balance.sub(repay_amount).lt(&aim_buffer_size) {
        //what is left after the repayment does not fill the buffer:
        //sell all aterra and use the rest as a buffer
        state.aterra_balance
    } else {
        //means we need to repay only by selling some aterra
        //OR just get it from buffer without selling aterra
        if aim_buffer_size.lt(&state.ust_buffer_balance) {
            let take_from_buffer = state.ust_buffer_balance.sub(aim_buffer_size);
            if repay_amount.le(&take_from_buffer) {
                //repay from buffer, no need to sell aterra
                Uint256::zero()
            } else {
                //sell diff between between amount that you can take from buffer and 'repay_amount'
                repay_amount.sub(take_from_buffer).div_dec(aterra_exchange_rate)
            }
        } else {
            //sell aterra to repay loan AND to fill the buffer
            let add_to_buffer = aim_buffer_size.sub(state.ust_buffer_balance);
            repay_amount.add(add_to_buffer).div_dec(aterra_exchange_rate)
        }
    }
}


/// The sub-messages whose replies the farmer handles.
#[derive(Clone, Copy, Debug, PartialEq, Eq, Structural)]
pub enum SubmsgIds {
    InitNAsset,
    InitNAssetStaker,
    InitPsiDistributor,
    RedeemStableOnRepayLoan,
    RepayLoan,
    Borrowing,
    RedeemStableOnRemainder,
}

/// The reply identifier of each sub-message kind of the farmer.
pub open spec fn farmer_submsg_id_spec(s: SubmsgIds) -> u64 {
    match s {
        SubmsgIds::InitNAsset => 0,
        SubmsgIds::InitNAssetStaker => 1,
        SubmsgIds::InitPsiDistributor => 2,
        SubmsgIds::RedeemStableOnRepayLoan => 3,
        SubmsgIds::RepayLoan => 4,
        SubmsgIds::Borrowing => 5,
        SubmsgIds::RedeemStableOnRemainder => 6,
    }
}

impl SubmsgIds {
    /// The reply identifier of this sub-message kind.
    pub fn id(&self) -> (r: u64)
        ensures
            r == farmer_submsg_id_spec(*self),
    {
        match self {
            SubmsgIds::InitNAsset => 0,
            SubmsgIds::InitNAssetStaker => 1,
            SubmsgIds::InitPsiDistributor => 2,
            SubmsgIds::RedeemStableOnRepayLoan => 3,
            SubmsgIds::RepayLoan => 4,
            SubmsgIds::Borrowing => 5,
            SubmsgIds::RedeemStableOnRemainder => 6,
        }
    }

    /// The sub-message kind of a reply identifier; refused for an unknown one.
    pub fn try_from(v: u64) -> (r: Result<SubmsgIds, crate::vault::UnknownReplyId>)
        ensures
            r matches Ok(s) ==> farmer_submsg_id_spec(s) == v,
            r is Err <==> v > 6,
            r is Err ==> r == Err::<SubmsgIds, crate::vault::UnknownReplyId>(
                crate::vault::UnknownReplyId { id: v },
            ),
    {
        if v == SubmsgIds::InitNAsset.id() {
            Ok(SubmsgIds::InitNAsset)
        } else if v == SubmsgIds::InitNAssetStaker.id() {
            Ok(SubmsgIds::InitNAssetStaker)
        } else if v == SubmsgIds::InitPsiDistributor.id() {
            Ok(SubmsgIds::InitPsiDistributor)
        } else if v == SubmsgIds::RedeemStableOnRepayLoan.id() {
            Ok(SubmsgIds::RedeemStableOnRepayLoan)
        } else if v == SubmsgIds::RepayLoan.id() {
            Ok(SubmsgIds::RepayLoan)
        } else if v == SubmsgIds::Borrowing.id() {
            Ok(SubmsgIds::Borrowing)
        } else if v == SubmsgIds::RedeemStableOnRemainder.id() {
            Ok(SubmsgIds::RedeemStableOnRemainder)
        } else {
            Err(crate::vault::UnknownReplyId { id: v })
        }
    }
}

/// What the farmer keeps of the child contracts it instantiates.
#[derive(Clone, Debug, PartialEq, Eq, Default)]
pub struct ChildContractsInfo {
    pub nasset_token_code_id: u64,
    pub nasset_token_rewards_code_id: u64,
    pub psi_distributor_code_id: u64,
    pub collateral_token_symbol: String,
    pub nasset_token_holders_psi_rewards_share: u64,
    pub governance_contract_psi_rewards_share: u64,
}


/// Observing the same balances twice changes nothing the second time: the
/// change of the reward is counted once.
pub proof fn lemma_farmer_observation_idempotent(
    index: int,
    last_reward: int,
    borrowed_amount: int,
    aterra_amount: int,
    aterra_exchange_rate: int,
    ust_amount: int,
    casset_token_supply: int,
)
    requires
        casset_token_supply > 0,
    ensures
        ({
            let (i1, l1) = farmer_reward_index_spec(
                index,
                last_reward,
                borrowed_amount,
                aterra_amount,
                aterra_exchange_rate,
                ust_amount,
                casset_token_supply,
            );
            farmer_reward_index_spec(
                i1,
                l1,
                borrowed_amount,
                aterra_amount,
                aterra_exchange_rate,
                ust_amount,
                casset_token_supply,
            ) == (i1, l1)
        }),
{
    vstd::arithmetic::div_mod::lemma_div_of0(casset_token_supply * dec_scale());
}

/// Reply identifiers tell the farmer's sub-message kinds apart: each kind
/// has its own identifier, all of them at most 6.
pub proof fn lemma_farmer_submsg_ids_distinct(a: SubmsgIds, b: SubmsgIds)
    ensures
        farmer_submsg_id_spec(a) <= 6,
        farmer_submsg_id_spec(a) == farmer_submsg_id_spec(b) ==> a == b,
{
}


/// Refusals of the farmer's deposits and withdrawals.
#[derive(Clone, Copy, Debug, PartialEq, Eq, Structural)]
pub enum FarmerError {
    /// nAsset circulates but no bAsset is in custody: the farmer is frozen.
    Frozen,
    /// The farmer holds no bAsset at all although some was just sent.
    BassetBalanceZero,
}

/// The deposit's share of all bAsset (atomics, rounded down).
pub open spec fn deposit_share_spec(deposit_amount: int, basset_balance: int) -> int {
    deposit_amount * dec_scale() / basset_balance
}

/// nAsset minted for a deposit: the whole deposit when it is all the bAsset,
/// else `supply * share / (1 - share)`, each product rounded down.
pub open spec fn farmer_nasset_to_mint_spec(deposit_amount: int, nasset_supply: int, basset_balance: int) -> int {
    let share = deposit_share_spec(deposit_amount, basset_balance);
    if share == dec_scale() {
        deposit_amount
    } else {
        div_dec_spec(mul_dec_spec(nasset_supply, share), dec_scale() - share)
    }
}

/// The computation of `farmer_nasset_to_mint_spec` stays within 256 bits and
/// the share within one.
pub open spec fn farmer_deposit_ok(deposit_amount: int, nasset_supply: int, basset_balance: int) -> bool {
    let share = deposit_share_spec(deposit_amount, basset_balance);
    &&& basset_balance < u256_bound()
    &&& deposit_amount * dec_scale() < u256_bound()
    &&& share <= dec_scale()
    &&& share != dec_scale() ==> {
        &&& nasset_supply * share < u256_bound()
        &&& mul_dec_spec(nasset_supply, share) * dec_scale() < u256_bound()
    }
}

/// nAsset to mint for `deposit_amount` bAsset sent to the farmer.  Refused
/// when nAsset circulates but nothing is in custody, or when the farmer
/// holds no bAsset at all.
pub fn farmer_nasset_to_mint(
    deposit_amount: Uint256,
    nasset_supply: Uint256,
    basset_in_custody: Uint256,
    basset_in_contract_address: Uint256,
) -> (r: Result<Uint256, FarmerError>)
    requires
        !(basset_in_custody@ == 0 && nasset_supply@ != 0) && basset_in_custody@
            + basset_in_contract_address@ != 0 ==> farmer_deposit_ok(
            deposit_amount@ as int,
            nasset_supply@ as int,
            (basset_in_custody@ + basset_in_contract_address@) as int,
        ),
        basset_in_custody@ + basset_in_contract_address@ < u256_bound(),
    ensures
        basset_in_custody@ == 0 && nasset_supply@ != 0 ==> r == Err::<Uint256, FarmerError>(
            FarmerError::Frozen,
        ),
        !(basset_in_custody@ == 0 && nasset_supply@ != 0) && basset_in_custody@
            + basset_in_contract_address@ == 0 ==> r == Err::<Uint256, FarmerError>(
            FarmerError::BassetBalanceZero,
        ),
        !(basset_in_custody@ == 0 && nasset_supply@ != 0) && basset_in_custody@
            + basset_in_contract_address@ != 0 ==> (r matches Ok(m) && m@ == farmer_nasset_to_mint_spec(
            deposit_amount@ as int,
            nasset_supply@ as int,
            (basset_in_custody@ + basset_in_contract_address@) as int,
        )),
{
    if basset_in_custody.is_zero() && !nasset_supply.is_zero() {
        //read comments in 'farmer_basset_to_withdraw' for a reason to return error here
        return Err(FarmerError::Frozen);
    }
    let basset_balance = basset_in_custody.add(basset_in_contract_address);
    if basset_balance.is_zero() {
        //impossible because 'farmer' already sent some basset
        return Err(FarmerError::BassetBalanceZero);
    }
    let farmer_basset_share = Decimal256::from_ratio(deposit_amount, basset_balance);
    // nAsset tokens to mint:
    // user_share = (deposited_basset / total_basset)
    // nAsset_to_mint = nAsset_supply * user_share / (1 - user_share)
    if farmer_basset_share.eq(&Decimal256::one()) {
        Ok(deposit_amount)
    } else {
        let remaining_share = Decimal256::one().sub(farmer_basset_share);
        Ok(nasset_supply.mul_dec(farmer_basset_share).div_dec(remaining_share))
    }
}

/// bAsset for `nasset_amount` nAsset: its share of the supply (rounded
/// down) applied to the custody balance.
pub open spec fn farmer_basset_to_withdraw_spec(nasset_amount: int, nasset_supply: int, basset_in_custody: int) -> int {
    mul_dec_spec(basset_in_custody, nasset_amount * dec_scale() / nasset_supply)
}

/// bAsset to pay out for `nasset_amount` nAsset; refused when nothing is in
/// custody (the farmer is frozen: nAsset circulates without backing).
pub fn farmer_basset_to_withdraw(
    nasset_amount: Uint256,
    nasset_supply: Uint256,
    basset_in_custody: Uint256,
) -> (r: Result<Uint256, FarmerError>)
    requires
        basset_in_custody@ != 0 ==> {
            &&& nasset_supply@ != 0
            &&& nasset_amount@ * dec_scale() < u256_bound()
            &&& basset_in_custody@ * (nasset_amount@ * dec_scale() / (nasset_supply@ as int))
                < u256_bound()
        },
    ensures
        basset_in_custody@ == 0 ==> r == Err::<Uint256, FarmerError>(FarmerError::Frozen),
        basset_in_custody@ != 0 ==> (r matches Ok(b) && b@ == farmer_basset_to_withdraw_spec(
            nasset_amount@ as int,
            nasset_supply@ as int,
            basset_in_custody@ as int,
        )),
{
    if basset_in_custody.is_zero() {
        //user owns some nAsset, but bAsset balance is zero: no withdraw and
        //deposits are available until bAsset comes back
        return Err(FarmerError::Frozen);
    }
    let share_to_withdraw = Decimal256::from_ratio(nasset_amount, nasset_supply);
    Ok(basset_in_custody.mul_dec(share_to_withdraw))
}


/// Redeeming the whole nAsset supply pays out all bAsset in custody, and
/// redeeming part of it never pays out more.
pub proof fn lemma_farmer_withdraw_within_custody(nasset_amount: int, nasset_supply: int, basset_in_custody: int)
    requires
        0 <= nasset_amount <= nasset_supply,
        nasset_supply > 0,
        basset_in_custody >= 0,
    ensures
        farmer_basset_to_withdraw_spec(nasset_supply, nasset_supply, basset_in_custody) == basset_in_custody,
        farmer_basset_to_withdraw_spec(nasset_amount, nasset_supply, basset_in_custody) <= basset_in_custody,
{
    let s = dec_scale();
    vstd::arithmetic::div_mod::lemma_div_by_multiple(s, nasset_supply);
    vstd::arithmetic::mul::lemma_mul_is_commutative(nasset_supply, s);
    vstd::arithmetic::div_mod::lemma_div_by_multiple(basset_in_custody, s);
    vstd::arithmetic::mul::lemma_mul_inequality(nasset_amount, nasset_supply, s);
    vstd::arithmetic::div_mod::lemma_div_is_ordered(nasset_amount * s, nasset_supply * s, nasset_supply);
    let share = nasset_amount * s / nasset_supply;
    vstd::arithmetic::div_mod::lemma_div_pos_is_pos(nasset_amount * s, nasset_supply);
    vstd::arithmetic::mul::lemma_mul_inequality(share, s, basset_in_custody);
    vstd::arithmetic::mul::lemma_mul_is_commutative(share, basset_in_custody);
    vstd::arithmetic::mul::lemma_mul_is_commutative(s, basset_in_custody);
    vstd::arithmetic::div_mod::lemma_div_is_ordered(basset_in_custody * share, basset_in_custody * s, s);
}

} // verus!
