//! The bAsset vault: its settings, the identifiers of its sub-messages, the
//! state of a loan repayment in progress, and the decisions of its commands
//! (deposits, withdrawals, governance hand-over, replies).
use vstd::prelude::*;
use crate::math::{Decimal256, Uint256, dec_scale, div_dec_spec, u256_bound, u256_decimal};
use crate::response::{ReplyOn, Response, SubMessage, VaultMsg, Coin, attr, attr_str};
use crate::tax::TaxInfo;
use crate::actions::{
    ActionWithProfit, AfterBorrowAction, RepayLoanAction, RepayPlan, calc_after_borrow_action,
    get_repay_loan_action, is_anc_rewards_claimable, is_holding_rewards_claimable,
    repay_loan_action_ok, repay_loan_action_spec, repay_messages, rewards_plan_spec, rewards_to_distribute,
    stable_coin,
};

verus! {

/// Error message of Anchor when it cannot pay out because of the borrow demand.
pub const TOO_HIGH_BORROW_DEMAND_ERR_MSG: &'static str = "borrow demand too high";

/// Steps a loan repayment may take before it ends.
pub const LOAN_REPAYMENT_MAX_RECURSION_DEEP: u8 = 6u8;

/// Longest delay between two ANC reward claims (seconds).
pub const MAX_SECS_DELAY_BETWEEN_ANC_CLAIM: u64 = 86_400u64;

/// Settings of the vault.
#[derive(Clone, Debug, PartialEq, Eq)]
pub struct Config {
    pub governance_contract: String,
    pub anchor_token: String,
    pub anchor_overseer_contract: String,
    pub anchor_market_contract: String,
    pub anchor_custody_basset_contract: String,
    pub anchor_basset_reward_contract: String,
    pub anc_stable_swap_contract: String,
    pub psi_stable_swap_contract: String,
    pub basset_token: String,
    pub aterra_token: String,
    pub psi_token: String,
    pub basset_vault_strategy_contract: String,
    pub stable_denom: String,
    pub claiming_rewards_delay: u64,
    //UST value in balance should be more than loan
    //on what portion.
    //for example: 1.01 means 1% more than loan
    pub over_loan_balance_value: Decimal256,
    pub nasset_token: String,
    pub psi_distributor: String,
}

/// The sub-messages whose replies the vault handles.
#[derive(Clone, Copy, Debug, PartialEq, Eq, Structural)]
pub enum SubmsgIds {
    InitNAssetConfigHolder,
    InitNAsset,
    InitNAssetPsiSwapPair,
    InitNAssetRewards,
    InitPsiDistributor,
    RedeemStableOnRepayLoan,
    RepayLoan,
    Borrowing,
    RedeemStableOnRemainder,
    HoldingReward,
}

/// The reply identifier of each sub-message kind.
pub open spec fn submsg_id_spec(s: SubmsgIds) -> u64 {
    match s {
        SubmsgIds::InitNAssetConfigHolder => 0,
        SubmsgIds::InitNAsset => 1,
        SubmsgIds::InitNAssetPsiSwapPair => 2,
        SubmsgIds::InitNAssetRewards => 3,
        SubmsgIds::InitPsiDistributor => 4,
        SubmsgIds::RedeemStableOnRepayLoan => 5,
        SubmsgIds::RepayLoan => 6,
        SubmsgIds::Borrowing => 7,
        SubmsgIds::RedeemStableOnRemainder => 8,
        SubmsgIds::HoldingReward => 9,
    }
}

/// A reply identifier the vault does not know.
#[derive(Clone, Copy, Debug, PartialEq, Eq, Structural)]
pub struct UnknownReplyId {
    pub id: u64,
}

impl SubmsgIds {
    /// The reply identifier of this sub-message kind.
    pub fn id(&self) -> (r: u64)
        ensures
            r == submsg_id_spec(*self),
    {
        match self {
            SubmsgIds::InitNAssetConfigHolder => 0,
            SubmsgIds::InitNAsset => 1,
            SubmsgIds::InitNAssetPsiSwapPair => 2,
            SubmsgIds::InitNAssetRewards => 3,
            SubmsgIds::InitPsiDistributor => 4,
            SubmsgIds::RedeemStableOnRepayLoan => 5,
            SubmsgIds::RepayLoan => 6,
            SubmsgIds::Borrowing => 7,
            SubmsgIds::RedeemStableOnRemainder => 8,
            SubmsgIds::HoldingReward => 9,
        }
    }

    /// The sub-message kind of a reply identifier; refused for an unknown one.
    pub fn try_from(v: u64) -> (r: Result<SubmsgIds, UnknownReplyId>)
        ensures
            r matches Ok(s) ==> submsg_id_spec(s) == v,
            r is Err <==> v > 9,
            r is Err ==> r == Err::<SubmsgIds, UnknownReplyId>(UnknownReplyId { id: v }),
    {
        if v == SubmsgIds::InitNAssetConfigHolder.id() {
            Ok(SubmsgIds::InitNAssetConfigHolder)
        } else if v == SubmsgIds::InitNAsset.id() {
            Ok(SubmsgIds::InitNAsset)
        } else if v == SubmsgIds::InitNAssetPsiSwapPair.id() {
            Ok(SubmsgIds::InitNAssetPsiSwapPair)
        } else if v == SubmsgIds::InitNAssetRewards.id() {
            Ok(SubmsgIds::InitNAssetRewards)
        } else if v == SubmsgIds::InitPsiDistributor.id() {
            Ok(SubmsgIds::InitPsiDistributor)
        } else if v == SubmsgIds::RedeemStableOnRepayLoan.id() {
            Ok(SubmsgIds::RedeemStableOnRepayLoan)
        } else if v == SubmsgIds::RepayLoan.id() {
            Ok(SubmsgIds::RepayLoan)
        } else if v == SubmsgIds::Borrowing.id() {
            Ok(SubmsgIds::Borrowing)
        } else if v == SubmsgIds::RedeemStableOnRemainder.id() {
            Ok(SubmsgIds::RedeemStableOnRemainder)
        } else if v == SubmsgIds::HoldingReward.id() {
            Ok(SubmsgIds::HoldingReward)
        } else {
            Err(UnknownReplyId { id: v })
        }
    }
}

/// What the vault keeps of the child contracts it instantiates.
#[derive(Clone, Debug, PartialEq, Eq, Default)]
pub struct ChildContractsInfo {
    pub nasset_token_code_id: u64,
    pub nasset_token_rewards_code_id: u64,
    pub psi_distributor_code_id: u64,
    pub collateral_token_symbol: String,
    pub nasset_token_holders_psi_rewards_share: u64,
    pub governance_contract_psi_rewards_share: u64,
}

/// A sub-message without reply.
pub open spec fn plain_msg(contract_addr: String, msg: VaultMsg, funds: Option<Coin>) -> SubMessage {
    SubMessage { id: 0, reply_on: ReplyOn::Never, contract_addr, msg, funds }
}

/// A sub-message with a reply.
pub open spec fn reply_msg(
    id: SubmsgIds,
    reply_on: ReplyOn,
    contract_addr: String,
    msg: VaultMsg,
    funds: Option<Coin>,
) -> SubMessage {
    SubMessage { id: submsg_id_spec(id), reply_on, contract_addr, msg, funds }
}

/// Builds a sub-message without reply.
pub fn plain(contract_addr: String, msg: VaultMsg, funds: Option<Coin>) -> (r: SubMessage)
    ensures
        r == plain_msg(contract_addr, msg, funds),
{
    SubMessage { id: 0, reply_on: ReplyOn::Never, contract_addr, msg, funds }
}

/// Builds a sub-message whose reply the vault handles.
pub fn with_reply(
    id: SubmsgIds,
    reply_on: ReplyOn,
    contract_addr: String,
    msg: VaultMsg,
    funds: Option<Coin>,
) -> (r: SubMessage)
    ensures
        r == reply_msg(id, reply_on, contract_addr, msg, funds),
{
    SubMessage { id: id.id(), reply_on, contract_addr, msg, funds }
}


/// Refusals of the vault's commands.
#[derive(Clone, Debug, PartialEq, Eq)]
pub enum VaultError {
    /// The sender may not do this.
    Unauthorized,
    /// The vault holds no bAsset on its address although it was just sent some.
    BassetBalanceZero,
    /// The vault holds no bAsset while nAsset is in circulation: it is frozen.
    Frozen,
    /// The governance hand-over was accepted too late.
    TooLateToAcceptGovernance,
    /// The repayment ended without repaying anything.
    FailToRepayLoan,
    /// There is no ANC to swap.
    AncAmountIsZero,
    /// The remainder can only be claimed once the loan is repaid.
    LoanNotRepaid { loan: Uint256 },
    /// Anchor refused to redeem stables for another reason than the borrow demand.
    FailToRedeemStables { reason: String },
    /// The strategy advised a collateral deposit of no bAsset, or of more
    /// than the vault holds on its address.
    InvalidDepositAmount,
    /// The strategy advised to withdraw more bAsset than the custody holds.
    WithdrawMoreThanCollateral,
    /// The data of an instantiation reply does not decode.
    InstantiateResponseUnreadable,
    /// The token rewards contract was reported before the nAsset/PSI pair
    /// was created.
    NAssetPsiPairMissing,
}

/// Whether `sender` is the one account allowed to send a message.
pub fn authorized(sender: &String, expected: &String) -> (r: bool)
    ensures
        r == (sender@ == expected@),
{
    *sender == *expected
}

/// nAsset to mint for a deposit of `deposited` bAsset: the deposit's share
/// of all bAsset after it, applied to the supply (`supply * deposited /
/// (balance - deposited)`, rounded down); the first depositor gets the whole
/// balance on the vault's address.
pub open spec fn nasset_to_mint_spec(
    nasset_supply: int,
    deposited: int,
    basset_balance: int,
    basset_in_contract_address: int,
) -> int {
    if nasset_supply == 0 {
        basset_in_contract_address
    } else {
        div_dec_spec(nasset_supply * deposited, (basset_balance - deposited) * dec_scale())
    }
}

/// The bAsset a deposit is counted as: the whole balance on the vault's
/// address once bAsset is held in custody (bAsset sent without a deposit
/// message then joins the deposit), else the amount sent.
pub open spec fn counted_deposit(deposited: int, basset_in_custody: int, basset_in_contract_address: int) -> int {
    if basset_in_custody != 0 {
        basset_in_contract_address
    } else {
        deposited
    }
}

/// The answer to a deposit.
pub open spec fn deposit_messages(config: Config, contract_address: String, farmer: String, to_mint: Uint256) -> Seq<SubMessage> {
    seq![
        plain_msg(config.nasset_token, VaultMsg::Mint { recipient: farmer, amount: to_mint }, None),
        plain_msg(contract_address, VaultMsg::Rebalance, None),
    ]
}

/// A deposit of `deposited_basset` by `farmer`: mints nAsset for the
/// deposit's share of the bAsset and asks the vault to rebalance.  Refused
/// when the vault holds no bAsset on its address (it was just sent some), or
/// when nAsset circulates but no bAsset other than the deposit backs it.
pub fn deposit_basset(
    config: &Config,
    contract_address: &String,
    farmer: &String,
    deposited_basset: Uint256,
    nasset_supply: Uint256,
    basset_in_custody: Uint256,
    basset_in_contract_address: Uint256,
) -> (r: Result<Response, VaultError>)
    requires
        basset_in_contract_address@ != 0 ==> {
            let deposited = counted_deposit(
                deposited_basset@ as int,
                basset_in_custody@ as int,
                basset_in_contract_address@ as int,
            );
            let balance = (basset_in_custody@ + basset_in_contract_address@) as int;
            &&& balance < u256_bound()
            &&& deposited <= balance
            &&& (nasset_supply@ != 0 && balance - deposited != 0) ==> {
                &&& nasset_supply@ * deposited < u256_bound()
                &&& (balance - deposited) * dec_scale() < u256_bound()
                &&& nasset_supply@ * deposited * dec_scale() < u256_bound()
            }
        },
    ensures
        ({
            let deposited = counted_deposit(
                deposited_basset@ as int,
                basset_in_custody@ as int,
                basset_in_contract_address@ as int,
            );
            let balance = (basset_in_custody@ + basset_in_contract_address@) as int;
            &&& basset_in_contract_address@ == 0 ==> r == Err::<Response, VaultError>(
                VaultError::BassetBalanceZero,
            )
            &&& (basset_in_contract_address@ != 0 && balance == deposited && nasset_supply@ != 0)
                ==> r == Err::<Response, VaultError>(VaultError::Frozen)
            &&& r is Ok <==> (basset_in_contract_address@ != 0 && !(balance == deposited
                && nasset_supply@ != 0))
            &&& r matches Ok(resp) ==> exists|to_mint: Uint256|
                {
                    &&& to_mint@ == nasset_to_mint_spec(
                        nasset_supply@ as int,
                        deposited,
                        balance,
                        basset_in_contract_address@ as int,
                    )
                    &&& resp.messages@ == deposit_messages(*config, *contract_address, *farmer, to_mint)
                    &&& resp.attrs() == seq![
                        ("action"@, "deposit_basset"@),
                        ("farmer"@, farmer@),
                        ("amount"@, u256_decimal(deposited as nat)),
                    ]
                }
        }),
{
    if basset_in_contract_address.is_zero() {
        //impossible because 'farmer' already sent some basset
        return Err(VaultError::BassetBalanceZero);
    }
    // In case when someone has sent bAsset directly to the contract address
    // without calling this method.
    //
    // It is correct only if we aren't holding bAssets
    let mut deposited_basset = deposited_basset;
    if !basset_in_custody.is_zero() {
        deposited_basset = basset_in_contract_address;
    }
    let basset_balance = basset_in_custody.add(basset_in_contract_address);
    if basset_balance.sub(deposited_basset).is_zero() && !nasset_supply.is_zero() {
        //read comments in 'withdraw_basset' function for a reason to return error here
        return Err(VaultError::Frozen);
    }
    let is_first_depositor = nasset_supply.is_zero();
    // nAsset tokens to mint:
    // user_share = (deposited_basset / total_basset)
    // nAsset_to_mint = nAsset_supply * user_share / (1 - user_share)
    let nasset_to_mint = if is_first_depositor {
        basset_in_contract_address
    } else {
        // 'nasset_supply' can't be zero here, cause we already mint some for first farmer
        nasset_supply.mul(deposited_basset).div_dec(
            Decimal256::from_uint256(basset_balance.sub(deposited_basset)),
        )
    };
    // 1. Mint nasset
    // 2. Rebalance
    let mut response = Response::new();
    response.messages.push(
        plain(
            config.nasset_token.clone(),
            VaultMsg::Mint { recipient: farmer.clone(), amount: nasset_to_mint },
            None,
        ),
    );
    response.messages.push(plain(contract_address.clone(), VaultMsg::Rebalance, None));
    response.attributes.push(attr_str("action", "deposit_basset"));
    response.attributes.push(attr("farmer", farmer.clone()));
    response.attributes.push(attr("amount", deposited_basset.to_string()));
    proof {
        assert(response.messages@ =~= deposit_messages(*config, *contract_address, *farmer, nasset_to_mint));
        assert(response.attrs() =~= seq![
            ("action"@, "deposit_basset"@),
            ("farmer"@, farmer@),
            ("amount"@, u256_decimal(deposited_basset@)),
        ]);
    }
    Ok(response)
}

/// bAsset owed for `nasset_amount` nAsset: its share of the supply applied to
/// the bAsset the vault keeps in custody, rounded down.
pub open spec fn basset_to_withdraw_spec(basset_in_custody: int, nasset_amount: int, nasset_supply: int) -> int {
    div_dec_spec(basset_in_custody * nasset_amount, nasset_supply * dec_scale())
}

/// How a withdrawal proceeds.
#[derive(Clone, Copy, Debug, PartialEq, Eq, Structural)]
pub struct WithdrawPlan {
    /// bAsset taken out of custody and handed to the farmer.
    pub basset_to_withdraw: Uint256,
    /// The custody balance the vault rebalances to before that.
    pub new_basset_in_custody: Uint256,
}

/// The amounts of a withdrawal of `nasset_to_withdraw_amount` nAsset: its
/// share of the bAsset in custody. Refused when the custody is empty (the
/// vault is frozen).
pub fn plan_withdraw(
    nasset_to_withdraw_amount: Uint256,
    basset_in_custody: Uint256,
    nasset_token_supply: Uint256,
) -> (r: Result<WithdrawPlan, VaultError>)
    requires
        basset_in_custody@ != 0 ==> {
            let to_withdraw = basset_to_withdraw_spec(
                basset_in_custody@ as int,
                nasset_to_withdraw_amount@ as int,
                nasset_token_supply@ as int,
            );
            &&& nasset_token_supply@ != 0
            &&& basset_in_custody@ * nasset_to_withdraw_amount@ < u256_bound()
            &&& nasset_token_supply@ * dec_scale() < u256_bound()
            &&& basset_in_custody@ * nasset_to_withdraw_amount@ * dec_scale() < u256_bound()
            &&& to_withdraw <= basset_in_custody@
        },
    ensures
        basset_in_custody@ == 0 <==> r is Err,
        r is Err ==> r == Err::<WithdrawPlan, VaultError>(VaultError::Frozen),
        r matches Ok(plan) ==> {
            let to_withdraw = basset_to_withdraw_spec(
                basset_in_custody@ as int,
                nasset_to_withdraw_amount@ as int,
                nasset_token_supply@ as int,
            );
            &&& plan.basset_to_withdraw@ == to_withdraw
            &&& plan.new_basset_in_custody@ == basset_in_custody@ - to_withdraw
        },
{
    if basset_in_custody.is_zero() {
        //interesting case - user owns some nAsset, but bAsset balance is zero
        //no withdraw and deposits available when bAsset balance is zero
        return Err(VaultError::Frozen);
    }
    let basset_to_withdraw = basset_in_custody.mul(nasset_to_withdraw_amount).div_dec(
        Decimal256::from_uint256(nasset_token_supply),
    );
    // Amount of basset in custody we are going to have after rebalance
    let new_basset_in_custody = basset_in_custody.sub(basset_to_withdraw);
    Ok(WithdrawPlan { basset_to_withdraw, new_basset_in_custody })
}

/// Taking `amount` bAsset out of custody: unlock it at the overseer, then
/// withdraw it from the custody.
pub open spec fn unlock_messages(config: Config, amount: Uint256) -> Seq<SubMessage> {
    seq![
        plain_msg(
            config.anchor_overseer_contract,
            VaultMsg::UnlockCollateral { token: config.basset_token, amount },
            None,
        ),
        plain_msg(config.anchor_custody_basset_contract, VaultMsg::WithdrawCollateral { amount }, None),
    ]
}

/// Paying a withdrawal out: the bAsset to the farmer, then burning the nAsset.
pub open spec fn payout_messages(config: Config, farmer: String, basset: Uint256, nasset: Uint256) -> Seq<SubMessage> {
    seq![
        plain_msg(config.basset_token, VaultMsg::Transfer { recipient: farmer, amount: basset }, None),
        plain_msg(config.nasset_token, VaultMsg::Burn { amount: nasset }, None),
    ]
}

fn push_unlock(response: &mut Response, config: &Config, amount: Uint256)
    ensures
        final(response).messages@ == old(response).messages@ + unlock_messages(*config, amount),
        final(response).attributes == old(response).attributes,
{
    response.messages.push(
        plain(
            config.anchor_overseer_contract.clone(),
            VaultMsg::UnlockCollateral { token: config.basset_token.clone(), amount },
            None,
        ),
    );
    response.messages.push(
        plain(
            config.anchor_custody_basset_contract.clone(),
            VaultMsg::WithdrawCollateral { amount },
            None,
        ),
    );
    proof {
        assert(response.messages@ =~= old(response).messages@ + unlock_messages(*config, amount));
    }
}

/// The answer to a withdrawal, after the rebalance answer: take the
/// farmer's bAsset out of custody, pay the farmer, burn the nAsset.
pub fn withdraw_basset(
    config: &Config,
    farmer: &String,
    nasset_to_withdraw_amount: Uint256,
    plan: &WithdrawPlan,
    rebalance_response: Response,
) -> (r: Response)
    ensures
        r.messages@ == rebalance_response.messages@ + unlock_messages(*config, plan.basset_to_withdraw)
            + payout_messages(*config, *farmer, plan.basset_to_withdraw, nasset_to_withdraw_amount),
        r.attrs() == rebalance_response.attrs() + seq![
            ("action"@, "withdraw"@),
            ("nasset_amount"@, u256_decimal(nasset_to_withdraw_amount@)),
        ],
{
    let mut response = rebalance_response;
    let ghost start = response;
    // After rebalance basset in custody is either repayed
    // or withdrawed, which also does repay for the whole borrow,
    // so we can withdraw the farmer's share from custody
    push_unlock(&mut response, config, plan.basset_to_withdraw);
    let ghost middle = response.messages@;
    // 1. send basset to farmer
    // 2. burn nasset
    response.messages.push(
        plain(
            config.basset_token.clone(),
            VaultMsg::Transfer { recipient: farmer.clone(), amount: plan.basset_to_withdraw },
            None,
        ),
    );
    response.messages.push(
        plain(config.nasset_token.clone(), VaultMsg::Burn { amount: nasset_to_withdraw_amount }, None),
    );
    response.attributes.push(attr_str("action", "withdraw"));
    response.attributes.push(attr("nasset_amount", nasset_to_withdraw_amount.to_string()));
    proof {
        assert(response.messages@ =~= middle + payout_messages(
            *config,
            *farmer,
            plan.basset_to_withdraw,
            nasset_to_withdraw_amount,
        ));
        assert(response.attrs() =~= start.attrs() + seq![
            ("action"@, "withdraw"@),
            ("nasset_amount"@, u256_decimal(nasset_to_withdraw_amount@)),
        ]);
    }
    response
}


/// A governance hand-over waiting to be accepted.
#[derive(Clone, Debug, PartialEq, Eq)]
pub struct GovernanceUpdateState {
    pub new_governance_contract_addr: String,
    pub wait_approve_until: u64,
}

/// Proposes `gov_addr` (validated by the caller) as the new governance, to
/// be accepted within `seconds_to_wait_for_accept_gov_tx` of `current_time`.
pub fn update_governance_addr(
    gov_addr: String,
    current_time: u64,
    seconds_to_wait_for_accept_gov_tx: u64,
) -> (r: GovernanceUpdateState)
    requires
        current_time + seconds_to_wait_for_accept_gov_tx <= u64::MAX,
    ensures
        r.new_governance_contract_addr == gov_addr,
        r.wait_approve_until == current_time + seconds_to_wait_for_accept_gov_tx,
{
    GovernanceUpdateState {
        new_governance_contract_addr: gov_addr,
        wait_approve_until: current_time + seconds_to_wait_for_accept_gov_tx,
    }
}

/// The proposed governance takes over: refused once the deadline passed, or
/// when the sender is not the proposed address.
pub fn accept_governance(
    config: Config,
    gov_update: &GovernanceUpdateState,
    current_time: u64,
    sender: &String,
) -> (r: Result<(Config, Response), VaultError>)
    ensures
        gov_update.wait_approve_until < current_time ==> r == Err::<(Config, Response), VaultError>(
            VaultError::TooLateToAcceptGovernance,
        ),
        (gov_update.wait_approve_until >= current_time && sender@
            != gov_update.new_governance_contract_addr@) ==> r == Err::<
            (Config, Response),
            VaultError,
        >(VaultError::Unauthorized),
        (gov_update.wait_approve_until >= current_time && sender@
            == gov_update.new_governance_contract_addr@) ==> (r matches Ok((c, resp)) && c == (Config {
            governance_contract: gov_update.new_governance_contract_addr,
            ..config
        }) && resp.messages@.len() == 0 && resp.attrs() == seq![
            ("action"@, "change_governance_contract"@),
            ("new_address"@, gov_update.new_governance_contract_addr@),
        ]),
{
    if gov_update.wait_approve_until < current_time {
        return Err(VaultError::TooLateToAcceptGovernance);
    }
    if *sender != gov_update.new_governance_contract_addr {
        return Err(VaultError::Unauthorized);
    }
    let mut config = config;
    config.governance_contract = gov_update.new_governance_contract_addr.clone();
    let mut response = Response::new();
    response.attributes.push(attr_str("action", "change_governance_contract"));
    response.attributes.push(attr("new_address", gov_update.new_governance_contract_addr.clone()));
    proof {
        assert(response.attrs() =~= seq![
            ("action"@, "change_governance_contract"@),
            ("new_address"@, gov_update.new_governance_contract_addr@),
        ]);
    }
    Ok((config, response))
}

/// A loan repayment in progress, kept between the replies of its steps.
#[derive(Clone, Copy, Debug, PartialEq, Eq, Structural)]
pub struct RepayingLoanState {
    pub iteration_index: u8,
    pub repayed_something: bool,
    pub to_repay_amount: Uint256,
    pub repaying_amount: Uint256,
    pub aim_buffer_size: Uint256,
}

impl RepayingLoanState {
    /// A fresh repayment of `to_repay_amount`, keeping `aim_buffer_size`.
    pub fn start(to_repay_amount: Uint256, aim_buffer_size: Uint256) -> (r: RepayingLoanState)
        ensures
            r.iteration_index == 0,
            !r.repayed_something,
            r.to_repay_amount == to_repay_amount,
            r.repaying_amount@ == 0,
            r.aim_buffer_size == aim_buffer_size,
    {
        RepayingLoanState {
            iteration_index: 0,
            repayed_something: false,
            to_repay_amount,
            repaying_amount: Uint256::zero(),
            aim_buffer_size,
        }
    }
}

/// A repayment step succeeded: what it repaid leaves the amount to repay,
/// and the repayment has repaid something.
pub fn update_loan_state_part_of_loan_repaid(rep_loan: RepayingLoanState) -> (r: RepayingLoanState)
    requires
        rep_loan.repaying_amount@ <= rep_loan.to_repay_amount@,
    ensures
        r.to_repay_amount@ == rep_loan.to_repay_amount@ - rep_loan.repaying_amount@,
        r.repayed_something,
        r.iteration_index == rep_loan.iteration_index,
        r.repaying_amount == rep_loan.repaying_amount,
        r.aim_buffer_size == rep_loan.aim_buffer_size,
{
    let mut rep_loan = rep_loan;
    rep_loan.to_repay_amount = rep_loan.to_repay_amount.sub(rep_loan.repaying_amount);
    rep_loan.repayed_something = true;
    rep_loan
}

/// The next step of a repayment for the vault's balances: the step of
/// `get_repay_loan_action` (a first try at iteration zero), the state
/// remembering what it repays, and its messages.
pub fn repay_logic(
    config: &Config,
    repaying_loan_state: RepayingLoanState,
    stable_coin_balance: Uint256,
    aterra_balance: Uint256,
    aterra_exchange_rate: Decimal256,
    tax_info: &TaxInfo,
) -> (r: (RepayingLoanState, Response))
    requires
        repay_loan_action_ok(
            stable_coin_balance@ as int,
            aterra_balance@ as int,
            aterra_exchange_rate@ as int,
            repaying_loan_state.to_repay_amount@ as int,
            repaying_loan_state.aim_buffer_size@ as int,
            *tax_info,
            repaying_loan_state.iteration_index == 0,
        ),
    ensures
        exists|action: RepayLoanAction|
            {
                &&& action@ == repay_loan_action_spec(
                    stable_coin_balance@ as int,
                    aterra_balance@ as int,
                    aterra_exchange_rate@ as int,
                    repaying_loan_state.to_repay_amount@ as int,
                    repaying_loan_state.aim_buffer_size@ as int,
                    *tax_info,
                    repaying_loan_state.iteration_index == 0,
                )
                &&& r.1.messages@ == repay_messages(action, *config)
                &&& r.1.attrs() == crate::actions::repay_attributes(action)
                &&& r.0.repaying_amount@ == match action@ {
                    RepayPlan::RepayLoan { amount } => amount,
                    RepayPlan::RepayLoanAndSellAterra { repay_loan_amount, .. } => repay_loan_amount,
                    _ => 0,
                }
            },
        r.0.iteration_index == repaying_loan_state.iteration_index,
        r.0.repayed_something == repaying_loan_state.repayed_something,
        r.0.to_repay_amount == repaying_loan_state.to_repay_amount,
        r.0.aim_buffer_size == repaying_loan_state.aim_buffer_size,
{
    let repay_action = get_repay_loan_action(
        stable_coin_balance,
        aterra_balance,
        aterra_exchange_rate,
        repaying_loan_state.to_repay_amount,
        repaying_loan_state.aim_buffer_size,
        tax_info,
        repaying_loan_state.iteration_index == 0,
    );
    let mut state = repaying_loan_state;
    state.repaying_amount = repay_action.repaying_loan_amount();
    (state, repay_action.to_response(config))
}

/// What follows a reply to a repayment step.
#[derive(Clone, Copy, Debug, PartialEq, Eq, Structural)]
pub enum RepayIteration {
    /// The repayment is over.
    Done,
    /// Take another step with this state.
    Continue(RepayingLoanState),
}

/// What a step's reply leads to: the iteration count goes up; at
/// `max_depth` the repayment ends, refused when it repaid nothing; before
/// that it continues.
pub open spec fn repay_reply(s: RepayingLoanState, max_depth: u8) -> Result<RepayIteration, VaultError> {
    if s.iteration_index + 1 >= max_depth {
        if s.repayed_something {
            Ok(RepayIteration::Done)
        } else {
            Err(VaultError::FailToRepayLoan)
        }
    } else {
        Ok(RepayIteration::Continue(RepayingLoanState { iteration_index: (s.iteration_index + 1) as u8, ..s }))
    }
}

/// A repayment ends within `max_depth` replies. Take the states it is in at
/// successive replies, where each reply but the last continued, and the
/// steps between two replies (`repay_logic`,
/// `update_loan_state_part_of_loan_repaid`) kept the iteration index it
/// continued with. Starting from index `i0 < max_depth`, the `j`-th of them
/// has index `i0 + j`, there are at most `max_depth - i0` of them, and once
/// there are that many the last reply ends the repayment (done, or refused
/// when nothing was repaid).
pub proof fn lemma_repayment_ends(states: Seq<RepayingLoanState>, max_depth: u8)
    requires
        states.len() >= 1,
        states[0].iteration_index < max_depth,
        forall|j: int|
            0 <= j < states.len() - 1 ==> (#[trigger] repay_reply(states[j], max_depth) matches Ok(
                RepayIteration::Continue(next),
            ) && next.iteration_index == states[j + 1].iteration_index),
    ensures
        forall|j: int| 0 <= j < states.len() ==> #[trigger] states[j].iteration_index == states[0].iteration_index + j,
        states.len() <= max_depth - states[0].iteration_index,
        states.len() == max_depth - states[0].iteration_index ==> !(repay_reply(
            states[states.len() - 1],
            max_depth,
        ) is Ok && repay_reply(states[states.len() - 1], max_depth)->Ok_0 is Continue),
    decreases states.len(),
{
    if states.len() > 1 {
        let rest = states.drop_last();
        assert forall|j: int| 0 <= j < rest.len() - 1 implies (#[trigger] repay_reply(rest[j], max_depth) matches Ok(
            RepayIteration::Continue(next),
        ) && next.iteration_index == rest[j + 1].iteration_index) by {
            assert(repay_reply(states[j], max_depth) matches Ok(RepayIteration::Continue(next))
                && next.iteration_index == states[j + 1].iteration_index);
        }
        lemma_repayment_ends(rest, max_depth);
        let k = states.len() - 2;
        assert(rest[k] == states[k]);
        assert(repay_reply(states[k], max_depth) matches Ok(RepayIteration::Continue(next))
            && next.iteration_index == states[k + 1].iteration_index);
        assert forall|j: int| 0 <= j < states.len() implies #[trigger] states[j].iteration_index
            == states[0].iteration_index + j by {
            if j < states.len() - 1 {
                assert(rest[j] == states[j]);
            }
        }
    }
}

/// After a step's reply: see `repay_reply`.
pub fn repay_logic_on_reply(repaying_loan_state: RepayingLoanState, max_depth: u8) -> (r: Result<
    RepayIteration,
    VaultError,
>)
    requires
        repaying_loan_state.iteration_index < 255,
    ensures
        repaying_loan_state.iteration_index + 1 >= max_depth ==> r == if repaying_loan_state.repayed_something {
            Ok::<RepayIteration, VaultError>(RepayIteration::Done)
        } else {
            Err::<RepayIteration, VaultError>(VaultError::FailToRepayLoan)
        },
        repaying_loan_state.iteration_index + 1 < max_depth ==> r == Ok::<RepayIteration, VaultError>(
            RepayIteration::Continue(
                RepayingLoanState {
                    iteration_index: (repaying_loan_state.iteration_index + 1) as u8,
                    ..repaying_loan_state
                },
            ),
        ),
        r == repay_reply(repaying_loan_state, max_depth),
{
    let mut state = repaying_loan_state;
    state.iteration_index = state.iteration_index + 1;
    if state.iteration_index >= max_depth {
        if state.repayed_something {
            return Ok(RepayIteration::Done);
        } else {
            return Err(VaultError::FailToRepayLoan);
        }
    }
    Ok(RepayIteration::Continue(state))
}

/// What to do on the reply to a redemption of aTerra for a repayment.
#[derive(Clone, Copy, Debug, PartialEq, Eq, Structural)]
pub enum RedeemReply {
    /// Take the next repayment step.
    NextRepayStep,
}

/// The text of an error, in lower case.
pub uninterp spec fn lowercase(s: Seq<char>) -> Seq<char>;

/// `str::to_lowercase`: a function of the text alone; the lower-case text is
/// not stated here.
#[verifier::external_body]
fn ext_to_lowercase(s: &str) -> (r: String)
    ensures
        r@ == lowercase(s@),
{
    s.to_lowercase()
}

/// `needle` occurs in `haystack`.
pub open spec fn contains_spec(haystack: Seq<char>, needle: Seq<char>) -> bool {
    exists|i: int|
        0 <= i && i + needle.len() <= haystack.len() && #[trigger] haystack.subrange(
            i,
            i + needle.len(),
        ) == needle
}

/// Whether `needle` occurs in `haystack`.
pub fn str_contains(haystack: &str, needle: &str) -> (r: bool)
    ensures
        r == contains_spec(haystack@, needle@),
{
    let n = haystack.unicode_len();
    let m = needle.unicode_len();
    if m > n {
        return false;
    }
    let mut i: usize = 0;
    while i <= n - m
        invariant
            n == haystack@.len(),
            m == needle@.len(),
            m <= n,
            i <= n - m + 1,
            forall|k: int| 0 <= k < i ==> #[trigger] haystack@.subrange(k, k + m) != needle@,
        decreases n - m + 1 - i,
    {
        let mut j: usize = 0;
        let mut matched = true;
        let ghost mut mismatch: int = 0;
        while j < m && matched
            invariant
                n == haystack@.len(),
                m == needle@.len(),
                i + m <= n,
                j <= m,
                matched ==> forall|t: int| 0 <= t < j ==> haystack@[i + t] == needle@[t],
                !matched ==> 0 <= mismatch < m && haystack@[i + mismatch] != needle@[mismatch],
            decreases m - j + (if matched { 1int } else { 0int }),
        {
            if haystack.get_char(i + j) != needle.get_char(j) {
                proof {
                    mismatch = j as int;
                }
                matched = false;
            } else {
                j = j + 1;
            }
        }
        if matched {
            assert(haystack@.subrange(i as int, i + m) =~= needle@);
            return true;
        }
        assert(haystack@.subrange(i as int, i + m)[mismatch] != needle@[mismatch]);
        i = i + 1;
    }
    assert forall|k: int| 0 <= k && k + needle@.len() <= haystack@.len() implies #[trigger] haystack@.subrange(
        k,
        k + needle@.len(),
    ) != needle@ by {
        assert(0 <= k < i);
    }
    false
}

/// The reply to a redemption during a repayment: on success, or when Anchor
/// refused because of the borrow demand (the loan must be repaid a bit
/// first), the repayment goes on; any other refusal is reported.
pub fn redeem_stable_on_repay_loan_reply(result: Result<(), String>) -> (r: Result<
    RedeemReply,
    VaultError,
>)
    ensures
        result is Ok ==> r == Ok::<RedeemReply, VaultError>(RedeemReply::NextRepayStep),
        result matches Err(msg) ==> if contains_spec(lowercase(msg@), TOO_HIGH_BORROW_DEMAND_ERR_MSG@) {
            r == Ok::<RedeemReply, VaultError>(RedeemReply::NextRepayStep)
        } else {
            r == Err::<RedeemReply, VaultError>(VaultError::FailToRedeemStables { reason: msg })
        },
{
    match result {
        Ok(()) => Ok(RedeemReply::NextRepayStep),
        Err(err_msg) => {
            let lower = ext_to_lowercase(err_msg.as_str());
            if str_contains(lower.as_str(), TOO_HIGH_BORROW_DEMAND_ERR_MSG) {
                //we need to repay loan a bit, before redeem stables
                Ok(RedeemReply::NextRepayStep)
            } else {
                Err(VaultError::FailToRedeemStables { reason: err_msg })
            }
        },
    }
}


/// Borrowing `borrow_amount` stables from Anchor, with a reply on success
/// (the stables above the buffer are then deposited).
pub fn borrow_logic(config: &Config, borrow_amount: Uint256, aim_buffer_size: Uint256) -> (r: Response)
    ensures
        r.messages@ == seq![
            reply_msg(
                SubmsgIds::Borrowing,
                ReplyOn::Success,
                config.anchor_market_contract,
                VaultMsg::AnchorBorrowStable { borrow_amount },
                None,
            ),
        ],
        r.attrs() == seq![
            ("action"@, "borrow_stable"@),
            ("amount"@, u256_decimal(borrow_amount@)),
            ("aim_buffer_size"@, u256_decimal(aim_buffer_size@)),
        ],
{
    let mut response = Response::new();
    response.messages.push(
        with_reply(
            SubmsgIds::Borrowing,
            ReplyOn::Success,
            config.anchor_market_contract.clone(),
            VaultMsg::AnchorBorrowStable { borrow_amount },
            None,
        ),
    );
    response.attributes.push(attr_str("action", "borrow_stable"));
    response.attributes.push(attr("amount", borrow_amount.to_string()));
    response.attributes.push(attr("aim_buffer_size", aim_buffer_size.to_string()));
    proof {
        assert(response.attrs() =~= seq![
            ("action"@, "borrow_stable"@),
            ("amount"@, u256_decimal(borrow_amount@)),
            ("aim_buffer_size"@, u256_decimal(aim_buffer_size@)),
        ]);
    }
    response
}

/// The reply to a borrow: deposit the stables above the aimed buffer.
pub fn borrow_logic_on_reply(
    config: &Config,
    stable_coin_balance: Uint256,
    aim_buf_size: Uint256,
    tax_info: &TaxInfo,
) -> (r: Response)
    requires
        aim_buf_size@ < stable_coin_balance@ ==> tax_info.can_subtract(
            stable_coin_balance@ - aim_buf_size@,
        ),
    ensures
        aim_buf_size@ >= stable_coin_balance@ ==> r.messages@.len() == 0 && r.attrs().len() == 0,
        aim_buf_size@ < stable_coin_balance@ ==> exists|amount: Uint256|
            amount@ == tax_info.subtracted(stable_coin_balance@ - aim_buf_size@) && r.messages@
                == seq![
                plain_msg(
                    config.anchor_market_contract,
                    VaultMsg::AnchorDepositStable,
                    stable_coin(*config, amount),
                ),
            ] && r.attrs() == seq![("action"@, "deposit"@), ("amount"@, u256_decimal(amount@))],
{
    let after_borrow_action = calc_after_borrow_action(stable_coin_balance, aim_buf_size, tax_info);
    after_borrow_action.to_response(config)
}

/// Locking `amount` bAsset as collateral: send it to the custody, then lock
/// it at the overseer.
pub open spec fn lock_messages(config: Config, amount: Uint256) -> Seq<SubMessage> {
    seq![
        plain_msg(
            config.basset_token,
            VaultMsg::DepositCollateral { custody: config.anchor_custody_basset_contract, amount },
            None,
        ),
        plain_msg(
            config.anchor_overseer_contract,
            VaultMsg::LockCollateral { token: config.basset_token, amount },
            None,
        ),
    ]
}

/// A deposit of collateral ahead of the action that follows it: the lock
/// messages come first, then the messages of that action.
pub fn deposit_logic(config: &Config, deposit_amount: Uint256, action_after_response: Response) -> (r:
    Response)
    ensures
        r.messages@ == lock_messages(*config, deposit_amount) + action_after_response.messages@,
        r.attrs() == action_after_response.attrs() + seq![
            ("deposited_amount"@, u256_decimal(deposit_amount@)),
        ],
{
    let mut messages = Vec::new();
    messages.push(
        plain(
            config.basset_token.clone(),
            VaultMsg::DepositCollateral {
                custody: config.anchor_custody_basset_contract.clone(),
                amount: deposit_amount,
            },
            None,
        ),
    );
    messages.push(
        plain(
            config.anchor_overseer_contract.clone(),
            VaultMsg::LockCollateral { token: config.basset_token.clone(), amount: deposit_amount },
            None,
        ),
    );
    let ghost lock = messages@;
    let mut response = action_after_response;
    let ghost before = response;
    let mut rest = Vec::new();
    std::mem::swap(&mut rest, &mut response.messages);
    messages.append(&mut rest);
    response.messages = messages;
    response.attributes.push(attr("deposited_amount", deposit_amount.to_string()));
    proof {
        assert(lock =~= lock_messages(*config, deposit_amount));
        assert(response.attrs() =~= before.attrs() + seq![
            ("deposited_amount"@, u256_decimal(deposit_amount@)),
        ]);
    }
    response
}

/// Leaving Anchor: after the repayment of the whole loan, unlock and
/// withdraw `withdraw_amount` bAsset (nothing to unlock when it is zero).
pub open spec fn withdraw_all_messages(config: Config, withdraw_amount: Uint256) -> Seq<SubMessage> {
    if withdraw_amount@ == 0 {
        Seq::empty()
    } else {
        unlock_messages(config, withdraw_amount)
    }
}

/// Leaving Anchor: after the repayment of the whole loan, unlock and
/// withdraw `withdraw_amount` bAsset (see `withdraw_all_messages`).
pub fn withdraw_all_logic(config: &Config, withdraw_amount: Uint256, repay_response: Response) -> (r:
    Response)
    ensures
        r.messages@ == repay_response.messages@ + withdraw_all_messages(*config, withdraw_amount),
        r.attrs() == repay_response.attrs() + seq![
            ("action"@, "withdraw_all"@),
            ("amount"@, u256_decimal(withdraw_amount@)),
        ],
{
    let mut response = repay_response;
    let ghost before = response;
    if !withdraw_amount.is_zero() {
        push_unlock(&mut response, config, withdraw_amount);
    } else {
        assert(response.messages@ =~= before.messages@ + withdraw_all_messages(*config, withdraw_amount));
    }
    response.attributes.push(attr_str("action", "withdraw_all"));
    response.attributes.push(attr("amount", withdraw_amount.to_string()));
    proof {
        assert(response.attrs() =~= before.attrs() + seq![
            ("action"@, "withdraw_all"@),
            ("amount"@, u256_decimal(withdraw_amount@)),
        ]);
    }
    response
}

/// The answer when the strategy advises nothing.
pub fn rebalance_not_needed() -> (r: Response)
    ensures
        r.messages@.len() == 0,
        r.attrs() == seq![("action"@, "rebalance_not_needed"@)],
{
    let mut response = Response::new();
    response.attributes.push(attr_str("action", "rebalance_not_needed"));
    proof {
        assert(response.attrs() =~= seq![("action"@, "rebalance_not_needed"@)]);
    }
    response
}

/// Claiming the rewards that are worth it: ANC rewards (then swapping them),
/// and bAsset holding rewards while no bAsset is in custody.
pub fn claim_rewards(
    config: &Config,
    contract_address: &String,
    anc_pending_rewards: Decimal256,
    basset_in_custody: Uint256,
    holding_pending_rewards: Decimal256,
    min_holding_rewards_to_claim: u64,
) -> (r: Response)
    ensures
        ({
            let anc = anc_pending_rewards@ >= crate::actions::MIN_ANC_REWARDS_TO_CLAIM * dec_scale();
            let holding = basset_in_custody@ == 0 && holding_pending_rewards@
                >= min_holding_rewards_to_claim * dec_scale();
            let anc_msgs = if anc {
                seq![
                    plain_msg(config.anchor_market_contract, VaultMsg::AnchorClaimRewards, None),
                    plain_msg(*contract_address, VaultMsg::SwapAncYourself, None),
                ]
            } else {
                Seq::<SubMessage>::empty()
            };
            let holding_msgs = if holding {
                seq![
                    reply_msg(
                        SubmsgIds::HoldingReward,
                        ReplyOn::Success,
                        config.anchor_basset_reward_contract,
                        VaultMsg::ClaimHoldingRewards,
                        None,
                    ),
                ]
            } else {
                Seq::<SubMessage>::empty()
            };
            let anc_attrs = if anc {
                seq![("action"@, "claim_anc_reward"@)]
            } else {
                Seq::<(Seq<char>, Seq<char>)>::empty()
            };
            let holding_attrs = if holding {
                seq![("action"@, "claim_holding_reward"@)]
            } else {
                Seq::<(Seq<char>, Seq<char>)>::empty()
            };
            &&& r.messages@ == anc_msgs + holding_msgs
            &&& r.attrs() == anc_attrs + holding_attrs
        }),
{
    let mut response = Response::new();
    let anc = is_anc_rewards_claimable(anc_pending_rewards);
    if anc {
        response.messages.push(
            plain(config.anchor_market_contract.clone(), VaultMsg::AnchorClaimRewards, None),
        );
        response.messages.push(plain(contract_address.clone(), VaultMsg::SwapAncYourself, None));
        response.attributes.push(attr_str("action", "claim_anc_reward"));
    }
    let ghost mid = response;
    // When we are holding
    if basset_in_custody.is_zero() && is_holding_rewards_claimable(
        holding_pending_rewards,
        min_holding_rewards_to_claim,
    ) {
        response.messages.push(
            with_reply(
                SubmsgIds::HoldingReward,
                ReplyOn::Success,
                config.anchor_basset_reward_contract.clone(),
                VaultMsg::ClaimHoldingRewards,
                None,
            ),
        );
        response.attributes.push(attr_str("action", "claim_holding_reward"));
    }
    proof {
        assert(mid.attrs() =~= if anc {
            seq![("action"@, "claim_anc_reward"@)]
        } else {
            Seq::<(Seq<char>, Seq<char>)>::empty()
        });
        assert(response.attrs() =~= mid.attrs() + if basset_in_custody@ == 0
            && holding_pending_rewards@ >= min_holding_rewards_to_claim * dec_scale() {
            seq![("action"@, "claim_holding_reward"@)]
        } else {
            Seq::<(Seq<char>, Seq<char>)>::empty()
        });
    }
    response
}

/// Swapping all `anc_amount` ANC for stables, then distributing the profit;
/// refused when there is no ANC.
pub fn swap_anc(config: &Config, contract_address: &String, anc_amount: Uint256) -> (r: Result<
    Response,
    VaultError,
>)
    ensures
        anc_amount@ == 0 ==> r == Err::<Response, VaultError>(VaultError::AncAmountIsZero),
        anc_amount@ != 0 ==> (r matches Ok(resp) && resp.messages@ == seq![
            plain_msg(
                config.anchor_token,
                VaultMsg::SwapAnc { pair: config.anc_stable_swap_contract, amount: anc_amount },
                None,
            ),
            plain_msg(*contract_address, VaultMsg::DistributeRewardsYourself, None),
        ] && resp.attrs() == seq![
            ("action"@, "swap_anc"@),
            ("anc_swapped"@, u256_decimal(anc_amount@)),
        ]),
{
    if anc_amount.is_zero() {
        return Err(VaultError::AncAmountIsZero);
    }
    let mut response = Response::new();
    response.messages.push(
        plain(
            config.anchor_token.clone(),
            VaultMsg::SwapAnc { pair: config.anc_stable_swap_contract.clone(), amount: anc_amount },
            None,
        ),
    );
    response.messages.push(plain(contract_address.clone(), VaultMsg::DistributeRewardsYourself, None));
    response.attributes.push(attr_str("action", "swap_anc"));
    response.attributes.push(attr("anc_swapped", anc_amount.to_string()));
    proof {
        assert(response.attrs() =~= seq![
            ("action"@, "swap_anc"@),
            ("anc_swapped"@, u256_decimal(anc_amount@)),
        ]);
    }
    Ok(response)
}

/// Whether the distribution of rewards can be computed without overflow
/// (the precondition of `distribute_rewards`).
pub fn rewards_computable(
    config: &Config,
    borrowed_amount: Uint256,
    aterra_balance: Uint256,
    aterra_exchange_rate: Decimal256,
    stable_coin_balance: Uint256,
    tax_info: &TaxInfo,
) -> (r: bool)
    ensures
        r == {
            &&& aterra_balance@ * aterra_exchange_rate@ < u256_bound()
            &&& crate::math::mul_dec_spec(aterra_balance@ as int, aterra_exchange_rate@ as int)
                + stable_coin_balance@ < u256_bound()
            &&& borrowed_amount@ * config.over_loan_balance_value@ < u256_bound()
            &&& crate::actions::plan_taxable(
                rewards_plan_spec(
                    borrowed_amount@ as int,
                    aterra_balance@ as int,
                    aterra_exchange_rate@ as int,
                    stable_coin_balance@ as int,
                    config.over_loan_balance_value@ as int,
                ),
                *tax_info,
            )
        },
{
    if !aterra_balance.fits_mul(&aterra_exchange_rate.atomics()) {
        return false;
    }
    if !aterra_balance.mul_dec(aterra_exchange_rate).fits_add(&stable_coin_balance) {
        return false;
    }
    if !borrowed_amount.fits_mul(&config.over_loan_balance_value.atomics()) {
        return false;
    }
    match rewards_to_distribute(
        borrowed_amount,
        aterra_balance,
        aterra_exchange_rate,
        stable_coin_balance,
        config.over_loan_balance_value,
    ) {
        ActionWithProfit::BuyPsi { amount } => tax_info.subtract_computable(amount),
        _ => true,
    }
}

/// Distributing the rewards after the ANC sale: what is handed out
/// (`rewards_to_distribute`) and the messages doing it.
pub fn distribute_rewards(
    config: &Config,
    borrowed_amount: Uint256,
    aterra_balance: Uint256,
    aterra_exchange_rate: Decimal256,
    stable_coin_balance: Uint256,
    tax_info: &TaxInfo,
) -> (r: (ActionWithProfit, Response))
    requires
        aterra_balance@ * aterra_exchange_rate@ < u256_bound(),
        crate::math::mul_dec_spec(aterra_balance@ as int, aterra_exchange_rate@ as int)
            + stable_coin_balance@ < u256_bound(),
        borrowed_amount@ * config.over_loan_balance_value@ < u256_bound(),
        crate::actions::plan_taxable(
            rewards_plan_spec(
                borrowed_amount@ as int,
                aterra_balance@ as int,
                aterra_exchange_rate@ as int,
                stable_coin_balance@ as int,
                config.over_loan_balance_value@ as int,
            ),
            *tax_info,
        ),
    ensures
        r.0@ == rewards_plan_spec(
            borrowed_amount@ as int,
            aterra_balance@ as int,
            aterra_exchange_rate@ as int,
            stable_coin_balance@ as int,
            config.over_loan_balance_value@ as int,
        ),
        exists|deposit: Uint256, buy: Uint256|
            {
                &&& deposit@ == 0
                &&& buy@ == match r.0 {
                    ActionWithProfit::BuyPsi { amount } => tax_info.subtracted(amount@ as int),
                    _ => 0,
                }
                &&& r.1.messages@ == crate::actions::profit_messages(r.0, *config, deposit, buy)
                &&& r.1.attrs() == crate::actions::profit_attributes(r.0, deposit, buy)
            },
{
    let action_with_profit = rewards_to_distribute(
        borrowed_amount,
        aterra_balance,
        aterra_exchange_rate,
        stable_coin_balance,
        config.over_loan_balance_value,
    );
    let response = action_with_profit.to_response(config, tax_info);
    (action_with_profit, response)
}


/// Swapping the remaining `amount` stables (less tax) for PSI that goes
/// straight to the governance contract.
pub open spec fn remainder_swap_message(config: Config, amount: Uint256) -> SubMessage {
    plain_msg(
        config.psi_stable_swap_contract,
        VaultMsg::SwapStable {
            offer_denom: config.stable_denom,
            offer_amount: amount,
            to: config.governance_contract,
        },
        stable_coin(config, amount),
    )
}

/// Spending all stables left once no bAsset is deposited: they buy PSI for
/// the governance contract (there is no nAsset holder to reward).  Nothing is
/// sent when there are no stables.
pub fn buy_psi_on_remainded_stable_coins(
    config: &Config,
    stable_coin_balance: Uint256,
    tax_info: &TaxInfo,
) -> (r: Response)
    requires
        tax_info.can_subtract(stable_coin_balance@ as int),
    ensures
        stable_coin_balance@ == 0 ==> r.messages@.len() == 0 && r.attrs().len() == 0,
        stable_coin_balance@ != 0 ==> exists|amount: Uint256|
            {
                &&& amount@ == tax_info.subtracted(stable_coin_balance@ as int)
                &&& r.messages@ == seq![remainder_swap_message(*config, amount)]
                &&& r.attrs() == seq![
                    ("action"@, "distribute_remainded_rewards"@),
                    ("bying_psi"@, u256_decimal(amount@)),
                ]
            },
{
    let mut response = Response::new();
    if stable_coin_balance.is_zero() {
        return response;
    }
    let stable_coin_to_buy_psi = tax_info.subtract_tax(stable_coin_balance);
    response.messages.push(
        plain(
            config.psi_stable_swap_contract.clone(),
            VaultMsg::SwapStable {
                offer_denom: config.stable_denom.clone(),
                offer_amount: stable_coin_to_buy_psi,
                to: config.governance_contract.clone(),
            },
            Some(Coin { denom: config.stable_denom.clone(), amount: stable_coin_to_buy_psi }),
        ),
    );
    response.attributes.push(attr_str("action", "distribute_remainded_rewards"));
    response.attributes.push(attr("bying_psi", stable_coin_to_buy_psi.to_string()));
    proof {
        assert(response.messages@ =~= seq![remainder_swap_message(*config, stable_coin_to_buy_psi)]);
        assert(response.attrs() =~= seq![
            ("action"@, "distribute_remainded_rewards"@),
            ("bying_psi"@, u256_decimal(stable_coin_to_buy_psi@)),
        ]);
    }
    response
}

/// Claiming what is left once the loan is repaid: refused while a loan is
/// outstanding; with aTerra left, it is redeemed first (the reply then buys
/// PSI); with no aTerra, the stables buy PSI right away.
pub fn claim_remainded_stables(
    config: &Config,
    loan_amount: Uint256,
    aterra_balance: Uint256,
    stable_coin_balance: Uint256,
    tax_info: &TaxInfo,
) -> (r: Result<Response, VaultError>)
    requires
        loan_amount@ == 0 && aterra_balance@ == 0 ==> tax_info.can_subtract(
            stable_coin_balance@ as int,
        ),
    ensures
        loan_amount@ != 0 ==> r == Err::<Response, VaultError>(
            VaultError::LoanNotRepaid { loan: loan_amount },
        ),
        loan_amount@ == 0 && aterra_balance@ != 0 ==> (r matches Ok(resp) && resp.messages@ == seq![
            reply_msg(
                SubmsgIds::RedeemStableOnRemainder,
                ReplyOn::Always,
                config.aterra_token,
                VaultMsg::RedeemStable { market: config.anchor_market_contract, amount: aterra_balance },
                None,
            ),
        ] && resp.attrs() == seq![
            ("action"@, "distribute_remainded_rewards"@),
            ("selling_aterra"@, u256_decimal(aterra_balance@)),
        ]),
        loan_amount@ == 0 && aterra_balance@ == 0 ==> (r matches Ok(resp) && (stable_coin_balance@
            == 0 ==> resp.messages@.len() == 0 && resp.attrs().len() == 0) && (stable_coin_balance@
            != 0 ==> exists|amount: Uint256|
            {
                &&& amount@ == tax_info.subtracted(stable_coin_balance@ as int)
                &&& resp.messages@ == seq![remainder_swap_message(*config, amount)]
                &&& resp.attrs() == seq![
                    ("action"@, "distribute_remainded_rewards"@),
                    ("bying_psi"@, u256_decimal(amount@)),
                ]
            })),
{
    if !loan_amount.is_zero() {
        return Err(VaultError::LoanNotRepaid { loan: loan_amount });
    }
    if aterra_balance.is_zero() {
        return Ok(buy_psi_on_remainded_stable_coins(config, stable_coin_balance, tax_info));
    }
    //Always because Anchor can block withdrawing
    //if there are too many borrowers
    let mut response = Response::new();
    response.messages.push(
        with_reply(
            SubmsgIds::RedeemStableOnRemainder,
            ReplyOn::Always,
            config.aterra_token.clone(),
            VaultMsg::RedeemStable {
                market: config.anchor_market_contract.clone(),
                amount: aterra_balance,
            },
            None,
        ),
    );
    response.attributes.push(attr_str("action", "distribute_remainded_rewards"));
    response.attributes.push(attr("selling_aterra", aterra_balance.to_string()));
    proof {
        assert(response.attrs() =~= seq![
            ("action"@, "distribute_remainded_rewards"@),
            ("selling_aterra"@, u256_decimal(aterra_balance@)),
        ]);
    }
    Ok(response)
}

/// The reply to a claim of bAsset holding rewards (paid in stables): all
/// stables on the balance buy PSI for the distributor.
pub fn holding_reward_logic_on_reply(
    config: &Config,
    stable_coin_balance: Uint256,
    tax_info: &TaxInfo,
) -> (r: Response)
    requires
        tax_info.can_subtract(stable_coin_balance@ as int),
    ensures
        exists|buy: Uint256|
            {
                &&& buy@ == tax_info.subtracted(stable_coin_balance@ as int)
                &&& r.messages@ == crate::actions::buy_psi_messages(*config, buy)
                &&& r.attrs() == seq![
                    ("action"@, "distribute_rewards"@),
                    ("bying_psi"@, u256_decimal(buy@)),
                ]
            },
{
    let action = ActionWithProfit::BuyPsi { amount: stable_coin_balance };
    action.to_response(config, tax_info)
}

/// The settings governance changed: each given value replaces the current
/// one (addresses already validated), the others stay.
pub fn update_config(
    current_config: Config,
    psi_distributor_addr: Option<String>,
    anchor_overseer_contract_addr: Option<String>,
    anchor_market_contract_addr: Option<String>,
    anchor_custody_basset_contract_addr: Option<String>,
    anchor_basset_reward_addr: Option<String>,
    anc_stable_swap_contract_addr: Option<String>,
    psi_stable_swap_contract_addr: Option<String>,
    basset_vault_strategy_contract_addr: Option<String>,
    claiming_rewards_delay: Option<u64>,
    over_loan_balance_value: Option<Decimal256>,
) -> (r: Config)
    ensures
        r.psi_distributor == psi_distributor_addr.unwrap_or(current_config.psi_distributor),
        r.anchor_overseer_contract == anchor_overseer_contract_addr.unwrap_or(
            current_config.anchor_overseer_contract,
        ),
        r.anchor_market_contract == anchor_market_contract_addr.unwrap_or(
            current_config.anchor_market_contract,
        ),
        r.anchor_custody_basset_contract == anchor_custody_basset_contract_addr.unwrap_or(
            current_config.anchor_custody_basset_contract,
        ),
        r.anchor_basset_reward_contract == anchor_basset_reward_addr.unwrap_or(
            current_config.anchor_basset_reward_contract,
        ),
        r.anc_stable_swap_contract == anc_stable_swap_contract_addr.unwrap_or(
            current_config.anc_stable_swap_contract,
        ),
        r.psi_stable_swap_contract == psi_stable_swap_contract_addr.unwrap_or(
            current_config.psi_stable_swap_contract,
        ),
        r.basset_vault_strategy_contract == basset_vault_strategy_contract_addr.unwrap_or(
            current_config.basset_vault_strategy_contract,
        ),
        r.claiming_rewards_delay == claiming_rewards_delay.unwrap_or(
            current_config.claiming_rewards_delay,
        ),
        r.over_loan_balance_value == over_loan_balance_value.unwrap_or(
            current_config.over_loan_balance_value,
        ),
        r.governance_contract == current_config.governance_contract,
        r.anchor_token == current_config.anchor_token,
        r.basset_token == current_config.basset_token,
        r.aterra_token == current_config.aterra_token,
        r.psi_token == current_config.psi_token,
        r.stable_denom == current_config.stable_denom,
        r.nasset_token == current_config.nasset_token,
{
    let mut current_config = current_config;
    if let Some(a) = psi_distributor_addr {
        current_config.psi_distributor = a;
    }
    if let Some(a) = anchor_overseer_contract_addr {
        current_config.anchor_overseer_contract = a;
    }
    if let Some(a) = anchor_market_contract_addr {
        current_config.anchor_market_contract = a;
    }
    if let Some(a) = anchor_custody_basset_contract_addr {
        current_config.anchor_custody_basset_contract = a;
    }
    if let Some(a) = anchor_basset_reward_addr {
        current_config.anchor_basset_reward_contract = a;
    }
    if let Some(a) = anc_stable_swap_contract_addr {
        current_config.anc_stable_swap_contract = a;
    }
    if let Some(a) = psi_stable_swap_contract_addr {
        current_config.psi_stable_swap_contract = a;
    }
    if let Some(a) = basset_vault_strategy_contract_addr {
        current_config.basset_vault_strategy_contract = a;
    }
    if let Some(d) = claiming_rewards_delay {
        current_config.claiming_rewards_delay = d;
    }
    if let Some(v) = over_loan_balance_value {
        current_config.over_loan_balance_value = v;
    }
    current_config
}


/// Reply identifiers tell the sub-message kinds apart: each kind has its own
/// identifier, all of them at most 9, so `try_from` gives back the kind that
/// `id` was taken from.
pub proof fn lemma_submsg_ids_distinct(a: SubmsgIds, b: SubmsgIds)
    ensures
        submsg_id_spec(a) <= 9,
        submsg_id_spec(a) == submsg_id_spec(b) ==> a == b,
{
}

/// Scaling both sides of a division by the decimal scale changes nothing.
proof fn lemma_div_scaled(a: int, b: int)
    requires
        a >= 0,
        b > 0,
    ensures
        a * dec_scale() / (b * dec_scale()) == a / b,
{
    vstd::arithmetic::div_mod::lemma_div_denominator(a * dec_scale(), dec_scale(), b);
    vstd::arithmetic::mul::lemma_mul_is_commutative(a, dec_scale());
    vstd::arithmetic::div_mod::lemma_div_multiples_vanish(a, dec_scale());
    vstd::arithmetic::mul::lemma_mul_is_commutative(b, dec_scale());
}

/// Redeeming the whole nAsset supply returns all bAsset in custody, and
/// redeeming part of it never returns more than that.
pub proof fn lemma_withdraw_within_holdings(total_basset: int, nasset_amount: int, nasset_supply: int)
    requires
        total_basset >= 0,
        0 <= nasset_amount <= nasset_supply,
        nasset_supply > 0,
    ensures
        basset_to_withdraw_spec(total_basset, nasset_supply, nasset_supply) == total_basset,
        basset_to_withdraw_spec(total_basset, nasset_amount, nasset_supply) <= total_basset,
{
    lemma_div_scaled(total_basset * nasset_amount, nasset_supply);
    lemma_div_scaled(total_basset * nasset_supply, nasset_supply);
    vstd::arithmetic::mul::lemma_mul_nonnegative(total_basset, nasset_amount);
    vstd::arithmetic::div_mod::lemma_div_by_multiple(total_basset, nasset_supply);
    vstd::arithmetic::mul::lemma_mul_inequality(nasset_amount, nasset_supply, total_basset);
    vstd::arithmetic::mul::lemma_mul_is_commutative(nasset_amount, total_basset);
    vstd::arithmetic::mul::lemma_mul_is_commutative(nasset_supply, total_basset);
    vstd::arithmetic::div_mod::lemma_div_is_ordered(
        total_basset * nasset_amount,
        total_basset * nasset_supply,
        nasset_supply,
    );
}

/// A depositor never gets more than their share: the nAsset minted for
/// `deposited` of `basset_balance` bAsset (after the deposit) is at most the
/// deposit's share of the supply after minting, so redeeming it at once
/// returns at most the deposit.
pub proof fn lemma_deposit_share_fair(nasset_supply: int, deposited: int, basset_balance: int, basset_in_contract_address: int)
    requires
        nasset_supply > 0,
        0 <= deposited < basset_balance,
    ensures
        ({
            let minted = nasset_to_mint_spec(nasset_supply, deposited, basset_balance, basset_in_contract_address);
            &&& minted * basset_balance <= (nasset_supply + minted) * deposited
            &&& basset_to_withdraw_spec(basset_balance, minted, nasset_supply + minted) <= deposited
        }),
{
    let rest = basset_balance - deposited;
    let minted = nasset_to_mint_spec(nasset_supply, deposited, basset_balance, basset_in_contract_address);
    vstd::arithmetic::mul::lemma_mul_nonnegative(nasset_supply, deposited);
    lemma_div_scaled(nasset_supply * deposited, rest);
    assert(minted == nasset_supply * deposited / rest);
    vstd::arithmetic::div_mod::lemma_div_pos_is_pos(nasset_supply * deposited, rest);
    vstd::arithmetic::div_mod::lemma_fundamental_div_mod(nasset_supply * deposited, rest);
    vstd::arithmetic::div_mod::lemma_mod_pos_bound(nasset_supply * deposited, rest);
    assert(minted * rest <= nasset_supply * deposited) by (nonlinear_arith)
        requires
            nasset_supply * deposited == rest * minted + (nasset_supply * deposited) % rest,
            (nasset_supply * deposited) % rest >= 0,
    ;
    assert(minted * basset_balance <= (nasset_supply + minted) * deposited) by (nonlinear_arith)
        requires
            minted * rest <= nasset_supply * deposited,
            rest == basset_balance - deposited,
    ;
    lemma_div_scaled(basset_balance * minted, nasset_supply + minted);
    vstd::arithmetic::mul::lemma_mul_nonnegative(basset_balance, minted);
    vstd::arithmetic::mul::lemma_mul_is_commutative(basset_balance, minted);
    vstd::arithmetic::div_mod::lemma_div_is_ordered(
        basset_balance * minted,
        (nasset_supply + minted) * deposited,
        nasset_supply + minted,
    );
    vstd::arithmetic::mul::lemma_mul_is_commutative(nasset_supply + minted, deposited);
    vstd::arithmetic::div_mod::lemma_div_by_multiple(deposited, nasset_supply + minted);
}

} // verus!
