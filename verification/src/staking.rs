//! Reward accounting of the cAsset staking contract: a global reward index
//! that grows with the vault's surplus, and each staker's share of it.
use vstd::prelude::*;
use crate::math::{Decimal256, Uint256, dec_scale, mul_dec_spec, u256_bound};

verus! {

/// Global reward accounting of the staking contract.
#[derive(Clone, Copy, Debug, PartialEq, Eq, Structural)]
pub struct State {
    pub global_reward_index: Decimal256,
    pub last_reward_amount: Decimal256,
    pub last_reward_updated: u64,
}

/// One staker's position.
#[derive(Clone, Copy, Debug, PartialEq, Eq, Structural)]
pub struct StakerState {
    pub staked_amount: Uint256,
    pub reward_index: Decimal256,
    pub pending_rewards: Decimal256,
}

/// `(global_reward_index, last_reward_amount)` after observing the balances
/// (decimals by atomics).  The reward is what the stables (held plus aTerra
/// value) exceed the loan by; when it grew since the last observation, the
/// growth per staked cAsset is added to the index.  When there is no reward
/// or it shrank, nothing changes.
pub open spec fn staking_reward_index_spec(
    index: int,
    last_reward: int,
    borrowed_amount: int,
    aterra_amount: int,
    aterra_exchange_rate: int,
    stable_coin_amount: int,
    casset_staked_amount: int,
) -> (int, int) {
    let stable_balance = mul_dec_spec(aterra_amount, aterra_exchange_rate) + stable_coin_amount;
    let current = (stable_balance - borrowed_amount) * dec_scale();
    if borrowed_amount >= stable_balance || current < last_reward {
        (index, last_reward)
    } else {
        (
            index + (current - last_reward) * dec_scale() / (casset_staked_amount * dec_scale()),
            current,
        )
    }
}

pub open spec fn staking_reward_index_ok(
    index: int,
    last_reward: int,
    borrowed_amount: int,
    aterra_amount: int,
    aterra_exchange_rate: int,
    stable_coin_amount: int,
    casset_staked_amount: int,
) -> bool {
    let stable_balance = mul_dec_spec(aterra_amount, aterra_exchange_rate) + stable_coin_amount;
    let current = (stable_balance - borrowed_amount) * dec_scale();
    &&& aterra_amount * aterra_exchange_rate < u256_bound()
    &&& stable_balance < u256_bound()
    &&& casset_staked_amount * dec_scale() < u256_bound()
    &&& borrowed_amount < stable_balance ==> current < u256_bound()
    &&& (borrowed_amount < stable_balance && current >= last_reward) ==> {
        &&& casset_staked_amount != 0
        &&& (current - last_reward) * dec_scale() < u256_bound()
        &&& index + (current - last_reward) * dec_scale() / (casset_staked_amount * dec_scale())
            < u256_bound()
    }
}

/// Adds the growth of the reward since the last observation, per staked
/// cAsset, to the global index.
pub fn calculate_reward_index(
    state: &mut State,
    borrowed_amount: Uint256,
    aterra_amount: Uint256,
    aterra_exchange_rate: Decimal256,
    stable_coin_amount: Uint256,
    casset_staked_amount: Uint256,
)
    requires
        staking_reward_index_ok(
            old(state).global_reward_index@ as int,
            old(state).last_reward_amount@ as int,
            borrowed_amount@ as int,
            aterra_amount@ as int,
            aterra_exchange_rate@ as int,
            stable_coin_amount@ as int,
            casset_staked_amount@ as int,
        ),
    ensures
        (final(state).global_reward_index@ as int, final(state).last_reward_amount@ as int)
            == staking_reward_index_spec(
            old(state).global_reward_index@ as int,
            old(state).last_reward_amount@ as int,
            borrowed_amount@ as int,
            aterra_amount@ as int,
            aterra_exchange_rate@ as int,
            stable_coin_amount@ as int,
            casset_staked_amount@ as int,
        ),
        final(state).last_reward_updated == old(state).last_reward_updated,
{
    let stable_balance = aterra_amount.mul_dec(aterra_exchange_rate).add(stable_coin_amount);
    let decimal_casset_staked_amount = Decimal256::from_uint256(casset_staked_amount);
    if stable_balance.le(&borrowed_amount) {
        return;
    }
    let current_total_reward_amount = Decimal256::from_uint256(stable_balance.sub(borrowed_amount));
    if current_total_reward_amount.lt(&state.last_reward_amount) {
        return;
    }
    let new_reward_amount = current_total_reward_amount.sub(state.last_reward_amount);
    state.global_reward_index = state.global_reward_index.add(
        new_reward_amount.div(decimal_casset_staked_amount),
    );
    state.last_reward_amount = current_total_reward_amount;
}

/// The global index is due for an update at `block_height`: it was last
/// updated at an earlier height.
pub fn global_reward_is_due(state: &State, block_height: u64) -> (r: bool)
    ensures
        r == (state.last_reward_updated < block_height),
{
    state.last_reward_updated < block_height
}

/// Brings the global index up to date at `block_height` with the queried
/// balances of the vault; nothing changes when it is already up to date.
pub fn update_global_reward(
    state: &mut State,
    block_height: u64,
    borrowed_amount: Uint256,
    aterra_balance: Uint256,
    aterra_exchange_rate: Decimal256,
    stable_coin_balance: Uint256,
    casset_staked_amount: Uint256,
)
    requires
        old(state).last_reward_updated < block_height ==> staking_reward_index_ok(
            old(state).global_reward_index@ as int,
            old(state).last_reward_amount@ as int,
            borrowed_amount@ as int,
            aterra_balance@ as int,
            aterra_exchange_rate@ as int,
            stable_coin_balance@ as int,
            casset_staked_amount@ as int,
        ),
    ensures
        old(state).last_reward_updated >= block_height ==> *final(state) == *old(state),
        old(state).last_reward_updated < block_height ==> {
            &&& (final(state).global_reward_index@ as int, final(state).last_reward_amount@ as int)
                == staking_reward_index_spec(
                old(state).global_reward_index@ as int,
                old(state).last_reward_amount@ as int,
                borrowed_amount@ as int,
                aterra_balance@ as int,
                aterra_exchange_rate@ as int,
                stable_coin_balance@ as int,
                casset_staked_amount@ as int,
            )
            &&& final(state).last_reward_updated == block_height
        },
        final(state).global_reward_index@ >= old(state).global_reward_index@,
        final(state).last_reward_amount@ >= old(state).last_reward_amount@,
{
    if !global_reward_is_due(state, block_height) {
        return;
    }
    calculate_reward_index(
        state,
        borrowed_amount,
        aterra_balance,
        aterra_exchange_rate,
        stable_coin_balance,
        casset_staked_amount,
    );
    state.last_reward_updated = block_height;
    proof {
        lemma_staking_index_never_decreases(
            old(state).global_reward_index@ as int,
            old(state).last_reward_amount@ as int,
            borrowed_amount@ as int,
            aterra_balance@ as int,
            aterra_exchange_rate@ as int,
            stable_coin_balance@ as int,
            casset_staked_amount@ as int,
        );
    }
}

/// The staker earns the growth of the global index since their own index,
/// times their stake; their index catches up with the global one.
pub fn update_staker_reward(state: &State, staker_state: &mut StakerState)
    requires
        old(staker_state).reward_index@ <= state.global_reward_index@,
        old(staker_state).staked_amount@ * dec_scale() < u256_bound(),
        (state.global_reward_index@ - old(staker_state).reward_index@) * (
        old(staker_state).staked_amount@ * dec_scale()) < u256_bound(),
        old(staker_state).pending_rewards@ + (state.global_reward_index@
            - old(staker_state).reward_index@) * (old(staker_state).staked_amount@ * dec_scale())
            / dec_scale() < u256_bound(),
    ensures
        final(staker_state).pending_rewards@ == old(staker_state).pending_rewards@ + (
        state.global_reward_index@ - old(staker_state).reward_index@) * (
        old(staker_state).staked_amount@ * dec_scale()) / dec_scale(),
        final(staker_state).reward_index == state.global_reward_index,
        final(staker_state).staked_amount == old(staker_state).staked_amount,
{
    let currently_staked = Decimal256::from_uint256(staker_state.staked_amount);
    let earned = state.global_reward_index.sub(staker_state.reward_index).mul(currently_staked);
    staker_state.pending_rewards = staker_state.pending_rewards.add(earned);
    staker_state.reward_index = state.global_reward_index;
}


/// The global index and the recorded reward never go down, whatever the
/// observed balances, as long as some cAsset is staked whenever the reward
/// grew.
pub proof fn lemma_staking_index_never_decreases(
    index: int,
    last_reward: int,
    borrowed_amount: int,
    aterra_amount: int,
    aterra_exchange_rate: int,
    stable_coin_amount: int,
    casset_staked_amount: int,
)
    requires
        casset_staked_amount >= 0,
        ({
            let stable_balance = mul_dec_spec(aterra_amount, aterra_exchange_rate) + stable_coin_amount;
            let current = (stable_balance - borrowed_amount) * dec_scale();
            (borrowed_amount < stable_balance && current >= last_reward) ==> casset_staked_amount > 0
        }),
    ensures
        ({
            let (new_index, new_last) = staking_reward_index_spec(
                index,
                last_reward,
                borrowed_amount,
                aterra_amount,
                aterra_exchange_rate,
                stable_coin_amount,
                casset_staked_amount,
            );
            new_index >= index && new_last >= last_reward
        }),
{
    let stable_balance = mul_dec_spec(aterra_amount, aterra_exchange_rate) + stable_coin_amount;
    let current = (stable_balance - borrowed_amount) * dec_scale();
    if !(borrowed_amount >= stable_balance || current < last_reward) {
        vstd::arithmetic::div_mod::lemma_div_pos_is_pos(
            (current - last_reward) * dec_scale(),
            casset_staked_amount * dec_scale(),
        );
    }
}

/// Observing the same balances twice changes nothing the second time: the
/// reward already counted is not counted again.
pub proof fn lemma_staking_observation_idempotent(
    index: int,
    last_reward: int,
    borrowed_amount: int,
    aterra_amount: int,
    aterra_exchange_rate: int,
    stable_coin_amount: int,
    casset_staked_amount: int,
)
    requires
        casset_staked_amount > 0,
    ensures
        ({
            let (i1, l1) = staking_reward_index_spec(
                index,
                last_reward,
                borrowed_amount,
                aterra_amount,
                aterra_exchange_rate,
                stable_coin_amount,
                casset_staked_amount,
            );
            staking_reward_index_spec(
                i1,
                l1,
                borrowed_amount,
                aterra_amount,
                aterra_exchange_rate,
                stable_coin_amount,
                casset_staked_amount,
            ) == (i1, l1)
        }),
{
    vstd::arithmetic::div_mod::lemma_div_of0(casset_staked_amount * dec_scale());
}

/// A staker's pending rewards never go down when they catch up with a global
/// index at or above their own.
pub proof fn lemma_staker_rewards_accumulate(
    pending: int,
    staker_index: int,
    global_index: int,
    staked_amount: int,
)
    requires
        pending >= 0,
        staker_index <= global_index,
        staked_amount >= 0,
    ensures
        pending + (global_index - staker_index) * (staked_amount * dec_scale()) / dec_scale()
            >= pending,
{
    vstd::arithmetic::mul::lemma_mul_nonnegative(global_index - staker_index, staked_amount * dec_scale());
    vstd::arithmetic::div_mod::lemma_div_pos_is_pos(
        (global_index - staker_index) * (staked_amount * dec_scale()),
        dec_scale(),
    );
}

} // verus!
