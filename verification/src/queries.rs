//! What the vault answers to queries: whether a borrow would pass Anchor's
//! checks, the rebalance the strategy advises, and whether ANC rewards are
//! worth claiming.
use vstd::prelude::*;
use crate::math::{Decimal256, Uint256, dec_scale, u256_bound};
use crate::strategy::BorrowerActionResponse;

verus! {

/// The state of the Anchor market a borrow is checked against.
#[derive(Clone, Copy, Debug, PartialEq, Eq, Structural)]
pub struct MarketSnapshot {
    pub max_borrow_factor: Decimal256,
    pub total_liabilities: Decimal256,
    pub total_reserves: Decimal256,
    /// Stables held by the market.
    pub balance: Uint256,
}

/// Anchor's borrow checks, on atomics: the liabilities after the borrow stay
/// within `max_borrow_factor` of the market's funds, and the borrow plus the
/// reserves fits in the balance.
pub open spec fn borrow_possible_spec(market: MarketSnapshot, borrow_amount: int) -> bool {
    let current_balance = market.balance@ * dec_scale();
    let borrow = borrow_amount * dec_scale();
    let liabilities = market.total_liabilities@ as int;
    let reserves = market.total_reserves@ as int;
    let funds = current_balance + liabilities - reserves;
    &&& liabilities + borrow <= funds * market.max_borrow_factor@ / dec_scale()
    &&& borrow + reserves <= current_balance
}

/// The checks of `borrow_possible_spec` stay within 256 bits (and the
/// reserves within the funds), as the decimal arithmetic needs.
pub open spec fn borrow_check_ok(market: MarketSnapshot, borrow_amount: int) -> bool {
    let current_balance = market.balance@ * dec_scale();
    let borrow = borrow_amount * dec_scale();
    let liabilities = market.total_liabilities@ as int;
    let reserves = market.total_reserves@ as int;
    let funds = current_balance + liabilities - reserves;
    &&& current_balance < u256_bound()
    &&& borrow < u256_bound()
    &&& liabilities + borrow < u256_bound()
    &&& current_balance + liabilities < u256_bound()
    &&& reserves <= current_balance + liabilities
    &&& funds * market.max_borrow_factor@ < u256_bound()
    &&& liabilities + borrow <= funds * market.max_borrow_factor@ / dec_scale() ==> borrow
        + reserves < u256_bound()
}

/// Whether Anchor would let the vault borrow `borrow_amount` stables.
pub fn assert_max_borrow_factor(market: &MarketSnapshot, borrow_amount: Uint256) -> (r: bool)
    requires
        borrow_check_ok(*market, borrow_amount@ as int),
    ensures
        r == borrow_possible_spec(*market, borrow_amount@ as int),
{
    let current_balance = Decimal256::from_uint256(market.balance);
    let borrow_amount = Decimal256::from_uint256(borrow_amount);

    // Assert max borrow factor
    let liabilities_after = market.total_liabilities.add(borrow_amount);
    let funds = current_balance.add(market.total_liabilities).sub(market.total_reserves);
    if funds.mul(market.max_borrow_factor).lt(&liabilities_after) {
        return false;
    }
    // Assert available balance
    if current_balance.lt(&borrow_amount.add(market.total_reserves)) {
        return false;
    }
    true
}

/// Anchor allows a borrow exactly when the liabilities after it stay within
/// `max_borrow_factor` of the market's funds (its balance plus the
/// liabilities less the reserves, the product rounded down) and the borrow
/// plus the reserves fit in the balance, all in decimal atomics.  A smaller
/// borrow is allowed wherever a larger one is.
pub proof fn lemma_borrow_check(market: MarketSnapshot, borrow_amount: int, smaller: int)
    requires
        0 <= smaller <= borrow_amount,
    ensures
        borrow_possible_spec(market, borrow_amount) <==> {
            &&& market.total_liabilities@ + borrow_amount * dec_scale() <= (market.balance@
                * dec_scale() + market.total_liabilities@ - market.total_reserves@)
                * market.max_borrow_factor@ / dec_scale()
            &&& borrow_amount * dec_scale() + market.total_reserves@ <= market.balance@ * dec_scale()
        },
        borrow_possible_spec(market, borrow_amount) ==> borrow_possible_spec(market, smaller),
{
    vstd::arithmetic::mul::lemma_mul_inequality(smaller, borrow_amount, dec_scale());
}

/// The rebalance the vault would do, as answered to a query.
#[derive(Debug, PartialEq, Eq)]
pub enum RebalanceResponse {
    Nothing,
    Borrow { amount: Uint256, advised_buffer_size: Uint256, is_possible: bool },
    Repay { amount: Uint256, advised_buffer_size: Uint256 },
    Deposit { deposit_amount: Uint256, action_after: Box<RebalanceResponse> },
    RepayAllAndWithdraw { withdraw_amount: Uint256 },
}

/// The strategy's advice with, for each borrow, whether Anchor allows it.
pub open spec fn rebalance_spec(action: BorrowerActionResponse, market: MarketSnapshot) -> RebalanceResponse
    decreases action,
{
    match action {
        BorrowerActionResponse::Nothing => RebalanceResponse::Nothing,
        BorrowerActionResponse::Repay { amount, advised_buffer_size } => RebalanceResponse::Repay {
            amount,
            advised_buffer_size,
        },
        BorrowerActionResponse::Borrow { amount, advised_buffer_size } => RebalanceResponse::Borrow {
            amount,
            advised_buffer_size,
            is_possible: borrow_possible_spec(market, amount@ as int),
        },
        BorrowerActionResponse::Deposit { deposit_amount, action_after } =>
            RebalanceResponse::Deposit {
            deposit_amount,
            action_after: Box::new(rebalance_spec(*action_after, market)),
        },
        BorrowerActionResponse::RepayAllAndWithdraw { withdraw_amount } =>
            RebalanceResponse::RepayAllAndWithdraw { withdraw_amount },
    }
}

/// Every borrow in the advice can be checked (`borrow_check_ok`).
pub open spec fn rebalance_ok(action: BorrowerActionResponse, market: MarketSnapshot) -> bool
    decreases action,
{
    match action {
        BorrowerActionResponse::Borrow { amount, .. } => borrow_check_ok(market, amount@ as int),
        BorrowerActionResponse::Deposit { action_after, .. } => rebalance_ok(*action_after, market),
        _ => true,
    }
}

/// The rebalance answer for the strategy's advice.
pub fn borrower_action_to_response(action: &BorrowerActionResponse, market: &MarketSnapshot) -> (r:
    RebalanceResponse)
    requires
        rebalance_ok(*action, *market),
    ensures
        r == rebalance_spec(*action, *market),
    decreases action,
{
    match action {
        BorrowerActionResponse::Nothing => RebalanceResponse::Nothing,
        BorrowerActionResponse::Repay { amount, advised_buffer_size } => RebalanceResponse::Repay {
            amount: *amount,
            advised_buffer_size: *advised_buffer_size,
        },
        BorrowerActionResponse::Borrow { amount, advised_buffer_size } => {
            let is_possible = assert_max_borrow_factor(market, *amount);
            RebalanceResponse::Borrow {
                amount: *amount,
                advised_buffer_size: *advised_buffer_size,
                is_possible,
            }
        },
        BorrowerActionResponse::Deposit { deposit_amount, action_after } => {
            let after = borrower_action_to_response(action_after, market);
            RebalanceResponse::Deposit { deposit_amount: *deposit_amount, action_after: Box::new(after) }
        },
        BorrowerActionResponse::RepayAllAndWithdraw { withdraw_amount } =>
            RebalanceResponse::RepayAllAndWithdraw { withdraw_amount: *withdraw_amount },
    }
}

/// Whether the pending ANC rewards are worth claiming.
#[derive(Clone, Copy, Debug, PartialEq, Eq, Structural)]
pub struct IsRewardsClaimableResponse {
    pub claimable: bool,
    pub anc_amount: Decimal256,
    pub last_claiming_height: u64,
    pub current_height: u64,
}

/// The answer for `anc_pending_rewards` pending ANC (the heights are legacy
/// fields, always zero).
pub fn is_rewards_claimable(anc_pending_rewards: Decimal256) -> (r: IsRewardsClaimableResponse)
    ensures
        r.claimable == (anc_pending_rewards@ >= crate::actions::MIN_ANC_REWARDS_TO_CLAIM
            * dec_scale()),
        r.anc_amount == anc_pending_rewards,
        r.last_claiming_height == 0,
        r.current_height == 0,
{
    IsRewardsClaimableResponse {
        claimable: crate::actions::is_anc_rewards_claimable(anc_pending_rewards),
        anc_amount: anc_pending_rewards,
        last_claiming_height: 0,
        current_height: 0,
    }
}

} // verus!
