//! Carrying out the strategy's advice: the messages of each step and the
//! value the vault keeps for the replies that follow.
use vstd::prelude::*;
use crate::actions::{
    RepayLoanAction, RepayPlan, repay_attributes, repay_loan_action_ok, repay_loan_action_spec, repay_messages,
    repay_step_computable,
};
use crate::math::{Decimal256, Uint256, u256_decimal};
use crate::response::{ReplyOn, Response, VaultMsg};
use crate::strategy::BorrowerActionResponse;
use crate::tax::TaxInfo;
use crate::vault::{
    Config, RepayingLoanState, SubmsgIds, VaultError, borrow_logic, deposit_logic, lock_messages, rebalance_not_needed,
    repay_logic, reply_msg, withdraw_all_logic, withdraw_all_messages,
};

verus! {

/// The vault's balances and Anchor's state while it carries out an advice
/// (they do not change during one execution).
#[derive(Clone, Copy, Debug, PartialEq, Eq, Structural)]
pub struct VaultBalances {
    /// bAsset on the vault's own address (not yet deposited as collateral).
    pub basset_in_contract_address: Uint256,
    /// bAsset the vault holds as collateral in Anchor's custody.
    pub basset_in_custody: Uint256,
    pub stable_coin_balance: Uint256,
    pub aterra_balance: Uint256,
    pub aterra_exchange_rate: Decimal256,
    /// The vault's outstanding Anchor loan.
    pub loan_amount: Uint256,
    pub tax_info: TaxInfo,
}

/// A value the vault stores while carrying out an advice.
#[derive(Clone, Copy, Debug, PartialEq, Eq, Structural)]
pub enum StoreUpdate {
    /// The buffer to keep once the borrowed stables arrive.
    AimBufferSize(Uint256),
    /// The repayment in progress.
    RepayingLoan(RepayingLoanState),
}

/// The first step of a fresh repayment of `to_repay_amount` that keeps
/// `aim_buffer_size`: its messages and attributes, and the repayment state
/// stored for the replies.
pub open spec fn repay_started(
    config: Config,
    balances: VaultBalances,
    to_repay_amount: Uint256,
    aim_buffer_size: int,
    resp: Response,
    store: Option<StoreUpdate>,
) -> bool {
    exists|action: RepayLoanAction|
        {
            &&& #[trigger] action@ == repay_loan_action_spec(
                balances.stable_coin_balance@ as int,
                balances.aterra_balance@ as int,
                balances.aterra_exchange_rate@ as int,
                to_repay_amount@ as int,
                aim_buffer_size,
                balances.tax_info,
                true,
            )
            &&& resp.messages@ == repay_messages(action, config)
            &&& resp.attrs() == repay_attributes(action)
            &&& store matches Some(StoreUpdate::RepayingLoan(stored)) && stored.iteration_index == 0
                && !stored.repayed_something && stored.to_repay_amount == to_repay_amount
                && stored.aim_buffer_size@ == aim_buffer_size && stored.repaying_amount@
                == match action@ {
                RepayPlan::RepayLoan { amount } => amount,
                RepayPlan::RepayLoanAndSellAterra { repay_loan_amount, .. } => repay_loan_amount,
                _ => 0,
            }
        }
}

/// `resp` locks `deposit_amount` bAsset as collateral ahead of the messages
/// of `inner`, and reports the deposit after its attributes.
pub open spec fn deposit_wraps(config: Config, deposit_amount: Uint256, inner: Response, resp: Response) -> bool {
    &&& resp.messages@ == lock_messages(config, deposit_amount) + inner.messages@
    &&& resp.attrs() == inner.attrs() + seq![("deposited_amount"@, u256_decimal(deposit_amount@))]
}

/// What carrying out `action` answers and stores: nothing to do; a borrow
/// (reply on success) after storing the advised buffer; the first step of a
/// repayment; the collateral deposit followed by the advice after it; or a
/// repayment of the whole loan followed by the withdrawal of the collateral.
pub open spec fn advice_handled(
    config: Config,
    balances: VaultBalances,
    action: BorrowerActionResponse,
    resp: Response,
    store: Option<StoreUpdate>,
) -> bool
    decreases action,
{
    match action {
        BorrowerActionResponse::Nothing => {
            &&& resp.messages@.len() == 0
            &&& resp.attrs() == seq![("action"@, "rebalance_not_needed"@)]
            &&& store is None
        },
        BorrowerActionResponse::Borrow { amount, advised_buffer_size } => {
            &&& resp.messages@ == seq![
                reply_msg(
                    SubmsgIds::Borrowing,
                    ReplyOn::Success,
                    config.anchor_market_contract,
                    VaultMsg::AnchorBorrowStable { borrow_amount: amount },
                    None,
                ),
            ]
            &&& resp.attrs() == seq![
                ("action"@, "borrow_stable"@),
                ("amount"@, u256_decimal(amount@)),
                ("aim_buffer_size"@, u256_decimal(advised_buffer_size@)),
            ]
            &&& store == Some(StoreUpdate::AimBufferSize(advised_buffer_size))
        },
        BorrowerActionResponse::Repay { amount, advised_buffer_size } => repay_started(
            config,
            balances,
            amount,
            advised_buffer_size@ as int,
            resp,
            store,
        ),
        BorrowerActionResponse::Deposit { deposit_amount, action_after } => exists|inner: Response|
            advice_handled(config, balances, *action_after, inner, store) && #[trigger] deposit_wraps(
                config,
                deposit_amount,
                inner,
                resp,
            ),
        BorrowerActionResponse::RepayAllAndWithdraw { withdraw_amount } => exists|inner: Response|
            {
                &&& #[trigger] repay_started(
                    config,
                    balances,
                    balances.loan_amount,
                    0,
                    inner,
                    store,
                )
                &&& resp.messages@ == inner.messages@ + withdraw_all_messages(config, withdraw_amount)
                &&& resp.attrs() == inner.attrs() + seq![
                    ("action"@, "withdraw_all"@),
                    ("amount"@, u256_decimal(withdraw_amount@)),
                ]
            },
    }
}

/// Why the advice cannot be carried out, if it cannot: a collateral deposit
/// of no bAsset or of more than the vault holds on its address, or a
/// withdrawal of more than the custody holds.
pub open spec fn advice_error(balances: VaultBalances, action: BorrowerActionResponse) -> Option<VaultError>
    decreases action,
{
    match action {
        BorrowerActionResponse::Deposit { deposit_amount, action_after } => {
            if deposit_amount@ == 0 || deposit_amount@ > balances.basset_in_contract_address@ {
                Some(VaultError::InvalidDepositAmount)
            } else {
                advice_error(balances, *action_after)
            }
        },
        BorrowerActionResponse::RepayAllAndWithdraw { withdraw_amount } => {
            if withdraw_amount@ > balances.basset_in_custody@ {
                Some(VaultError::WithdrawMoreThanCollateral)
            } else {
                None
            }
        },
        _ => None,
    }
}

/// Every repayment the advice starts is computed without overflow.
pub open spec fn advice_ok(balances: VaultBalances, action: BorrowerActionResponse) -> bool
    decreases action,
{
    match action {
        BorrowerActionResponse::Repay { amount, advised_buffer_size } => repay_loan_action_ok(
            balances.stable_coin_balance@ as int,
            balances.aterra_balance@ as int,
            balances.aterra_exchange_rate@ as int,
            amount@ as int,
            advised_buffer_size@ as int,
            balances.tax_info,
            true,
        ),
        BorrowerActionResponse::Deposit { action_after, .. } => advice_ok(balances, *action_after),
        BorrowerActionResponse::RepayAllAndWithdraw { .. } => repay_loan_action_ok(
            balances.stable_coin_balance@ as int,
            balances.aterra_balance@ as int,
            balances.aterra_exchange_rate@ as int,
            balances.loan_amount@ as int,
            0,
            balances.tax_info,
            true,
        ),
        _ => true,
    }
}

/// Whether every repayment the advice starts can be computed without
/// overflow (`advice_ok`).
pub fn advice_computable(balances: &VaultBalances, action: &BorrowerActionResponse) -> (r: bool)
    ensures
        r == advice_ok(*balances, *action),
    decreases action,
{
    match action {
        BorrowerActionResponse::Repay { amount, advised_buffer_size } => repay_step_computable(
            balances.stable_coin_balance,
            balances.aterra_balance,
            balances.aterra_exchange_rate,
            *amount,
            *advised_buffer_size,
            &balances.tax_info,
            true,
        ),
        BorrowerActionResponse::Deposit { action_after, .. } => advice_computable(balances, action_after),
        BorrowerActionResponse::RepayAllAndWithdraw { .. } => repay_step_computable(
            balances.stable_coin_balance,
            balances.aterra_balance,
            balances.aterra_exchange_rate,
            balances.loan_amount,
            Uint256::zero(),
            &balances.tax_info,
            true,
        ),
        _ => true,
    }
}

/// Carries out the strategy's advice (see `advice_handled`); refused as
/// `advice_error` says.
pub fn handle_borrower_action(
    config: &Config,
    balances: &VaultBalances,
    borrower_action: &BorrowerActionResponse,
) -> (r: Result<(Response, Option<StoreUpdate>), VaultError>)
    requires
        advice_ok(*balances, *borrower_action),
    ensures
        r is Err <==> advice_error(*balances, *borrower_action) is Some,
        r matches Err(e) ==> advice_error(*balances, *borrower_action) == Some(e),
        r matches Ok((resp, store)) ==> advice_handled(*config, *balances, *borrower_action, resp, store),
    decreases borrower_action,
{
    match borrower_action {
        BorrowerActionResponse::Nothing => {
            //maybe it is better to return error here, but
            //we cant, cause it is used in 'withdraw' and 'deposit'
            Ok((rebalance_not_needed(), None))
        },
        BorrowerActionResponse::Borrow { amount, advised_buffer_size } => {
            let response = borrow_logic(config, *amount, *advised_buffer_size);
            Ok((response, Some(StoreUpdate::AimBufferSize(*advised_buffer_size))))
        },
        BorrowerActionResponse::Repay { amount, advised_buffer_size } => {
            let state = RepayingLoanState::start(*amount, *advised_buffer_size);
            let (state, response) = repay_logic(
                config,
                state,
                balances.stable_coin_balance,
                balances.aterra_balance,
                balances.aterra_exchange_rate,
                &balances.tax_info,
            );
            Ok((response, Some(StoreUpdate::RepayingLoan(state))))
        },
        BorrowerActionResponse::Deposit { deposit_amount, action_after } => {
            if deposit_amount.is_zero() || balances.basset_in_contract_address.lt(deposit_amount) {
                return Err(VaultError::InvalidDepositAmount);
            }
            match handle_borrower_action(config, balances, action_after) {
                Ok((inner, store)) => {
                    let response = deposit_logic(config, *deposit_amount, inner);
                    assert(deposit_wraps(*config, *deposit_amount, inner, response));
                    Ok((response, store))
                },
                Err(e) => Err(e),
            }
        },
        BorrowerActionResponse::RepayAllAndWithdraw { withdraw_amount } => {
            if balances.basset_in_custody.lt(withdraw_amount) {
                return Err(VaultError::WithdrawMoreThanCollateral);
            }
            // 1. repay the whole loan (selling aterra where needed)
            // 2. unlock basset from the overseer
            // 3. withdraw basset from the custody
            let state = RepayingLoanState::start(balances.loan_amount, Uint256::zero());
            let (state, repay) = repay_logic(
                config,
                state,
                balances.stable_coin_balance,
                balances.aterra_balance,
                balances.aterra_exchange_rate,
                &balances.tax_info,
            );
            let store = Some(StoreUpdate::RepayingLoan(state));
            let response = withdraw_all_logic(config, *withdraw_amount, repay);
            assert(repay_started(*config, *balances, balances.loan_amount, 0, repay, store));
            Ok((response, store))
        },
    }
}

} // verus!
