//! What the vault does with its stable coins: repaying the Anchor loan
//! (selling aTerra where the stable balance does not cover it), depositing
//! the surplus after a borrow, and splitting the profit of sold ANC rewards.
use vstd::prelude::*;
use vstd::arithmetic::div_mod::*;
use crate::math::{Decimal256, Uint256, dec_scale, div_dec_spec, mul_dec_spec, u256_bound};
use crate::tax::{TaxInfo, min_int};
use crate::math::u256_decimal;
use crate::response::{Coin, ReplyOn, Response, SubMessage, VaultMsg, attr, attr_str};
use crate::vault::{Config, SubmsgIds, plain, plain_msg, reply_msg, with_reply};

verus! {

/// Minimal amount of pending ANC rewards (in ANC micro-units) worth claiming.
pub const MIN_ANC_REWARDS_TO_CLAIM: u64 = 100_000_000u64;

/// A repayment step, as numbers.
pub enum RepayPlan {
    RepayLoanAndSellAterra { repay_loan_amount: int, aterra_amount_to_sell: int },
    SellAterra { amount: int },
    RepayLoan { amount: int },
    Nothing,
}

/// One step of repaying the loan: repay from the stable balance, redeem
/// aTerra for stables, both, or nothing.
#[derive(Clone, Copy, Debug, PartialEq, Eq, Structural)]
pub enum RepayLoanAction {
    RepayLoanAndSellAterra { repay_loan_amount: Uint256, aterra_amount_to_sell: Uint256 },
    SellAterra { amount: Uint256 },
    RepayLoan { amount: Uint256 },
    Nothing,
}

impl View for RepayLoanAction {
    type V = RepayPlan;

    open spec fn view(&self) -> RepayPlan {
        match *self {
            RepayLoanAction::RepayLoanAndSellAterra { repay_loan_amount, aterra_amount_to_sell } =>
                RepayPlan::RepayLoanAndSellAterra {
                repay_loan_amount: repay_loan_amount@ as int,
                aterra_amount_to_sell: aterra_amount_to_sell@ as int,
            },
            RepayLoanAction::SellAterra { amount } => RepayPlan::SellAterra { amount: amount@ as int },
            RepayLoanAction::RepayLoan { amount } => RepayPlan::RepayLoan { amount: amount@ as int },
            RepayLoanAction::Nothing => RepayPlan::Nothing,
        }
    }
}

impl RepayLoanAction {
    /// The part of the loan this step repays: the repaid amount, or zero when
    /// the step repays nothing.
    pub fn repaying_loan_amount(&self) -> (r: Uint256)
        ensures
            r@ == match self@ {
                RepayPlan::RepayLoan { amount } => amount,
                RepayPlan::RepayLoanAndSellAterra { repay_loan_amount, .. } => repay_loan_amount,
                _ => 0,
            },
    {
        match self {
            RepayLoanAction::RepayLoan { amount } => *amount,
            RepayLoanAction::RepayLoanAndSellAterra { repay_loan_amount, .. } => *repay_loan_amount,
            _ => Uint256::zero(),
        }
    }
}

/// Stables still wanted to repay `repay_amount` and keep `aim_buffer_size`
/// on the balance: whatever the balance falls short of their sum.
pub open spec fn wanted_stablecoins_spec(balance: int, repay_amount: int, aim_buffer_size: int) -> int {
    if balance >= repay_amount + aim_buffer_size {
        0
    } else {
        repay_amount + aim_buffer_size - balance
    }
}

/// Stables wanted on top of `stable_coin_balance` to repay `repay_amount`
/// and keep `aim_buffer_size` coins.
pub fn calc_wanted_stablecoins(
    stable_coin_balance: Uint256,
    repay_amount: Uint256,
    aim_buffer_size: Uint256,
) -> (r: Uint256)
    requires
        repay_amount@ + aim_buffer_size@ < u256_bound(),
    ensures
        r@ == wanted_stablecoins_spec(
            stable_coin_balance@ as int,
            repay_amount@ as int,
            aim_buffer_size@ as int,
        ),
{
    //we have enough balance to repay loan without any additional stables
    if repay_amount.add(aim_buffer_size).le(&stable_coin_balance) {
        return Uint256::zero();
    }
    //we can take some coins from buffer to repay loan
    if aim_buffer_size.le(&stable_coin_balance) {
        let can_get_from_balance = stable_coin_balance.sub(aim_buffer_size);
        if repay_amount.le(&can_get_from_balance) {
            return Uint256::zero();
        }
        return repay_amount.sub(can_get_from_balance);
    }
    //need to fill up buffer and repay loan
    let add_to_buffer = aim_buffer_size.sub(stable_coin_balance);
    repay_amount.add(add_to_buffer)
}

/// aTerra to redeem for `stables` coins (plus the tax the market pays on
/// sending them), at most the whole aTerra balance.
pub open spec fn aterra_to_sell_spec(
    tax: TaxInfo,
    stables: int,
    aterra_balance: int,
    rate: int,
) -> int {
    min_int(div_dec_spec(tax.appended(stables), rate), aterra_balance)
}

/// Stables expected from redeeming `aterra` at `rate`, once taxed.
pub open spec fn expected_stables_spec(tax: TaxInfo, aterra: int, rate: int) -> int {
    tax.subtracted(mul_dec_spec(aterra, rate))
}

/// The sale of aTerra for `stables` coins is computed without overflow.
pub open spec fn sell_ok(tax: TaxInfo, stables: int, aterra_balance: int, rate: int) -> bool {
    &&& tax.can_append(stables)
    &&& tax.appended(stables) * dec_scale() < u256_bound()
    &&& aterra_to_sell_spec(tax, stables, aterra_balance, rate) * rate < u256_bound()
    &&& tax.can_subtract(mul_dec_spec(aterra_to_sell_spec(tax, stables, aterra_balance, rate), rate))
}

/// The repayment step for the given balances (see `get_repay_loan_action`).
pub open spec fn repay_loan_action_spec(
    stable_coin_balance: int,
    aterra_balance: int,
    aterra_exchange_rate: int,
    total_repay_amount: int,
    aim_buffer_size: int,
    tax: TaxInfo,
    is_first_try: bool,
) -> RepayPlan {
    let s = stable_coin_balance;
    let a = aterra_balance;
    let rate = aterra_exchange_rate;
    let repay_amount = min_int(total_repay_amount, tax.subtracted(s));
    let wanted_without_tax = wanted_stablecoins_spec(s, total_repay_amount, aim_buffer_size);
    let wanted = wanted_stablecoins_spec(s, tax.appended(total_repay_amount), aim_buffer_size);
    let aterra_value = tax.subtracted(mul_dec_spec(a, rate));
    if a == 0 && s == 0 {
        RepayPlan::Nothing
    } else if wanted_without_tax == 0 && repay_amount == 0 {
        RepayPlan::Nothing
    } else if wanted == 0 && repay_amount == 0 {
        RepayPlan::Nothing
    } else if wanted == 0 {
        RepayPlan::RepayLoan { amount: repay_amount }
    } else if aterra_value == 0 && repay_amount == 0 {
        RepayPlan::Nothing
    } else if aterra_value == 0 {
        RepayPlan::RepayLoan { amount: repay_amount }
    } else if is_first_try || repay_amount == 0 {
        let to_sell = aterra_to_sell_spec(tax, wanted, a, rate);
        if expected_stables_spec(tax, to_sell, rate) == 0 {
            RepayPlan::Nothing
        } else {
            RepayPlan::SellAterra { amount: to_sell }
        }
    } else {
        let stables_after_repaying = s - tax.appended(repay_amount);
        if stables_after_repaying >= aim_buffer_size {
            RepayPlan::RepayLoan { amount: repay_amount }
        } else {
            let needed = tax.appended(total_repay_amount - repay_amount) + (aim_buffer_size
                - stables_after_repaying);
            let bounded = min_int(tax.subtracted(repay_amount), needed);
            let to_sell = aterra_to_sell_spec(tax, bounded, a, rate);
            if to_sell == 0 || expected_stables_spec(tax, to_sell, rate) == 0 {
                RepayPlan::RepayLoan { amount: repay_amount }
            } else {
                RepayPlan::RepayLoanAndSellAterra {
                    repay_loan_amount: repay_amount,
                    aterra_amount_to_sell: to_sell,
                }
            }
        }
    }
}

/// Every step `repay_loan_action_spec` takes for these inputs stays within
/// 256 bits and never subtracts past zero (the arithmetic of
/// `cosmwasm_bignumber` panics otherwise).
pub open spec fn repay_loan_action_ok(
    stable_coin_balance: int,
    aterra_balance: int,
    aterra_exchange_rate: int,
    total_repay_amount: int,
    aim_buffer_size: int,
    tax: TaxInfo,
    is_first_try: bool,
) -> bool {
    let s = stable_coin_balance;
    let a = aterra_balance;
    let rate = aterra_exchange_rate;
    let repay_amount = min_int(total_repay_amount, tax.subtracted(s));
    let wanted_without_tax = wanted_stablecoins_spec(s, total_repay_amount, aim_buffer_size);
    let wanted = wanted_stablecoins_spec(s, tax.appended(total_repay_amount), aim_buffer_size);
    let aterra_value = tax.subtracted(mul_dec_spec(a, rate));
    a == 0 && s == 0 || {
        &&& tax.can_subtract(s)
        &&& total_repay_amount + aim_buffer_size < u256_bound()
        &&& !(wanted_without_tax == 0 && repay_amount == 0) ==> {
            &&& tax.can_append(total_repay_amount)
            &&& tax.appended(total_repay_amount) + aim_buffer_size < u256_bound()
            &&& wanted != 0 ==> {
                &&& a * rate < u256_bound()
                &&& tax.can_subtract(mul_dec_spec(a, rate))
                &&& aterra_value != 0 ==> if is_first_try || repay_amount == 0 {
                    sell_ok(tax, wanted, a, rate)
                } else {
                    let stables_after_repaying = s - tax.appended(repay_amount);
                    &&& tax.can_append(repay_amount)
                    &&& tax.appended(repay_amount) <= s
                    &&& stables_after_repaying < aim_buffer_size ==> {
                        let needed = tax.appended(total_repay_amount - repay_amount) + (
                        aim_buffer_size - stables_after_repaying);
                        let bounded = min_int(tax.subtracted(repay_amount), needed);
                        &&& tax.can_append(total_repay_amount - repay_amount)
                        &&& needed < u256_bound()
                        &&& tax.can_subtract(repay_amount)
                        &&& sell_ok(tax, bounded, a, rate)
                    }
                }
            }
        }
    }
}

/// The aTerra to redeem for `wanted` stables (taxes included), at most the
/// whole balance, and the stables that redemption is expected to bring.
fn sell_aterra_amount(
    tax_info: &TaxInfo,
    wanted: Uint256,
    aterra_balance: Uint256,
    aterra_exchange_rate: Decimal256,
) -> (r: (Uint256, Uint256))
    requires
        aterra_exchange_rate@ != 0,
        sell_ok(*tax_info, wanted@ as int, aterra_balance@ as int, aterra_exchange_rate@ as int),
    ensures
        r.0@ == aterra_to_sell_spec(
            *tax_info,
            wanted@ as int,
            aterra_balance@ as int,
            aterra_exchange_rate@ as int,
        ),
        r.1@ == expected_stables_spec(*tax_info, r.0@ as int, aterra_exchange_rate@ as int),
{
    let aterra_to_sell = tax_info.append_tax(wanted).div_dec(aterra_exchange_rate);
    //make sure that we do not redeem more then we have (in case if some issue with tax precision)
    let aterra_to_sell = aterra_to_sell.min(aterra_balance);
    let expected_uusd = tax_info.subtract_tax(aterra_to_sell.mul_dec(aterra_exchange_rate));
    (aterra_to_sell, expected_uusd)
}

/// Whether the sale of aTerra for `stables` coins can be computed without
/// overflow (`sell_ok`).
fn sell_computable(tax: &TaxInfo, stables: Uint256, aterra_balance: Uint256, rate: Decimal256) -> (r: bool)
    requires
        rate@ != 0,
    ensures
        r == sell_ok(*tax, stables@ as int, aterra_balance@ as int, rate@ as int),
{
    if !tax.append_computable(stables) {
        return false;
    }
    let taxed = tax.append_tax(stables);
    if !taxed.fits_mul(&Uint256::from_u64(1_000_000_000_000_000_000u64)) {
        return false;
    }
    let to_sell = taxed.div_dec(rate).min(aterra_balance);
    if !to_sell.fits_mul(&rate.atomics()) {
        return false;
    }
    tax.subtract_computable(to_sell.mul_dec(rate))
}

/// Whether the repayment step for these inputs can be computed without
/// overflow or a subtraction past zero (`repay_loan_action_ok`); where it
/// cannot, `cosmwasm_bignumber` panics in the step.
pub fn repay_step_computable(
    stable_coin_balance: Uint256,
    aterra_balance: Uint256,
    aterra_exchange_rate: Decimal256,
    total_repay_amount: Uint256,
    aim_buffer_size: Uint256,
    tax: &TaxInfo,
    is_first_try: bool,
) -> (r: bool)
    ensures
        r == repay_loan_action_ok(
            stable_coin_balance@ as int,
            aterra_balance@ as int,
            aterra_exchange_rate@ as int,
            total_repay_amount@ as int,
            aim_buffer_size@ as int,
            *tax,
            is_first_try,
        ),
{
    let s = stable_coin_balance;
    let a = aterra_balance;
    let rate = aterra_exchange_rate;
    if a.is_zero() && s.is_zero() {
        return true;
    }
    if !tax.subtract_computable(s) {
        return false;
    }
    if !total_repay_amount.fits_add(&aim_buffer_size) {
        return false;
    }
    let repay_amount = total_repay_amount.min(tax.subtract_tax(s));
    let wanted_without_tax = calc_wanted_stablecoins(s, total_repay_amount, aim_buffer_size);
    if wanted_without_tax.is_zero() && repay_amount.is_zero() {
        return true;
    }
    if !tax.append_computable(total_repay_amount) {
        return false;
    }
    let total_taxed = tax.append_tax(total_repay_amount);
    if !total_taxed.fits_add(&aim_buffer_size) {
        return false;
    }
    let wanted = calc_wanted_stablecoins(s, total_taxed, aim_buffer_size);
    if wanted.is_zero() {
        return true;
    }
    if !a.fits_mul(&rate.atomics()) {
        return false;
    }
    let value = a.mul_dec(rate);
    if !tax.subtract_computable(value) {
        return false;
    }
    if tax.subtract_tax(value).is_zero() {
        return true;
    }
    proof {
        if rate@ == 0 {
            assert(a@ * rate@ == 0);
        }
    }
    if is_first_try || repay_amount.is_zero() {
        return sell_computable(tax, wanted, a, rate);
    }
    if !tax.append_computable(repay_amount) {
        return false;
    }
    let repay_taxed = tax.append_tax(repay_amount);
    if !repay_taxed.le(&s) {
        return false;
    }
    let stables_after_repaying = s.sub(repay_taxed);
    if !stables_after_repaying.lt(&aim_buffer_size) {
        return true;
    }
    let rest = total_repay_amount.sub(repay_amount);
    if !tax.append_computable(rest) {
        return false;
    }
    let rest_taxed = tax.append_tax(rest);
    let gap = aim_buffer_size.sub(stables_after_repaying);
    if !rest_taxed.fits_add(&gap) {
        return false;
    }
    let needed = rest_taxed.add(gap);
    if !tax.subtract_computable(repay_amount) {
        return false;
    }
    let bounded = tax.subtract_tax(repay_amount).min(needed);
    sell_computable(tax, bounded, a, rate)
}

/// The next step of repaying `total_repay_amount` of the loan while keeping
/// `aim_buffer_size` stables on the balance.
///
/// On a first try (or when nothing can be repaid from the balance) it only
/// redeems aTerra for the stables it lacks; on a later try it repays what
/// the balance allows and redeems at most the repaid amount of aTerra.
pub fn get_repay_loan_action(
    stable_coin_balance: Uint256,
    aterra_balance: Uint256,
    aterra_exchange_rate: Decimal256,
    total_repay_amount: Uint256,
    aim_buffer_size: Uint256,
    tax_info: &TaxInfo,
    is_first_try: bool,
) -> (r: RepayLoanAction)
    requires
        repay_loan_action_ok(
            stable_coin_balance@ as int,
            aterra_balance@ as int,
            aterra_exchange_rate@ as int,
            total_repay_amount@ as int,
            aim_buffer_size@ as int,
            *tax_info,
            is_first_try,
        ),
    ensures
        r@ == repay_loan_action_spec(
            stable_coin_balance@ as int,
            aterra_balance@ as int,
            aterra_exchange_rate@ as int,
            total_repay_amount@ as int,
            aim_buffer_size@ as int,
            *tax_info,
            is_first_try,
        ),
{
    if aterra_balance.is_zero() && stable_coin_balance.is_zero() {
        return RepayLoanAction::Nothing;
    }
    let max_amount_to_send = tax_info.subtract_tax(stable_coin_balance);
    let repay_amount = total_repay_amount.min(max_amount_to_send);

    let wanted_stables_without_tax = calc_wanted_stablecoins(
        stable_coin_balance,
        total_repay_amount,
        aim_buffer_size,
    );
    if wanted_stables_without_tax.is_zero() && repay_amount.is_zero() {
        return RepayLoanAction::Nothing;
    }
    //add tax to repay_amount
    let wanted_stables = calc_wanted_stablecoins(
        stable_coin_balance,
        tax_info.append_tax(total_repay_amount),
        aim_buffer_size,
    );
    if wanted_stables.is_zero() && repay_amount.is_zero() {
        return RepayLoanAction::Nothing;
    }
    if wanted_stables.is_zero() {
        return RepayLoanAction::RepayLoan { amount: repay_amount };
    }
    //anchor will pay tax, so we will recieve lesser then assume
    let aterra_value = tax_info.subtract_tax(aterra_balance.mul_dec(aterra_exchange_rate));
    if aterra_value.is_zero() && repay_amount.is_zero() {
        return RepayLoanAction::Nothing;
    }
    if aterra_value.is_zero() {
        return RepayLoanAction::RepayLoan { amount: repay_amount };
    }
    proof {
        // a positive value of the aTerra balance needs a positive rate
        if aterra_exchange_rate@ == 0 {
            assert(aterra_balance@ * aterra_exchange_rate@ == 0) by (nonlinear_arith)
                requires
                    aterra_exchange_rate@ == 0,
            ;
            lemma_div_of0(dec_scale());
        }
    }
    //on first try only selling aterra, cause with high probability we will repay loan
    //in 'reply' handler, so don't need to do that twice
    if is_first_try || repay_amount.is_zero() {
        let (aterra_to_sell, expected_uusd) = sell_aterra_amount(
            tax_info,
            wanted_stables,
            aterra_balance,
            aterra_exchange_rate,
        );
        if expected_uusd.is_zero() {
            return RepayLoanAction::Nothing;
        }
        return RepayLoanAction::SellAterra { amount: aterra_to_sell };
    }
    //it is not first try, so we are in error handling
    //that means we can't sell more aterra than loan repaid
    let repay_amount_with_tax = tax_info.append_tax(repay_amount);
    let stables_after_repaying = stable_coin_balance.sub(repay_amount_with_tax);
    if aim_buffer_size.le(&stables_after_repaying) {
        return RepayLoanAction::RepayLoan { amount: repay_amount };
    }
    let stables_to_fill_buffer = aim_buffer_size.sub(stables_after_repaying);
    let stables_to_repay_loan_remainder = tax_info.append_tax(
        total_repay_amount.sub(repay_amount),
    );
    let total_stables_needed = stables_to_repay_loan_remainder.add(stables_to_fill_buffer);
    let loan_amount_that_will_be_repaid = tax_info.subtract_tax(repay_amount);
    let bounded_aterra_value = loan_amount_that_will_be_repaid.min(total_stables_needed);
    //adding tax that anchor contract will pay to send stable coins to us
    let (aterra_to_sell, expected_uusd) = sell_aterra_amount(
        tax_info,
        bounded_aterra_value,
        aterra_balance,
        aterra_exchange_rate,
    );
    if aterra_to_sell.is_zero() || expected_uusd.is_zero() {
        RepayLoanAction::RepayLoan { amount: repay_amount }
    } else {
        RepayLoanAction::RepayLoanAndSellAterra {
            aterra_amount_to_sell: aterra_to_sell,
            repay_loan_amount: repay_amount,
        }
    }
}


/// What to do with the stables after a borrow, as numbers.
pub enum AfterBorrowPlan {
    Deposit { amount: int },
    Nothing,
}

/// After borrowing: deposit to Anchor what exceeds the aimed buffer.
#[derive(Clone, Copy, Debug, PartialEq, Eq, Structural)]
pub enum AfterBorrowAction {
    Deposit { amount: Uint256 },
    Nothing,
}

impl View for AfterBorrowAction {
    type V = AfterBorrowPlan;

    open spec fn view(&self) -> AfterBorrowPlan {
        match *self {
            AfterBorrowAction::Deposit { amount } => AfterBorrowPlan::Deposit { amount: amount@ as int },
            AfterBorrowAction::Nothing => AfterBorrowPlan::Nothing,
        }
    }
}

/// Deposits the stables above `aim_buf_size`, less the transfer tax; nothing
/// when the balance does not exceed the buffer.
pub fn calc_after_borrow_action(
    stable_coin_balance: Uint256,
    aim_buf_size: Uint256,
    tax_info: &TaxInfo,
) -> (r: AfterBorrowAction)
    requires
        aim_buf_size@ < stable_coin_balance@ ==> tax_info.can_subtract(
            stable_coin_balance@ - aim_buf_size@,
        ),
    ensures
        r@ == if aim_buf_size@ >= stable_coin_balance@ {
            AfterBorrowPlan::Nothing
        } else {
            AfterBorrowPlan::Deposit {
                amount: tax_info.subtracted(stable_coin_balance@ - aim_buf_size@),
            }
        },
{
    if stable_coin_balance.le(&aim_buf_size) {
        return AfterBorrowAction::Nothing;
    }
    let accessible_amount = stable_coin_balance.sub(aim_buf_size);
    AfterBorrowAction::Deposit { amount: tax_info.subtract_tax(accessible_amount) }
}

/// What to do with the profit of sold ANC rewards, as numbers.
pub enum ProfitPlan {
    BuyPsi { amount: int },
    DepositToAnc { amount: int },
    Split { buy_psi: int, deposit_to_anc: int },
    Nothing,
}

/// Each amount the plan sends can pay its transfer tax.
pub open spec fn plan_taxable(plan: ProfitPlan, tax_info: TaxInfo) -> bool {
    match plan {
        ProfitPlan::Nothing => true,
        ProfitPlan::DepositToAnc { amount } => tax_info.can_subtract(amount),
        ProfitPlan::BuyPsi { amount } => tax_info.can_subtract(amount),
        ProfitPlan::Split { buy_psi, deposit_to_anc } => tax_info.can_subtract(buy_psi)
            && tax_info.can_subtract(deposit_to_anc),
    }
}

/// The use of the stables gained by selling ANC rewards.
#[derive(Clone, Copy, Debug, PartialEq, Eq, Structural)]
pub enum ActionWithProfit {
    BuyPsi { amount: Uint256 },
    DepositToAnc { amount: Uint256 },
    Split { buy_psi: Uint256, deposit_to_anc: Uint256 },
    Nothing,
}

impl View for ActionWithProfit {
    type V = ProfitPlan;

    open spec fn view(&self) -> ProfitPlan {
        match *self {
            ActionWithProfit::BuyPsi { amount } => ProfitPlan::BuyPsi { amount: amount@ as int },
            ActionWithProfit::DepositToAnc { amount } => ProfitPlan::DepositToAnc {
                amount: amount@ as int,
            },
            ActionWithProfit::Split { buy_psi, deposit_to_anc } => ProfitPlan::Split {
                buy_psi: buy_psi@ as int,
                deposit_to_anc: deposit_to_anc@ as int,
            },
            ActionWithProfit::Nothing => ProfitPlan::Nothing,
        }
    }
}

/// The split of the profit (see `split_profit_to_handle_interest`).
pub open spec fn split_profit_spec(
    borrowed_amount: int,
    aterra_amount: int,
    aterra_exchange_rate: int,
    stable_coin_balance: int,
    stable_coin_balance_before_sell_anc: int,
    over_loan_balance_value: int,
) -> ProfitPlan {
    let total_before = mul_dec_spec(aterra_amount, aterra_exchange_rate)
        + stable_coin_balance_before_sell_anc;
    let profit = stable_coin_balance - stable_coin_balance_before_sell_anc;
    let aim_stable_balance = mul_dec_spec(borrowed_amount, over_loan_balance_value);
    if stable_coin_balance <= stable_coin_balance_before_sell_anc {
        ProfitPlan::Nothing
    } else if aim_stable_balance <= total_before {
        ProfitPlan::BuyPsi { amount: profit }
    } else if profit <= aim_stable_balance - total_before {
        ProfitPlan::DepositToAnc { amount: profit }
    } else {
        ProfitPlan::Split {
            buy_psi: profit - (aim_stable_balance - total_before),
            deposit_to_anc: aim_stable_balance - total_before,
        }
    }
}

/// The profit of the ANC sale (the stable balance above what it was before
/// the sale) tops the stables held up to `borrowed * over_loan_balance_value`
/// (stables on the balance plus the value of aTerra); the rest buys PSI.
pub fn split_profit_to_handle_interest(
    borrowed_amount: Uint256,
    aterra_amount: Uint256,
    aterra_exchange_rate: Decimal256,
    stable_coin_balance: Uint256,
    stable_coin_balance_before_sell_anc: Uint256,
    over_loan_balance_value: Decimal256,
) -> (r: ActionWithProfit)
    requires
        stable_coin_balance@ > stable_coin_balance_before_sell_anc@ ==> {
            &&& aterra_amount@ * aterra_exchange_rate@ < u256_bound()
            &&& mul_dec_spec(aterra_amount@ as int, aterra_exchange_rate@ as int)
                + stable_coin_balance_before_sell_anc@ < u256_bound()
            &&& borrowed_amount@ * over_loan_balance_value@ < u256_bound()
        },
    ensures
        r@ == split_profit_spec(
            borrowed_amount@ as int,
            aterra_amount@ as int,
            aterra_exchange_rate@ as int,
            stable_coin_balance@ as int,
            stable_coin_balance_before_sell_anc@ as int,
            over_loan_balance_value@ as int,
        ),
{
    if stable_coin_balance.le(&stable_coin_balance_before_sell_anc) {
        return ActionWithProfit::Nothing;
    }
    let total_stable_coin_balance_before_sell_anc = aterra_amount.mul_dec(
        aterra_exchange_rate,
    ).add(stable_coin_balance_before_sell_anc);
    let selling_anc_profit = stable_coin_balance.sub(stable_coin_balance_before_sell_anc);
    let aim_stable_balance = borrowed_amount.mul_dec(over_loan_balance_value);
    if aim_stable_balance.le(&total_stable_coin_balance_before_sell_anc) {
        return ActionWithProfit::BuyPsi { amount: selling_anc_profit };
    }
    let amount_to_anc_deposit = aim_stable_balance.sub(total_stable_coin_balance_before_sell_anc);
    if selling_anc_profit.le(&amount_to_anc_deposit) {
        return ActionWithProfit::DepositToAnc { amount: selling_anc_profit };
    }
    let buy_psi_amount = selling_anc_profit.sub(amount_to_anc_deposit);
    ActionWithProfit::Split { buy_psi: buy_psi_amount, deposit_to_anc: amount_to_anc_deposit }
}

/// The rewards the vault hands out after selling its ANC: whatever its
/// stables and aTerra are worth above `borrowed * over_loan_balance_value`
/// buys PSI; nothing when they are worth no more than that.
pub open spec fn rewards_plan_spec(
    borrowed_amount: int,
    aterra_amount: int,
    aterra_exchange_rate: int,
    stable_coin_balance: int,
    over_loan_balance_value: int,
) -> ProfitPlan {
    let total_stable_value = mul_dec_spec(aterra_amount, aterra_exchange_rate) + stable_coin_balance;
    let aim_stable_balance = mul_dec_spec(borrowed_amount, over_loan_balance_value);
    if total_stable_value <= aim_stable_balance {
        ProfitPlan::Nothing
    } else {
        ProfitPlan::BuyPsi { amount: total_stable_value - aim_stable_balance }
    }
}

/// The rewards to hand out (see `rewards_plan_spec`).
pub fn rewards_to_distribute(
    borrowed_amount: Uint256,
    aterra_amount: Uint256,
    aterra_exchange_rate: Decimal256,
    stable_coin_balance: Uint256,
    over_loan_balance_value: Decimal256,
) -> (r: ActionWithProfit)
    requires
        aterra_amount@ * aterra_exchange_rate@ < u256_bound(),
        mul_dec_spec(aterra_amount@ as int, aterra_exchange_rate@ as int) + stable_coin_balance@
            < u256_bound(),
        borrowed_amount@ * over_loan_balance_value@ < u256_bound(),
    ensures
        r@ == rewards_plan_spec(
            borrowed_amount@ as int,
            aterra_amount@ as int,
            aterra_exchange_rate@ as int,
            stable_coin_balance@ as int,
            over_loan_balance_value@ as int,
        ),
{
    let total_stable_value = aterra_amount.mul_dec(aterra_exchange_rate).add(stable_coin_balance);
    let aim_stable_balance = borrowed_amount.mul_dec(over_loan_balance_value);
    if total_stable_value.le(&aim_stable_balance) {
        ActionWithProfit::Nothing
    } else {
        ActionWithProfit::BuyPsi { amount: total_stable_value.sub(aim_stable_balance) }
    }
}

/// Pending ANC rewards are worth claiming from `MIN_ANC_REWARDS_TO_CLAIM` on.
pub fn is_anc_rewards_claimable(pending_rewards: Decimal256) -> (r: bool)
    ensures
        r == (pending_rewards@ >= MIN_ANC_REWARDS_TO_CLAIM * dec_scale()),
{
    Decimal256::from_uint256(Uint256::from_u64(MIN_ANC_REWARDS_TO_CLAIM)).le(&pending_rewards)
}

/// Pending bAsset holding rewards are worth claiming from
/// `min_holding_rewards_to_claim` on.
pub fn is_holding_rewards_claimable(
    pending_rewards: Decimal256,
    min_holding_rewards_to_claim: u64,
) -> (r: bool)
    ensures
        r == (pending_rewards@ >= min_holding_rewards_to_claim * dec_scale()),
{
    Decimal256::from_uint256(Uint256::from_u64(min_holding_rewards_to_claim)).le(&pending_rewards)
}


/// The stable coin of the vault, `amount` of it.
pub open spec fn stable_coin(config: Config, amount: Uint256) -> Option<Coin> {
    Some(Coin { denom: config.stable_denom, amount })
}

/// The messages of a repayment step.
pub open spec fn repay_messages(action: RepayLoanAction, config: Config) -> Seq<SubMessage> {
    match action {
        RepayLoanAction::Nothing => seq![],
        RepayLoanAction::RepayLoan { amount } => seq![
            reply_msg(
                SubmsgIds::RepayLoan,
                ReplyOn::Success,
                config.anchor_market_contract,
                VaultMsg::AnchorRepayStable,
                stable_coin(config, amount),
            ),
        ],
        //Always because Anchor can block withdrawing
        //if there are too many borrowers
        RepayLoanAction::SellAterra { amount } => seq![
            reply_msg(
                SubmsgIds::RedeemStableOnRepayLoan,
                ReplyOn::Always,
                config.aterra_token,
                VaultMsg::RedeemStable { market: config.anchor_market_contract, amount },
                None,
            ),
        ],
        RepayLoanAction::RepayLoanAndSellAterra { repay_loan_amount, aterra_amount_to_sell } => seq![
            reply_msg(
                SubmsgIds::RepayLoan,
                ReplyOn::Success,
                config.anchor_market_contract,
                VaultMsg::AnchorRepayStable,
                stable_coin(config, repay_loan_amount),
            ),
            reply_msg(
                SubmsgIds::RedeemStableOnRepayLoan,
                ReplyOn::Success,
                config.aterra_token,
                VaultMsg::RedeemStable {
                    market: config.anchor_market_contract,
                    amount: aterra_amount_to_sell,
                },
                None,
            ),
        ],
    }
}

/// The attributes of a repayment step.
pub open spec fn repay_attributes(action: RepayLoanAction) -> Seq<(Seq<char>, Seq<char>)> {
    match action {
        RepayLoanAction::Nothing => seq![],
        RepayLoanAction::RepayLoan { amount } => seq![
            ("action"@, "repay_loan"@),
            ("amount"@, u256_decimal(amount@)),
        ],
        RepayLoanAction::SellAterra { amount } => seq![
            ("action"@, "sell_aterra"@),
            ("amount"@, u256_decimal(amount@)),
        ],
        RepayLoanAction::RepayLoanAndSellAterra { repay_loan_amount, aterra_amount_to_sell } => seq![
            ("action_1"@, "repay_loan"@),
            ("loan_amount"@, u256_decimal(repay_loan_amount@)),
            ("action_2"@, "sell_aterra"@),
            ("aterra_amount"@, u256_decimal(aterra_amount_to_sell@)),
        ],
    }
}

impl RepayLoanAction {
    /// The messages carrying out this step: repaying sends the stables to the
    /// market (reply on success), redeeming sends aTerra to the market (reply
    /// always when redeeming alone, since Anchor may refuse to pay out).
    pub fn to_response(&self, config: &Config) -> (r: Response)
        ensures
            r.messages@ == repay_messages(*self, *config),
            r.attrs() == repay_attributes(*self),
    {
        let mut response = Response::new();
        match self {
            RepayLoanAction::Nothing => {},
            RepayLoanAction::RepayLoan { amount } => {
                response.messages.push(
                    with_reply(
                        SubmsgIds::RepayLoan,
                        ReplyOn::Success,
                        config.anchor_market_contract.clone(),
                        VaultMsg::AnchorRepayStable,
                        Some(Coin { denom: config.stable_denom.clone(), amount: *amount }),
                    ),
                );
                response.attributes.push(attr_str("action", "repay_loan"));
                response.attributes.push(attr("amount", amount.to_string()));
            },
            RepayLoanAction::SellAterra { amount } => {
                response.messages.push(
                    with_reply(
                        SubmsgIds::RedeemStableOnRepayLoan,
                        ReplyOn::Always,
                        config.aterra_token.clone(),
                        VaultMsg::RedeemStable {
                            market: config.anchor_market_contract.clone(),
                            amount: *amount,
                        },
                        None,
                    ),
                );
                response.attributes.push(attr_str("action", "sell_aterra"));
                response.attributes.push(attr("amount", amount.to_string()));
            },
            RepayLoanAction::RepayLoanAndSellAterra { repay_loan_amount, aterra_amount_to_sell } => {
                //first message is to repay loan
                response.messages.push(
                    with_reply(
                        SubmsgIds::RepayLoan,
                        ReplyOn::Success,
                        config.anchor_market_contract.clone(),
                        VaultMsg::AnchorRepayStable,
                        Some(Coin { denom: config.stable_denom.clone(), amount: *repay_loan_amount }),
                    ),
                );
                response.messages.push(
                    with_reply(
                        SubmsgIds::RedeemStableOnRepayLoan,
                        ReplyOn::Success,
                        config.aterra_token.clone(),
                        VaultMsg::RedeemStable {
                            market: config.anchor_market_contract.clone(),
                            amount: *aterra_amount_to_sell,
                        },
                        None,
                    ),
                );
                response.attributes.push(attr_str("action_1", "repay_loan"));
                response.attributes.push(attr("loan_amount", repay_loan_amount.to_string()));
                response.attributes.push(attr_str("action_2", "sell_aterra"));
                response.attributes.push(attr("aterra_amount", aterra_amount_to_sell.to_string()));
            },
        }
        proof {
            assert(response.attrs() =~= repay_attributes(*self));
        }
        response
    }
}

impl AfterBorrowAction {
    /// Deposits the amount to the Anchor market; nothing to send otherwise.
    pub fn to_response(&self, config: &Config) -> (r: Response)
        ensures
            r.messages@ == match *self {
                AfterBorrowAction::Nothing => Seq::<SubMessage>::empty(),
                AfterBorrowAction::Deposit { amount } => seq![
                    plain_msg(
                        config.anchor_market_contract,
                        VaultMsg::AnchorDepositStable,
                        stable_coin(*config, amount),
                    ),
                ],
            },
            r.attrs() == match *self {
                AfterBorrowAction::Nothing => Seq::<(Seq<char>, Seq<char>)>::empty(),
                AfterBorrowAction::Deposit { amount } => seq![
                    ("action"@, "deposit"@),
                    ("amount"@, u256_decimal(amount@)),
                ],
            },
    {
        let mut response = Response::new();
        match self {
            AfterBorrowAction::Nothing => {},
            AfterBorrowAction::Deposit { amount } => {
                response.messages.push(
                    plain(
                        config.anchor_market_contract.clone(),
                        VaultMsg::AnchorDepositStable,
                        Some(Coin { denom: config.stable_denom.clone(), amount: *amount }),
                    ),
                );
                response.attributes.push(attr_str("action", "deposit"));
                response.attributes.push(attr("amount", amount.to_string()));
            },
        }
        proof {
            assert(response.attrs() =~= match *self {
                AfterBorrowAction::Nothing => Seq::<(Seq<char>, Seq<char>)>::empty(),
                AfterBorrowAction::Deposit { amount } => seq![
                    ("action"@, "deposit"@),
                    ("amount"@, u256_decimal(amount@)),
                ],
            });
        }
        response
    }
}

/// Swapping `amount` stables for PSI sent to the distributor, then having it
/// distribute them.
pub open spec fn buy_psi_messages(config: Config, amount: Uint256) -> Seq<SubMessage> {
    seq![
        plain_msg(
            config.psi_stable_swap_contract,
            VaultMsg::SwapStable {
                offer_denom: config.stable_denom,
                offer_amount: amount,
                to: config.psi_distributor,
            },
            stable_coin(config, amount),
        ),
        plain_msg(config.psi_distributor, VaultMsg::DistributePsiRewards, None),
    ]
}

/// Depositing `amount` stables to the Anchor market.
pub open spec fn deposit_message(config: Config, amount: Uint256) -> SubMessage {
    plain_msg(config.anchor_market_contract, VaultMsg::AnchorDepositStable, stable_coin(config, amount))
}

/// The stables sent on once the transfer tax is paid: `subtracted` amounts.
pub open spec fn profit_messages(
    action: ActionWithProfit,
    config: Config,
    deposit: Uint256,
    buy: Uint256,
) -> Seq<SubMessage> {
    match action {
        ActionWithProfit::Nothing => seq![],
        ActionWithProfit::DepositToAnc { .. } => seq![deposit_message(config, deposit)],
        ActionWithProfit::BuyPsi { .. } => buy_psi_messages(config, buy),
        ActionWithProfit::Split { .. } => seq![deposit_message(config, deposit)] + buy_psi_messages(
            config,
            buy,
        ),
    }
}

pub open spec fn profit_attributes(action: ActionWithProfit, deposit: Uint256, buy: Uint256) -> Seq<
    (Seq<char>, Seq<char>),
> {
    match action {
        ActionWithProfit::Nothing => seq![
            ("action"@, "distribute_rewards"@),
            ("rewards_profit"@, "zero"@),
        ],
        ActionWithProfit::DepositToAnc { .. } => seq![
            ("action"@, "distribute_rewards"@),
            ("deposit_to_anc"@, u256_decimal(deposit@)),
        ],
        ActionWithProfit::BuyPsi { .. } => seq![
            ("action"@, "distribute_rewards"@),
            ("bying_psi"@, u256_decimal(buy@)),
        ],
        ActionWithProfit::Split { .. } => seq![
            ("action"@, "distribute_rewards"@),
            ("bying_psi"@, u256_decimal(buy@)),
            ("deposit_to_anc"@, u256_decimal(deposit@)),
        ],
    }
}

impl ActionWithProfit {
    /// The amounts to deposit and to spend on PSI; the tax is taken from each.
    pub open spec fn can_respond(&self, tax_info: TaxInfo) -> bool {
        match *self {
            ActionWithProfit::Nothing => true,
            ActionWithProfit::DepositToAnc { amount } => tax_info.can_subtract(amount@ as int),
            ActionWithProfit::BuyPsi { amount } => tax_info.can_subtract(amount@ as int),
            ActionWithProfit::Split { buy_psi, deposit_to_anc } => tax_info.can_subtract(
                buy_psi@ as int,
            ) && tax_info.can_subtract(deposit_to_anc@ as int),
        }
    }

    /// Deposits the profit to Anchor, or swaps it for PSI which the
    /// distributor then hands out, or both; each amount less its tax.
    pub fn to_response(&self, config: &Config, tax_info: &TaxInfo) -> (r: Response)
        requires
            self.can_respond(*tax_info),
        ensures
            exists|deposit: Uint256, buy: Uint256|
                {
                    &&& deposit@ == match *self {
                        ActionWithProfit::DepositToAnc { amount } => tax_info.subtracted(amount@ as int),
                        ActionWithProfit::Split { deposit_to_anc, .. } => tax_info.subtracted(
                            deposit_to_anc@ as int,
                        ),
                        _ => 0,
                    }
                    &&& buy@ == match *self {
                        ActionWithProfit::BuyPsi { amount } => tax_info.subtracted(amount@ as int),
                        ActionWithProfit::Split { buy_psi, .. } => tax_info.subtracted(buy_psi@ as int),
                        _ => 0,
                    }
                    &&& r.messages@ == profit_messages(*self, *config, deposit, buy)
                    &&& r.attrs() == profit_attributes(*self, deposit, buy)
                },
    {
        let mut response = Response::new();
        let mut deposit = Uint256::zero();
        let mut buy = Uint256::zero();
        match self {
            ActionWithProfit::Nothing => {
                response.attributes.push(attr_str("action", "distribute_rewards"));
                response.attributes.push(attr_str("rewards_profit", "zero"));
            },
            ActionWithProfit::DepositToAnc { amount } => {
                deposit = tax_info.subtract_tax(*amount);
                response.messages.push(
                    plain(
                        config.anchor_market_contract.clone(),
                        VaultMsg::AnchorDepositStable,
                        Some(Coin { denom: config.stable_denom.clone(), amount: deposit }),
                    ),
                );
                response.attributes.push(attr_str("action", "distribute_rewards"));
                response.attributes.push(attr("deposit_to_anc", deposit.to_string()));
            },
            ActionWithProfit::BuyPsi { amount } => {
                buy = tax_info.subtract_tax(*amount);
                self::push_buy_psi(&mut response, config, buy);
                response.attributes.push(attr_str("action", "distribute_rewards"));
                response.attributes.push(attr("bying_psi", buy.to_string()));
            },
            ActionWithProfit::Split { buy_psi, deposit_to_anc } => {
                deposit = tax_info.subtract_tax(*deposit_to_anc);
                buy = tax_info.subtract_tax(*buy_psi);
                response.messages.push(
                    plain(
                        config.anchor_market_contract.clone(),
                        VaultMsg::AnchorDepositStable,
                        Some(Coin { denom: config.stable_denom.clone(), amount: deposit }),
                    ),
                );
                self::push_buy_psi(&mut response, config, buy);
                response.attributes.push(attr_str("action", "distribute_rewards"));
                response.attributes.push(attr("bying_psi", buy.to_string()));
                response.attributes.push(attr("deposit_to_anc", deposit.to_string()));
            },
        }
        proof {
            assert(response.messages@ =~= profit_messages(*self, *config, deposit, buy));
            assert(response.attrs() =~= profit_attributes(*self, deposit, buy));
        }
        response
    }
}

/// Appends the PSI purchase for `amount` stables to the answer.
fn push_buy_psi(response: &mut Response, config: &Config, amount: Uint256)
    ensures
        final(response).messages@ == old(response).messages@ + buy_psi_messages(*config, amount),
        final(response).attributes == old(response).attributes,
{
    response.messages.push(
        plain(
            config.psi_stable_swap_contract.clone(),
            VaultMsg::SwapStable {
                offer_denom: config.stable_denom.clone(),
                offer_amount: amount,
                to: config.psi_distributor.clone(),
            },
            Some(Coin { denom: config.stable_denom.clone(), amount }),
        ),
    );
    response.messages.push(plain(config.psi_distributor.clone(), VaultMsg::DistributePsiRewards, None));
    proof {
        assert(response.messages@ =~= old(response).messages@ + buy_psi_messages(*config, amount));
    }
}


/// A repayment step repays at most what is still owed and at most what the
/// stable balance can send once taxed, and redeems at most the aTerra held;
/// with neither stables nor aTerra it does nothing.
pub proof fn lemma_repay_step_bounded(
    stable_coin_balance: int,
    aterra_balance: int,
    aterra_exchange_rate: int,
    total_repay_amount: int,
    aim_buffer_size: int,
    tax: TaxInfo,
    is_first_try: bool,
)
    requires
        aterra_balance >= 0,
    ensures
        ({
            let plan = repay_loan_action_spec(
                stable_coin_balance,
                aterra_balance,
                aterra_exchange_rate,
                total_repay_amount,
                aim_buffer_size,
                tax,
                is_first_try,
            );
            &&& plan matches RepayPlan::RepayLoan { amount } ==> amount <= total_repay_amount
                && amount <= tax.subtracted(stable_coin_balance)
            &&& plan matches RepayPlan::RepayLoanAndSellAterra {
                repay_loan_amount,
                aterra_amount_to_sell,
            } ==> repay_loan_amount <= total_repay_amount && repay_loan_amount <= tax.subtracted(
                stable_coin_balance,
            ) && aterra_amount_to_sell <= aterra_balance
            &&& plan matches RepayPlan::SellAterra { amount } ==> amount <= aterra_balance
            &&& (stable_coin_balance == 0 && aterra_balance == 0) ==> plan is Nothing
        }),
{
}

/// The wanted stables are exactly what is missing: with them the balance
/// covers the repayment and the buffer, and nothing is wanted when it
/// already does.
pub proof fn lemma_wanted_stablecoins_cover(balance: int, repay_amount: int, aim_buffer_size: int)
    ensures
        balance + wanted_stablecoins_spec(balance, repay_amount, aim_buffer_size) >= repay_amount
            + aim_buffer_size,
        wanted_stablecoins_spec(balance, repay_amount, aim_buffer_size) >= 0,
        wanted_stablecoins_spec(balance, repay_amount, aim_buffer_size) == 0 || balance
            + wanted_stablecoins_spec(balance, repay_amount, aim_buffer_size) == repay_amount
            + aim_buffer_size,
{
}

/// After a borrow, only stables above the buffer are deposited, never more
/// than that surplus.
pub proof fn lemma_after_borrow_keeps_buffer(stable_coin_balance: int, aim_buf_size: int, tax: TaxInfo)
    requires
        aim_buf_size < stable_coin_balance,
        tax.can_subtract(stable_coin_balance - aim_buf_size),
    ensures
        0 <= tax.subtracted(stable_coin_balance - aim_buf_size),
        tax.subtracted(stable_coin_balance - aim_buf_size) <= stable_coin_balance - aim_buf_size,
{
    crate::tax::lemma_tax_bounds(tax, stable_coin_balance - aim_buf_size);
}

/// The profit of the ANC sale is used whole: the parts of a split add up to
/// it (both positive), and a single use takes all of it.
pub proof fn lemma_profit_fully_used(
    borrowed_amount: int,
    aterra_amount: int,
    aterra_exchange_rate: int,
    stable_coin_balance: int,
    stable_coin_balance_before_sell_anc: int,
    over_loan_balance_value: int,
)
    requires
        aterra_amount >= 0,
        aterra_exchange_rate >= 0,
        stable_coin_balance_before_sell_anc >= 0,
    ensures
        ({
            let profit = stable_coin_balance - stable_coin_balance_before_sell_anc;
            let plan = split_profit_spec(
                borrowed_amount,
                aterra_amount,
                aterra_exchange_rate,
                stable_coin_balance,
                stable_coin_balance_before_sell_anc,
                over_loan_balance_value,
            );
            &&& plan is Nothing <==> profit <= 0
            &&& plan matches ProfitPlan::BuyPsi { amount } ==> amount == profit
            &&& plan matches ProfitPlan::DepositToAnc { amount } ==> amount == profit
            &&& plan matches ProfitPlan::Split { buy_psi, deposit_to_anc } ==> buy_psi
                + deposit_to_anc == profit && buy_psi > 0 && deposit_to_anc > 0
        }),
{
}

} // verus!
