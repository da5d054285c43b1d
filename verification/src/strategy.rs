//! The vault strategy: when to borrow stables against the locked bAsset,
//! when to repay, and when to leave Anchor altogether.
use vstd::prelude::*;
use crate::math::{Decimal256, Uint256, dec_scale, mul_dec_spec, u256_bound};

verus! {

/// Refusals of the strategy contract.
#[derive(Clone, Copy, Debug, PartialEq, Eq, Structural)]
pub enum StrategyError {
    /// A loan-to-value setting outside its allowed range.
    InappropriateValue,
    /// The buffer part is above one.
    BufferPartAboveOne,
    /// The Anchor APR could not be queried.
    AprUnavailable,
}

/// Settings of the strategy.  The loan-to-value settings are private: they
/// only change through the validating setters.
#[derive(Clone, Debug)]
pub struct Config {
    pub governance_contract: String,
    pub oracle_contract: String,
    pub basset_token: String,
    pub stable_denom: String,
    borrow_ltv_max: Decimal256,
    borrow_ltv_min: Decimal256,
    borrow_ltv_aim: Decimal256,
    basset_max_ltv: Decimal256,
    //(max_ltv - aim_ltv)*0.35
    //(0.85-0.8) * 0.35 = 0.018
    //to be able to repay loan in 3 iterations (in case of aterra locked)
    buffer_part: Decimal256,
    pub price_timeframe: u64,
}

/// `1 >= max > aim > min >= 0`.
pub open spec fn valid_borrow_ltvs(max: int, min: int, aim: int) -> bool {
    dec_scale() >= max && max > aim && aim > min && min >= 0
}

/// A part in `(0, 1]`.
pub open spec fn valid_part(value: int) -> bool {
    value != 0 && value <= dec_scale()
}

impl Config {
    pub closed spec fn spec_borrow_ltv_max(&self) -> int {
        self.borrow_ltv_max@ as int
    }

    pub closed spec fn spec_borrow_ltv_min(&self) -> int {
        self.borrow_ltv_min@ as int
    }

    pub closed spec fn spec_borrow_ltv_aim(&self) -> int {
        self.borrow_ltv_aim@ as int
    }

    pub closed spec fn spec_basset_max_ltv(&self) -> int {
        self.basset_max_ltv@ as int
    }

    pub closed spec fn spec_buffer_part(&self) -> int {
        self.buffer_part@ as int
    }

    /// The addresses, the stable denomination and the price timeframe.
    pub closed spec fn spec_others(&self) -> (Seq<char>, Seq<char>, Seq<char>, Seq<char>, u64) {
        (
            self.governance_contract@,
            self.oracle_contract@,
            self.basset_token@,
            self.stable_denom@,
            self.price_timeframe,
        )
    }

    /// The settings are consistent.
    pub open spec fn wf(&self) -> bool {
        &&& valid_borrow_ltvs(
            self.spec_borrow_ltv_max(),
            self.spec_borrow_ltv_min(),
            self.spec_borrow_ltv_aim(),
        )
        &&& valid_part(self.spec_basset_max_ltv())
        &&& valid_part(self.spec_buffer_part())
    }

    /// Builds the settings; refused unless `1 >= max > aim > min >= 0` and
    /// both `basset_max_ltv` and `buffer_part` lie in `(0, 1]`.
    pub fn new(
        governance_contract: String,
        oracle_contract: String,
        basset_token: String,
        stable_denom: String,
        borrow_ltv_max: Decimal256,
        borrow_ltv_min: Decimal256,
        borrow_ltv_aim: Decimal256,
        basset_max_ltv: Decimal256,
        buffer_part: Decimal256,
        price_timeframe: u64,
    ) -> (r: Result<Config, StrategyError>)
        ensures
            r is Ok <==> (valid_borrow_ltvs(
                borrow_ltv_max@ as int,
                borrow_ltv_min@ as int,
                borrow_ltv_aim@ as int,
            ) && valid_part(basset_max_ltv@ as int) && valid_part(buffer_part@ as int)),
            r is Err ==> r == Err::<Config, StrategyError>(StrategyError::InappropriateValue),
            r matches Ok(c) ==> {
                &&& c.wf()
                &&& c.spec_others() == (
                    governance_contract@,
                    oracle_contract@,
                    basset_token@,
                    stable_denom@,
                    price_timeframe,
                )
                &&& c.spec_borrow_ltv_max() == borrow_ltv_max@
                &&& c.spec_borrow_ltv_min() == borrow_ltv_min@
                &&& c.spec_borrow_ltv_aim() == borrow_ltv_aim@
                &&& c.spec_basset_max_ltv() == basset_max_ltv@
                &&& c.spec_buffer_part() == buffer_part@
            },
    {
        if let Err(e) = Self::validate_borrow_ltvs(borrow_ltv_max, borrow_ltv_min, borrow_ltv_aim) {
            return Err(e);
        }
        let mut config = Config {
            governance_contract,
            oracle_contract,
            basset_token,
            stable_denom,
            borrow_ltv_max,
            borrow_ltv_min,
            borrow_ltv_aim,
            basset_max_ltv,
            buffer_part,
            price_timeframe,
        };
        if let Err(e) = config.set_basset_max_ltv(basset_max_ltv) {
            return Err(e);
        }
        if let Err(e) = config.set_buffer_part(buffer_part) {
            return Err(e);
        }
        Ok(config)
    }

    /// Sets the part of the collateral value Anchor lends against; refused
    /// (settings unchanged) unless it lies in `(0, 1]`.
    pub fn set_basset_max_ltv(&mut self, value: Decimal256) -> (r: Result<(), StrategyError>)
        ensures
            old(self).wf() ==> final(self).wf(),
            r is Ok <==> valid_part(value@ as int),
            r is Err ==> r == Err::<(), StrategyError>(StrategyError::InappropriateValue)
                && *final(self) == *old(self),
            r is Ok ==> final(self).spec_basset_max_ltv() == value@ && final(self).spec_borrow_ltv_max()
                == old(self).spec_borrow_ltv_max() && final(self).spec_borrow_ltv_min()
                == old(self).spec_borrow_ltv_min() && final(self).spec_borrow_ltv_aim()
                == old(self).spec_borrow_ltv_aim() && final(self).spec_buffer_part()
                == old(self).spec_buffer_part() && final(self).spec_others()
                == old(self).spec_others(),
    {
        if value.is_zero() || Decimal256::one().lt(&value) {
            return Err(StrategyError::InappropriateValue);
        }
        self.basset_max_ltv = value;
        Ok(())
    }

    /// Sets the part of the borrowed amount kept as a stable buffer; refused
    /// (settings unchanged) unless it lies in `(0, 1]`.
    pub fn set_buffer_part(&mut self, value: Decimal256) -> (r: Result<(), StrategyError>)
        ensures
            old(self).wf() ==> final(self).wf(),
            r is Ok <==> valid_part(value@ as int),
            r is Err ==> r == Err::<(), StrategyError>(StrategyError::InappropriateValue)
                && *final(self) == *old(self),
            r is Ok ==> final(self).spec_buffer_part() == value@ && final(self).spec_borrow_ltv_max()
                == old(self).spec_borrow_ltv_max() && final(self).spec_borrow_ltv_min()
                == old(self).spec_borrow_ltv_min() && final(self).spec_borrow_ltv_aim()
                == old(self).spec_borrow_ltv_aim() && final(self).spec_basset_max_ltv()
                == old(self).spec_basset_max_ltv() && final(self).spec_others()
                == old(self).spec_others(),
    {
        if value.is_zero() || Decimal256::one().lt(&value) {
            return Err(StrategyError::InappropriateValue);
        }
        self.buffer_part = value;
        Ok(())
    }

    /// Sets the three loan-to-value bounds together; refused (settings
    /// unchanged) unless `1 >= max > aim > min >= 0`.
    pub fn validate_and_set_borrow_ltvs(
        &mut self,
        borrow_ltv_max: Decimal256,
        borrow_ltv_min: Decimal256,
        borrow_ltv_aim: Decimal256,
    ) -> (r: Result<(), StrategyError>)
        ensures
            old(self).wf() ==> final(self).wf(),
            r is Ok <==> valid_borrow_ltvs(
                borrow_ltv_max@ as int,
                borrow_ltv_min@ as int,
                borrow_ltv_aim@ as int,
            ),
            r is Err ==> r == Err::<(), StrategyError>(StrategyError::InappropriateValue)
                && *final(self) == *old(self),
            r is Ok ==> final(self).spec_borrow_ltv_max() == borrow_ltv_max@
                && final(self).spec_borrow_ltv_min() == borrow_ltv_min@
                && final(self).spec_borrow_ltv_aim() == borrow_ltv_aim@
                && final(self).spec_basset_max_ltv() == old(self).spec_basset_max_ltv()
                && final(self).spec_buffer_part() == old(self).spec_buffer_part()
                && final(self).spec_others() == old(self).spec_others(),
    {
        if let Err(e) = Self::validate_borrow_ltvs(borrow_ltv_max, borrow_ltv_min, borrow_ltv_aim) {
            return Err(e);
        }
        self.borrow_ltv_max = borrow_ltv_max;
        self.borrow_ltv_min = borrow_ltv_min;
        self.borrow_ltv_aim = borrow_ltv_aim;
        Ok(())
    }

    fn validate_borrow_ltvs(
        borrow_ltv_max: Decimal256,
        borrow_ltv_min: Decimal256,
        borrow_ltv_aim: Decimal256,
    ) -> (r: Result<(), StrategyError>)
        ensures
            r is Ok <==> valid_borrow_ltvs(
                borrow_ltv_max@ as int,
                borrow_ltv_min@ as int,
                borrow_ltv_aim@ as int,
            ),
            r is Err ==> r == Err::<(), StrategyError>(StrategyError::InappropriateValue),
    {
        let one = Decimal256::one();
        let zero = Decimal256::zero();
        if borrow_ltv_max.le(&one) && borrow_ltv_aim.lt(&borrow_ltv_max) && borrow_ltv_min.lt(
            &borrow_ltv_aim,
        ) && zero.le(&borrow_ltv_min) {
            Ok(())
        } else {
            Err(StrategyError::InappropriateValue)
        }
    }

    pub fn get_borrow_ltv_max(&self) -> (r: Decimal256)
        ensures
            r@ == self.spec_borrow_ltv_max(),
    {
        self.borrow_ltv_max
    }

    pub fn get_borrow_ltv_min(&self) -> (r: Decimal256)
        ensures
            r@ == self.spec_borrow_ltv_min(),
    {
        self.borrow_ltv_min
    }

    pub fn get_borrow_ltv_aim(&self) -> (r: Decimal256)
        ensures
            r@ == self.spec_borrow_ltv_aim(),
    {
        self.borrow_ltv_aim
    }

    pub fn get_basset_max_ltv(&self) -> (r: Decimal256)
        ensures
            r@ == self.spec_basset_max_ltv(),
    {
        self.basset_max_ltv
    }

    pub fn get_buffer_part(&self) -> (r: Decimal256)
        ensures
            r@ == self.spec_buffer_part(),
    {
        self.buffer_part
    }
}


/// Queries understood by the price oracle.
#[derive(Clone, Debug, PartialEq, Eq)]
pub enum OracleQueryMsg {
    Config {},
    Feeder { asset: String },
    Price { base: String, quote: String },
    Prices { start_after: Option<String>, limit: Option<u32> },
}

/// The oracle's answer for a price: the rate and when each side of the pair
/// was last updated (seconds).
#[derive(Clone, Copy, Debug, PartialEq, Eq, Structural)]
pub struct PriceResponse {
    pub rate: Decimal256,
    pub last_updated_base: u64,
    pub last_updated_quote: u64,
}

/// The bAsset price with the loan-to-value bounds in force.
#[derive(Clone, Copy, Debug, PartialEq, Eq, Structural)]
pub struct LTVInfo {
    pub basset_price: Decimal256,
    pub borrow_ltv_max: Decimal256,
    pub borrow_ltv_min: Decimal256,
    pub borrow_ltv_aim: Decimal256,
}

/// The bAsset price and the loan-to-value bounds, as numbers (atomics).
pub struct LtvView {
    pub basset_price: int,
    pub borrow_ltv_max: int,
    pub borrow_ltv_min: int,
    pub borrow_ltv_aim: int,
}

impl View for LTVInfo {
    type V = LtvView;

    open spec fn view(&self) -> LtvView {
        LtvView {
            basset_price: self.basset_price@ as int,
            borrow_ltv_max: self.borrow_ltv_max@ as int,
            borrow_ltv_min: self.borrow_ltv_min@ as int,
            borrow_ltv_aim: self.borrow_ltv_aim@ as int,
        }
    }
}

/// The bounds in force: those of the settings, halved (rounded down) when
/// the price is stale.
pub open spec fn ltv_info_spec(
    max: int,
    min: int,
    aim: int,
    price_timeframe: int,
    price: PriceResponse,
    block_time: int,
) -> LtvView {
    if price_is_stale(price, price_timeframe, block_time) {
        LtvView {
            basset_price: price.rate@ as int,
            borrow_ltv_max: max / 2,
            borrow_ltv_min: min / 2,
            borrow_ltv_aim: aim / 2,
        }
    } else {
        LtvView {
            basset_price: price.rate@ as int,
            borrow_ltv_max: max,
            borrow_ltv_min: min,
            borrow_ltv_aim: aim,
        }
    }
}

/// The oracle price is older than `price_timeframe` seconds before
/// `block_time`, on either side of the pair.
pub open spec fn price_is_stale(price: PriceResponse, price_timeframe: int, block_time: int) -> bool {
    price.last_updated_base < block_time - price_timeframe || price.last_updated_quote
        < block_time - price_timeframe
}

impl LTVInfo {
    /// The bounds of the settings, halved (rounded down) when the oracle
    /// price is stale, to stay away from a liquidation.
    pub fn new(
        borrow_ltv_max: Decimal256,
        borrow_ltv_min: Decimal256,
        borrow_ltv_aim: Decimal256,
        price_timeframe: u64,
        price: &PriceResponse,
        block_time: u64,
    ) -> (r: LTVInfo)
        requires
            price_timeframe <= block_time,
            borrow_ltv_max@ * (50 * 10_000_000_000_000_000int) < u256_bound(),
            borrow_ltv_min@ * (50 * 10_000_000_000_000_000int) < u256_bound(),
            borrow_ltv_aim@ * (50 * 10_000_000_000_000_000int) < u256_bound(),
        ensures
            r@ == ltv_info_spec(
                borrow_ltv_max@ as int,
                borrow_ltv_min@ as int,
                borrow_ltv_aim@ as int,
                price_timeframe as int,
                *price,
                block_time as int,
            ),
            r.basset_price == price.rate,
            price_is_stale(*price, price_timeframe as int, block_time as int) ==> {
                &&& r.borrow_ltv_max@ == borrow_ltv_max@ / 2
                &&& r.borrow_ltv_min@ == borrow_ltv_min@ / 2
                &&& r.borrow_ltv_aim@ == borrow_ltv_aim@ / 2
            },
            !price_is_stale(*price, price_timeframe as int, block_time as int) ==> {
                &&& r.borrow_ltv_max == borrow_ltv_max
                &&& r.borrow_ltv_min == borrow_ltv_min
                &&& r.borrow_ltv_aim == borrow_ltv_aim
            },
    {
        let valid_update_time = block_time - price_timeframe;
        if price.last_updated_base < valid_update_time || price.last_updated_quote
            < valid_update_time {
            //if price is too old we divide our LTV by half to avoid sharp liquidation
            let half = Decimal256::percent(50);
            return LTVInfo {
                basset_price: price.rate,
                borrow_ltv_max: borrow_ltv_max.mul(half),
                borrow_ltv_min: borrow_ltv_min.mul(half),
                borrow_ltv_aim: borrow_ltv_aim.mul(half),
            };
        }
        LTVInfo { basset_price: price.rate, borrow_ltv_max, borrow_ltv_min, borrow_ltv_aim }
    }
}

/// Anchor's borrow APR in two parts: the ANC distribution it pays and the
/// interest it charges.
#[derive(Clone, Copy, Debug, PartialEq, Eq, Structural)]
pub struct BorrowNetApr {
    pub distribution_apr: Decimal256,
    pub interest_apr: Decimal256,
}

/// Anchor's earn APR and borrow APR.
#[derive(Clone, Copy, Debug, PartialEq, Eq, Structural)]
pub struct AnchorApr {
    pub earn: Decimal256,
    pub borrow: BorrowNetApr,
}

/// The earn APR on the deposited part plus the distribution APR exceed the
/// interest APR (all decimals given by their atomics).
pub open spec fn is_profitable_spec(apr: AnchorApr, buffer_part: int) -> bool {
    apr.borrow.distribution_apr@ + (apr.earn@ * (dec_scale() - buffer_part)) / dec_scale()
        > apr.borrow.interest_apr@
}

pub open spec fn is_profitable_ok(apr: AnchorApr, buffer_part: int) -> bool {
    &&& buffer_part <= dec_scale()
    &&& apr.earn@ * (dec_scale() - buffer_part) < u256_bound()
    &&& apr.borrow.distribution_apr@ + (apr.earn@ * (dec_scale() - buffer_part)) / dec_scale()
        < u256_bound()
}

impl AnchorApr {
    /// Borrowing to earn on Anchor pays: the earn APR of the deposited part
    /// (all but `buffer_part`) plus the ANC distribution APR exceed the
    /// borrow interest APR.
    pub fn is_profitable(&self, buffer_part: Decimal256) -> (r: bool)
        requires
            is_profitable_ok(*self, buffer_part@ as int),
        ensures
            r == is_profitable_spec(*self, buffer_part@ as int),
    {
        let deposited_part = Decimal256::one().sub(buffer_part);
        let earn_of_deposited_part = self.earn.mul(deposited_part);
        let distr = self.borrow.distribution_apr;
        let interest = self.borrow.interest_apr;
        interest.lt(&distr.add(earn_of_deposited_part))
    }
}

/// The strategy's advice, as numbers.
pub enum BorrowerPlan {
    Nothing,
    Borrow { amount: int, advised_buffer_size: int },
    Repay { amount: int, advised_buffer_size: int },
    Deposit { deposit_amount: int, action_after: Box<BorrowerPlan> },
    RepayAllAndWithdraw { withdraw_amount: int },
}

/// The strategy's advice to the vault.
#[derive(Debug, PartialEq, Eq)]
pub enum BorrowerActionResponse {
    Nothing,
    Borrow { amount: Uint256, advised_buffer_size: Uint256 },
    Repay { amount: Uint256, advised_buffer_size: Uint256 },
    /// Lock `deposit_amount` bAsset as collateral, then do `action_after`.
    Deposit { deposit_amount: Uint256, action_after: Box<BorrowerActionResponse> },
    /// Repay the whole loan and withdraw `withdraw_amount` bAsset.
    RepayAllAndWithdraw { withdraw_amount: Uint256 },
}

impl View for BorrowerActionResponse {
    type V = BorrowerPlan;

    open spec fn view(&self) -> BorrowerPlan
        decreases self,
    {
        match self {
            BorrowerActionResponse::Nothing => BorrowerPlan::Nothing,
            BorrowerActionResponse::Borrow { amount, advised_buffer_size } => BorrowerPlan::Borrow {
                amount: amount@ as int,
                advised_buffer_size: advised_buffer_size@ as int,
            },
            BorrowerActionResponse::Repay { amount, advised_buffer_size } => BorrowerPlan::Repay {
                amount: amount@ as int,
                advised_buffer_size: advised_buffer_size@ as int,
            },
            BorrowerActionResponse::Deposit { deposit_amount, action_after } =>
                BorrowerPlan::Deposit {
                deposit_amount: deposit_amount@ as int,
                action_after: Box::new((**action_after).view()),
            },
            BorrowerActionResponse::RepayAllAndWithdraw { withdraw_amount } =>
                BorrowerPlan::RepayAllAndWithdraw { withdraw_amount: withdraw_amount@ as int },
        }
    }
}

impl BorrowerActionResponse {
    pub fn nothing() -> (r: BorrowerActionResponse)
        ensures
            r@ == BorrowerPlan::Nothing,
    {
        BorrowerActionResponse::Nothing
    }

    pub fn borrow(amount: Uint256, advised_buffer_size: Uint256) -> (r: BorrowerActionResponse)
        ensures
            r@ == (BorrowerPlan::Borrow {
                amount: amount@ as int,
                advised_buffer_size: advised_buffer_size@ as int,
            }),
    {
        BorrowerActionResponse::Borrow { amount, advised_buffer_size }
    }

    pub fn repay(amount: Uint256, advised_buffer_size: Uint256) -> (r: BorrowerActionResponse)
        ensures
            r@ == (BorrowerPlan::Repay {
                amount: amount@ as int,
                advised_buffer_size: advised_buffer_size@ as int,
            }),
    {
        BorrowerActionResponse::Repay { amount, advised_buffer_size }
    }

    pub fn deposit(deposit_amount: Uint256, action_after: BorrowerActionResponse) -> (r:
        BorrowerActionResponse)
        ensures
            r@ == (BorrowerPlan::Deposit {
                deposit_amount: deposit_amount@ as int,
                action_after: Box::new(action_after@),
            }),
    {
        BorrowerActionResponse::Deposit { deposit_amount, action_after: Box::new(action_after) }
    }

    pub fn withdraw_all(withdraw_amount: Uint256) -> (r: BorrowerActionResponse)
        ensures
            r@ == (BorrowerPlan::RepayAllAndWithdraw { withdraw_amount: withdraw_amount@ as int }),
    {
        BorrowerActionResponse::RepayAllAndWithdraw { withdraw_amount }
    }
}

/// The largest loan Anchor allows: collateral value times `basset_max_ltv`,
/// each product rounded down.
pub open spec fn max_borrow_spec(ltv: LtvView, locked: int, basset_max_ltv: int) -> int {
    mul_dec_spec(mul_dec_spec(locked, ltv.basset_price), basset_max_ltv)
}

/// The current loan-to-value as a decimal (atomics), rounded down.
pub open spec fn current_ltv_spec(borrowed: int, max_borrow: int) -> int {
    borrowed * dec_scale() * dec_scale() / (max_borrow * dec_scale())
}

/// The advice while Anchor pays (see
/// `calc_borrower_action_on_profitable_anchor`).
pub open spec fn profitable_action_spec(
    ltv: LtvView,
    borrowed: int,
    locked: int,
    basset_max_ltv: int,
    buffer_part: int,
) -> BorrowerPlan {
    let max_borrow = max_borrow_spec(ltv, locked, basset_max_ltv);
    let current_ltv = current_ltv_spec(borrowed, max_borrow);
    let buffer_size = mul_dec_spec(max_borrow, buffer_part);
    let aim_borrow_amount = mul_dec_spec(max_borrow, ltv.borrow_ltv_aim);
    if ltv.basset_price == 0 || locked == 0 || max_borrow == 0 {
        if borrowed > 0 {
            BorrowerPlan::Repay { amount: borrowed, advised_buffer_size: 0 }
        } else {
            BorrowerPlan::Nothing
        }
    } else if current_ltv >= ltv.borrow_ltv_max {
        BorrowerPlan::Repay {
            amount: borrowed - aim_borrow_amount,
            advised_buffer_size: buffer_size,
        }
    } else if current_ltv <= ltv.borrow_ltv_min && aim_borrow_amount != 0 && aim_borrow_amount
        > borrowed {
        BorrowerPlan::Borrow {
            amount: aim_borrow_amount - borrowed,
            advised_buffer_size: buffer_size,
        }
    } else {
        BorrowerPlan::Nothing
    }
}

/// `profitable_action_spec` is computed within 256 bits and never
/// subtracts past zero.
pub open spec fn profitable_action_ok(
    ltv: LtvView,
    borrowed: int,
    locked: int,
    basset_max_ltv: int,
    buffer_part: int,
) -> bool {
    let max_borrow = max_borrow_spec(ltv, locked, basset_max_ltv);
    let current_ltv = current_ltv_spec(borrowed, max_borrow);
    let aim_borrow_amount = mul_dec_spec(max_borrow, ltv.borrow_ltv_aim);
    ltv.basset_price == 0 || locked == 0 || {
        &&& locked * ltv.basset_price < u256_bound()
        &&& mul_dec_spec(locked, ltv.basset_price) * basset_max_ltv < u256_bound()
        &&& max_borrow != 0 ==> {
            &&& borrowed * dec_scale() < u256_bound()
            &&& max_borrow * dec_scale() < u256_bound()
            &&& borrowed * dec_scale() * dec_scale() < u256_bound()
            &&& max_borrow * buffer_part < u256_bound()
            &&& max_borrow * ltv.borrow_ltv_aim < u256_bound()
            &&& current_ltv >= ltv.borrow_ltv_max ==> aim_borrow_amount <= borrowed
        }
    }
}

/// The advice while Anchor pays: repay everything when the collateral has
/// no value; repay down to the aimed loan-to-value from the maximal one on;
/// borrow up to it from the minimal one down; else nothing.  The advised
/// buffer is `buffer_part` of the largest possible loan.
pub fn calc_borrower_action_on_profitable_anchor(
    ltv_info: LTVInfo,
    borrowed_amount: Uint256,
    locked_basset_amount: Uint256,
    basset_max_ltv: Decimal256,
    buffer_part: Decimal256,
) -> (r: BorrowerActionResponse)
    requires
        profitable_action_ok(
            ltv_info@,
            borrowed_amount@ as int,
            locked_basset_amount@ as int,
            basset_max_ltv@ as int,
            buffer_part@ as int,
        ),
    ensures
        r@ == profitable_action_spec(
            ltv_info@,
            borrowed_amount@ as int,
            locked_basset_amount@ as int,
            basset_max_ltv@ as int,
            buffer_part@ as int,
        ),
{
    //repay loan if you can't manage it
    if ltv_info.basset_price.is_zero() || locked_basset_amount.is_zero() {
        if Uint256::zero().lt(&borrowed_amount) {
            return BorrowerActionResponse::repay(borrowed_amount, Uint256::zero());
        } else {
            return BorrowerActionResponse::nothing();
        }
    }
    let max_borrow_amount = locked_basset_amount.mul_dec(ltv_info.basset_price).mul_dec(
        basset_max_ltv,
    );
    // If locked_basset_amount is small enough and basset_price is low It's possible max_borrow_amount = 0
    if max_borrow_amount.is_zero() {
        if Uint256::zero().lt(&borrowed_amount) {
            return BorrowerActionResponse::repay(borrowed_amount, Uint256::zero());
        } else {
            return BorrowerActionResponse::nothing();
        }
    }
    let current_ltv = Decimal256::from_uint256(borrowed_amount).div(
        Decimal256::from_uint256(max_borrow_amount),
    );
    let buffer_size = max_borrow_amount.mul_dec(buffer_part);
    let aim_borrow_amount = ltv_info.borrow_ltv_aim.mul_uint(max_borrow_amount);
    if ltv_info.borrow_ltv_max.le(&current_ltv) {
        let repay_amount = borrowed_amount.sub(aim_borrow_amount);
        BorrowerActionResponse::repay(repay_amount, buffer_size)
    } else if current_ltv.le(&ltv_info.borrow_ltv_min) && !aim_borrow_amount.is_zero()
        && borrowed_amount.lt(&aim_borrow_amount) {
        let borrow_amount = aim_borrow_amount.sub(borrowed_amount);
        BorrowerActionResponse::borrow(borrow_amount, buffer_size)
    } else {
        BorrowerActionResponse::nothing()
    }
}

/// The advice (see `calc_borrower_action`).
pub open spec fn borrower_action_spec(
    profitable: bool,
    ltv: LtvView,
    basset_in_contract: int,
    borrowed: int,
    locked: int,
    basset_max_ltv: int,
    buffer_part: int,
) -> BorrowerPlan {
    if !profitable {
        if locked != 0 {
            BorrowerPlan::RepayAllAndWithdraw { withdraw_amount: locked }
        } else {
            BorrowerPlan::Nothing
        }
    } else if basset_in_contract != 0 {
        BorrowerPlan::Deposit {
            deposit_amount: basset_in_contract,
            action_after: Box::new(
                profitable_action_spec(ltv, borrowed, basset_in_contract, basset_max_ltv, buffer_part),
            ),
        }
    } else {
        profitable_action_spec(ltv, borrowed, locked, basset_max_ltv, buffer_part)
    }
}

/// Anchor pays for the given APR (`false` when it could not be queried).
pub open spec fn apr_profitable(anchor_apr: Result<AnchorApr, StrategyError>, buffer_part: int) -> bool {
    match anchor_apr {
        Ok(a) => is_profitable_spec(a, buffer_part),
        Err(_) => false,
    }
}

pub open spec fn borrower_action_ok(
    anchor_apr: Result<AnchorApr, StrategyError>,
    ltv: LtvView,
    basset_in_contract: int,
    borrowed: int,
    locked: int,
    basset_max_ltv: int,
    buffer_part: int,
) -> bool {
    &&& anchor_apr matches Ok(a) ==> is_profitable_ok(a, buffer_part)
    &&& apr_profitable(anchor_apr, buffer_part) ==> if basset_in_contract != 0 {
        profitable_action_ok(ltv, borrowed, basset_in_contract, basset_max_ltv, buffer_part)
    } else {
        profitable_action_ok(ltv, borrowed, locked, basset_max_ltv, buffer_part)
    }
}

/// The advice to the vault.  While Anchor does not pay (or its APR is
/// unknown) it withdraws all locked bAsset; bAsset waiting on the vault's
/// balance is deposited first, and the advice that follows treats it as the
/// whole collateral.
pub fn calc_borrower_action(
    anchor_apr: Result<AnchorApr, StrategyError>,
    ltv_info: LTVInfo,
    basset_in_contract_address: Uint256,
    borrowed_amount: Uint256,
    locked_basset_amount: Uint256,
    basset_max_ltv: Decimal256,
    buffer_part: Decimal256,
) -> (r: BorrowerActionResponse)
    requires
        borrower_action_ok(
            anchor_apr,
            ltv_info@,
            basset_in_contract_address@ as int,
            borrowed_amount@ as int,
            locked_basset_amount@ as int,
            basset_max_ltv@ as int,
            buffer_part@ as int,
        ),
    ensures
        r@ == borrower_action_spec(
            apr_profitable(anchor_apr, buffer_part@ as int),
            ltv_info@,
            basset_in_contract_address@ as int,
            borrowed_amount@ as int,
            locked_basset_amount@ as int,
            basset_max_ltv@ as int,
            buffer_part@ as int,
        ),
{
    let anchor_has_profit = match anchor_apr {
        Ok(a) => a.is_profitable(buffer_part),
        Err(_) => false,
    };
    if !anchor_has_profit {
        // Withdraw all if there are anything to withdraw
        if !locked_basset_amount.is_zero() {
            return BorrowerActionResponse::withdraw_all(locked_basset_amount);
        } else {
            return BorrowerActionResponse::nothing();
        }
    }
    if !basset_in_contract_address.is_zero() {
        let action_after = calc_borrower_action_on_profitable_anchor(
            ltv_info,
            borrowed_amount,
            basset_in_contract_address,
            basset_max_ltv,
            buffer_part,
        );
        BorrowerActionResponse::deposit(basset_in_contract_address, action_after)
    } else {
        calc_borrower_action_on_profitable_anchor(
            ltv_info,
            borrowed_amount,
            locked_basset_amount,
            basset_max_ltv,
            buffer_part,
        )
    }
}


/// The advice for the vault's balances, given the settings, the oracle
/// price, the block time (seconds) and Anchor's APR (`Err` where its query
/// failed).  Refused when the buffer part is above one.
pub fn borrower_action(
    config: &Config,
    oracle_price: &PriceResponse,
    block_time: u64,
    anchor_apr: Result<AnchorApr, StrategyError>,
    basset_in_contract_address: Uint256,
    borrowed_amount: Uint256,
    locked_basset_amount: Uint256,
) -> (r: Result<BorrowerActionResponse, StrategyError>)
    requires
        config.wf(),
        config.spec_others().4 <= block_time,
        borrower_action_ok(
            anchor_apr,
            ltv_info_spec(
                config.spec_borrow_ltv_max(),
                config.spec_borrow_ltv_min(),
                config.spec_borrow_ltv_aim(),
                config.spec_others().4 as int,
                *oracle_price,
                block_time as int,
            ),
            basset_in_contract_address@ as int,
            borrowed_amount@ as int,
            locked_basset_amount@ as int,
            config.spec_basset_max_ltv(),
            config.spec_buffer_part(),
        ),
    ensures
        r matches Ok(action) && action@ == borrower_action_spec(
            apr_profitable(anchor_apr, config.spec_buffer_part()),
            ltv_info_spec(
                config.spec_borrow_ltv_max(),
                config.spec_borrow_ltv_min(),
                config.spec_borrow_ltv_aim(),
                config.spec_others().4 as int,
                *oracle_price,
                block_time as int,
            ),
            basset_in_contract_address@ as int,
            borrowed_amount@ as int,
            locked_basset_amount@ as int,
            config.spec_basset_max_ltv(),
            config.spec_buffer_part(),
        ),
{
    proof {
        reveal_others(config);
    }
    let ltv_info = LTVInfo::new(
        config.get_borrow_ltv_max(),
        config.get_borrow_ltv_min(),
        config.get_borrow_ltv_aim(),
        config.price_timeframe,
        oracle_price,
        block_time,
    );
    let buffer_part = config.get_buffer_part();
    if Decimal256::one().lt(&buffer_part) {
        return Err(StrategyError::BufferPartAboveOne);
    }
    Ok(
        calc_borrower_action(
            anchor_apr,
            ltv_info,
            basset_in_contract_address,
            borrowed_amount,
            locked_basset_amount,
            config.get_basset_max_ltv(),
            buffer_part,
        ),
    )
}

/// The price timeframe of the settings is the one `spec_others` reports.
proof fn reveal_others(config: &Config)
    ensures
        config.spec_others().4 == config.price_timeframe,
{
}

/// The settings after a governance update: each given value replaces the
/// current one (addresses already validated by the caller), the three
/// loan-to-value bounds are validated together (the missing ones taken from
/// the current settings), then `basset_max_ltv` and `buffer_part` where given.
/// Refused when a validation fails.
pub fn update_config(
    current_config: Config,
    governance_addr: Option<String>,
    oracle_addr: Option<String>,
    basset_token_addr: Option<String>,
    stable_denom: Option<String>,
    borrow_ltv_max: Option<Decimal256>,
    borrow_ltv_min: Option<Decimal256>,
    borrow_ltv_aim: Option<Decimal256>,
    basset_max_ltv: Option<Decimal256>,
    buffer_part: Option<Decimal256>,
) -> (r: Result<Config, StrategyError>)
    ensures
        current_config.wf() && r is Ok ==> r.unwrap().wf(),
        ({
            let max = match borrow_ltv_max {
                Some(v) => v@ as int,
                None => current_config.spec_borrow_ltv_max(),
            };
            let min = match borrow_ltv_min {
                Some(v) => v@ as int,
                None => current_config.spec_borrow_ltv_min(),
            };
            let aim = match borrow_ltv_aim {
                Some(v) => v@ as int,
                None => current_config.spec_borrow_ltv_aim(),
            };
            let max_ltv = match basset_max_ltv {
                Some(v) => v@ as int,
                None => current_config.spec_basset_max_ltv(),
            };
            let buffer = match buffer_part {
                Some(v) => v@ as int,
                None => current_config.spec_buffer_part(),
            };
            let ok = valid_borrow_ltvs(max, min, aim) && (basset_max_ltv is Some ==> valid_part(
                max_ltv,
            )) && (buffer_part is Some ==> valid_part(buffer));
            &&& r is Ok <==> ok
            &&& r is Err ==> r == Err::<Config, StrategyError>(StrategyError::InappropriateValue)
            &&& r matches Ok(c) ==> {
                &&& c.spec_borrow_ltv_max() == max
                &&& c.spec_borrow_ltv_min() == min
                &&& c.spec_borrow_ltv_aim() == aim
                &&& c.spec_basset_max_ltv() == max_ltv
                &&& c.spec_buffer_part() == buffer
                &&& c.spec_others() == (
                    match governance_addr {
                        Some(a) => a@,
                        None => current_config.spec_others().0,
                    },
                    match oracle_addr {
                        Some(a) => a@,
                        None => current_config.spec_others().1,
                    },
                    match basset_token_addr {
                        Some(a) => a@,
                        None => current_config.spec_others().2,
                    },
                    match stable_denom {
                        Some(a) => a@,
                        None => current_config.spec_others().3,
                    },
                    current_config.spec_others().4,
                )
            }
        }),
{
    let mut current_config = current_config;
    if let Some(governance_addr) = governance_addr {
        current_config.governance_contract = governance_addr;
    }
    if let Some(oracle_addr) = oracle_addr {
        current_config.oracle_contract = oracle_addr;
    }
    if let Some(basset_token_addr) = basset_token_addr {
        current_config.basset_token = basset_token_addr;
    }
    if let Some(stable_denom) = stable_denom {
        current_config.stable_denom = stable_denom;
    }
    let max = match borrow_ltv_max {
        Some(v) => v,
        None => current_config.get_borrow_ltv_max(),
    };
    let min = match borrow_ltv_min {
        Some(v) => v,
        None => current_config.get_borrow_ltv_min(),
    };
    let aim = match borrow_ltv_aim {
        Some(v) => v,
        None => current_config.get_borrow_ltv_aim(),
    };
    if let Err(e) = current_config.validate_and_set_borrow_ltvs(max, min, aim) {
        return Err(e);
    }
    if let Some(basset_max_ltv) = basset_max_ltv {
        if let Err(e) = current_config.set_basset_max_ltv(basset_max_ltv) {
            return Err(e);
        }
    }
    if let Some(buffer_part) = buffer_part {
        if let Err(e) = current_config.set_buffer_part(buffer_part) {
            return Err(e);
        }
    }
    Ok(current_config)
}


/// `a * 10^18 / (b * 10^18) == a / b`: a ratio of decimals is the ratio of
/// their integer parts.
pub(crate) proof fn lemma_cancel_scale(a: int, b: int)
    requires
        a >= 0,
        b > 0,
    ensures
        a * dec_scale() / (b * dec_scale()) == a / b,
{
    vstd::arithmetic::div_mod::lemma_div_denominator(a * dec_scale(), dec_scale(), b);
    vstd::arithmetic::mul::lemma_mul_is_commutative(a, dec_scale());
    vstd::arithmetic::div_mod::lemma_div_multiples_vanish(a, dec_scale());
    vstd::arithmetic::mul::lemma_mul_is_commutative(b, dec_scale());
}

/// Anchor pays exactly when the ANC distribution APR plus the earn APR on
/// the deposited part (all but `buffer_part`, rounded down) exceed the
/// borrow interest APR.  Paying more distribution or more earn, or charging
/// less interest, never turns a paying APR into one that does not pay; and
/// a distribution APR above the interest pays whatever the earn.
pub proof fn lemma_profitability(apr: AnchorApr, better: AnchorApr, buffer_part: int)
    requires
        0 <= buffer_part <= dec_scale(),
        better.borrow.distribution_apr@ >= apr.borrow.distribution_apr@,
        better.earn@ >= apr.earn@,
        better.borrow.interest_apr@ <= apr.borrow.interest_apr@,
    ensures
        is_profitable_spec(apr, buffer_part) <==> apr.borrow.distribution_apr@ + apr.earn@ * (
        dec_scale() - buffer_part) / dec_scale() > apr.borrow.interest_apr@,
        is_profitable_spec(apr, buffer_part) ==> is_profitable_spec(better, buffer_part),
        apr.borrow.distribution_apr@ > apr.borrow.interest_apr@ ==> is_profitable_spec(apr, buffer_part),
{
    let k = dec_scale() - buffer_part;
    vstd::arithmetic::mul::lemma_mul_inequality(apr.earn@ as int, better.earn@ as int, k);
    vstd::arithmetic::div_mod::lemma_div_is_ordered(apr.earn@ * k, better.earn@ * k, dec_scale());
    vstd::arithmetic::mul::lemma_mul_nonnegative(apr.earn@ as int, k);
    vstd::arithmetic::div_mod::lemma_div_pos_is_pos(apr.earn@ * k, dec_scale());
}

/// While Anchor pays, the advice follows the loan-to-value
/// `borrowed / max_borrow` (decimal atomics, rounded down), where
/// `max_borrow` is the collateral value (`locked * price`) times
/// `basset_max_ltv`, each product rounded down.  Without a largest loan
/// (no price, no collateral, or a loan of zero) everything borrowed is
/// repaid.  Otherwise, with `aim = max_borrow * borrow_ltv_aim` and the
/// buffer `max_borrow * buffer_part` (rounded down): from `borrow_ltv_max`
/// on, the loan is repaid down to `aim`; at `borrow_ltv_min` or below, it is
/// raised to `aim` when it is below it; and in every other case, in
/// particular strictly between the two bounds, nothing is done.
pub proof fn lemma_advice_follows_ltv_band(
    ltv: LtvView,
    borrowed: int,
    locked: int,
    basset_max_ltv: int,
    buffer_part: int,
)
    requires
        borrowed >= 0,
        locked >= 0,
        ltv.basset_price >= 0,
        basset_max_ltv >= 0,
    ensures
        ({
            let max_borrow = locked * ltv.basset_price / dec_scale() * basset_max_ltv / dec_scale();
            let current_ltv = borrowed * dec_scale() / max_borrow;
            let aim = max_borrow * ltv.borrow_ltv_aim / dec_scale();
            let buffer = max_borrow * buffer_part / dec_scale();
            let plan = profitable_action_spec(ltv, borrowed, locked, basset_max_ltv, buffer_part);
            &&& (ltv.basset_price == 0 || locked == 0 || max_borrow == 0) ==> plan == if borrowed > 0 {
                BorrowerPlan::Repay { amount: borrowed, advised_buffer_size: 0 }
            } else {
                BorrowerPlan::Nothing
            }
            &&& (ltv.basset_price > 0 && locked > 0 && max_borrow > 0) ==> {
                &&& current_ltv >= ltv.borrow_ltv_max ==> plan == BorrowerPlan::Repay {
                    amount: borrowed - aim,
                    advised_buffer_size: buffer,
                }
                &&& (current_ltv < ltv.borrow_ltv_max && current_ltv <= ltv.borrow_ltv_min && aim
                    > borrowed) ==> plan == BorrowerPlan::Borrow {
                    amount: aim - borrowed,
                    advised_buffer_size: buffer,
                }
                &&& (current_ltv < ltv.borrow_ltv_max && !(current_ltv <= ltv.borrow_ltv_min && aim
                    > borrowed)) ==> plan == BorrowerPlan::Nothing
                &&& plan is Borrow ==> current_ltv <= ltv.borrow_ltv_min
                &&& plan is Repay ==> current_ltv >= ltv.borrow_ltv_max
                &&& ltv.borrow_ltv_min < current_ltv < ltv.borrow_ltv_max ==> plan is Nothing
            }
        }),
{
    let max_borrow = max_borrow_spec(ltv, locked, basset_max_ltv);
    vstd::arithmetic::mul::lemma_mul_nonnegative(locked, ltv.basset_price);
    vstd::arithmetic::div_mod::lemma_div_pos_is_pos(locked * ltv.basset_price, dec_scale());
    vstd::arithmetic::mul::lemma_mul_nonnegative(mul_dec_spec(locked, ltv.basset_price), basset_max_ltv);
    vstd::arithmetic::div_mod::lemma_div_pos_is_pos(
        mul_dec_spec(locked, ltv.basset_price) * basset_max_ltv,
        dec_scale(),
    );
    vstd::arithmetic::mul::lemma_mul_nonnegative(borrowed, dec_scale());
    if max_borrow > 0 {
        lemma_cancel_scale(borrowed * dec_scale(), max_borrow);
        assert(current_ltv_spec(borrowed, max_borrow) == borrowed * dec_scale() / max_borrow);
    }
}

/// The advice to the vault: while Anchor does not pay (or its APR is
/// unknown) all locked bAsset is withdrawn, or nothing is done when none is
/// locked; while it pays, bAsset waiting on the vault's address is deposited
/// first and the advice after it is the one for that bAsset as the whole
/// collateral; with none waiting, it is the advice for the locked bAsset.
pub proof fn lemma_advice_by_profitability(
    profitable: bool,
    ltv: LtvView,
    basset_in_contract: int,
    borrowed: int,
    locked: int,
    basset_max_ltv: int,
    buffer_part: int,
)
    ensures
        ({
            let plan = borrower_action_spec(
                profitable,
                ltv,
                basset_in_contract,
                borrowed,
                locked,
                basset_max_ltv,
                buffer_part,
            );
            &&& (!profitable && locked != 0) ==> plan == BorrowerPlan::RepayAllAndWithdraw {
                withdraw_amount: locked,
            }
            &&& (!profitable && locked == 0) ==> plan == BorrowerPlan::Nothing
            &&& (profitable && basset_in_contract != 0) ==> plan == BorrowerPlan::Deposit {
                deposit_amount: basset_in_contract,
                action_after: Box::new(
                    profitable_action_spec(ltv, borrowed, basset_in_contract, basset_max_ltv, buffer_part),
                ),
            }
            &&& (profitable && basset_in_contract == 0) ==> plan == profitable_action_spec(
                ltv,
                borrowed,
                locked,
                basset_max_ltv,
                buffer_part,
            )
        }),
{
}

/// While Anchor pays, the advice moves the loan to the aimed loan-to-value:
/// a borrow raises it exactly to `borrow_ltv_aim` of the largest possible
/// loan, a repayment lowers it exactly to that, or to zero when the
/// collateral has no value; the advised buffer is `buffer_part` of the
/// largest possible loan.
pub proof fn lemma_advice_reaches_aim(
    ltv: LtvView,
    borrowed: int,
    locked: int,
    basset_max_ltv: int,
    buffer_part: int,
)
    requires
        borrowed >= 0,
        locked >= 0,
        ltv.basset_price >= 0,
        ltv.borrow_ltv_aim >= 0,
        basset_max_ltv >= 0,
        profitable_action_ok(ltv, borrowed, locked, basset_max_ltv, buffer_part),
    ensures
        ({
            let max_borrow = max_borrow_spec(ltv, locked, basset_max_ltv);
            let aim = mul_dec_spec(max_borrow, ltv.borrow_ltv_aim);
            let plan = profitable_action_spec(ltv, borrowed, locked, basset_max_ltv, buffer_part);
            &&& plan matches BorrowerPlan::Borrow { amount, advised_buffer_size } ==> amount > 0
                && borrowed + amount == aim && advised_buffer_size == mul_dec_spec(
                max_borrow,
                buffer_part,
            )
            &&& plan matches BorrowerPlan::Repay { amount, advised_buffer_size } ==> 0 <= amount
                <= borrowed && (borrowed - amount == aim || (borrowed == amount
                && advised_buffer_size == 0))
        }),
{
    let max_borrow = max_borrow_spec(ltv, locked, basset_max_ltv);
    vstd::arithmetic::mul::lemma_mul_nonnegative(locked, ltv.basset_price);
    vstd::arithmetic::div_mod::lemma_div_pos_is_pos(locked * ltv.basset_price, dec_scale());
    vstd::arithmetic::mul::lemma_mul_nonnegative(mul_dec_spec(locked, ltv.basset_price), basset_max_ltv);
    vstd::arithmetic::div_mod::lemma_div_pos_is_pos(
        mul_dec_spec(locked, ltv.basset_price) * basset_max_ltv,
        dec_scale(),
    );
    vstd::arithmetic::mul::lemma_mul_nonnegative(max_borrow, ltv.borrow_ltv_aim);
    vstd::arithmetic::div_mod::lemma_div_pos_is_pos(max_borrow * ltv.borrow_ltv_aim, dec_scale());
}

} // verus!
