//! Borrowing advice of the earlier farmer configuration contract, without a
//! stable buffer.
use vstd::prelude::*;
use crate::math::{Decimal256, Uint256, dec_scale, mul_dec_spec, u256_bound};

verus! {

/// The advice, as numbers.
pub enum FarmerPlan {
    Nothing,
    Borrow { amount: int },
    Repay { amount: int },
}

/// The advice to the farmer.
#[derive(Clone, Copy, Debug, PartialEq, Eq, Structural)]
pub enum BorrowerActionResponse {
    Nothing,
    Borrow { amount: Uint256 },
    Repay { amount: Uint256 },
}

impl View for BorrowerActionResponse {
    type V = FarmerPlan;

    open spec fn view(&self) -> FarmerPlan {
        match *self {
            BorrowerActionResponse::Nothing => FarmerPlan::Nothing,
            BorrowerActionResponse::Borrow { amount } => FarmerPlan::Borrow { amount: amount@ as int },
            BorrowerActionResponse::Repay { amount } => FarmerPlan::Repay { amount: amount@ as int },
        }
    }
}

impl BorrowerActionResponse {
    pub fn nothing() -> (r: BorrowerActionResponse)
        ensures
            r@ == FarmerPlan::Nothing,
    {
        BorrowerActionResponse::Nothing
    }

    pub fn borrow(amount: Uint256) -> (r: BorrowerActionResponse)
        ensures
            r@ == (FarmerPlan::Borrow { amount: amount@ as int }),
    {
        BorrowerActionResponse::Borrow { amount }
    }

    pub fn repay(amount: Uint256) -> (r: BorrowerActionResponse)
        ensures
            r@ == (FarmerPlan::Repay { amount: amount@ as int }),
    {
        BorrowerActionResponse::Repay { amount }
    }
}

/// The advice (see `calc_borrower_action`).
pub open spec fn farmer_action_spec(
    basset_price: int,
    borrowed: int,
    locked: int,
    basset_max_ltv: int,
    borrow_ltv_max: int,
    borrow_ltv_min: int,
    borrow_ltv_aim: int,
) -> FarmerPlan {
    let max_borrow = mul_dec_spec(mul_dec_spec(locked, basset_price), basset_max_ltv);
    let current_ltv = borrowed * dec_scale() * dec_scale() / (max_borrow * dec_scale());
    let aim_borrow_amount = mul_dec_spec(max_borrow, borrow_ltv_aim);
    if basset_price == 0 || locked == 0 {
        if borrowed > 0 {
            FarmerPlan::Repay { amount: borrowed }
        } else {
            FarmerPlan::Nothing
        }
    } else if current_ltv >= borrow_ltv_max {
        FarmerPlan::Repay { amount: borrowed - aim_borrow_amount }
    } else if current_ltv <= borrow_ltv_min {
        FarmerPlan::Borrow { amount: aim_borrow_amount - borrowed }
    } else {
        FarmerPlan::Nothing
    }
}

pub open spec fn farmer_action_ok(
    basset_price: int,
    borrowed: int,
    locked: int,
    basset_max_ltv: int,
    borrow_ltv_max: int,
    borrow_ltv_min: int,
    borrow_ltv_aim: int,
) -> bool {
    let max_borrow = mul_dec_spec(mul_dec_spec(locked, basset_price), basset_max_ltv);
    let current_ltv = borrowed * dec_scale() * dec_scale() / (max_borrow * dec_scale());
    let aim_borrow_amount = mul_dec_spec(max_borrow, borrow_ltv_aim);
    basset_price == 0 || locked == 0 || {
        &&& locked * basset_price < u256_bound()
        &&& mul_dec_spec(locked, basset_price) * basset_max_ltv < u256_bound()
        &&& max_borrow != 0
        &&& borrowed * dec_scale() < u256_bound()
        &&& max_borrow * dec_scale() < u256_bound()
        &&& borrowed * dec_scale() * dec_scale() < u256_bound()
        &&& current_ltv >= borrow_ltv_max ==> max_borrow * borrow_ltv_aim < u256_bound()
            && aim_borrow_amount <= borrowed
        &&& (current_ltv < borrow_ltv_max && current_ltv <= borrow_ltv_min) ==> max_borrow
            * borrow_ltv_aim < u256_bound() && aim_borrow_amount >= borrowed
    }
}

/// The farmer's advice follows the loan-to-value `borrowed / max_borrow`
/// (decimal atomics, rounded down), where `max_borrow` is the collateral
/// value (`locked * price`) times `basset_max_ltv`, each product rounded
/// down.  Without a price or collateral everything borrowed is repaid.
/// Otherwise, with `aim = max_borrow * borrow_ltv_aim` (rounded down): from
/// `borrow_ltv_max` on, the loan is repaid down to `aim`; at
/// `borrow_ltv_min` or below, it is raised to `aim`; strictly between the
/// two bounds nothing is done.
pub proof fn lemma_farmer_advice_follows_ltv_band(
    basset_price: int,
    borrowed: int,
    locked: int,
    basset_max_ltv: int,
    borrow_ltv_max: int,
    borrow_ltv_min: int,
    borrow_ltv_aim: int,
)
    requires
        borrowed >= 0,
        locked >= 0,
        basset_price >= 0,
        (basset_price > 0 && locked > 0) ==> locked * basset_price / dec_scale() * basset_max_ltv
            / dec_scale() > 0,
    ensures
        ({
            let max_borrow = locked * basset_price / dec_scale() * basset_max_ltv / dec_scale();
            let current_ltv = borrowed * dec_scale() / max_borrow;
            let aim = max_borrow * borrow_ltv_aim / dec_scale();
            let plan = farmer_action_spec(
                basset_price,
                borrowed,
                locked,
                basset_max_ltv,
                borrow_ltv_max,
                borrow_ltv_min,
                borrow_ltv_aim,
            );
            &&& (basset_price == 0 || locked == 0) ==> plan == if borrowed > 0 {
                FarmerPlan::Repay { amount: borrowed }
            } else {
                FarmerPlan::Nothing
            }
            &&& (basset_price > 0 && locked > 0) ==> {
                &&& current_ltv >= borrow_ltv_max ==> plan == FarmerPlan::Repay { amount: borrowed - aim }
                &&& (current_ltv < borrow_ltv_max && current_ltv <= borrow_ltv_min) ==> plan
                    == FarmerPlan::Borrow { amount: aim - borrowed }
                &&& (borrow_ltv_min < current_ltv < borrow_ltv_max) ==> plan == FarmerPlan::Nothing
                &&& plan is Borrow ==> current_ltv <= borrow_ltv_min
                &&& plan is Repay ==> current_ltv >= borrow_ltv_max
            }
        }),
{
    let max_borrow = mul_dec_spec(mul_dec_spec(locked, basset_price), basset_max_ltv);
    vstd::arithmetic::mul::lemma_mul_nonnegative(borrowed, dec_scale());
    if basset_price > 0 && locked > 0 {
        crate::strategy::lemma_cancel_scale(borrowed * dec_scale(), max_borrow);
    }
}

/// Repays everything when the collateral has no value; repays down to the
/// aimed loan-to-value from the maximal one on; borrows up to it from the
/// minimal one down; else nothing.
pub fn calc_borrower_action(
    basset_price: Decimal256,
    borrowed_amount: Uint256,
    locked_basset_amount: Uint256,
    basset_max_ltv: Decimal256,
    borrow_ltv_max: Decimal256,
    borrow_ltv_min: Decimal256,
    borrow_ltv_aim: Decimal256,
) -> (r: BorrowerActionResponse)
    requires
        farmer_action_ok(
            basset_price@ as int,
            borrowed_amount@ as int,
            locked_basset_amount@ as int,
            basset_max_ltv@ as int,
            borrow_ltv_max@ as int,
            borrow_ltv_min@ as int,
            borrow_ltv_aim@ as int,
        ),
    ensures
        r@ == farmer_action_spec(
            basset_price@ as int,
            borrowed_amount@ as int,
            locked_basset_amount@ as int,
            basset_max_ltv@ as int,
            borrow_ltv_max@ as int,
            borrow_ltv_min@ as int,
            borrow_ltv_aim@ as int,
        ),
{
    //repay loan if you can't manage it
    if basset_price.is_zero() || locked_basset_amount.is_zero() {
        if Uint256::zero().lt(&borrowed_amount) {
            return BorrowerActionResponse::repay(borrowed_amount);
        } else {
            return BorrowerActionResponse::nothing();
        }
    }
    let max_borrow_amount = locked_basset_amount.mul_dec(basset_price).mul_dec(basset_max_ltv);
    let current_ltv = Decimal256::from_uint256(borrowed_amount).div(
        Decimal256::from_uint256(max_borrow_amount),
    );
    if borrow_ltv_max.le(&current_ltv) {
        let aim_borrow_amount = borrow_ltv_aim.mul_uint(max_borrow_amount);
        let repay_amount = borrowed_amount.sub(aim_borrow_amount);
        BorrowerActionResponse::repay(repay_amount)
    } else if current_ltv.le(&borrow_ltv_min) {
        let aim_borrow_amount = borrow_ltv_aim.mul_uint(max_borrow_amount);
        let borrow_amount = aim_borrow_amount.sub(borrowed_amount);
        BorrowerActionResponse::borrow(borrow_amount)
    } else {
        BorrowerActionResponse::nothing()
    }
}

} // verus!
