//! The Terra stability tax on stable-coin transfers.
//!
//! A transfer of `amount` coins costs a tax of `rate` (a decimal) capped at
//! `cap` coins and never below one coin.  `get_tax_for` answers how much of a
//! sent amount goes to tax (the amount already includes it), `get_revert_tax`
//! how much tax is added on top of an amount to be delivered.
use vstd::prelude::*;
use vstd::arithmetic::div_mod::*;
use vstd::arithmetic::mul::*;
use crate::math::{Decimal256, Uint256, dec_scale, u256_bound};

verus! {

/// Atomics of `1 - 1 / (1 + rate)`, with the division rounded down.
pub open spec fn tax_factor(rate: int) -> int {
    dec_scale() - dec_scale() * dec_scale() / (dec_scale() + rate)
}

/// A decimal (given by its atomics) turned into an integer: zero stays zero,
/// anything else becomes its integer part plus one.
pub open spec fn round_up_spec(d: int) -> int {
    if d == 0 {
        0
    } else {
        d / dec_scale() + 1
    }
}

pub open spec fn min_int(a: int, b: int) -> int {
    if a <= b {
        a
    } else {
        b
    }
}

pub open spec fn max_int(a: int, b: int) -> int {
    if a >= b {
        a
    } else {
        b
    }
}

/// The tax included in a transfer of `amount` coins: zero when the rate is
/// zero, else `round_up(amount * (1 - 1 / (1 + rate)))` capped at `cap`, and
/// at least one.
pub open spec fn tax_for_spec(rate: int, cap: int, amount: int) -> int {
    if rate == 0 {
        0
    } else {
        max_int(min_int(round_up_spec(amount * tax_factor(rate)), cap), 1)
    }
}

/// The computation of `tax_for_spec` stays below 2^256 (else
/// `cosmwasm_bignumber` panics).
pub open spec fn tax_for_ok(rate: int, amount: int) -> bool {
    rate == 0 || {
        &&& dec_scale() + rate < u256_bound()
        &&& amount != 0 ==> amount * dec_scale() < u256_bound()
        &&& amount != 0 ==> amount * dec_scale() * tax_factor(rate) < u256_bound()
        &&& amount * tax_factor(rate) != 0 ==> (amount * tax_factor(rate) / dec_scale() + 1)
            * dec_scale() < u256_bound()
    }
}

/// The tax added on top of `amount` delivered coins: zero for a zero rate or
/// a zero amount, else `amount * rate` rounded down, capped at `cap`, and at
/// least one.
pub open spec fn revert_tax_spec(rate: int, cap: int, amount: int) -> int {
    if rate == 0 || amount == 0 {
        0
    } else {
        max_int(min_int(amount * rate / dec_scale(), cap), 1)
    }
}

pub open spec fn revert_tax_ok(rate: int, amount: int) -> bool {
    rate == 0 || amount == 0 || amount * rate < u256_bound()
}

/// What remains of `amount` sent coins once the tax is paid.
pub open spec fn subtract_tax_spec(rate: int, cap: int, amount: int) -> int {
    if amount == 0 {
        0
    } else {
        amount - tax_for_spec(rate, cap, amount)
    }
}

pub open spec fn subtract_tax_ok(rate: int, cap: int, amount: int) -> bool {
    amount == 0 || (tax_for_ok(rate, amount) && tax_for_spec(rate, cap, amount) <= amount)
}

/// `amount` plus the tax due on top of it.
pub open spec fn append_tax_spec(rate: int, cap: int, amount: int) -> int {
    amount + revert_tax_spec(rate, cap, amount)
}

pub open spec fn append_tax_ok(rate: int, cap: int, amount: int) -> bool {
    revert_tax_ok(rate, amount) && amount + revert_tax_spec(rate, cap, amount) < u256_bound()
}

/// Tax rate and tax cap of a stable coin.
#[derive(Clone, Copy, Debug, PartialEq, Eq, Structural)]
pub struct TaxInfo {
    pub rate: Decimal256,
    pub cap: Uint256,
}

impl TaxInfo {
    pub open spec fn tax_for(&self, amount: int) -> int {
        tax_for_spec(self.rate@ as int, self.cap@ as int, amount)
    }

    pub open spec fn revert_tax(&self, amount: int) -> int {
        revert_tax_spec(self.rate@ as int, self.cap@ as int, amount)
    }

    pub open spec fn subtracted(&self, amount: int) -> int {
        subtract_tax_spec(self.rate@ as int, self.cap@ as int, amount)
    }

    pub open spec fn appended(&self, amount: int) -> int {
        append_tax_spec(self.rate@ as int, self.cap@ as int, amount)
    }

    pub open spec fn can_subtract(&self, amount: int) -> bool {
        subtract_tax_ok(self.rate@ as int, self.cap@ as int, amount)
    }

    pub open spec fn can_append(&self, amount: int) -> bool {
        append_tax_ok(self.rate@ as int, self.cap@ as int, amount)
    }

    /// The tax included in a transfer of `amount` coins.
    pub fn get_tax_for(&self, amount: Uint256) -> (r: Uint256)
        requires
            tax_for_ok(self.rate@ as int, amount@ as int),
        ensures
            r@ == self.tax_for(amount@ as int),
    {
        if self.rate.is_zero() {
            return Uint256::zero();
        }
        let tax_amount = if amount.is_zero() {
            Decimal256::zero()
        } else {
            let one = Decimal256::one();
            let denominator = one.add(self.rate);
            let inverse = one.div(denominator);
            proof {
                let s = dec_scale();
                lemma_div_is_ordered_by_denominator(s * s, s, s + self.rate@);
                lemma_div_by_multiple(s, s);
            }
            let factor = one.sub(inverse);
            let d = Decimal256::from_uint256(amount).mul(factor);
            proof {
                let s = dec_scale();
                let f = factor@ as int;
                let a = amount@ as int;
                assert(a * s * f == s * (a * f)) by (nonlinear_arith);
                lemma_div_multiples_vanish(a * f, s);
                assert(d@ == amount@ * f);
            }
            d
        };
        let tax_amount = TaxInfo::round_up(tax_amount);
        let tax_capped = tax_amount.min(self.cap);
        tax_capped.max(Uint256::one())
    }

    /// A decimal turned into an integer: zero stays zero, anything else
    /// becomes its integer part plus one.
    fn round_up(decimal: Decimal256) -> (r: Uint256)
        requires
            decimal@ != 0 ==> (decimal@ as int / dec_scale() + 1) * dec_scale() < u256_bound(),
        ensures
            r@ == round_up_spec(decimal@ as int),
    {
        if decimal.is_zero() {
            Uint256::zero()
        } else {
            let fractional = Uint256::from_u64(1_000_000_000_000_000_000u64);
            let whole = decimal.atomics().div(fractional);
            proof {
                lemma_fundamental_div_mod(decimal@ as int, dec_scale());
                lemma_mul_is_commutative(whole@ as int, dec_scale());
            }
            let truncated = whole.mul(fractional);
            proof {
                lemma_mul_is_distributive_add_other_way(dec_scale(), whole@ as int, 1);
            }
            let bumped = truncated.add(fractional);
            let r = bumped.div(fractional);
            proof {
                lemma_div_multiples_vanish(whole@ + 1int, dec_scale());
                lemma_mul_is_commutative(whole@ + 1int, dec_scale());
            }
            r
        }
    }

    /// `1 - 1 / (1 + rate)`, the share of a transfer that goes to tax
    /// before rounding and capping.
    fn factor(&self) -> (r: Decimal256)
        requires
            dec_scale() + self.rate@ < u256_bound(),
        ensures
            r@ == tax_factor(self.rate@ as int),
    {
        let one = Decimal256::one();
        let denominator = one.add(self.rate);
        let inverse = one.div(denominator);
        proof {
            let s = dec_scale();
            lemma_div_is_ordered_by_denominator(s * s, s, s + self.rate@);
            lemma_div_by_multiple(s, s);
        }
        one.sub(inverse)
    }

    /// Whether the tax included in a transfer of `amount` coins can be
    /// computed without overflow (`tax_for_ok`).
    pub fn tax_for_computable(&self, amount: Uint256) -> (r: bool)
        ensures
            r == tax_for_ok(self.rate@ as int, amount@ as int),
    {
        if self.rate.is_zero() {
            return true;
        }
        let scale = Uint256::from_u64(1_000_000_000_000_000_000u64);
        if !scale.fits_add(&self.rate.atomics()) {
            return false;
        }
        let factor = self.factor().atomics();
        if amount.is_zero() {
            return true;
        }
        if !amount.fits_mul(&scale) {
            return false;
        }
        let scaled = amount.mul(scale);
        if !scaled.fits_mul(&factor) {
            return false;
        }
        proof {
            let a = amount@ as int;
            let f = factor@ as int;
            assert(a * f <= a * dec_scale() * f) by (nonlinear_arith)
                requires
                    a >= 0,
                    f >= 0,
            ;
        }
        let product = amount.mul(factor);
        if product.is_zero() {
            return true;
        }
        let whole = product.div(scale);
        proof {
            lemma_div_is_ordered_by_denominator(product@ as int, 1, dec_scale());
        }
        let bumped = whole.add(Uint256::one());
        bumped.fits_mul(&scale)
    }

    /// Whether the tax of a transfer of `amount` coins can be taken from it
    /// (`can_subtract`).
    pub fn subtract_computable(&self, amount: Uint256) -> (r: bool)
        ensures
            r == self.can_subtract(amount@ as int),
    {
        if amount.is_zero() {
            return true;
        }
        if !self.tax_for_computable(amount) {
            return false;
        }
        self.get_tax_for(amount).le(&amount)
    }

    /// Whether the tax on top of `amount` delivered coins can be added to
    /// it (`can_append`).
    pub fn append_computable(&self, amount: Uint256) -> (r: bool)
        ensures
            r == self.can_append(amount@ as int),
    {
        if !(self.rate.is_zero() || amount.is_zero() || amount.fits_mul(&self.rate.atomics())) {
            return false;
        }
        amount.fits_add(&self.get_revert_tax(amount))
    }

    /// The tax added on top of `amount` coins to be delivered.
    pub fn get_revert_tax(&self, amount: Uint256) -> (r: Uint256)
        requires
            revert_tax_ok(self.rate@ as int, amount@ as int),
        ensures
            r@ == self.revert_tax(amount@ as int),
    {
        if self.rate.is_zero() {
            return Uint256::zero();
        }
        if amount.is_zero() {
            return Uint256::zero();
        }
        let tax_amount = amount.mul_dec(self.rate);
        let tax_capped = tax_amount.min(self.cap);
        tax_capped.max(Uint256::one())
    }

    /// What remains of `coin_amount` sent coins once the tax is paid.
    pub fn subtract_tax(&self, coin_amount: Uint256) -> (r: Uint256)
        requires
            self.can_subtract(coin_amount@ as int),
        ensures
            r@ == self.subtracted(coin_amount@ as int),
    {
        if coin_amount.is_zero() {
            return Uint256::zero();
        }
        coin_amount.sub(self.get_tax_for(coin_amount))
    }

    /// `coin_amount` plus the tax due on top of it.
    pub fn append_tax(&self, coin_amount: Uint256) -> (r: Uint256)
        requires
            self.can_append(coin_amount@ as int),
        ensures
            r@ == self.appended(coin_amount@ as int),
    {
        coin_amount.add(self.get_revert_tax(coin_amount))
    }
}


/// The tax is never negative and never above the cap (or one coin when the
/// cap is zero); so sending `amount` delivers at most `amount`, and adding
/// the tax on top asks at least `amount`.  A zero rate charges no tax.
pub proof fn lemma_tax_bounds(tax_info: TaxInfo, amount: int)
    requires
        amount >= 0,
    ensures
        0 <= tax_info.tax_for(amount) <= max_int(tax_info.cap@ as int, 1),
        0 <= tax_info.revert_tax(amount) <= max_int(tax_info.cap@ as int, 1),
        tax_info.subtracted(amount) <= amount,
        tax_info.appended(amount) >= amount,
        tax_info.rate@ == 0 ==> tax_info.subtracted(amount) == amount && tax_info.appended(amount)
            == amount,
{
}

} // verus!
