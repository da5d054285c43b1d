//! 256-bit unsigned integers and 18-digit fixed-point decimals.
//!
//! Values are held as four little-endian 64-bit limbs, exactly as the
//! `cosmwasm_bignumber` crate holds them; every arithmetic operation and every
//! comparison is carried out by `cosmwasm_bignumber` itself.  The
//! specifications below state what each operation computes over unbounded
//! integers, and leave out the inputs on which `cosmwasm_bignumber` panics
//! (overflow past 2^256, underflow below zero, division by zero).
use vstd::prelude::*;

verus! {

/// 2^256: every `Uint256` (and every decimal's atomics) is below it.
pub open spec fn u256_bound() -> int {
    115792089237316195423570985008687907853269984665640564039457584007913129639936int
}

/// 10^18: a `Decimal256` with atomics `a` stands for the number `a / 10^18`.
pub open spec fn dec_scale() -> int {
    1_000_000_000_000_000_000int
}

/// Product of an integer and a decimal, rounded down: `u * d / 10^18`.
pub open spec fn mul_dec_spec(u: int, d: int) -> int {
    u * d / dec_scale()
}

/// Integer divided by a decimal, rounded down: `u * 10^18 / d`.
pub open spec fn div_dec_spec(u: int, d: int) -> int {
    u * dec_scale() / d
}

/// An unsigned 256-bit integer.
#[derive(Clone, Copy, Debug, PartialEq, Eq, Structural)]
pub struct Uint256 {
    w0: u64,
    w1: u64,
    w2: u64,
    w3: u64,
}

impl View for Uint256 {
    type V = nat;

    closed spec fn view(&self) -> nat {
        (self.w0 + self.w1 * 0x1_0000_0000_0000_0000int + self.w2
            * 0x1_0000_0000_0000_0000_0000_0000_0000_0000int + self.w3
            * 0x1_0000_0000_0000_0000_0000_0000_0000_0000_0000_0000_0000_0000int) as nat
    }
}

/// A fixed-point decimal with 18 fractional digits; its view is the number
/// of 10^-18 units it holds (its atomics).
#[derive(Clone, Copy, Debug, PartialEq, Eq, Structural)]
pub struct Decimal256 {
    atomics: Uint256,
}

impl View for Decimal256 {
    type V = nat;

    closed spec fn view(&self) -> nat {
        self.atomics@
    }
}

/// `<cosmwasm_bignumber::Uint256 as Add>::add`: the exact sum; it panics when
/// the sum reaches 2^256.
#[verifier::external_body]
fn ext_u256_add(a: Uint256, b: Uint256) -> (r: Uint256)
    requires
        a@ + b@ < u256_bound(),
    ensures
        r@ == a@ + b@,
{
    let x = cosmwasm_bignumber::Uint256(bigint::U256([a.w0, a.w1, a.w2, a.w3]));
    let y = cosmwasm_bignumber::Uint256(bigint::U256([b.w0, b.w1, b.w2, b.w3]));
    let bigint::U256(l) = (x + y).0;
    Uint256 { w0: l[0], w1: l[1], w2: l[2], w3: l[3] }
}

/// `<cosmwasm_bignumber::Uint256 as Sub>::sub`: the exact difference; it
/// panics (assertion) when the right operand is larger.
#[verifier::external_body]
fn ext_u256_sub(a: Uint256, b: Uint256) -> (r: Uint256)
    requires
        a@ >= b@,
    ensures
        r@ == a@ - b@,
{
    let x = cosmwasm_bignumber::Uint256(bigint::U256([a.w0, a.w1, a.w2, a.w3]));
    let y = cosmwasm_bignumber::Uint256(bigint::U256([b.w0, b.w1, b.w2, b.w3]));
    let bigint::U256(l) = (x - y).0;
    Uint256 { w0: l[0], w1: l[1], w2: l[2], w3: l[3] }
}

/// `<cosmwasm_bignumber::Uint256 as Mul<Uint256>>::mul`: the exact product
/// (zero without multiplying when an operand is zero); it panics when the
/// product reaches 2^256.
#[verifier::external_body]
fn ext_u256_mul(a: Uint256, b: Uint256) -> (r: Uint256)
    requires
        a@ * b@ < u256_bound(),
    ensures
        r@ == a@ * b@,
{
    let x = cosmwasm_bignumber::Uint256(bigint::U256([a.w0, a.w1, a.w2, a.w3]));
    let y = cosmwasm_bignumber::Uint256(bigint::U256([b.w0, b.w1, b.w2, b.w3]));
    let bigint::U256(l) = (x * y).0;
    Uint256 { w0: l[0], w1: l[1], w2: l[2], w3: l[3] }
}

/// `<cosmwasm_bignumber::Uint256 as Mul<Decimal256>>::mul`: zero when an
/// operand is zero, else `u * d.atomics / 10^18` rounded down, computed with
/// a 256-bit intermediate product that panics when it reaches 2^256.
#[verifier::external_body]
fn ext_u256_mul_dec(u: Uint256, d: Decimal256) -> (r: Uint256)
    requires
        u@ * d@ < u256_bound(),
    ensures
        r@ == mul_dec_spec(u@ as int, d@ as int),
{
    let x = cosmwasm_bignumber::Uint256(bigint::U256([u.w0, u.w1, u.w2, u.w3]));
    let a = d.atomics;
    let y = cosmwasm_bignumber::Decimal256(bigint::U256([a.w0, a.w1, a.w2, a.w3]));
    let bigint::U256(l) = (x * y).0;
    Uint256 { w0: l[0], w1: l[1], w2: l[2], w3: l[3] }
}

/// `<cosmwasm_bignumber::Uint256 as Div<Decimal256>>::div`: zero when `u` is
/// zero, else `u * 10^18 / d.atomics` rounded down; it panics on a zero
/// divisor and when `u * 10^18` reaches 2^256.
#[verifier::external_body]
fn ext_u256_div_dec(u: Uint256, d: Decimal256) -> (r: Uint256)
    requires
        d@ != 0,
        u@ * dec_scale() < u256_bound(),
    ensures
        r@ == div_dec_spec(u@ as int, d@ as int),
{
    let x = cosmwasm_bignumber::Uint256(bigint::U256([u.w0, u.w1, u.w2, u.w3]));
    let a = d.atomics;
    let y = cosmwasm_bignumber::Decimal256(bigint::U256([a.w0, a.w1, a.w2, a.w3]));
    let bigint::U256(l) = (x / y).0;
    Uint256 { w0: l[0], w1: l[1], w2: l[2], w3: l[3] }
}

/// `<bigint::U256 as Div>::div`: the quotient rounded down; it panics on a
/// zero divisor.
#[verifier::external_body]
fn ext_u256_div(a: Uint256, b: Uint256) -> (r: Uint256)
    requires
        b@ != 0,
    ensures
        r@ == a@ as int / (b@ as int),
{
    let x = bigint::U256([a.w0, a.w1, a.w2, a.w3]);
    let y = bigint::U256([b.w0, b.w1, b.w2, b.w3]);
    let bigint::U256(l) = x / y;
    Uint256 { w0: l[0], w1: l[1], w2: l[2], w3: l[3] }
}

/// `<cosmwasm_bignumber::Uint256 as PartialOrd>::lt`: the order of the values.
#[verifier::external_body]
fn ext_u256_lt(a: Uint256, b: Uint256) -> (r: bool)
    ensures
        r == (a@ < b@),
{
    let x = cosmwasm_bignumber::Uint256(bigint::U256([a.w0, a.w1, a.w2, a.w3]));
    let y = cosmwasm_bignumber::Uint256(bigint::U256([b.w0, b.w1, b.w2, b.w3]));
    x < y
}

/// `<cosmwasm_bignumber::Uint256 as PartialEq>::eq`: equality of the values.
#[verifier::external_body]
fn ext_u256_eq(a: Uint256, b: Uint256) -> (r: bool)
    ensures
        r == (a@ == b@),
{
    let x = cosmwasm_bignumber::Uint256(bigint::U256([a.w0, a.w1, a.w2, a.w3]));
    let y = cosmwasm_bignumber::Uint256(bigint::U256([b.w0, b.w1, b.w2, b.w3]));
    x == y
}

/// `cosmwasm_bignumber::Uint256::from(u128)`: the same value.
#[verifier::external_body]
fn ext_u256_from_u128(v: u128) -> (r: Uint256)
    ensures
        r@ == v,
{
    let bigint::U256(l) = cosmwasm_bignumber::Uint256::from(v).0;
    Uint256 { w0: l[0], w1: l[1], w2: l[2], w3: l[3] }
}

/// The character of the decimal digit `d`.
pub open spec fn digit_char(d: nat) -> char {
    (d + 48) as char
}

/// The decimal digits of a number, most significant first and without
/// leading zeros (`"0"` for zero).
pub open spec fn u256_decimal(n: nat) -> Seq<char>
    decreases n,
{
    if n < 10 {
        seq![digit_char(n)]
    } else {
        u256_decimal(n / 10) + seq![digit_char(n % 10)]
    }
}

/// `<cosmwasm_bignumber::Uint256 as Display>::fmt`, which prints the inner
/// `bigint::U256` in decimal with no padding: its digits, most significant
/// first, `"0"` for zero.
#[verifier::external_body]
fn ext_u256_to_string(n: Uint256) -> (r: String)
    ensures
        r@ == u256_decimal(n@),
{
    let x = cosmwasm_bignumber::Uint256(bigint::U256([n.w0, n.w1, n.w2, n.w3]));
    format!("{}", x)
}

impl Uint256 {
    /// The decimal digits of the value.
    pub fn to_string(&self) -> (r: String)
        ensures
            r@ == u256_decimal(self@),
    {
        ext_u256_to_string(*self)
    }

    /// A value has one representation: equal values are equal numbers.
    pub proof fn lemma_view_injective(self, other: Uint256)
        requires
            self@ == other@,
        ensures
            self == other,
    {
        let b = 0x1_0000_0000_0000_0000int;
        let hi_a = self.w1 + b * (self.w2 + b * self.w3);
        let hi_b = other.w1 + b * (other.w2 + b * other.w3);
        assert(self@ == hi_a * b + self.w0) by (nonlinear_arith)
            requires
                self@ == self.w0 + self.w1 * b + self.w2 * (b * b) + self.w3 * (b * b * b),
                hi_a == self.w1 + b * (self.w2 + b * self.w3),
        ;
        assert(other@ == hi_b * b + other.w0) by (nonlinear_arith)
            requires
                other@ == other.w0 + other.w1 * b + other.w2 * (b * b) + other.w3 * (b * b * b),
                hi_b == other.w1 + b * (other.w2 + b * other.w3),
        ;
        vstd::arithmetic::div_mod::lemma_fundamental_div_mod_converse(self@ as int, b, hi_a, self.w0 as int);
        vstd::arithmetic::div_mod::lemma_fundamental_div_mod_converse(other@ as int, b, hi_b, other.w0 as int);
        let mid_a = self.w2 + b * self.w3;
        let mid_b = other.w2 + b * other.w3;
        vstd::arithmetic::div_mod::lemma_fundamental_div_mod_converse(hi_a, b, mid_a, self.w1 as int);
        vstd::arithmetic::div_mod::lemma_fundamental_div_mod_converse(hi_b, b, mid_b, other.w1 as int);
        vstd::arithmetic::div_mod::lemma_fundamental_div_mod_converse(mid_a, b, self.w3 as int, self.w2 as int);
        vstd::arithmetic::div_mod::lemma_fundamental_div_mod_converse(mid_b, b, other.w3 as int, other.w2 as int);
    }

    /// Every value is below 2^256.
    pub proof fn lemma_bounded(self)
        ensures
            self@ < u256_bound(),
    {
    }

    /// The number with little-endian 64-bit limbs `w0, w1, w2, w3`.
    pub fn from_limbs(w0: u64, w1: u64, w2: u64, w3: u64) -> (r: Uint256)
        ensures
            r@ == w0 + w1 * 0x1_0000_0000_0000_0000int + w2 * 0x1_0000_0000_0000_0000_0000_0000_0000_0000int
                + w3 * 0x1_0000_0000_0000_0000_0000_0000_0000_0000_0000_0000_0000_0000int,
    {
        Uint256 { w0, w1, w2, w3 }
    }

    /// The little-endian 64-bit limbs of the number.
    pub fn limbs(&self) -> (r: (u64, u64, u64, u64))
        ensures
            self@ == r.0 + r.1 * 0x1_0000_0000_0000_0000int + r.2
                * 0x1_0000_0000_0000_0000_0000_0000_0000_0000int + r.3
                * 0x1_0000_0000_0000_0000_0000_0000_0000_0000_0000_0000_0000_0000int,
    {
        (self.w0, self.w1, self.w2, self.w3)
    }

    pub fn zero() -> (r: Uint256)
        ensures
            r@ == 0,
    {
        Uint256 { w0: 0, w1: 0, w2: 0, w3: 0 }
    }

    pub fn one() -> (r: Uint256)
        ensures
            r@ == 1,
    {
        Uint256 { w0: 1, w1: 0, w2: 0, w3: 0 }
    }

    pub fn from_u64(v: u64) -> (r: Uint256)
        ensures
            r@ == v,
    {
        Uint256 { w0: v, w1: 0, w2: 0, w3: 0 }
    }

    pub fn from_u128(v: u128) -> (r: Uint256)
        ensures
            r@ == v,
    {
        ext_u256_from_u128(v)
    }

    pub fn is_zero(&self) -> (r: bool)
        ensures
            r == (self@ == 0),
    {
        ext_u256_eq(*self, Uint256::zero())
    }

    pub fn add(self, rhs: Uint256) -> (r: Uint256)
        requires
            self@ + rhs@ < u256_bound(),
        ensures
            r@ == self@ + rhs@,
    {
        ext_u256_add(self, rhs)
    }

    pub fn sub(self, rhs: Uint256) -> (r: Uint256)
        requires
            self@ >= rhs@,
        ensures
            r@ == self@ - rhs@,
    {
        ext_u256_sub(self, rhs)
    }

    pub fn mul(self, rhs: Uint256) -> (r: Uint256)
        requires
            self@ * rhs@ < u256_bound(),
        ensures
            r@ == self@ * rhs@,
    {
        ext_u256_mul(self, rhs)
    }

    /// `self / rhs`, rounded down.
    pub fn div(self, rhs: Uint256) -> (r: Uint256)
        requires
            rhs@ != 0,
        ensures
            r@ == self@ as int / (rhs@ as int),
    {
        ext_u256_div(self, rhs)
    }

    /// `self * d`, rounded down.
    pub fn mul_dec(self, d: Decimal256) -> (r: Uint256)
        requires
            self@ * d@ < u256_bound(),
        ensures
            r@ == mul_dec_spec(self@ as int, d@ as int),
    {
        ext_u256_mul_dec(self, d)
    }

    /// `self / d`, rounded down.
    pub fn div_dec(self, d: Decimal256) -> (r: Uint256)
        requires
            d@ != 0,
            self@ * dec_scale() < u256_bound(),
        ensures
            r@ == div_dec_spec(self@ as int, d@ as int),
    {
        ext_u256_div_dec(self, d)
    }

    pub fn lt(&self, rhs: &Uint256) -> (r: bool)
        ensures
            r == (self@ < rhs@),
    {
        ext_u256_lt(*self, *rhs)
    }

    pub fn le(&self, rhs: &Uint256) -> (r: bool)
        ensures
            r == (self@ <= rhs@),
    {
        !ext_u256_lt(*rhs, *self)
    }

    pub fn eq(&self, rhs: &Uint256) -> (r: bool)
        ensures
            r == (self@ == rhs@),
    {
        ext_u256_eq(*self, *rhs)
    }

    /// The largest value, 2^256 - 1.
    pub fn max_value() -> (r: Uint256)
        ensures
            r@ == u256_bound() - 1,
    {
        Uint256::from_limbs(u64::MAX, u64::MAX, u64::MAX, u64::MAX)
    }

    /// Whether `self + rhs` stays below 2^256.
    pub fn fits_add(&self, rhs: &Uint256) -> (r: bool)
        ensures
            r == (self@ + rhs@ < u256_bound()),
    {
        proof {
            self.lemma_bounded();
        }
        rhs.le(&Uint256::max_value().sub(*self))
    }

    /// Whether `self * rhs` stays below 2^256.
    pub fn fits_mul(&self, rhs: &Uint256) -> (r: bool)
        ensures
            r == (self@ * rhs@ < u256_bound()),
    {
        if self.is_zero() {
            return true;
        }
        let m = Uint256::max_value();
        let q = m.div(*self);
        proof {
            let a = self@ as int;
            let b = rhs@ as int;
            let mm = m@ as int;
            let qq = q@ as int;
            vstd::arithmetic::div_mod::lemma_fundamental_div_mod(mm, a);
            vstd::arithmetic::div_mod::lemma_mod_pos_bound(mm, a);
            assert(b <= qq ==> a * b <= mm) by (nonlinear_arith)
                requires
                    a > 0,
                    mm == a * qq + mm % a,
                    mm % a >= 0,
            ;
            assert(b > qq ==> a * b > mm) by (nonlinear_arith)
                requires
                    a > 0,
                    mm == a * qq + mm % a,
                    mm % a < a,
            ;
        }
        rhs.le(&q)
    }

    pub fn min(self, rhs: Uint256) -> (r: Uint256)
        ensures
            r@ == if self@ <= rhs@ { self@ } else { rhs@ },
    {
        if self.le(&rhs) { self } else { rhs }
    }

    pub fn max(self, rhs: Uint256) -> (r: Uint256)
        ensures
            r@ == if self@ >= rhs@ { self@ } else { rhs@ },
    {
        if rhs.le(&self) { self } else { rhs }
    }
}


impl From<u64> for Uint256 {
    fn from(v: u64) -> (r: Uint256) {
        Uint256 { w0: v, w1: 0, w2: 0, w3: 0 }
    }
}

impl vstd::std_specs::convert::FromSpecImpl<u64> for Uint256 {
    open spec fn obeys_from_spec() -> bool {
        true
    }

    closed spec fn from_spec(v: u64) -> Uint256 {
        Uint256 { w0: v, w1: 0, w2: 0, w3: 0 }
    }
}

/// `<cosmwasm_bignumber::Decimal256 as Add>::add`: the exact sum of the
/// atomics; it panics when the sum reaches 2^256.
#[verifier::external_body]
fn ext_dec_add(a: Decimal256, b: Decimal256) -> (r: Decimal256)
    requires
        a@ + b@ < u256_bound(),
    ensures
        r@ == a@ + b@,
{
    let (p, q) = (a.atomics, b.atomics);
    let x = cosmwasm_bignumber::Decimal256(bigint::U256([p.w0, p.w1, p.w2, p.w3]));
    let y = cosmwasm_bignumber::Decimal256(bigint::U256([q.w0, q.w1, q.w2, q.w3]));
    let bigint::U256(l) = (x + y).0;
    Decimal256 { atomics: Uint256 { w0: l[0], w1: l[1], w2: l[2], w3: l[3] } }
}

/// `<cosmwasm_bignumber::Decimal256 as Sub>::sub`: the exact difference of
/// the atomics; it panics (assertion) when the right operand is larger.
#[verifier::external_body]
fn ext_dec_sub(a: Decimal256, b: Decimal256) -> (r: Decimal256)
    requires
        a@ >= b@,
    ensures
        r@ == a@ - b@,
{
    let (p, q) = (a.atomics, b.atomics);
    let x = cosmwasm_bignumber::Decimal256(bigint::U256([p.w0, p.w1, p.w2, p.w3]));
    let y = cosmwasm_bignumber::Decimal256(bigint::U256([q.w0, q.w1, q.w2, q.w3]));
    let bigint::U256(l) = (x - y).0;
    Decimal256 { atomics: Uint256 { w0: l[0], w1: l[1], w2: l[2], w3: l[3] } }
}

/// `<cosmwasm_bignumber::Decimal256 as Mul>::mul`: `a * b / 10^18` on the
/// atomics, rounded down; the 256-bit product panics when it reaches 2^256.
#[verifier::external_body]
fn ext_dec_mul(a: Decimal256, b: Decimal256) -> (r: Decimal256)
    requires
        a@ * b@ < u256_bound(),
    ensures
        r@ == (a@ * b@) as int / dec_scale(),
{
    let (p, q) = (a.atomics, b.atomics);
    let x = cosmwasm_bignumber::Decimal256(bigint::U256([p.w0, p.w1, p.w2, p.w3]));
    let y = cosmwasm_bignumber::Decimal256(bigint::U256([q.w0, q.w1, q.w2, q.w3]));
    let bigint::U256(l) = (x * y).0;
    Decimal256 { atomics: Uint256 { w0: l[0], w1: l[1], w2: l[2], w3: l[3] } }
}

/// `<cosmwasm_bignumber::Decimal256 as Div>::div`: `a * 10^18 / b` on the
/// atomics, rounded down; it panics on a zero divisor and when `a * 10^18`
/// reaches 2^256.
#[verifier::external_body]
fn ext_dec_div(a: Decimal256, b: Decimal256) -> (r: Decimal256)
    requires
        b@ != 0,
        a@ * dec_scale() < u256_bound(),
    ensures
        r@ == a@ * dec_scale() / (b@ as int),
{
    let (p, q) = (a.atomics, b.atomics);
    let x = cosmwasm_bignumber::Decimal256(bigint::U256([p.w0, p.w1, p.w2, p.w3]));
    let y = cosmwasm_bignumber::Decimal256(bigint::U256([q.w0, q.w1, q.w2, q.w3]));
    let bigint::U256(l) = (x / y).0;
    Decimal256 { atomics: Uint256 { w0: l[0], w1: l[1], w2: l[2], w3: l[3] } }
}

/// The value of a string of decimal digits, most significant first (zero
/// for the empty string).
pub open spec fn digits_value(s: Seq<char>) -> nat
    decreases s.len(),
{
    if s.len() == 0 {
        0
    } else {
        digits_value(s.drop_last()) * 10 + (s.last() as int - 48) as nat
    }
}

/// What `bigint::U256::from_dec_str` makes of a string: its value, when it
/// holds decimal digits only (none at all is zero) and the value is below
/// 2^256.
pub open spec fn dec_str_value(s: Seq<char>) -> Option<nat> {
    if (forall|i: int| 0 <= i < s.len() ==> '0' <= #[trigger] s[i] <= '9') && digits_value(s)
        < u256_bound() {
        Some(digits_value(s))
    } else {
        None
    }
}

/// What `cosmwasm_bignumber::Decimal256::from_str` makes of a string, as
/// atomics (before the check that they fit): a whole part, or a whole part,
/// a dot and at most 18 fractional digits; `None` where it returns an error.
pub open spec fn decimal256_parse(s: Seq<char>) -> Option<nat> {
    let dots = s.filter(|c: char| c == '.').len();
    if dots == 0 {
        match dec_str_value(s) {
            Some(whole) => Some((whole * dec_scale()) as nat),
            None => None,
        }
    } else if dots == 1 {
        let i = choose|i: int| 0 <= i < s.len() && s[i] == '.';
        let fraction = s.subrange(i + 1, s.len() as int);
        match (dec_str_value(s.subrange(0, i)), dec_str_value(fraction)) {
            (Some(whole), Some(frac)) => if fraction.len() <= 18 {
                Some((whole * dec_scale() + frac * vstd::arithmetic::power::pow(
                    10,
                    (18 - fraction.len()) as nat,
                )) as nat)
            } else {
                None
            },
            _ => None,
        }
    } else {
        None
    }
}

/// `<cosmwasm_bignumber::Decimal256 as FromStr>::from_str`: splits the
/// string at its dots, parses each part with `U256::from_dec_str`, refuses
/// more than 18 fractional digits, and returns the atomics
/// `whole * 10^18 + fraction * 10^(18 - digits)` (see `decimal256_parse`);
/// it panics where those atomics reach 2^256.
#[verifier::external_body]
fn ext_dec_from_str(s: &str) -> (r: Option<Decimal256>)
    requires
        decimal256_parse(s@) matches Some(atomics) ==> atomics < u256_bound(),
    ensures
        match r {
            Some(d) => decimal256_parse(s@) == Some(d@),
            None => decimal256_parse(s@) is None,
        },
{
    match <cosmwasm_bignumber::Decimal256 as std::str::FromStr>::from_str(s) {
        Ok(d) => {
            let bigint::U256(l) = d.0;
            Some(Decimal256 { atomics: Uint256 { w0: l[0], w1: l[1], w2: l[2], w3: l[3] } })
        },
        Err(_) => None,
    }
}

/// The error of a string that does not denote a decimal.
#[derive(Clone, Copy, Debug, PartialEq, Eq, Structural)]
pub enum ParseDecimalError {
    Invalid,
}

impl Decimal256 {
    pub fn zero() -> (r: Decimal256)
        ensures
            r@ == 0,
    {
        Decimal256 { atomics: Uint256::zero() }
    }

    pub fn one() -> (r: Decimal256)
        ensures
            r@ == dec_scale(),
    {
        Decimal256 { atomics: Uint256::from_u64(1_000_000_000_000_000_000u64) }
    }

    /// `x` percent.
    pub fn percent(x: u64) -> (r: Decimal256)
        ensures
            r@ == x * 10_000_000_000_000_000int,
    {
        let v: u128 = (x as u128) * 10_000_000_000_000_000u128;
        Decimal256 { atomics: Uint256::from_u128(v) }
    }

    /// The decimal with the given atomics (units of 10^-18).
    pub fn from_atomics(atomics: Uint256) -> (r: Decimal256)
        ensures
            r@ == atomics@,
    {
        Decimal256 { atomics }
    }

    /// `nominator / denominator` as a decimal, rounded down.
    pub fn from_ratio(nominator: Uint256, denominator: Uint256) -> (r: Decimal256)
        requires
            denominator@ != 0,
            nominator@ * dec_scale() < u256_bound(),
        ensures
            r@ == nominator@ * dec_scale() / (denominator@ as int),
    {
        let scaled = nominator.mul(Uint256::from_u64(1_000_000_000_000_000_000u64));
        Decimal256 { atomics: scaled.div(denominator) }
    }

    /// The atomics (units of 10^-18) of this decimal.
    pub fn atomics(&self) -> (r: Uint256)
        ensures
            r@ == self@,
    {
        self.atomics
    }

    /// The integer `u` as a decimal.
    pub fn from_uint256(u: Uint256) -> (r: Decimal256)
        requires
            u@ * dec_scale() < u256_bound(),
        ensures
            r@ == u@ * dec_scale(),
    {
        Decimal256 { atomics: u.mul(Uint256::from_u64(1_000_000_000_000_000_000u64)) }
    }

    /// Parses a decimal such as "1.25"; at most 18 fractional digits.
    pub fn from_str(s: &str) -> (r: Result<Decimal256, ParseDecimalError>)
        requires
            decimal256_parse(s@) matches Some(atomics) ==> atomics < u256_bound(),
        ensures
            match r {
                Ok(d) => decimal256_parse(s@) == Some(d@),
                Err(_) => decimal256_parse(s@) is None,
            },
    {
        match ext_dec_from_str(s) {
            Some(d) => Ok(d),
            None => Err(ParseDecimalError::Invalid),
        }
    }

    pub fn is_zero(&self) -> (r: bool)
        ensures
            r == (self@ == 0),
    {
        self.atomics.is_zero()
    }

    pub fn add(self, rhs: Decimal256) -> (r: Decimal256)
        requires
            self@ + rhs@ < u256_bound(),
        ensures
            r@ == self@ + rhs@,
    {
        ext_dec_add(self, rhs)
    }

    pub fn sub(self, rhs: Decimal256) -> (r: Decimal256)
        requires
            self@ >= rhs@,
        ensures
            r@ == self@ - rhs@,
    {
        ext_dec_sub(self, rhs)
    }

    pub fn mul(self, rhs: Decimal256) -> (r: Decimal256)
        requires
            self@ * rhs@ < u256_bound(),
        ensures
            r@ == (self@ * rhs@) as int / dec_scale(),
    {
        ext_dec_mul(self, rhs)
    }

    pub fn div(self, rhs: Decimal256) -> (r: Decimal256)
        requires
            rhs@ != 0,
            self@ * dec_scale() < u256_bound(),
        ensures
            r@ == self@ * dec_scale() / (rhs@ as int),
    {
        ext_dec_div(self, rhs)
    }

    /// `self * u`, rounded down to an integer.
    pub fn mul_uint(self, u: Uint256) -> (r: Uint256)
        requires
            u@ * self@ < u256_bound(),
        ensures
            r@ == mul_dec_spec(u@ as int, self@ as int),
    {
        u.mul_dec(self)
    }

    pub fn lt(&self, rhs: &Decimal256) -> (r: bool)
        ensures
            r == (self@ < rhs@),
    {
        self.atomics.lt(&rhs.atomics)
    }

    pub fn le(&self, rhs: &Decimal256) -> (r: bool)
        ensures
            r == (self@ <= rhs@),
    {
        self.atomics.le(&rhs.atomics)
    }

    pub fn eq(&self, rhs: &Decimal256) -> (r: bool)
        ensures
            r == (self@ == rhs@),
    {
        self.atomics.eq(&rhs.atomics)
    }
}

} // verus!
