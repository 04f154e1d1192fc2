//! Fixed-point and ceiling-division primitives taken from `spl_math`.
//!
//! A fixed-point number stores `x * PRECISION_ONE` as a 256-bit unsigned raw
//! value. [`Precise`] holds that raw value as four little-endian 64-bit words;
//! each operation hands it to `spl_math::precise_number::PreciseNumber` and
//! takes the raw result back.
use spl_math::checked_ceil_div::CheckedCeilDiv;
use spl_math::precise_number::PreciseNumber;
use spl_math::uint::U256;
use vstd::prelude::*;

verus! {

/// The raw value that stands for the whole number one.
pub const PRECISION_ONE: u128 = 1_000_000_000_000;

/// Half of [`PRECISION_ONE`]: the correction that makes divisions round to nearest.
pub const PRECISION_HALF: u128 = 500_000_000_000;

/// 2^64, the weight of one word.
pub open spec fn word() -> int {
    0x1_0000_0000_0000_0000int
}

/// 2^256, the first raw value that does not fit.
pub open spec fn raw_bound() -> int {
    0x1_0000_0000_0000_0000_0000_0000_0000_0000_0000_0000_0000_0000_0000_0000_0000_0000_0000_0000_0000_0000int
}

/// A non-negative fixed-point number, by its 256-bit raw value.
#[derive(Debug, Clone, Copy)]
pub struct Precise {
    pub words: [u64; 4],
}

impl Precise {
    /// The raw value: the words read little-endian.
    pub open spec fn value(self) -> int {
        self.words[0] as int + self.words[1] as int * word() + self.words[2] as int * (word()
            * word()) + self.words[3] as int * (word() * word() * word())
    }
}

/// The raw value of an optional number.
pub open spec fn value_of(p: Option<Precise>) -> Option<int> {
    match p {
        Some(p) => Some(p.value()),
        None => None,
    }
}

/// A raw value where it fits in 256 bits.
pub open spec fn checked_raw(v: int) -> Option<int> {
    if v < raw_bound() {
        Some(v)
    } else {
        None
    }
}

/// Fixed-point sum: the raw values added, failing past 2^256.
pub open spec fn add_spec(a: int, b: int) -> Option<int> {
    checked_raw(a + b)
}

/// Fixed-point difference, failing below zero.
pub open spec fn sub_spec(a: int, b: int) -> Option<int> {
    if a >= b {
        Some(a - b)
    } else {
        None
    }
}

/// Fixed-point product rounded to nearest. Where `a * b` does not fit, the
/// larger factor is first truncated to whole units.
pub open spec fn mul_spec(a: int, b: int) -> Option<int> {
    if a * b < raw_bound() {
        if a * b + PRECISION_HALF < raw_bound() {
            Some((a * b + PRECISION_HALF) / (PRECISION_ONE as int))
        } else {
            None
        }
    } else if a >= b {
        checked_raw((a / (PRECISION_ONE as int)) * b)
    } else {
        checked_raw((b / (PRECISION_ONE as int)) * a)
    }
}

/// Fixed-point quotient rounded to nearest. Where `a * PRECISION_ONE` does not
/// fit, the quotient is taken in whole units.
pub open spec fn div_spec(a: int, b: int) -> Option<int> {
    if b == 0 {
        None
    } else if a * PRECISION_ONE < raw_bound() {
        if a * PRECISION_ONE + PRECISION_HALF < raw_bound() {
            Some((a * PRECISION_ONE + PRECISION_HALF) / b)
        } else {
            None
        }
    } else if a + PRECISION_HALF < raw_bound() {
        checked_raw(((a + PRECISION_HALF) / b) * PRECISION_ONE)
    } else {
        None
    }
}

/// The whole number nearest to a raw value (halves round up).
pub open spec fn imprecise_spec(a: int) -> int {
    (a + PRECISION_HALF) / (PRECISION_ONE as int)
}

/// The raw values whose nearest whole number fits in `u128`.
pub open spec fn fits_imprecise(a: int) -> bool {
    a + PRECISION_HALF < u128::MAX as int * PRECISION_ONE + PRECISION_ONE
}

/// The raw result of `spl_math`'s square root on a raw value.
pub uninterp spec fn precise_sqrt(value: int) -> Option<int>;

/// Relies on `PreciseNumber::new`: the raw value is `n * PRECISION_ONE`, which
/// always fits in 256 bits.
#[verifier::external_body]
pub(crate) fn precise_new(n: u128) -> (r: Option<Precise>)
    ensures
        value_of(r) == Some(n * PRECISION_ONE),
{
    match PreciseNumber::new(n) {
        Some(p) => Some(Precise { words: p.value.0 }),
        None => None,
    }
}

/// Relies on `PreciseNumber::checked_add`: `U256::checked_add` of the raw values.
#[verifier::external_body]
pub(crate) fn precise_add(a: &Precise, b: &Precise) -> (r: Option<Precise>)
    ensures
        value_of(r) == add_spec(a.value(), b.value()),
{
    let (x, y) = (PreciseNumber { value: U256(a.words) }, PreciseNumber { value: U256(b.words) });
    match x.checked_add(&y) {
        Some(p) => Some(Precise { words: p.value.0 }),
        None => None,
    }
}

/// Relies on `PreciseNumber::checked_sub`: `U256::checked_sub` of the raw values.
#[verifier::external_body]
pub(crate) fn precise_sub(a: &Precise, b: &Precise) -> (r: Option<Precise>)
    ensures
        value_of(r) == sub_spec(a.value(), b.value()),
{
    let (x, y) = (PreciseNumber { value: U256(a.words) }, PreciseNumber { value: U256(b.words) });
    match x.checked_sub(&y) {
        Some(p) => Some(Precise { words: p.value.0 }),
        None => None,
    }
}

/// Relies on `PreciseNumber::checked_mul`: the product with its rounding
/// correction, or the truncated fallback of its overflow branch.
#[verifier::external_body]
pub(crate) fn precise_mul(a: &Precise, b: &Precise) -> (r: Option<Precise>)
    ensures
        value_of(r) == mul_spec(a.value(), b.value()),
{
    let (x, y) = (PreciseNumber { value: U256(a.words) }, PreciseNumber { value: U256(b.words) });
    match x.checked_mul(&y) {
        Some(p) => Some(Precise { words: p.value.0 }),
        None => None,
    }
}

/// Relies on `PreciseNumber::checked_div`: `None` for a zero divisor, else the
/// scaled quotient with its rounding correction, or the whole-unit fallback of
/// its overflow branch.
#[verifier::external_body]
pub(crate) fn precise_div(a: &Precise, b: &Precise) -> (r: Option<Precise>)
    ensures
        value_of(r) == div_spec(a.value(), b.value()),
{
    let (x, y) = (PreciseNumber { value: U256(a.words) }, PreciseNumber { value: U256(b.words) });
    match x.checked_div(&y) {
        Some(p) => Some(Precise { words: p.value.0 }),
        None => None,
    }
}

/// Relies on `PreciseNumber::sqrt`: a Newton approximation that depends on the
/// raw value alone. It refuses values above `u128::MAX` whole units, returns
/// zero for zero at once, and returns one for one after a single step that
/// reproduces its starting guess.
#[verifier::external_body]
pub(crate) fn precise_root(a: &Precise) -> (r: Option<Precise>)
    ensures
        value_of(r) == precise_sqrt(a.value()),
        a.value() > u128::MAX as int * PRECISION_ONE ==> r is None,
        a.value() == 0 ==> value_of(r) == Some(0int),
        a.value() == PRECISION_ONE ==> value_of(r) == Some(PRECISION_ONE as int),
{
    match (PreciseNumber { value: U256(a.words) }).sqrt() {
        Some(p) => Some(Precise { words: p.value.0 }),
        None => None,
    }
}

/// Relies on `PreciseNumber::floor`: the raw value divided by `PRECISION_ONE`
/// and multiplied back, which never fails.
#[verifier::external_body]
pub(crate) fn precise_floor(a: &Precise) -> (r: Option<Precise>)
    ensures
        value_of(r) == Some((a.value() / PRECISION_ONE as int) * PRECISION_ONE),
{
    match (PreciseNumber { value: U256(a.words) }).floor() {
        Some(p) => Some(Precise { words: p.value.0 }),
        None => None,
    }
}

/// Relies on `PreciseNumber::to_imprecise`: the raw value plus the rounding
/// correction, divided by `PRECISION_ONE`. It panics when that quotient does
/// not fit in `u128`, which `requires` excludes.
#[verifier::external_body]
pub(crate) fn precise_to_imprecise(a: &Precise) -> (r: Option<u128>)
    requires
        fits_imprecise(a.value()),
    ensures
        r == Some(imprecise_spec(a.value()) as u128),
{
    (PreciseNumber { value: U256(a.words) }).to_imprecise()
}

/// Relies on `CheckedCeilDiv::checked_ceil_div` for `u128`.
#[verifier::external_body]
pub(crate) fn ceil_div(dividend: u128, divisor: u128) -> (r: Option<(u128, u128)>)
    ensures
        match r {
            Some((q, d)) => ceil_div_spec(dividend as int, divisor as int) == Some(
                (q as int, d as int),
            ),
            None => ceil_div_spec(dividend as int, divisor as int) is None,
        },
{
    dividend.checked_ceil_div(divisor)
}

/// Ceiling division that also shrinks the divisor: the quotient rounded up,
/// and the least divisor that still gives that quotient rounded up. `None`
/// for a zero divisor, and where the plain quotient is zero.
pub open spec fn ceil_div_spec(dividend: int, divisor: int) -> Option<(int, int)> {
    if divisor == 0 || dividend / divisor == 0 {
        None
    } else if dividend % divisor == 0 {
        Some((dividend / divisor, divisor))
    } else {
        let q = dividend / divisor + 1;
        if dividend % q == 0 {
            Some((q, dividend / q))
        } else {
            Some((q, dividend / q + 1))
        }
    }
}

/// Whether the nearest whole number to a raw value fits in `u128`, read off
/// the words against the limit `2^128 * PRECISION_ONE - PRECISION_HALF`.
pub fn imprecise_fits(a: &Precise) -> (r: bool)
    ensures
        r == fits_imprecise(a.value()),
{
    // The limit's words, least significant first: 2^64 - PRECISION_HALF,
    // 2^64 - 1 and PRECISION_ONE - 1.
    let low: u64 = 18_446_743_573_709_551_616;
    let middle: u64 = 18_446_744_073_709_551_615;
    let high: u64 = 999_999_999_999;
    proof {
        let w: int = 0x1_0000_0000_0000_0000;
        assert(word() * word() == w * w);
        assert(word() * word() * word() == w * w * w);
        assert(w * w == 0x1_0000_0000_0000_0000_0000_0000_0000_0000int);
        assert(w * w * w == 0x1_0000_0000_0000_0000_0000_0000_0000_0000_0000_0000_0000_0000int);
    }
    a.words[3] == 0 && (a.words[2] < high || (a.words[2] == high && (a.words[1] < middle || a.words[0]
        < low)))
}

} // verus!
