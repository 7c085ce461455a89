//! Double-precision numbers, held as their IEEE-754 bit patterns.
//!
//! A number is a `u64`: one sign bit, eleven exponent bits, fifty-two
//! fraction bits. Order and equality are decided here on the bits; the four
//! arithmetic operations are the machine's. Where a pattern goes to the
//! machine or to an outside crate it is decoded by `FromBytes` of
//! num_traits, and what comes back is encoded by `to_bits`.
use num_traits::FromBytes;
use vstd::prelude::*;

verus! {

/// The sign bit of a pattern.
pub const SIGN_BIT: u64 = 0x8000_0000_0000_0000;

/// The pattern of positive infinity: every exponent bit set, no fraction bit.
pub const INFINITY: u64 = 0x7FF0_0000_0000_0000;

/// The pattern of the number one.
pub const ONE: u64 = 0x3FF0_0000_0000_0000;

/// The pattern of two to the power of five hundred, a number whose square
/// is finite.
pub const SQUARE_LIMIT: u64 = 0x5F30_0000_0000_0000;

/// The pattern without its sign bit.
pub open spec fn magnitude(b: u64) -> int {
    b as int % SIGN_BIT as int
}

/// Whether the sign bit is set.
pub open spec fn negative(b: u64) -> bool {
    b >= SIGN_BIT
}

/// Whether the pattern is not a number.
pub open spec fn is_nan(b: u64) -> bool {
    magnitude(b) > INFINITY
}

/// Whether the pattern is a number other than an infinity.
pub open spec fn finite(b: u64) -> bool {
    magnitude(b) < INFINITY
}

/// Whether the pattern is a finite number of a size whose square is finite
/// too: at most `SQUARE_LIMIT` either way.
pub open spec fn moderate(b: u64) -> bool {
    magnitude(b) <= SQUARE_LIMIT
}

/// Whether the pattern is one of the two zeros.
pub open spec fn is_zero(b: u64) -> bool {
    magnitude(b) == 0
}

/// The place of a number in the order of the numbers: patterns of numbers
/// compare as their ranks do, and the two zeros share rank 0.
pub open spec fn rank(b: u64) -> int {
    if negative(b) {
        -magnitude(b)
    } else {
        magnitude(b)
    }
}

/// `a == b` as numbers: false where either is not a number.
pub open spec fn equal(a: u64, b: u64) -> bool {
    !is_nan(a) && !is_nan(b) && rank(a) == rank(b)
}

/// `a < b` as numbers: false where either is not a number.
pub open spec fn less(a: u64, b: u64) -> bool {
    !is_nan(a) && !is_nan(b) && rank(a) < rank(b)
}

/// `a <= b` as numbers: false where either is not a number.
pub open spec fn at_most(a: u64, b: u64) -> bool {
    !is_nan(a) && !is_nan(b) && rank(a) <= rank(b)
}

/// The pattern of the number with the opposite sign.
pub open spec fn negated(b: u64) -> u64 {
    if b >= SIGN_BIT {
        (b - SIGN_BIT) as u64
    } else {
        (b + SIGN_BIT) as u64
    }
}

/// The number with the opposite sign.
pub fn negate(b: u64) -> (r: u64)
    ensures
        r == negated(b),
        finite(b) ==> finite(r),
{
    if b >= SIGN_BIT {
        b - SIGN_BIT
    } else {
        b + SIGN_BIT
    }
}

fn rank_of(b: u64) -> (r: i128)
    ensures
        r == rank(b),
{
    let m: u64 = b % SIGN_BIT;
    if b >= SIGN_BIT {
        -(m as i128)
    } else {
        m as i128
    }
}

fn not_a_number(b: u64) -> (r: bool)
    ensures
        r == is_nan(b),
{
    b % SIGN_BIT > INFINITY
}

/// Tells whether `b` is a number other than an infinity.
pub fn is_finite(b: u64) -> (r: bool)
    ensures
        r == finite(b),
{
    b % SIGN_BIT < INFINITY
}

/// Tells whether `b` is a finite number whose square is finite too.
pub fn is_moderate(b: u64) -> (r: bool)
    ensures
        r == moderate(b),
        r ==> finite(b),
{
    b % SIGN_BIT <= SQUARE_LIMIT
}

/// Tells whether `a == b` as numbers.
pub fn float_eq(a: u64, b: u64) -> (r: bool)
    ensures
        r == equal(a, b),
{
    !not_a_number(a) && !not_a_number(b) && rank_of(a) == rank_of(b)
}

/// Tells whether `a < b` as numbers.
pub fn float_lt(a: u64, b: u64) -> (r: bool)
    ensures
        r == less(a, b),
{
    !not_a_number(a) && !not_a_number(b) && rank_of(a) < rank_of(b)
}

/// Tells whether `a <= b` as numbers.
pub fn float_le(a: u64, b: u64) -> (r: bool)
    ensures
        r == at_most(a, b),
{
    !not_a_number(a) && !not_a_number(b) && rank_of(a) <= rank_of(b)
}

/// What the machine's addition gives for two finite numbers.
pub uninterp spec fn float_sum(a: u64, b: u64) -> u64;

/// What the machine's subtraction gives for two finite numbers.
pub uninterp spec fn float_difference(a: u64, b: u64) -> u64;

/// What the machine's multiplication gives for two finite numbers.
pub uninterp spec fn float_product(a: u64, b: u64) -> u64;

/// What the machine's division gives for a finite number and a finite
/// divisor other than zero.
pub uninterp spec fn float_quotient(a: u64, b: u64) -> u64;

/// The number that an integer converts to.
pub uninterp spec fn float_of(i: i32) -> u64;

/// The sum where both operands and the sum are finite.
pub open spec fn sum(a: u64, b: u64) -> Option<u64> {
    if finite(a) && finite(b) && finite(float_sum(a, b)) {
        Some(float_sum(a, b))
    } else {
        None
    }
}

/// The difference where both operands and the difference are finite.
pub open spec fn difference(a: u64, b: u64) -> Option<u64> {
    if finite(a) && finite(b) && finite(float_difference(a, b)) {
        Some(float_difference(a, b))
    } else {
        None
    }
}

/// The product where both operands and the product are finite.
pub open spec fn product(a: u64, b: u64) -> Option<u64> {
    if finite(a) && finite(b) && finite(float_product(a, b)) {
        Some(float_product(a, b))
    } else {
        None
    }
}

/// The quotient where both operands and the quotient are finite and the
/// divisor is not zero.
pub open spec fn quotient(a: u64, b: u64) -> Option<u64> {
    if finite(a) && finite(b) && !is_zero(b) && finite(float_quotient(a, b)) {
        Some(float_quotient(a, b))
    } else {
        None
    }
}

/// The `+` of std on two doubles. Both operands are finite, so the result is
/// a number or an infinity and IEEE-754 fixes every bit of it.
#[verifier::external_body]
fn machine_sum(a: u64, b: u64) -> (r: u64)
    requires
        finite(a),
        finite(b),
    ensures
        r == float_sum(a, b),
{
    let pair: geo::Coord = geo::Coord {
        x: FromBytes::from_ne_bytes(&a.to_ne_bytes()),
        y: FromBytes::from_ne_bytes(&b.to_ne_bytes()),
    };
    (pair.x + pair.y).to_bits()
}

/// The `-` of std on two doubles. Both operands are finite, so the result is
/// a number or an infinity and IEEE-754 fixes every bit of it.
#[verifier::external_body]
fn machine_difference(a: u64, b: u64) -> (r: u64)
    requires
        finite(a),
        finite(b),
    ensures
        r == float_difference(a, b),
{
    let pair: geo::Coord = geo::Coord {
        x: FromBytes::from_ne_bytes(&a.to_ne_bytes()),
        y: FromBytes::from_ne_bytes(&b.to_ne_bytes()),
    };
    (pair.x - pair.y).to_bits()
}

/// The `*` of std on two doubles. Both operands are finite, so the result is
/// a number or an infinity and IEEE-754 fixes every bit of it.
#[verifier::external_body]
fn machine_product(a: u64, b: u64) -> (r: u64)
    requires
        finite(a),
        finite(b),
    ensures
        r == float_product(a, b),
{
    let pair: geo::Coord = geo::Coord {
        x: FromBytes::from_ne_bytes(&a.to_ne_bytes()),
        y: FromBytes::from_ne_bytes(&b.to_ne_bytes()),
    };
    (pair.x * pair.y).to_bits()
}

/// The `/` of std on two doubles. Both operands are finite and the divisor
/// is not zero, so the result is a number or an infinity and IEEE-754 fixes
/// every bit of it.
#[verifier::external_body]
fn machine_quotient(a: u64, b: u64) -> (r: u64)
    requires
        finite(a),
        finite(b),
        !is_zero(b),
    ensures
        r == float_quotient(a, b),
{
    let pair: geo::Coord = geo::Coord {
        x: FromBytes::from_ne_bytes(&a.to_ne_bytes()),
        y: FromBytes::from_ne_bytes(&b.to_ne_bytes()),
    };
    (pair.x / pair.y).to_bits()
}

/// The `From<i32>` of std for doubles, which loses nothing: the result is the
/// integer itself, a finite number.
#[verifier::external_body]
fn machine_float(i: i32) -> (r: u64)
    ensures
        r == float_of(i),
        finite(r),
{
    let pair: geo::Coord = geo::Coord { x: i.into(), y: i.into() };
    pair.x.to_bits()
}

/// Adds two numbers; `None` where an operand or the sum is not finite.
pub fn plus(a: u64, b: u64) -> (r: Option<u64>)
    ensures
        r == sum(a, b),
{
    if !is_finite(a) || !is_finite(b) {
        return None;
    }
    let s = machine_sum(a, b);
    if is_finite(s) {
        Some(s)
    } else {
        None
    }
}

/// Subtracts `b` from `a`; `None` where an operand or the difference is not
/// finite.
pub fn minus(a: u64, b: u64) -> (r: Option<u64>)
    ensures
        r == difference(a, b),
{
    if !is_finite(a) || !is_finite(b) {
        return None;
    }
    let s = machine_difference(a, b);
    if is_finite(s) {
        Some(s)
    } else {
        None
    }
}

/// Multiplies two numbers; `None` where an operand or the product is not
/// finite.
pub fn times(a: u64, b: u64) -> (r: Option<u64>)
    ensures
        r == product(a, b),
{
    if !is_finite(a) || !is_finite(b) {
        return None;
    }
    let s = machine_product(a, b);
    if is_finite(s) {
        Some(s)
    } else {
        None
    }
}

/// Divides `a` by `b`; `None` where an operand or the quotient is not
/// finite, or the divisor is zero.
pub fn over(a: u64, b: u64) -> (r: Option<u64>)
    ensures
        r == quotient(a, b),
{
    if !is_finite(a) || !is_finite(b) || b % SIGN_BIT == 0 {
        return None;
    }
    let s = machine_quotient(a, b);
    if is_finite(s) {
        Some(s)
    } else {
        None
    }
}

/// The number that the integer `i` converts to.
pub fn from_int(i: i32) -> (r: u64)
    ensures
        r == float_of(i),
        finite(r),
{
    machine_float(i)
}

} // verus!
