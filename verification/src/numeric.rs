//! Trusted kernel for IEEE 754 binary64 arithmetic on bit patterns.
//!
//! A real number is carried through the library as the `u64` bit pattern of a
//! binary64 value. Every operation below is deterministic: it depends on its
//! arguments alone, so each result bears an uninterpreted name that the
//! operation's contract applies. Inside each body, `bytemuck::cast` converts a
//! bit pattern to the binary64 value it encodes (and back); where no libm call
//! fixes the cast's type by itself, `libm::copysign` of a value with itself --
//! which returns its first argument unchanged -- does so.
use vstd::prelude::*;

verus! {

/// Bit pattern of positive zero.
pub const F_ZERO: u64 = 0x0000_0000_0000_0000;

/// Bit pattern of one.
pub const F_ONE: u64 = 0x3FF0_0000_0000_0000;

/// Bit pattern of two.
pub const F_TWO: u64 = 0x4000_0000_0000_0000;

/// Bit pattern of pi.
pub const F_PI: u64 = 0x4009_21FB_5444_2D18;

pub uninterp spec fn add_bits(a: u64, b: u64) -> u64;

pub uninterp spec fn sub_bits(a: u64, b: u64) -> u64;

pub uninterp spec fn mul_bits(a: u64, b: u64) -> u64;

pub uninterp spec fn div_bits(a: u64, b: u64) -> u64;

pub uninterp spec fn neg_bits(a: u64) -> u64;

pub uninterp spec fn cos_bits(a: u64) -> u64;

pub uninterp spec fn sin_bits(a: u64) -> u64;

pub uninterp spec fn acos_bits(a: u64) -> u64;

pub uninterp spec fn asin_bits(a: u64) -> u64;

pub uninterp spec fn sqrt_bits(a: u64) -> u64;

pub uninterp spec fn atan2_bits(y: u64, x: u64) -> u64;

pub uninterp spec fn lt_bits(a: u64, b: u64) -> bool;

pub uninterp spec fn eq_bits(a: u64, b: u64) -> bool;

/// Relies on the binary64 `+` operator of std: the IEEE 754 sum of the values
/// whose bit patterns are `a` and `b`, as a bit pattern.
#[verifier::external_body]
pub(crate) fn fadd(a: u64, b: u64) -> (r: u64)
    ensures
        r == add_bits(a, b),
{
    let x = libm::copysign(bytemuck::cast(a), bytemuck::cast(a));
    let y = libm::copysign(bytemuck::cast(b), bytemuck::cast(b));
    (x + y).to_bits()
}

/// Relies on the binary64 `-` operator of std: the IEEE 754 difference of the
/// values whose bit patterns are `a` and `b`, as a bit pattern.
#[verifier::external_body]
pub(crate) fn fsub(a: u64, b: u64) -> (r: u64)
    ensures
        r == sub_bits(a, b),
{
    let x = libm::copysign(bytemuck::cast(a), bytemuck::cast(a));
    let y = libm::copysign(bytemuck::cast(b), bytemuck::cast(b));
    (x - y).to_bits()
}

/// Relies on the binary64 `*` operator of std: the IEEE 754 product of the
/// values whose bit patterns are `a` and `b`, as a bit pattern.
#[verifier::external_body]
pub(crate) fn fmul(a: u64, b: u64) -> (r: u64)
    ensures
        r == mul_bits(a, b),
{
    let x = libm::copysign(bytemuck::cast(a), bytemuck::cast(a));
    let y = libm::copysign(bytemuck::cast(b), bytemuck::cast(b));
    (x * y).to_bits()
}

/// Relies on the binary64 `/` operator of std: the IEEE 754 quotient of the
/// values whose bit patterns are `a` and `b`, as a bit pattern. Division by
/// zero yields an infinity or NaN pattern, never a failure.
#[verifier::external_body]
pub(crate) fn fdiv(a: u64, b: u64) -> (r: u64)
    ensures
        r == div_bits(a, b),
{
    let x = libm::copysign(bytemuck::cast(a), bytemuck::cast(a));
    let y = libm::copysign(bytemuck::cast(b), bytemuck::cast(b));
    (x / y).to_bits()
}

/// Relies on the binary64 unary `-` operator of std: the value whose bit
/// pattern is `a` with its sign flipped, as a bit pattern.
#[verifier::external_body]
pub(crate) fn fneg(a: u64) -> (r: u64)
    ensures
        r == neg_bits(a),
{
    let x = libm::copysign(bytemuck::cast(a), bytemuck::cast(a));
    (-x).to_bits()
}

/// Relies on libm::cos: the cosine of the value whose bit pattern is `a`, as
/// a bit pattern.
#[verifier::external_body]
pub(crate) fn fcos(a: u64) -> (r: u64)
    ensures
        r == cos_bits(a),
{
    libm::cos(bytemuck::cast(a)).to_bits()
}

/// Relies on libm::sin: the sine of the value whose bit pattern is `a`, as a
/// bit pattern.
#[verifier::external_body]
pub(crate) fn fsin(a: u64) -> (r: u64)
    ensures
        r == sin_bits(a),
{
    libm::sin(bytemuck::cast(a)).to_bits()
}

/// Relies on libm::acos: the arc cosine of the value whose bit pattern is
/// `a`, as a bit pattern; a NaN pattern outside its domain, never a failure.
#[verifier::external_body]
pub(crate) fn facos(a: u64) -> (r: u64)
    ensures
        r == acos_bits(a),
{
    libm::acos(bytemuck::cast(a)).to_bits()
}

/// Relies on libm::asin: the arc sine of the value whose bit pattern is `a`,
/// as a bit pattern; a NaN pattern outside its domain, never a failure.
#[verifier::external_body]
pub(crate) fn fasin(a: u64) -> (r: u64)
    ensures
        r == asin_bits(a),
{
    libm::asin(bytemuck::cast(a)).to_bits()
}

/// Relies on libm::sqrt: the square root of the value whose bit pattern is
/// `a`, as a bit pattern.
#[verifier::external_body]
pub(crate) fn fsqrt(a: u64) -> (r: u64)
    ensures
        r == sqrt_bits(a),
{
    libm::sqrt(bytemuck::cast(a)).to_bits()
}

/// Relies on libm::atan2: the angle of the point whose coordinates have bit
/// patterns `x` and `y`, as a bit pattern.
#[verifier::external_body]
pub(crate) fn fatan2(y: u64, x: u64) -> (r: u64)
    ensures
        r == atan2_bits(y, x),
{
    libm::atan2(bytemuck::cast(y), bytemuck::cast(x)).to_bits()
}

/// Relies on the binary64 `<` operator of std: the IEEE 754 less-than
/// comparison of the values whose bit patterns are `a` and `b` (false
/// whenever either is a NaN pattern).
#[verifier::external_body]
pub(crate) fn flt(a: u64, b: u64) -> (r: bool)
    ensures
        r == lt_bits(a, b),
{
    let x = libm::copysign(bytemuck::cast(a), bytemuck::cast(a));
    let y = libm::copysign(bytemuck::cast(b), bytemuck::cast(b));
    x < y
}

/// Relies on the binary64 `==` operator of std: the IEEE 754 equality of the
/// values whose bit patterns are `a` and `b` (zeros of either sign are equal;
/// false whenever either is a NaN pattern).
#[verifier::external_body]
pub(crate) fn feq(a: u64, b: u64) -> (r: bool)
    ensures
        r == eq_bits(a, b),
{
    let x = libm::copysign(bytemuck::cast(a), bytemuck::cast(a));
    let y = libm::copysign(bytemuck::cast(b), bytemuck::cast(b));
    x == y
}

} // verus!
