//! Scalars that are either fixed or unknown, and planar vectors built from
//! them in polar and rectangular form.
//!
//! Arithmetic is strict: any operation with an unknown operand yields an
//! unknown result, and a coordinate conversion whose source is not fully
//! fixed yields a vector unknown in both target components. Every executable
//! operation is pinned to a specification-level mirror written over the named
//! binary64 operations of `numeric`.
use vstd::prelude::*;

use crate::numeric::{
    acos_bits, add_bits, asin_bits, atan2_bits, cos_bits, div_bits, eq_bits, facos, fadd, fasin,
    fatan2, fcos, fdiv, feq, flt, fmul, fneg, fsin, fsqrt, fsub, lt_bits, mul_bits, neg_bits,
    sin_bits, sqrt_bits, sub_bits, F_PI,
};

verus! {

/// Anything whose unknown scalar components can be counted.
pub trait Variable {
    /// The number of unknown scalar components.
    spec fn spec_dof(&self) -> nat;

    /// Returns the degrees of freedom: the count of unknown scalar
    /// components.
    fn get_dof(&self) -> (r: u16)
        ensures
            r as nat == self.spec_dof(),
    ;
}

/// A scalar that is either a known binary64 value, held as its bit pattern,
/// or fully unknown. No partial or interval knowledge is representable.
#[derive(Clone, Copy, Debug, PartialEq, Eq, Structural)]
pub enum VariableF {
    Fixed(u64),
    Unknown,
}

impl Variable for VariableF {
    open spec fn spec_dof(&self) -> nat {
        match *self {
            VariableF::Fixed(_) => 0,
            VariableF::Unknown => 1,
        }
    }

    fn get_dof(&self) -> u16 {
        match *self {
            VariableF::Fixed(_) => 0,
            VariableF::Unknown => 1,
        }
    }
}

pub open spec fn spec_sadd(a: VariableF, b: VariableF) -> VariableF {
    match (a, b) {
        (VariableF::Fixed(x), VariableF::Fixed(y)) => VariableF::Fixed(add_bits(x, y)),
        _ => VariableF::Unknown,
    }
}

pub open spec fn spec_ssub(a: VariableF, b: VariableF) -> VariableF {
    match (a, b) {
        (VariableF::Fixed(x), VariableF::Fixed(y)) => VariableF::Fixed(sub_bits(x, y)),
        _ => VariableF::Unknown,
    }
}

pub open spec fn spec_smul(a: VariableF, b: VariableF) -> VariableF {
    match (a, b) {
        (VariableF::Fixed(x), VariableF::Fixed(y)) => VariableF::Fixed(mul_bits(x, y)),
        _ => VariableF::Unknown,
    }
}

pub open spec fn spec_sdiv(a: VariableF, b: VariableF) -> VariableF {
    match (a, b) {
        (VariableF::Fixed(x), VariableF::Fixed(y)) => VariableF::Fixed(div_bits(x, y)),
        _ => VariableF::Unknown,
    }
}

pub open spec fn spec_sneg(a: VariableF) -> VariableF {
    match a {
        VariableF::Fixed(x) => VariableF::Fixed(neg_bits(x)),
        VariableF::Unknown => VariableF::Unknown,
    }
}

pub open spec fn spec_scos(a: VariableF) -> VariableF {
    match a {
        VariableF::Fixed(x) => VariableF::Fixed(cos_bits(x)),
        VariableF::Unknown => VariableF::Unknown,
    }
}

pub open spec fn spec_ssin(a: VariableF) -> VariableF {
    match a {
        VariableF::Fixed(x) => VariableF::Fixed(sin_bits(x)),
        VariableF::Unknown => VariableF::Unknown,
    }
}

pub open spec fn spec_sacos(a: VariableF) -> VariableF {
    match a {
        VariableF::Fixed(x) => VariableF::Fixed(acos_bits(x)),
        VariableF::Unknown => VariableF::Unknown,
    }
}

pub open spec fn spec_sasin(a: VariableF) -> VariableF {
    match a {
        VariableF::Fixed(x) => VariableF::Fixed(asin_bits(x)),
        VariableF::Unknown => VariableF::Unknown,
    }
}

/// Ordering is defined only between two fixed scalars; any comparison with
/// an unknown operand is false.
pub open spec fn spec_sgt(a: VariableF, b: VariableF) -> bool {
    match (a, b) {
        (VariableF::Fixed(x), VariableF::Fixed(y)) => lt_bits(y, x),
        _ => false,
    }
}

/// Value equality: binary64 equality between two fixed scalars, true between
/// two unknowns, false otherwise.
pub open spec fn spec_val_eq(a: VariableF, b: VariableF) -> bool {
    match (a, b) {
        (VariableF::Fixed(x), VariableF::Fixed(y)) => eq_bits(x, y),
        (VariableF::Unknown, VariableF::Unknown) => true,
        _ => false,
    }
}

impl VariableF {
    pub fn plus(self, other: Self) -> (r: Self)
        ensures
            r == spec_sadd(self, other),
    {
        match (self, other) {
            (VariableF::Fixed(x), VariableF::Fixed(y)) => VariableF::Fixed(fadd(x, y)),
            _ => VariableF::Unknown,
        }
    }

    pub fn minus(self, other: Self) -> (r: Self)
        ensures
            r == spec_ssub(self, other),
    {
        match (self, other) {
            (VariableF::Fixed(x), VariableF::Fixed(y)) => VariableF::Fixed(fsub(x, y)),
            _ => VariableF::Unknown,
        }
    }

    pub fn times(self, other: Self) -> (r: Self)
        ensures
            r == spec_smul(self, other),
    {
        match (self, other) {
            (VariableF::Fixed(x), VariableF::Fixed(y)) => VariableF::Fixed(fmul(x, y)),
            _ => VariableF::Unknown,
        }
    }

    pub fn div_by(self, other: Self) -> (r: Self)
        ensures
            r == spec_sdiv(self, other),
    {
        match (self, other) {
            (VariableF::Fixed(x), VariableF::Fixed(y)) => VariableF::Fixed(fdiv(x, y)),
            _ => VariableF::Unknown,
        }
    }

    pub fn neg(self) -> (r: Self)
        ensures
            r == spec_sneg(self),
    {
        match self {
            VariableF::Fixed(x) => VariableF::Fixed(fneg(x)),
            VariableF::Unknown => VariableF::Unknown,
        }
    }

    pub fn cos(&self) -> (r: Self)
        ensures
            r == spec_scos(*self),
    {
        match *self {
            VariableF::Fixed(x) => VariableF::Fixed(fcos(x)),
            VariableF::Unknown => VariableF::Unknown,
        }
    }

    pub fn sin(&self) -> (r: Self)
        ensures
            r == spec_ssin(*self),
    {
        match *self {
            VariableF::Fixed(x) => VariableF::Fixed(fsin(x)),
            VariableF::Unknown => VariableF::Unknown,
        }
    }

    pub fn acos(&self) -> (r: Self)
        ensures
            r == spec_sacos(*self),
    {
        match *self {
            VariableF::Fixed(x) => VariableF::Fixed(facos(x)),
            VariableF::Unknown => VariableF::Unknown,
        }
    }

    pub fn asin(&self) -> (r: Self)
        ensures
            r == spec_sasin(*self),
    {
        match *self {
            VariableF::Fixed(x) => VariableF::Fixed(fasin(x)),
            VariableF::Unknown => VariableF::Unknown,
        }
    }

    /// Strict greater-than: defined only when both scalars are fixed.
    pub fn gt(self, other: Self) -> (r: bool)
        ensures
            r == spec_sgt(self, other),
    {
        match (self, other) {
            (VariableF::Fixed(x), VariableF::Fixed(y)) => flt(y, x),
            _ => false,
        }
    }

    /// Value equality, with binary64 equality between fixed scalars.
    pub fn val_eq(self, other: Self) -> (r: bool)
        ensures
            r == spec_val_eq(self, other),
    {
        match (self, other) {
            (VariableF::Fixed(x), VariableF::Fixed(y)) => feq(x, y),
            (VariableF::Unknown, VariableF::Unknown) => true,
            _ => false,
        }
    }
}

/// A polar-coordinate planar vector.
#[derive(Clone, Copy, Debug, PartialEq, Eq, Structural)]
pub struct VariableFPolVec2 {
    pub radius: VariableF,
    pub theta: VariableF,
}

/// A rectangular-coordinate planar vector.
#[derive(Clone, Copy, Debug, PartialEq, Eq, Structural)]
pub struct VariableFRecVec2 {
    pub x: VariableF,
    pub y: VariableF,
}

impl Variable for VariableFPolVec2 {
    open spec fn spec_dof(&self) -> nat {
        self.radius.spec_dof() + self.theta.spec_dof()
    }

    fn get_dof(&self) -> u16 {
        self.radius.get_dof() + self.theta.get_dof()
    }
}

impl Variable for VariableFRecVec2 {
    open spec fn spec_dof(&self) -> nat {
        self.x.spec_dof() + self.y.spec_dof()
    }

    fn get_dof(&self) -> u16 {
        self.x.get_dof() + self.y.get_dof()
    }
}

/// Polar to rectangular conversion: all-or-nothing. Both source components
/// must be fixed for a fixed result; otherwise both targets are unknown.
pub open spec fn spec_to_rec(v: VariableFPolVec2) -> VariableFRecVec2 {
    match (v.radius, v.theta) {
        (VariableF::Fixed(r), VariableF::Fixed(t)) => VariableFRecVec2 {
            x: VariableF::Fixed(mul_bits(r, cos_bits(t))),
            y: VariableF::Fixed(mul_bits(r, sin_bits(t))),
        },
        _ => VariableFRecVec2 { x: VariableF::Unknown, y: VariableF::Unknown },
    }
}

/// Rectangular to polar conversion: all-or-nothing, as `spec_to_rec`.
pub open spec fn spec_to_pol(v: VariableFRecVec2) -> VariableFPolVec2 {
    match (v.x, v.y) {
        (VariableF::Fixed(x), VariableF::Fixed(y)) => VariableFPolVec2 {
            radius: VariableF::Fixed(sqrt_bits(add_bits(mul_bits(x, x), mul_bits(y, y)))),
            theta: VariableF::Fixed(atan2_bits(y, x)),
        },
        _ => VariableFPolVec2 { radius: VariableF::Unknown, theta: VariableF::Unknown },
    }
}

pub open spec fn spec_rec_add(a: VariableFRecVec2, b: VariableFRecVec2) -> VariableFRecVec2 {
    VariableFRecVec2 { x: spec_sadd(a.x, b.x), y: spec_sadd(a.y, b.y) }
}

pub open spec fn spec_rec_sub(a: VariableFRecVec2, b: VariableFRecVec2) -> VariableFRecVec2 {
    VariableFRecVec2 { x: spec_ssub(a.x, b.x), y: spec_ssub(a.y, b.y) }
}

/// Polar addition round-trips through rectangular form.
pub open spec fn spec_pol_add(a: VariableFPolVec2, b: VariableFPolVec2) -> VariableFPolVec2 {
    spec_to_pol(spec_rec_add(spec_to_rec(a), spec_to_rec(b)))
}

/// Polar subtraction round-trips through rectangular form.
pub open spec fn spec_pol_sub(a: VariableFPolVec2, b: VariableFPolVec2) -> VariableFPolVec2 {
    spec_to_pol(spec_rec_sub(spec_to_rec(a), spec_to_rec(b)))
}

/// Polar negation keeps the radius and turns the angle by pi.
pub open spec fn spec_pol_neg(v: VariableFPolVec2) -> VariableFPolVec2 {
    VariableFPolVec2 {
        radius: v.radius,
        theta: spec_sadd(v.theta, VariableF::Fixed(F_PI)),
    }
}

pub open spec fn spec_cross(a: VariableFRecVec2, b: VariableFRecVec2) -> VariableF {
    match (a.x, a.y, b.x, b.y) {
        (
            VariableF::Fixed(ax),
            VariableF::Fixed(ay),
            VariableF::Fixed(bx),
            VariableF::Fixed(by),
        ) => VariableF::Fixed(sub_bits(mul_bits(ax, by), mul_bits(ay, bx))),
        _ => VariableF::Unknown,
    }
}

pub open spec fn spec_dot(a: VariableFRecVec2, b: VariableFRecVec2) -> VariableF {
    match (a.x, a.y, b.x, b.y) {
        (
            VariableF::Fixed(ax),
            VariableF::Fixed(ay),
            VariableF::Fixed(bx),
            VariableF::Fixed(by),
        ) => VariableF::Fixed(add_bits(mul_bits(ax, bx), mul_bits(ay, by))),
        _ => VariableF::Unknown,
    }
}

impl VariableFPolVec2 {
    pub fn from(r: u64, t: u64) -> (v: Self)
        ensures
            v == (VariableFPolVec2 { radius: VariableF::Fixed(r), theta: VariableF::Fixed(t) }),
    {
        VariableFPolVec2 { radius: VariableF::Fixed(r), theta: VariableF::Fixed(t) }
    }

    /// A vector of known length at a yet unknown angle.
    pub fn from_len(r: u64) -> (v: Self)
        ensures
            v == (VariableFPolVec2 { radius: VariableF::Fixed(r), theta: VariableF::Unknown }),
    {
        VariableFPolVec2 { radius: VariableF::Fixed(r), theta: VariableF::Unknown }
    }

    pub fn set_radius(self, radius: u64) -> (v: Self)
        ensures
            v == (VariableFPolVec2 { radius: VariableF::Fixed(radius), theta: self.theta }),
    {
        VariableFPolVec2 { radius: VariableF::Fixed(radius), theta: self.theta }
    }

    pub fn set_theta(self, theta: u64) -> (v: Self)
        ensures
            v == (VariableFPolVec2 { radius: self.radius, theta: VariableF::Fixed(theta) }),
    {
        VariableFPolVec2 { radius: self.radius, theta: VariableF::Fixed(theta) }
    }

    pub fn to_rec(&self) -> (v: VariableFRecVec2)
        ensures
            v == spec_to_rec(*self),
    {
        match (self.radius, self.theta) {
            (VariableF::Fixed(r), VariableF::Fixed(t)) => VariableFRecVec2 {
                x: VariableF::Fixed(fmul(r, fcos(t))),
                y: VariableF::Fixed(fmul(r, fsin(t))),
            },
            _ => VariableFRecVec2 { x: VariableF::Unknown, y: VariableF::Unknown },
        }
    }

    pub fn plus(self, other: Self) -> (v: Self)
        ensures
            v == spec_pol_add(self, other),
    {
        self.to_rec().plus(other.to_rec()).to_pol()
    }

    pub fn minus(self, other: Self) -> (v: Self)
        ensures
            v == spec_pol_sub(self, other),
    {
        self.to_rec().minus(other.to_rec()).to_pol()
    }

    pub fn neg(self) -> (v: Self)
        ensures
            v == spec_pol_neg(self),
    {
        VariableFPolVec2 {
            radius: self.radius,
            theta: self.theta.plus(VariableF::Fixed(F_PI)),
        }
    }
}

impl VariableFRecVec2 {
    pub fn from(x: u64, y: u64) -> (v: Self)
        ensures
            v == (VariableFRecVec2 { x: VariableF::Fixed(x), y: VariableF::Fixed(y) }),
    {
        VariableFRecVec2 { x: VariableF::Fixed(x), y: VariableF::Fixed(y) }
    }

    pub fn to_pol(&self) -> (v: VariableFPolVec2)
        ensures
            v == spec_to_pol(*self),
    {
        match (self.x, self.y) {
            (VariableF::Fixed(x), VariableF::Fixed(y)) => VariableFPolVec2 {
                radius: VariableF::Fixed(fsqrt(fadd(fmul(x, x), fmul(y, y)))),
                theta: VariableF::Fixed(fatan2(y, x)),
            },
            _ => VariableFPolVec2 { radius: VariableF::Unknown, theta: VariableF::Unknown },
        }
    }

    pub fn plus(self, other: Self) -> (v: Self)
        ensures
            v == spec_rec_add(self, other),
    {
        VariableFRecVec2 { x: self.x.plus(other.x), y: self.y.plus(other.y) }
    }

    pub fn minus(self, other: Self) -> (v: Self)
        ensures
            v == spec_rec_sub(self, other),
    {
        VariableFRecVec2 { x: self.x.minus(other.x), y: self.y.minus(other.y) }
    }
}

pub fn cross_product(a: VariableFRecVec2, b: VariableFRecVec2) -> (r: VariableF)
    ensures
        r == spec_cross(a, b),
{
    match (a.x, a.y, b.x, b.y) {
        (
            VariableF::Fixed(ax),
            VariableF::Fixed(ay),
            VariableF::Fixed(bx),
            VariableF::Fixed(by),
        ) => VariableF::Fixed(fsub(fmul(ax, by), fmul(ay, bx))),
        _ => VariableF::Unknown,
    }
}

pub fn dot_product(a: VariableFRecVec2, b: VariableFRecVec2) -> (r: VariableF)
    ensures
        r == spec_dot(a, b),
{
    match (a.x, a.y, b.x, b.y) {
        (
            VariableF::Fixed(ax),
            VariableF::Fixed(ay),
            VariableF::Fixed(bx),
            VariableF::Fixed(by),
        ) => VariableF::Fixed(fadd(fmul(ax, bx), fmul(ay, by))),
        _ => VariableF::Unknown,
    }
}

/// Strict unknown propagation: every scalar operation with an unknown
/// operand yields an unknown result, for each of addition, subtraction,
/// multiplication, division, negation, cosine, sine, arc cosine and arc
/// sine.
pub proof fn lemma_unknown_propagates(a: VariableF, b: VariableF)
    ensures
        (a is Unknown || b is Unknown) ==> spec_sadd(a, b) is Unknown,
        (a is Unknown || b is Unknown) ==> spec_ssub(a, b) is Unknown,
        (a is Unknown || b is Unknown) ==> spec_smul(a, b) is Unknown,
        (a is Unknown || b is Unknown) ==> spec_sdiv(a, b) is Unknown,
        a is Unknown ==> spec_sneg(a) is Unknown,
        a is Unknown ==> spec_scos(a) is Unknown,
        a is Unknown ==> spec_ssin(a) is Unknown,
        a is Unknown ==> spec_sacos(a) is Unknown,
        a is Unknown ==> spec_sasin(a) is Unknown,
{
}

/// A polar vector with any unknown component converts to a rectangular
/// vector unknown in both components, and its round trip back to polar form
/// is fully unknown in both components, whatever the other component held.
pub proof fn lemma_round_trip_unknown(v: VariableFPolVec2)
    ensures
        (v.radius is Unknown || v.theta is Unknown) ==> spec_to_rec(v) == (VariableFRecVec2 {
            x: VariableF::Unknown,
            y: VariableF::Unknown,
        }),
        (v.radius is Unknown || v.theta is Unknown) ==> spec_to_pol(spec_to_rec(v))
            == (VariableFPolVec2 { radius: VariableF::Unknown, theta: VariableF::Unknown }),
{
}

} // verus!
