//! Analytic solver for one closed loop of three polar vectors.
//!
//! A triangle is an ordered triple (a, b, c) of polar vectors placed tip to
//! tail in a fixed clockwise sense, whose design invariant is that the three
//! vectors sum to zero. Solving canonicalizes the unknown-component pattern
//! onto vertex `a` by cyclic rotation, dispatches on one of four canonical
//! patterns, and rotates the result back. The whole outcome is pinned to the
//! specification-level model `spec_solve`.
use vstd::prelude::*;

use crate::numeric::{F_ONE, F_TWO, F_ZERO};
use crate::variable_vector::{
    cross_product, spec_cross, spec_pol_neg, spec_pol_sub, spec_sacos, spec_sadd, spec_sdiv,
    spec_sgt, spec_smul, spec_sneg, spec_ssub, spec_to_rec, spec_val_eq, Variable, VariableF,
    VariableFPolVec2,
};
use crate::SolveErr;

verus! {

/// A closed clockwise loop of three polar vectors.
#[derive(Clone, Copy, Debug, PartialEq, Eq, Structural)]
pub struct Triangle {
    pub a: VariableFPolVec2,
    pub b: VariableFPolVec2,
    pub c: VariableFPolVec2,
}

impl Variable for Triangle {
    open spec fn spec_dof(&self) -> nat {
        self.a.spec_dof() + self.b.spec_dof() + self.c.spec_dof()
    }

    fn get_dof(&self) -> u16 {
        self.a.get_dof() + self.b.get_dof() + self.c.get_dof()
    }
}

/// One clockwise cyclic rotation of the triple.
pub open spec fn spec_swap_cw(t: Triangle) -> Triangle {
    Triangle { a: t.c, b: t.a, c: t.b }
}

/// One clockwise rotation applied to a solver outcome.
pub open spec fn spec_rot1(r: Result<Triangle, SolveErr>) -> Result<Triangle, SolveErr> {
    match r {
        Ok(t) => Ok(spec_swap_cw(t)),
        Err(e) => Err(e),
    }
}

/// Two clockwise rotations applied to a solver outcome.
pub open spec fn spec_rot2(r: Result<Triangle, SolveErr>) -> Result<Triangle, SolveErr> {
    spec_rot1(spec_rot1(r))
}

/// Closure pattern: `a` carries all unknowns, `b` and `c` are fully known,
/// so `a` is the negated sum of the others.
pub open spec fn spec_pattern1(t: Triangle) -> Triangle {
    Triangle { a: spec_pol_sub(spec_pol_neg(t.b), t.c), b: t.b, c: t.c }
}

/// Dual-radius pattern: `a` and `b` have unknown radius at known angles and
/// `c` is fully known; the closure identity in rectangular form is solved as
/// a linear system by cross products, unless the two directions are
/// collinear.
pub open spec fn spec_pattern2(t: Triangle) -> Result<Triangle, SolveErr> {
    let a_norm = spec_to_rec(VariableFPolVec2 { radius: VariableF::Fixed(F_ONE), theta: t.a.theta });
    let b_norm = spec_to_rec(VariableFPolVec2 { radius: VariableF::Fixed(F_ONE), theta: t.b.theta });
    let a_cross_b = spec_cross(a_norm, b_norm);
    if spec_val_eq(a_cross_b, VariableF::Fixed(F_ZERO)) {
        Err(SolveErr::Degenerate)
    } else {
        Ok(
            Triangle {
                a: VariableFPolVec2 {
                    radius: spec_sdiv(spec_cross(b_norm, spec_to_rec(t.c)), a_cross_b),
                    theta: t.a.theta,
                },
                b: VariableFPolVec2 {
                    radius: spec_sdiv(spec_sneg(spec_cross(a_norm, spec_to_rec(t.c))), a_cross_b),
                    theta: t.b.theta,
                },
                c: t.c,
            },
        )
    }
}

/// Mixed angle/radius pattern: recognized but intentionally unhandled.
pub open spec fn spec_pattern3(t: Triangle) -> Result<Triangle, SolveErr> {
    Err(SolveErr::Unimplemented)
}

/// The candidate angle magnitude of the dual-angle pattern for the vertex
/// whose opposite side has radius `opp`, by the law of cosines against the
/// known side `c`.
pub open spec fn spec_law_of_cosines(own: VariableF, opp: VariableF, base: VariableF) -> VariableF {
    spec_sacos(
        spec_sdiv(
            spec_ssub(spec_ssub(spec_smul(opp, opp), spec_smul(own, own)), spec_smul(base, base)),
            spec_smul(spec_smul(VariableF::Fixed(F_TWO), own), base),
        ),
    )
}

/// Dual-angle pattern: all radii known, the angles of `a` and `b` unknown.
/// After the triangle inequality is checked, the law of cosines yields two
/// mirror-symmetric candidates; the one whose cross product with `c` is
/// positive matches the clockwise winding convention.
pub open spec fn spec_pattern4(t: Triangle) -> Result<Triangle, SolveErr> {
    if spec_sgt(t.a.radius, spec_sadd(t.b.radius, t.c.radius)) || spec_sgt(
        t.b.radius,
        spec_sadd(t.c.radius, t.a.radius),
    ) || spec_sgt(t.c.radius, spec_sadd(t.a.radius, t.b.radius)) {
        Err(SolveErr::NotATriangle)
    } else {
        let qa = spec_law_of_cosines(t.a.radius, t.b.radius, t.c.radius);
        let qb = spec_law_of_cosines(t.b.radius, t.a.radius, t.c.radius);
        let sol1_a_theta = spec_sadd(t.c.theta, qa);
        let sol1_b_theta = spec_ssub(t.c.theta, qb);
        let sol2_a_theta = spec_ssub(t.c.theta, qa);
        let sol2_b_theta = spec_sadd(t.c.theta, qb);
        let sol1_a = VariableFPolVec2 { radius: t.a.radius, theta: sol1_a_theta };
        if spec_sgt(
            spec_cross(spec_to_rec(sol1_a), spec_to_rec(t.c)),
            VariableF::Fixed(F_ZERO),
        ) {
            Ok(
                Triangle {
                    a: VariableFPolVec2 { radius: t.a.radius, theta: sol1_a_theta },
                    b: VariableFPolVec2 { radius: t.b.radius, theta: sol1_b_theta },
                    c: t.c,
                },
            )
        } else {
            Ok(
                Triangle {
                    a: VariableFPolVec2 { radius: t.a.radius, theta: sol2_a_theta },
                    b: VariableFPolVec2 { radius: t.b.radius, theta: sol2_b_theta },
                    c: t.c,
                },
            )
        }
    }
}

/// The full solver outcome: rejection when more than two degrees of freedom
/// are unknown, then canonicalization by cyclic rotation onto one of the
/// four patterns at vertex `a`, the pattern's outcome, and the inverse
/// rotation.
pub open spec fn spec_solve(t: Triangle) -> Result<Triangle, SolveErr> {
    if t.spec_dof() > 2 {
        Err(SolveErr::Overconstrained)
    } else {
        let da = t.a.spec_dof();
        let db = t.b.spec_dof();
        let dc = t.c.spec_dof();
        if da >= 1 && db == 0 && dc == 0 {
            Ok(spec_pattern1(t))
        } else if da == 0 && db >= 1 && dc == 0 {
            Ok(spec_swap_cw(spec_pattern1(spec_swap_cw(spec_swap_cw(t)))))
        } else if da == 0 && db == 0 && dc >= 1 {
            Ok(spec_swap_cw(spec_swap_cw(spec_pattern1(spec_swap_cw(t)))))
        } else if (da == 1 && db == 1 && dc == 0) || (da == 0 && db == 1 && dc == 1) || (da == 1
            && db == 0 && dc == 1) {
            let ar = t.a.radius.spec_dof();
            let at = t.a.theta.spec_dof();
            let br = t.b.radius.spec_dof();
            let bt = t.b.theta.spec_dof();
            let cr = t.c.radius.spec_dof();
            let ct = t.c.theta.spec_dof();
            if ar == 1 && at == 0 && br == 1 && bt == 0 && cr == 0 && ct == 0 {
                spec_pattern2(t)
            } else if ar == 0 && at == 0 && br == 1 && bt == 0 && cr == 1 && ct == 0 {
                spec_rot1(spec_pattern2(spec_swap_cw(spec_swap_cw(t))))
            } else if ar == 1 && at == 0 && br == 0 && bt == 0 && cr == 1 && ct == 0 {
                spec_rot2(spec_pattern2(spec_swap_cw(t)))
            } else if ar == 0 && at == 1 && br == 1 && bt == 0 && cr == 0 && ct == 0 {
                spec_pattern3(t)
            } else if ar == 0 && at == 0 && br == 0 && bt == 1 && cr == 1 && ct == 0 {
                spec_rot1(spec_pattern3(spec_swap_cw(spec_swap_cw(t))))
            } else if ar == 1 && at == 0 && br == 0 && bt == 0 && cr == 0 && ct == 1 {
                spec_rot2(spec_pattern3(spec_swap_cw(t)))
            } else if ar == 0 && at == 1 && br == 0 && bt == 1 && cr == 0 && ct == 0 {
                spec_pattern4(t)
            } else if ar == 0 && at == 0 && br == 0 && bt == 1 && cr == 0 && ct == 1 {
                spec_rot1(spec_pattern4(spec_swap_cw(spec_swap_cw(t))))
            } else if ar == 0 && at == 1 && br == 0 && bt == 0 && cr == 0 && ct == 1 {
                spec_rot2(spec_pattern4(spec_swap_cw(t)))
            } else {
                Err(SolveErr::PatternNotFound)
            }
        } else {
            Err(SolveErr::PatternNotFound)
        }
    }
}

impl Triangle {
    pub fn new(a: VariableFPolVec2, b: VariableFPolVec2, c: VariableFPolVec2) -> (r: Self)
        ensures
            r == (Triangle { a, b, c }),
    {
        Triangle { a, b, c }
    }

    /// A triangle of three fully fixed vectors, each given as a
    /// (radius, theta) pair of binary64 bit patterns.
    pub fn from(dimensions: [[u64; 2]; 3]) -> (r: Self)
        ensures
            r.a == (VariableFPolVec2 {
                radius: VariableF::Fixed(dimensions[0][0]),
                theta: VariableF::Fixed(dimensions[0][1]),
            }),
            r.b == (VariableFPolVec2 {
                radius: VariableF::Fixed(dimensions[1][0]),
                theta: VariableF::Fixed(dimensions[1][1]),
            }),
            r.c == (VariableFPolVec2 {
                radius: VariableF::Fixed(dimensions[2][0]),
                theta: VariableF::Fixed(dimensions[2][1]),
            }),
    {
        Triangle {
            a: VariableFPolVec2::from(dimensions[0][0], dimensions[0][1]),
            b: VariableFPolVec2::from(dimensions[1][0], dimensions[1][1]),
            c: VariableFPolVec2::from(dimensions[2][0], dimensions[2][1]),
        }
    }

    /// A triangle of three vectors of known length, each given as a binary64
    /// bit pattern, at yet unknown angles.
    pub fn from_len(len: [u64; 3]) -> (r: Self)
        ensures
            r.a == (VariableFPolVec2 { radius: VariableF::Fixed(len[0]), theta: VariableF::Unknown }),
            r.b == (VariableFPolVec2 { radius: VariableF::Fixed(len[1]), theta: VariableF::Unknown }),
            r.c == (VariableFPolVec2 { radius: VariableF::Fixed(len[2]), theta: VariableF::Unknown }),
    {
        Triangle {
            a: VariableFPolVec2::from_len(len[0]),
            b: VariableFPolVec2::from_len(len[1]),
            c: VariableFPolVec2::from_len(len[2]),
        }
    }

    /// One clockwise cyclic rotation of the triple.
    pub fn swap_cw(self) -> (r: Self)
        ensures
            r == spec_swap_cw(self),
    {
        Triangle { a: self.c, b: self.a, c: self.b }
    }

    /// Resolves the triangle's unknown components analytically; the outcome,
    /// success or failure, is exactly `spec_solve(self)`.
    pub fn solve(self) -> (r: Result<Self, SolveErr>)
        ensures
            r == spec_solve(self),
    {
        if self.get_dof() > 2 {
            return Err(SolveErr::Overconstrained);
        }
        let da = self.a.get_dof();
        let db = self.b.get_dof();
        let dc = self.c.get_dof();
        if da >= 1 && db == 0 && dc == 0 {
            Ok(self.solve_pattern1())
        } else if da == 0 && db >= 1 && dc == 0 {
            Ok(self.swap_cw().swap_cw().solve_pattern1().swap_cw())
        } else if da == 0 && db == 0 && dc >= 1 {
            Ok(self.swap_cw().solve_pattern1().swap_cw().swap_cw())
        } else if (da == 1 && db == 1 && dc == 0) || (da == 0 && db == 1 && dc == 1) || (da == 1
            && db == 0 && dc == 1) {
            let ar = self.a.radius.get_dof();
            let at = self.a.theta.get_dof();
            let br = self.b.radius.get_dof();
            let bt = self.b.theta.get_dof();
            let cr = self.c.radius.get_dof();
            let ct = self.c.theta.get_dof();
            if ar == 1 && at == 0 && br == 1 && bt == 0 && cr == 0 && ct == 0 {
                self.solve_pattern2()
            } else if ar == 0 && at == 0 && br == 1 && bt == 0 && cr == 1 && ct == 0 {
                match self.swap_cw().swap_cw().solve_pattern2() {
                    Ok(t) => Ok(t.swap_cw()),
                    Err(e) => Err(e),
                }
            } else if ar == 1 && at == 0 && br == 0 && bt == 0 && cr == 1 && ct == 0 {
                match self.swap_cw().solve_pattern2() {
                    Ok(t) => Ok(t.swap_cw().swap_cw()),
                    Err(e) => Err(e),
                }
            } else if ar == 0 && at == 1 && br == 1 && bt == 0 && cr == 0 && ct == 0 {
                self.solve_pattern3()
            } else if ar == 0 && at == 0 && br == 0 && bt == 1 && cr == 1 && ct == 0 {
                match self.swap_cw().swap_cw().solve_pattern3() {
                    Ok(t) => Ok(t.swap_cw()),
                    Err(e) => Err(e),
                }
            } else if ar == 1 && at == 0 && br == 0 && bt == 0 && cr == 0 && ct == 1 {
                match self.swap_cw().solve_pattern3() {
                    Ok(t) => Ok(t.swap_cw().swap_cw()),
                    Err(e) => Err(e),
                }
            } else if ar == 0 && at == 1 && br == 0 && bt == 1 && cr == 0 && ct == 0 {
                self.solve_pattern4()
            } else if ar == 0 && at == 0 && br == 0 && bt == 1 && cr == 0 && ct == 1 {
                match self.swap_cw().swap_cw().solve_pattern4() {
                    Ok(t) => Ok(t.swap_cw()),
                    Err(e) => Err(e),
                }
            } else if ar == 0 && at == 1 && br == 0 && bt == 0 && cr == 0 && ct == 1 {
                match self.swap_cw().solve_pattern4() {
                    Ok(t) => Ok(t.swap_cw().swap_cw()),
                    Err(e) => Err(e),
                }
            } else {
                Err(SolveErr::PatternNotFound)
            }
        } else {
            Err(SolveErr::PatternNotFound)
        }
    }

    /// Closure pattern: `a` becomes the negated sum of `b` and `c`.
    fn solve_pattern1(self) -> (r: Self)
        ensures
            r == spec_pattern1(self),
    {
        Triangle { a: self.b.neg().minus(self.c), b: self.b, c: self.c }
    }

    /// Dual-radius pattern, solved by cross products over unit directions.
    fn solve_pattern2(self) -> (r: Result<Self, SolveErr>)
        ensures
            r == spec_pattern2(self),
    {
        let a_norm = self.a.set_radius(F_ONE).to_rec();
        let b_norm = self.b.set_radius(F_ONE).to_rec();
        let a_cross_b = cross_product(a_norm, b_norm);
        if a_cross_b.val_eq(VariableF::Fixed(F_ZERO)) {
            return Err(SolveErr::Degenerate);
        }
        Ok(
            Triangle {
                a: VariableFPolVec2 {
                    radius: cross_product(b_norm, self.c.to_rec()).div_by(a_cross_b),
                    theta: self.a.theta,
                },
                b: VariableFPolVec2 {
                    radius: cross_product(a_norm, self.c.to_rec()).neg().div_by(a_cross_b),
                    theta: self.b.theta,
                },
                c: self.c,
            },
        )
    }

    /// Mixed angle/radius pattern: intentionally unhandled.
    fn solve_pattern3(self) -> (r: Result<Self, SolveErr>)
        ensures
            r == spec_pattern3(self),
    {
        Err(SolveErr::Unimplemented)
    }

    /// Dual-angle pattern, solved by the law of cosines and disambiguated by
    /// the clockwise winding convention.
    fn solve_pattern4(self) -> (r: Result<Self, SolveErr>)
        ensures
            r == spec_pattern4(self),
    {
        if self.a.radius.gt(self.b.radius.plus(self.c.radius)) || self.b.radius.gt(
            self.c.radius.plus(self.a.radius),
        ) || self.c.radius.gt(self.a.radius.plus(self.b.radius)) {
            return Err(SolveErr::NotATriangle);
        }
        let two = VariableF::Fixed(F_TWO);
        let qa = self.b.radius.times(self.b.radius).minus(
            self.a.radius.times(self.a.radius),
        ).minus(self.c.radius.times(self.c.radius)).div_by(
            two.times(self.a.radius).times(self.c.radius),
        ).acos();
        let qb = self.a.radius.times(self.a.radius).minus(
            self.b.radius.times(self.b.radius),
        ).minus(self.c.radius.times(self.c.radius)).div_by(
            two.times(self.b.radius).times(self.c.radius),
        ).acos();
        let sol1_a_theta = self.c.theta.plus(qa);
        let sol1_b_theta = self.c.theta.minus(qb);
        let sol2_a_theta = self.c.theta.minus(qa);
        let sol2_b_theta = self.c.theta.plus(qb);
        let sol1_a = VariableFPolVec2 { radius: self.a.radius, theta: sol1_a_theta };
        if cross_product(sol1_a.to_rec(), self.c.to_rec()).gt(VariableF::Fixed(F_ZERO)) {
            Ok(
                Triangle {
                    a: VariableFPolVec2 { radius: self.a.radius, theta: sol1_a_theta },
                    b: VariableFPolVec2 { radius: self.b.radius, theta: sol1_b_theta },
                    c: self.c,
                },
            )
        } else {
            Ok(
                Triangle {
                    a: VariableFPolVec2 { radius: self.a.radius, theta: sol2_a_theta },
                    b: VariableFPolVec2 { radius: self.b.radius, theta: sol2_b_theta },
                    c: self.c,
                },
            )
        }
    }
}

/// A triangle with more than two unknown degrees of freedom is rejected as
/// overconstrained, whatever else it holds.
pub proof fn lemma_overconstrained(t: Triangle)
    ensures
        t.spec_dof() > 2 ==> spec_solve(t) == Err::<Triangle, SolveErr>(SolveErr::Overconstrained),
{
}

proof fn lemma_pattern1_fixed(t: Triangle)
    requires
        t.b.spec_dof() == 0,
        t.c.spec_dof() == 0,
    ensures
        spec_pattern1(t).spec_dof() == 0,
{
}

proof fn lemma_pattern2_fixed(t: Triangle)
    requires
        t.a.theta.spec_dof() == 0,
        t.b.theta.spec_dof() == 0,
        t.c.spec_dof() == 0,
    ensures
        spec_pattern2(t) is Ok ==> spec_pattern2(t)->Ok_0.spec_dof() == 0,
{
}

proof fn lemma_pattern4_fixed(t: Triangle)
    requires
        t.a.radius.spec_dof() == 0,
        t.b.radius.spec_dof() == 0,
        t.c.spec_dof() == 0,
    ensures
        spec_pattern4(t) is Ok ==> spec_pattern4(t)->Ok_0.spec_dof() == 0,
{
}

/// A successfully solved triangle is fully fixed: no unknown component
/// survives a successful solve, whichever pattern applied.
pub proof fn lemma_solve_fixed(t: Triangle)
    ensures
        spec_solve(t) is Ok ==> spec_solve(t)->Ok_0.spec_dof() == 0,
{
    if t.spec_dof() <= 2 {
        let da = t.a.spec_dof();
        let db = t.b.spec_dof();
        let dc = t.c.spec_dof();
        if da >= 1 && db == 0 && dc == 0 {
            lemma_pattern1_fixed(t);
        } else if da == 0 && db >= 1 && dc == 0 {
            lemma_pattern1_fixed(spec_swap_cw(spec_swap_cw(t)));
        } else if da == 0 && db == 0 && dc >= 1 {
            lemma_pattern1_fixed(spec_swap_cw(t));
        } else if (da == 1 && db == 1 && dc == 0) || (da == 0 && db == 1 && dc == 1) || (da == 1
            && db == 0 && dc == 1) {
            let ar = t.a.radius.spec_dof();
            let at = t.a.theta.spec_dof();
            let br = t.b.radius.spec_dof();
            let bt = t.b.theta.spec_dof();
            let cr = t.c.radius.spec_dof();
            let ct = t.c.theta.spec_dof();
            if ar == 1 && at == 0 && br == 1 && bt == 0 && cr == 0 && ct == 0 {
                lemma_pattern2_fixed(t);
            } else if ar == 0 && at == 0 && br == 1 && bt == 0 && cr == 1 && ct == 0 {
                lemma_pattern2_fixed(spec_swap_cw(spec_swap_cw(t)));
            } else if ar == 1 && at == 0 && br == 0 && bt == 0 && cr == 1 && ct == 0 {
                lemma_pattern2_fixed(spec_swap_cw(t));
            } else if ar == 0 && at == 1 && br == 0 && bt == 1 && cr == 0 && ct == 0 {
                lemma_pattern4_fixed(t);
            } else if ar == 0 && at == 0 && br == 0 && bt == 1 && cr == 0 && ct == 1 {
                lemma_pattern4_fixed(spec_swap_cw(spec_swap_cw(t)));
            } else if ar == 0 && at == 1 && br == 0 && bt == 0 && cr == 0 && ct == 1 {
                lemma_pattern4_fixed(spec_swap_cw(t));
            }
        }
    }
}

} // verus!
