//! Solver for chains of scissor linkage units.
//!
//! A scissor element is a pivoting cross-brace unit of four polar vectors:
//! `a` and `b` are the two full arm vectors, `c` and `d` the sub-segments
//! from each arm's own origin to the shared pivot. Solving an element builds
//! the triangle (c, -d, -input), runs the triangle solver, writes the solved
//! pivot segments back, aligns each arm with its own pivot segment, and hands
//! the output vector to the next element. A chain solve threads the driving
//! input through every element in order; the chain counts as solved only
//! when every element was resolved, and any failure leaves the solved state
//! invalid so that queries report `RequiresSolve` instead of stale geometry.
use vstd::prelude::*;

use crate::numeric::{add_bits, eq_bits, fadd, feq, flt, fsub, lt_bits, sub_bits, F_ZERO};
use crate::triangle_solver::{lemma_solve_fixed, spec_solve, Triangle};
use crate::variable_vector::{
    spec_pol_neg, spec_pol_sub, spec_to_rec, Variable, VariableF, VariableFPolVec2,
};
use crate::SolveErr;

verus! {

/// One element's four lengths, each the bit pattern of a binary64 value:
/// `a` and `b` are the two full arm lengths, `c` and `d` the distances from
/// each arm's own origin to the shared pivot.
#[derive(Clone, Copy, Debug, PartialEq, Eq, Structural)]
pub struct ScissorDimension {
    pub a: u64,
    pub b: u64,
    pub c: u64,
    pub d: u64,
}

/// One drawable segment of solved geometry, each coordinate the bit pattern
/// of a binary64 value.
#[allow(non_camel_case_types)]
#[derive(Clone, Copy, Debug, PartialEq, Eq, Structural)]
pub struct line {
    pub x1: u64,
    pub y1: u64,
    pub x2: u64,
    pub y2: u64,
}

/// Binary64 less-than-or-equal on bit patterns.
pub open spec fn spec_le(a: u64, b: u64) -> bool {
    lt_bits(a, b) || eq_bits(a, b)
}

fn fle(a: u64, b: u64) -> (r: bool)
    ensures
        r == spec_le(a, b),
{
    flt(a, b) || feq(a, b)
}

/// Geometric validity of one dimension record: every length positive and
/// the pivot strictly inside each arm (`a > c` and `b > d`).
pub open spec fn spec_dim_ok(d: ScissorDimension) -> bool {
    !(spec_le(d.a, F_ZERO) || spec_le(d.b, F_ZERO) || spec_le(d.c, F_ZERO) || spec_le(d.d, F_ZERO)
        || spec_le(d.a, d.c) || spec_le(d.b, d.d))
}

/// A pivoting cross-brace unit of four polar vectors.
#[derive(Clone, Copy, Debug, PartialEq, Eq, Structural)]
pub struct ScissorElement {
    pub a: VariableFPolVec2,
    pub b: VariableFPolVec2,
    pub c: VariableFPolVec2,
    pub d: VariableFPolVec2,
}

/// The element a dimension record constructs: all four lengths fixed, all
/// four angles unknown.
pub open spec fn spec_elem_of_dim(d: ScissorDimension) -> ScissorElement {
    ScissorElement {
        a: VariableFPolVec2 { radius: VariableF::Fixed(d.a), theta: VariableF::Unknown },
        b: VariableFPolVec2 { radius: VariableF::Fixed(d.b), theta: VariableF::Unknown },
        c: VariableFPolVec2 { radius: VariableF::Fixed(d.c), theta: VariableF::Unknown },
        d: VariableFPolVec2 { radius: VariableF::Fixed(d.d), theta: VariableF::Unknown },
    }
}

/// The arm lengths of an element are always known.
pub open spec fn spec_elem_arm_radii_fixed(e: ScissorElement) -> bool {
    e.a.radius is Fixed && e.b.radius is Fixed
}

/// An element with no unknown component left.
pub open spec fn spec_elem_fixed(e: ScissorElement) -> bool {
    e.a.spec_dof() == 0 && e.b.spec_dof() == 0 && e.c.spec_dof() == 0 && e.d.spec_dof() == 0
}

/// One element's solve. `input` is the vector from the element's a-arm
/// origin to its b-arm origin. On success the solved pivot segments are
/// written back (`c` from the triangle's first vector, `d` from the negated
/// second), each arm takes its own pivot segment's angle, and the output --
/// the vector from the b-arm endpoint to the a-arm endpoint, the next
/// element's input -- is `a - b - input`. A triangle-solver failure is
/// passed on unchanged and leaves the element unchanged.
pub open spec fn spec_elem_solve(e: ScissorElement, input: VariableFPolVec2) -> Result<
    (ScissorElement, VariableFPolVec2),
    SolveErr,
> {
    let tri = Triangle { a: e.c, b: spec_pol_neg(e.d), c: spec_pol_neg(input) };
    match spec_solve(tri) {
        Err(err) => Err(err),
        Ok(t) => {
            let c2 = t.a;
            let d2 = spec_pol_neg(t.b);
            let a2 = VariableFPolVec2 { radius: e.a.radius, theta: c2.theta };
            let b2 = VariableFPolVec2 { radius: e.b.radius, theta: d2.theta };
            let out = spec_pol_sub(spec_pol_sub(a2, b2), input);
            Ok((ScissorElement { a: a2, b: b2, c: c2, d: d2 }, out))
        },
    }
}

impl ScissorElement {
    fn solve(&mut self, input: VariableFPolVec2) -> (r: Result<VariableFPolVec2, SolveErr>)
        ensures
            (match spec_elem_solve(*old(self), input) {
                Ok(p) => *final(self) == p.0 && r == Ok::<VariableFPolVec2, SolveErr>(p.1),
                Err(e) => *final(self) == *old(self) && r == Err::<VariableFPolVec2, SolveErr>(e),
            }),
    {
        let triangle = Triangle::new(self.c, self.d.neg(), input.neg());
        match triangle.solve() {
            Err(e) => Err(e),
            Ok(t) => {
                self.c = t.a;
                self.d = t.b.neg();
                self.a = VariableFPolVec2 { radius: self.a.radius, theta: self.c.theta };
                self.b = VariableFPolVec2 { radius: self.b.radius, theta: self.d.theta };
                Ok(self.a.minus(self.b).minus(input))
            },
        }
    }
}

/// Sequential propagation from element `i` on: element `i` is solved with
/// the running input, its output drives element `i + 1`, and the first
/// failure aborts the whole chain with that error.
pub open spec fn spec_chain_from(
    elems: Seq<ScissorElement>,
    i: nat,
    input: VariableFPolVec2,
) -> Result<(Seq<ScissorElement>, VariableFPolVec2), SolveErr>
    decreases elems.len() - i,
{
    if i >= elems.len() {
        Ok((elems, input))
    } else {
        match spec_elem_solve(elems[i as int], input) {
            Err(e) => Err(e),
            Ok(p) => spec_chain_from(elems.update(i as int, p.0), i + 1, p.1),
        }
    }
}

/// The whole chain solve: a fully unknown driving input is rejected, then
/// the input is threaded through every element in order.
pub open spec fn spec_scissor_solve(elems: Seq<ScissorElement>, input: VariableFPolVec2) -> Result<
    Seq<ScissorElement>,
    SolveErr,
> {
    if input.radius is Unknown && input.theta is Unknown {
        Err(SolveErr::Overconstrained)
    } else {
        match spec_chain_from(elems, 0, input) {
            Ok(p) => Ok(p.0),
            Err(e) => Err(e),
        }
    }
}

/// The endpoint walk over solved elements: starting from the origin with
/// the driving input vector in rectangular form, each element advances the
/// running origin by `input + b` and hands `a - input - b` to the next
/// step; the final origin is the mechanism's tip. Any element whose arms
/// are not fully fixed stops the walk.
pub open spec fn spec_walk_endpoint(
    elems: Seq<ScissorElement>,
    i: nat,
    origin: (u64, u64),
    cur: (u64, u64),
) -> Result<(u64, u64), SolveErr>
    decreases elems.len() - i,
{
    if i >= elems.len() {
        Ok(origin)
    } else {
        let a_rec = spec_to_rec(elems[i as int].a);
        let b_rec = spec_to_rec(elems[i as int].b);
        match (a_rec.x, a_rec.y, b_rec.x, b_rec.y) {
            (
                VariableF::Fixed(ax),
                VariableF::Fixed(ay),
                VariableF::Fixed(bx),
                VariableF::Fixed(by),
            ) => spec_walk_endpoint(
                elems,
                i + 1,
                (add_bits(add_bits(origin.0, cur.0), bx), add_bits(add_bits(origin.1, cur.1), by)),
                (sub_bits(sub_bits(ax, cur.0), bx), sub_bits(sub_bits(ay, cur.1), by)),
            ),
            _ => Err(SolveErr::RequiresSolve),
        }
    }
}

/// The drawable-segment walk: the same traversal as the endpoint walk,
/// emitting per element one segment for each arm in absolute coordinates.
pub open spec fn spec_walk_lines(
    elems: Seq<ScissorElement>,
    i: nat,
    origin: (u64, u64),
    cur: (u64, u64),
) -> Result<Seq<line>, SolveErr>
    decreases elems.len() - i,
{
    if i >= elems.len() {
        Ok(Seq::<line>::empty())
    } else {
        let a_rec = spec_to_rec(elems[i as int].a);
        let b_rec = spec_to_rec(elems[i as int].b);
        match (a_rec.x, a_rec.y, b_rec.x, b_rec.y) {
            (
                VariableF::Fixed(ax),
                VariableF::Fixed(ay),
                VariableF::Fixed(bx),
                VariableF::Fixed(by),
            ) => {
                let l1 = line {
                    x1: origin.0,
                    y1: origin.1,
                    x2: add_bits(origin.0, ax),
                    y2: add_bits(origin.1, ay),
                };
                let l2 = line {
                    x1: add_bits(origin.0, cur.0),
                    y1: add_bits(origin.1, cur.1),
                    x2: add_bits(add_bits(origin.0, cur.0), bx),
                    y2: add_bits(add_bits(origin.1, cur.1), by),
                };
                match spec_walk_lines(
                    elems,
                    i + 1,
                    (
                        add_bits(add_bits(origin.0, cur.0), bx),
                        add_bits(add_bits(origin.1, cur.1), by),
                    ),
                    (sub_bits(sub_bits(ax, cur.0), bx), sub_bits(sub_bits(ay, cur.1), by)),
                ) {
                    Ok(rest) => Ok(seq![l1, l2] + rest),
                    Err(e) => Err(e),
                }
            },
            _ => Err(SolveErr::RequiresSolve),
        }
    }
}

/// The endpoint query's outcome for a given solved flag, stored input and
/// element sequence: an invalid solved state or a not fully fixed stored
/// input reports `RequiresSolve`; otherwise the endpoint walk decides.
pub open spec fn spec_endpoint_of(
    solved: bool,
    input: VariableFPolVec2,
    elems: Seq<ScissorElement>,
) -> Result<(u64, u64), SolveErr> {
    if !solved {
        Err(SolveErr::RequiresSolve)
    } else {
        match (spec_to_rec(input).x, spec_to_rec(input).y) {
            (VariableF::Fixed(ix), VariableF::Fixed(iy)) => spec_walk_endpoint(
                elems,
                0,
                (F_ZERO, F_ZERO),
                (ix, iy),
            ),
            _ => Err(SolveErr::RequiresSolve),
        }
    }
}

/// The drawable-segment query's outcome, gated exactly as the endpoint
/// query.
pub open spec fn spec_lines_of(
    solved: bool,
    input: VariableFPolVec2,
    elems: Seq<ScissorElement>,
) -> Result<Seq<line>, SolveErr> {
    if !solved {
        Err(SolveErr::RequiresSolve)
    } else {
        match (spec_to_rec(input).x, spec_to_rec(input).y) {
            (VariableF::Fixed(ix), VariableF::Fixed(iy)) => spec_walk_lines(
                elems,
                0,
                (F_ZERO, F_ZERO),
                (ix, iy),
            ),
            _ => Err(SolveErr::RequiresSolve),
        }
    }
}

/// An ordered chain of scissor elements plus the last driving input used to
/// solve it and the validity of its solved state.
#[derive(Clone, Debug)]
pub struct Scissor {
    elements: Vec<ScissorElement>,
    input: VariableFPolVec2,
    solved: bool,
}

impl Scissor {
    pub closed spec fn spec_elements(&self) -> Seq<ScissorElement> {
        self.elements@
    }

    pub closed spec fn spec_input(&self) -> VariableFPolVec2 {
        self.input
    }

    pub closed spec fn spec_is_solved(&self) -> bool {
        self.solved
    }

    /// Well-formedness: arm lengths are always known, and a chain whose
    /// solved state is valid holds only fully fixed elements.
    pub open spec fn wf(&self) -> bool {
        (forall|j: int|
            0 <= j < self.spec_elements().len() ==> spec_elem_arm_radii_fixed(
                #[trigger] self.spec_elements()[j],
            )) && (self.spec_is_solved() ==> forall|j: int|
            0 <= j < self.spec_elements().len() ==> spec_elem_fixed(
                #[trigger] self.spec_elements()[j],
            ))
    }

    pub open spec fn spec_endpoint(&self) -> Result<(u64, u64), SolveErr> {
        spec_endpoint_of(self.spec_is_solved(), self.spec_input(), self.spec_elements())
    }

    pub open spec fn spec_lines(&self) -> Result<Seq<line>, SolveErr> {
        spec_lines_of(self.spec_is_solved(), self.spec_input(), self.spec_elements())
    }

    /// Builds a chain from dimension records, eagerly validating every
    /// record: construction succeeds, with every length adopted and every
    /// angle unknown, exactly when every record is geometrically valid, and
    /// fails with `InvalidDimensions` otherwise.
    pub fn new(dimensions: Vec<ScissorDimension>) -> (r: Result<Scissor, SolveErr>)
        ensures
            (forall|i: int|
                0 <= i < dimensions@.len() ==> spec_dim_ok(#[trigger] dimensions@[i])) ==> (r is Ok
                && r->Ok_0.spec_elements().len() == dimensions@.len() && (forall|i: int|
                0 <= i < dimensions@.len() ==> r->Ok_0.spec_elements()[i] == spec_elem_of_dim(
                    #[trigger] dimensions@[i],
                )) && !r->Ok_0.spec_is_solved() && r->Ok_0.spec_input() == (VariableFPolVec2 {
                radius: VariableF::Unknown,
                theta: VariableF::Unknown,
            }) && r->Ok_0.wf()),
            (exists|i: int|
                0 <= i < dimensions@.len() && !spec_dim_ok(#[trigger] dimensions@[i])) ==> r
                == Err::<Scissor, SolveErr>(SolveErr::InvalidDimensions),
    {
        let n = dimensions.len();
        let mut i: usize = 0;
        while i < n
            invariant
                0 <= i <= n,
                n == dimensions@.len(),
                forall|j: int| 0 <= j < i ==> spec_dim_ok(#[trigger] dimensions@[j]),
            decreases n - i,
        {
            let d = dimensions[i];
            if fle(d.a, F_ZERO) || fle(d.b, F_ZERO) || fle(d.c, F_ZERO) || fle(d.d, F_ZERO) || fle(
                d.a,
                d.c,
            ) || fle(d.b, d.d) {
                return Err(SolveErr::InvalidDimensions);
            }
            i += 1;
        }
        let mut elements: Vec<ScissorElement> = Vec::new();
        let mut i: usize = 0;
        while i < n
            invariant
                0 <= i <= n,
                n == dimensions@.len(),
                elements@.len() == i,
                forall|j: int|
                    0 <= j < i ==> elements@[j] == spec_elem_of_dim(#[trigger] dimensions@[j]),
            decreases n - i,
        {
            let d = dimensions[i];
            elements.push(
                ScissorElement {
                    a: VariableFPolVec2::from_len(d.a),
                    b: VariableFPolVec2::from_len(d.b),
                    c: VariableFPolVec2::from_len(d.c),
                    d: VariableFPolVec2::from_len(d.d),
                },
            );
            i += 1;
        }
        proof {
            assert forall|j: int|
                0 <= j < elements@.len() implies spec_elem_arm_radii_fixed(
                #[trigger] elements@[j],
            ) by {
                assert(elements@[j] == spec_elem_of_dim(dimensions@[j]));
            };
        }
        Ok(
            Scissor {
                elements,
                input: VariableFPolVec2 { radius: VariableF::Unknown, theta: VariableF::Unknown },
                solved: false,
            },
        )
    }

    /// Solves the whole chain for one driving input. The outcome is exactly
    /// `spec_scissor_solve` of the prior elements and the input: on success
    /// every element is replaced by its solved state, the input is stored
    /// and the solved state becomes valid; on any failure that error is
    /// returned and the solved state is left invalid.
    pub fn solve(&mut self, input: VariableFPolVec2) -> (r: Result<(), SolveErr>)
        requires
            old(self).spec_elements().len() > 0,
            old(self).wf(),
        ensures
            final(self).wf(),
            final(self).spec_elements().len() == old(self).spec_elements().len(),
            (match spec_scissor_solve(old(self).spec_elements(), input) {
                Ok(es) => r == Ok::<(), SolveErr>(()) && final(self).spec_elements() == es
                    && final(self).spec_input() == input && final(self).spec_is_solved(),
                Err(e) => r == Err::<(), SolveErr>(e) && !final(self).spec_is_solved(),
            }),
    {
        self.solved = false;
        if let (VariableF::Unknown, VariableF::Unknown) = (input.radius, input.theta) {
            return Err(SolveErr::Overconstrained);
        }
        self.input = input;
        let ghost elems0 = self.elements@;
        let n = self.elements.len();
        let mut cur = input;
        let mut i: usize = 0;
        while i < n
            invariant
                0 <= i <= n,
                n == self.elements@.len(),
                elems0 == old(self).spec_elements(),
                elems0.len() == n,
                !(input.radius is Unknown && input.theta is Unknown),
                self.solved == false,
                self.input == input,
                spec_chain_from(self.elements@, i as nat, cur) == spec_chain_from(
                    elems0,
                    0,
                    input,
                ),
                forall|j: int|
                    0 <= j < n ==> spec_elem_arm_radii_fixed(#[trigger] self.elements@[j]),
                forall|j: int| 0 <= j < i ==> spec_elem_fixed(#[trigger] self.elements@[j]),
            decreases n - i,
        {
            let ghost elems_before = self.elements@;
            let ghost cur0 = cur;
            let mut e = self.elements[i];
            let ghost e0 = e;
            match e.solve(cur) {
                Err(er) => {
                    proof {
                        assert(spec_chain_from(elems_before, i as nat, cur0) == Err::<
                            (Seq<ScissorElement>, VariableFPolVec2),
                            SolveErr,
                        >(er));
                    }
                    return Err(er);
                },
                Ok(out) => {
                    self.elements[i] = e;
                    proof {
                        let tri = Triangle {
                            a: e0.c,
                            b: spec_pol_neg(e0.d),
                            c: spec_pol_neg(cur0),
                        };
                        lemma_solve_fixed(tri);
                        assert(spec_elem_fixed(e));
                        assert(self.elements@ == elems_before.update(i as int, e));
                        assert(spec_chain_from(self.elements@, (i + 1) as nat, out)
                            == spec_chain_from(elems_before, i as nat, cur0));
                    }
                    cur = out;
                    i += 1;
                },
            }
        }
        self.solved = true;
        Ok(())
    }

    /// Reads the solved chain's tip position as a pair of binary64 bit
    /// patterns; reports `RequiresSolve` whenever the solved state is
    /// invalid or any needed component is unknown. The outcome is exactly
    /// `spec_endpoint`.
    pub fn get_endpoint(&self) -> (r: Result<(u64, u64), SolveErr>)
        ensures
            r == self.spec_endpoint(),
    {
        if !self.solved {
            return Err(SolveErr::RequiresSolve);
        }
        let input_rec = self.input.to_rec();
        let (ix, iy) = match (input_rec.x, input_rec.y) {
            (VariableF::Fixed(x), VariableF::Fixed(y)) => (x, y),
            _ => {
                return Err(SolveErr::RequiresSolve);
            },
        };
        let mut origin: (u64, u64) = (F_ZERO, F_ZERO);
        let mut cur: (u64, u64) = (ix, iy);
        let n = self.elements.len();
        let mut i: usize = 0;
        while i < n
            invariant
                0 <= i <= n,
                n == self.elements@.len(),
                spec_walk_endpoint(self.elements@, i as nat, origin, cur) == spec_walk_endpoint(
                    self.elements@,
                    0,
                    (F_ZERO, F_ZERO),
                    (ix, iy),
                ),
                self.spec_is_solved(),
                spec_to_rec(self.spec_input()).x == VariableF::Fixed(ix),
                spec_to_rec(self.spec_input()).y == VariableF::Fixed(iy),
            decreases n - i,
        {
            let e = self.elements[i];
            let a_rec = e.a.to_rec();
            let b_rec = e.b.to_rec();
            match (a_rec.x, a_rec.y, b_rec.x, b_rec.y) {
                (
                    VariableF::Fixed(ax),
                    VariableF::Fixed(ay),
                    VariableF::Fixed(bx),
                    VariableF::Fixed(by),
                ) => {
                    let no0 = fadd(fadd(origin.0, cur.0), bx);
                    let no1 = fadd(fadd(origin.1, cur.1), by);
                    let ni0 = fsub(fsub(ax, cur.0), bx);
                    let ni1 = fsub(fsub(ay, cur.1), by);
                    origin = (no0, no1);
                    cur = (ni0, ni1);
                    i += 1;
                },
                _ => {
                    return Err(SolveErr::RequiresSolve);
                },
            }
        }
        Ok(origin)
    }

    /// Extracts the solved chain's drawable arm segments in absolute
    /// coordinates, two per element; gated exactly as `get_endpoint`. The
    /// outcome is exactly `spec_lines`.
    pub fn get_lines(&self) -> (r: Result<Vec<line>, SolveErr>)
        ensures
            (match self.spec_lines() {
                Ok(ls) => r is Ok && r->Ok_0@ == ls,
                Err(e) => r == Err::<Vec<line>, SolveErr>(e),
            }),
    {
        if !self.solved {
            return Err(SolveErr::RequiresSolve);
        }
        let input_rec = self.input.to_rec();
        let (ix, iy) = match (input_rec.x, input_rec.y) {
            (VariableF::Fixed(x), VariableF::Fixed(y)) => (x, y),
            _ => {
                return Err(SolveErr::RequiresSolve);
            },
        };
        let mut lines: Vec<line> = Vec::new();
        let mut origin: (u64, u64) = (F_ZERO, F_ZERO);
        let mut cur: (u64, u64) = (ix, iy);
        let n = self.elements.len();
        let mut i: usize = 0;
        while i < n
            invariant
                0 <= i <= n,
                n == self.elements@.len(),
                (match spec_walk_lines(self.elements@, i as nat, origin, cur) {
                    Ok(rest) => Ok::<Seq<line>, SolveErr>(lines@ + rest),
                    Err(e) => Err::<Seq<line>, SolveErr>(e),
                }) == spec_walk_lines(self.elements@, 0, (F_ZERO, F_ZERO), (ix, iy)),
                self.spec_is_solved(),
                spec_to_rec(self.spec_input()).x == VariableF::Fixed(ix),
                spec_to_rec(self.spec_input()).y == VariableF::Fixed(iy),
            decreases n - i,
        {
            let ghost lines_before = lines@;
            let ghost origin0 = origin;
            let ghost cur_0 = cur;
            let e = self.elements[i];
            let a_rec = e.a.to_rec();
            let b_rec = e.b.to_rec();
            match (a_rec.x, a_rec.y, b_rec.x, b_rec.y) {
                (
                    VariableF::Fixed(ax),
                    VariableF::Fixed(ay),
                    VariableF::Fixed(bx),
                    VariableF::Fixed(by),
                ) => {
                    let mid0 = fadd(origin.0, cur.0);
                    let mid1 = fadd(origin.1, cur.1);
                    let l1 = line { x1: origin.0, y1: origin.1, x2: fadd(origin.0, ax), y2: fadd(
                        origin.1,
                        ay,
                    ) };
                    let l2 = line { x1: mid0, y1: mid1, x2: fadd(mid0, bx), y2: fadd(mid1, by) };
                    lines.push(l1);
                    lines.push(l2);
                    let ni0 = fsub(fsub(ax, cur.0), bx);
                    let ni1 = fsub(fsub(ay, cur.1), by);
                    origin = (fadd(mid0, bx), fadd(mid1, by));
                    cur = (ni0, ni1);
                    proof {
                        if spec_walk_lines(self.elements@, (i + 1) as nat, origin, cur) is Ok {
                            let rest = spec_walk_lines(
                                self.elements@,
                                (i + 1) as nat,
                                origin,
                                cur,
                            )->Ok_0;
                            assert(lines@ + rest =~= lines_before + (seq![l1, l2] + rest));
                        }
                    }
                    i += 1;
                },
                _ => {
                    return Err(SolveErr::RequiresSolve);
                },
            }
        }
        proof {
            assert(lines@ + Seq::<line>::empty() =~= lines@);
        }
        Ok(lines)
    }
}

proof fn lemma_walk_endpoint_ok(
    elems: Seq<ScissorElement>,
    i: nat,
    origin: (u64, u64),
    cur: (u64, u64),
)
    requires
        forall|j: int| 0 <= j < elems.len() ==> spec_elem_fixed(#[trigger] elems[j]),
    ensures
        spec_walk_endpoint(elems, i, origin, cur) is Ok,
    decreases elems.len() - i,
{
    if i < elems.len() {
        let a_rec = spec_to_rec(elems[i as int].a);
        let b_rec = spec_to_rec(elems[i as int].b);
        match (a_rec.x, a_rec.y, b_rec.x, b_rec.y) {
            (
                VariableF::Fixed(ax),
                VariableF::Fixed(ay),
                VariableF::Fixed(bx),
                VariableF::Fixed(by),
            ) => {
                lemma_walk_endpoint_ok(
                    elems,
                    i + 1,
                    (
                        add_bits(add_bits(origin.0, cur.0), bx),
                        add_bits(add_bits(origin.1, cur.1), by),
                    ),
                    (sub_bits(sub_bits(ax, cur.0), bx), sub_bits(sub_bits(ay, cur.1), by)),
                );
            },
            _ => {
                assert(false);
            },
        }
    }
}

proof fn lemma_walk_lines_ok(
    elems: Seq<ScissorElement>,
    i: nat,
    origin: (u64, u64),
    cur: (u64, u64),
)
    requires
        forall|j: int| 0 <= j < elems.len() ==> spec_elem_fixed(#[trigger] elems[j]),
    ensures
        spec_walk_lines(elems, i, origin, cur) is Ok,
    decreases elems.len() - i,
{
    if i < elems.len() {
        let a_rec = spec_to_rec(elems[i as int].a);
        let b_rec = spec_to_rec(elems[i as int].b);
        match (a_rec.x, a_rec.y, b_rec.x, b_rec.y) {
            (
                VariableF::Fixed(ax),
                VariableF::Fixed(ay),
                VariableF::Fixed(bx),
                VariableF::Fixed(by),
            ) => {
                lemma_walk_lines_ok(
                    elems,
                    i + 1,
                    (
                        add_bits(add_bits(origin.0, cur.0), bx),
                        add_bits(add_bits(origin.1, cur.1), by),
                    ),
                    (sub_bits(sub_bits(ax, cur.0), bx), sub_bits(sub_bits(ay, cur.1), by)),
                );
            },
            _ => {
                assert(false);
            },
        }
    }
}

/// Success is owed to queries of a well-formed, validly solved chain whose
/// stored driving input is fully fixed: both the endpoint and the drawable
/// segments are then available.
pub proof fn lemma_solved_queries_succeed(s: &Scissor)
    requires
        s.wf(),
        s.spec_is_solved(),
        s.spec_input().radius is Fixed,
        s.spec_input().theta is Fixed,
    ensures
        s.spec_endpoint() is Ok,
        s.spec_lines() is Ok,
{
    let input_rec = spec_to_rec(s.spec_input());
    match (input_rec.x, input_rec.y) {
        (VariableF::Fixed(ix), VariableF::Fixed(iy)) => {
            lemma_walk_endpoint_ok(s.spec_elements(), 0, (F_ZERO, F_ZERO), (ix, iy));
            lemma_walk_lines_ok(s.spec_elements(), 0, (F_ZERO, F_ZERO), (ix, iy));
        },
        _ => {
            assert(false);
        },
    }
}

/// Repeatability: chains in identical states answer identical endpoint and
/// segment queries. Together with `solve`'s exact postcondition -- which
/// pins the solved state to a function of the prior elements and the
/// driving input alone -- repeated solves of identical geometry with an
/// identical input produce identical results.
pub proof fn lemma_queries_deterministic(s1: &Scissor, s2: &Scissor)
    requires
        s1.spec_elements() == s2.spec_elements(),
        s1.spec_input() == s2.spec_input(),
        s1.spec_is_solved() == s2.spec_is_solved(),
    ensures
        s1.spec_endpoint() == s2.spec_endpoint(),
        s1.spec_lines() == s2.spec_lines(),
{
}

/// Atomic failure: a chain whose solved state is invalid -- as `solve`
/// leaves it on every failure -- reports `RequiresSolve` from every query,
/// never a stale or partial position.
pub proof fn lemma_unsolved_requires_solve(s: &Scissor)
    ensures
        !s.spec_is_solved() ==> s.spec_endpoint() == Err::<(u64, u64), SolveErr>(
            SolveErr::RequiresSolve,
        ),
        !s.spec_is_solved() ==> s.spec_lines() == Err::<Seq<line>, SolveErr>(
            SolveErr::RequiresSolve,
        ),
{
}

} // verus!
