//! Analytic solver for planar, under-constrained vector chains: closed
//! triangles of polar vectors whose components may be fixed or unknown, and
//! chains of scissor linkage units driven by one external input vector.
//!
//! Real numbers are carried as the bit patterns of IEEE 754 binary64 values;
//! the arithmetic on them is delegated to trusted kernels in `numeric`, and
//! every result of the solver is pinned, bit for bit, to a specification-level
//! model built over those operations.
use vstd::prelude::*;

pub mod numeric;
pub mod scissor_solver;
pub mod triangle_solver;
pub mod variable_vector;

verus! {

/// Every terminal outcome of construction, solving, or querying.
#[derive(Clone, Copy, Debug, PartialEq, Eq, Structural)]
pub enum SolveErr {
    /// More unknown degrees of freedom than the solver supports.
    Overconstrained,
    /// An unknown-component combination the solver has no rule for.
    PatternNotFound,
    /// A recognized pattern that is intentionally left unhandled.
    Unimplemented,
    /// A collinear configuration with no unique algebraic solution.
    Degenerate,
    /// A triangle-inequality violation among three known radii.
    NotATriangle,
    /// A query attempted on an unsolved or invalidated structure.
    RequiresSolve,
    /// A construction-time geometric invariant violation.
    InvalidDimensions,
}

} // verus!
