use vstd::prelude::*;

verus! {

/// An operation of the model that a method needs.
#[derive(Clone, Copy, Debug, PartialEq, Eq, Structural)]
pub enum Capability {
    Jacobian,
}

/// Why a solve stopped before reaching the end of its time span.
#[derive(Clone, Copy, Debug, PartialEq, Eq)]
pub enum SolveError<F, E> {
    /// The model does not offer what the method needs.
    MissingCapability { capability: Capability },
    /// A linear solve of an implicit step met a singular matrix; `solve`
    /// counts the solves of that step from one.
    SingularSystem { t: F, dt: F, step: usize, solve: usize },
    /// The strategy kept rejecting until the retry budget was spent, or the
    /// step size no longer advanced the time.
    RetryBudgetExhausted { t: F, dt: F, error: E },
    /// An accepted step of size `dt` did not move the time past `t`.
    StepTooSmall { t: F, dt: F },
    /// The trajectory cannot hold another step; `t` is its last time.
    TooManySteps { t: F },
}

} // verus!
