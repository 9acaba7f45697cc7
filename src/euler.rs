use vstd::prelude::*;

use crate::error::SolveError;
use crate::scalar::{zeros, Scalar};
use crate::step_algorithm::{blend, blend_exec, euler_update, StepAlgorithm};
use crate::system::OdeSystem;

verus! {

/// The explicit Euler method, `y1 = y0 + dt * f(y0, t)`: first order, no
/// error estimate, linear dense output. Pair it with a constant step.
#[derive(Clone, Copy, Debug)]
pub struct Euler;

impl<F: Scalar, S: OdeSystem<F>> StepAlgorithm<F, S> for Euler {
    /// The derivative f(y0, t) of the last step.
    type Cache = Vec<F>;

    type Interpolant = ();

    type ErrorEstimate = ();

    open spec fn cache_ok(&self, cache: &Vec<F>) -> bool {
        true
    }

    open spec fn interpolant_ok(&self, interpolant: &(), n: nat) -> bool {
        true
    }

    /// `y1 = y0 + dt * f(y0, t)`, with f(y0, t) left in the cache.
    open spec fn spec_step(
        &self,
        sys: &S,
        cache: &Vec<F>,
        y0: Vec<F>,
        t: F,
        dt: F,
        y1: Seq<F>,
        r: Result<((), ()), SolveError<F, ()>>,
    ) -> bool {
        &&& r is Ok
        &&& cache@.len() == y0@.len()
        &&& forall|i: int| 0 <= i < y0@.len() ==> cache@[i] == sys.field_at(y0, t, i as usize)
        &&& y1 == euler_update(y0@, dt, cache@)
    }

    open spec fn spec_interpolate(
        &self,
        y0: Seq<F>,
        y1: Seq<F>,
        interpolant: &(),
        dt: F,
        s: F,
    ) -> Seq<F> {
        blend(y0, y1, s)
    }

    fn init_cache(&self, sys: &S) -> (r: Vec<F>) {
        zeros(sys.dimension())
    }

    fn step(
        &self,
        cache: &mut Vec<F>,
        system: &S,
        y1: &mut Vec<F>,
        y0: &Vec<F>,
        t: F,
        dt: F,
    ) -> (r: Result<((), ()), SolveError<F, ()>>) {
        let n = y0.len();
        if cache.len() != n {
            *cache = zeros(n);
        }
        system.vfield(cache, y0, t);
        let mut i: usize = 0;
        while i < n
            invariant
                i <= n,
                n == y0@.len(),
                y1@.len() == n,
                cache@.len() == n,
                forall|j: int| 0 <= j < i ==> y1@[j] == euler_update(y0@, dt, cache@)[j],
            decreases n - i,
        {
            let v = y0[i].add(&dt.mul(&cache[i]));
            y1.set(i, v);
            i += 1;
        }
        assert(y1@ =~= euler_update(y0@, dt, cache@));
        Ok(((), ()))
    }

    fn interpolate(&self, y0: &Vec<F>, y1: &Vec<F>, interpolant: &(), dt: F, s: F) -> (r: Vec<F>) {
        blend_exec(y0, y1, s)
    }
}

} // verus!
