use vstd::prelude::*;

use crate::error::SolveError;
use crate::scalar::Scalar;
use crate::system::OdeSystem;

verus! {

/// A one-step method: advances a state by a given step and describes the
/// trajectory inside that step.
pub trait StepAlgorithm<F: Scalar, S: OdeSystem<F>> {
    /// Scratch space reused from step to step.
    type Cache;

    /// What a step leaves behind to evaluate the solution inside it.
    type Interpolant;

    /// The local error estimate of a step.
    type ErrorEstimate;

    spec fn cache_ok(&self, cache: &Self::Cache) -> bool;

    /// `interpolant` belongs to a state of `n` components.
    spec fn interpolant_ok(&self, interpolant: &Self::Interpolant, n: nat) -> bool;

    /// What a step of `sys` from `y0` at `t` of size `dt` computed: the new
    /// state `y1` and the outcome `r`, read against the cache after the step.
    spec fn spec_step(
        &self,
        sys: &S,
        cache: &Self::Cache,
        y0: Vec<F>,
        t: F,
        dt: F,
        y1: Seq<F>,
        r: Result<(Self::Interpolant, Self::ErrorEstimate), SolveError<F, Self::ErrorEstimate>>,
    ) -> bool;

    /// The state at the fraction `s` of a step of size `dt` from `y0` to `y1`.
    spec fn spec_interpolate(
        &self,
        y0: Seq<F>,
        y1: Seq<F>,
        interpolant: &Self::Interpolant,
        dt: F,
        s: F,
    ) -> Seq<F>;

    fn init_cache(&self, sys: &S) -> (r: Self::Cache)
        ensures
            self.cache_ok(&r),
    ;

    /// Advances `y0` at time `t` by `dt` into `y1`.
    fn step(
        &self,
        cache: &mut Self::Cache,
        system: &S,
        y1: &mut Vec<F>,
        y0: &Vec<F>,
        t: F,
        dt: F,
    ) -> (r: Result<(Self::Interpolant, Self::ErrorEstimate), SolveError<F, Self::ErrorEstimate>>)
        requires
            self.cache_ok(old(cache)),
            old(y1)@.len() == y0@.len(),
            y0@.len() * y0@.len() <= usize::MAX,
        ensures
            self.cache_ok(final(cache)),
            final(y1)@.len() == y0@.len(),
            self.spec_step(system, final(cache), *y0, t, dt, final(y1)@, r),
            r matches Ok(out) ==> self.interpolant_ok(&out.0, y0@.len()),
            r matches Err(e) ==> e is MissingCapability || e is SingularSystem,
            r matches Err(SolveError::SingularSystem { t: at, dt: size, .. }) ==> at == t && size == dt,
    ;

    fn interpolate(
        &self,
        y0: &Vec<F>,
        y1: &Vec<F>,
        interpolant: &Self::Interpolant,
        dt: F,
        s: F,
    ) -> (r: Vec<F>)
        requires
            y0@.len() == y1@.len(),
            self.interpolant_ok(interpolant, y0@.len()),
        ensures
            r@ == self.spec_interpolate(y0@, y1@, interpolant, dt, s),
    ;
}

/// `y0 * (1 - s) + y1 * s`, component by component.
pub open spec fn blend<F: Scalar>(y0: Seq<F>, y1: Seq<F>, s: F) -> Seq<F> {
    Seq::new(
        y0.len(),
        |i: int| y0[i].spec_mul(F::spec_one().spec_sub(s)).spec_add(y1[i].spec_mul(s)),
    )
}

pub fn blend_exec<F: Scalar>(y0: &Vec<F>, y1: &Vec<F>, s: F) -> (r: Vec<F>)
    requires
        y0@.len() == y1@.len(),
    ensures
        r@ == blend(y0@, y1@, s),
{
    let w0 = F::one().sub(&s);
    let n = y0.len();
    let mut r: Vec<F> = Vec::with_capacity(n);
    let mut i: usize = 0;
    while i < n
        invariant
            i <= n,
            n == y0@.len(),
            n == y1@.len(),
            w0 == F::spec_one().spec_sub(s),
            r@ =~= blend(y0@, y1@, s).subrange(0, i as int),
        decreases n - i,
    {
        r.push(y0[i].mul(&w0).add(&y1[i].mul(&s)));
        i += 1;
    }
    r
}

/// `y0 + dt * k`, component by component.
pub open spec fn euler_update<F: Scalar>(y0: Seq<F>, dt: F, k: Seq<F>) -> Seq<F> {
    Seq::new(y0.len(), |i: int| y0[i].spec_add(dt.spec_mul(k[i])))
}

/// The Euclidean norm of `v`, summed from the first component.
pub open spec fn norm<F: Scalar>(v: Seq<F>) -> F {
    sum_squares(v).spec_sqrt()
}

pub open spec fn sum_squares<F: Scalar>(v: Seq<F>) -> F
    decreases v.len(),
{
    if v.len() == 0 {
        F::spec_zero()
    } else {
        sum_squares(v.drop_last()).spec_add(v.last().spec_mul(v.last()))
    }
}

pub fn norm_exec<F: Scalar>(v: &Vec<F>) -> (r: F)
    ensures
        r == norm(v@),
{
    let mut acc = F::zero();
    let mut i: usize = 0;
    while i < v.len()
        invariant
            i <= v@.len(),
            acc == sum_squares(v@.subrange(0, i as int)),
        decreases v@.len() - i,
    {
        proof {
            assert(v@.subrange(0, i as int + 1).drop_last() =~= v@.subrange(0, i as int));
        }
        acc = acc.add(&v[i].mul(&v[i]));
        i += 1;
    }
    assert(v@.subrange(0, v@.len() as int) =~= v@);
    acc.sqrt()
}

} // verus!
