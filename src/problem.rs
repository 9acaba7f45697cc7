use vstd::prelude::*;

use crate::adaptive_strategy::AdaptiveStrategy;
use crate::error::SolveError;
use crate::integrator::{rejected_with, step_link, trajectory_ok, Integrator, TSpan};
use crate::scalar::{to_vec, Scalar};
use crate::step_algorithm::StepAlgorithm;
use crate::system::OdeSystem;

verus! {

/// An initial value problem: a model, its state at `tspan.start`, and the
/// span to integrate over.
pub struct OdeProblem<F, S> {
    pub sys: S,
    pub y0: Vec<F>,
    pub tspan: TSpan<F>,
}

/// A computed trajectory that can be queried at any time of its span.
pub struct OdeSolution<'a, F, S, SA: StepAlgorithm<F, S>> where F: Scalar, S: OdeSystem<F> {
    pub sys: &'a S,
    pub labels: Vec<String>,
    pub tspan: TSpan<F>,
    pub ts: Vec<F>,
    pub ys: Vec<Vec<F>>,
    pub step_algorithm: &'a SA,
    pub interpolants: Vec<SA::Interpolant>,
}

impl<F: Scalar, S: OdeSystem<F>> OdeProblem<F, S> {
    pub fn new(sys: S, y0: Vec<F>, tspan: TSpan<F>) -> (r: Self)
        ensures
            r.sys == sys,
            r.y0 == y0,
            r.tspan == tspan,
    {
        Self { sys, y0, tspan }
    }

    /// `ts`, `ys`, `is` is a trajectory that a solve with these methods
    /// records from the initial state, every time of it below the end.
    pub open spec fn run_of<SA: StepAlgorithm<F, S>, AS: AdaptiveStrategy<F, SA::ErrorEstimate>>(
        &self,
        step_algorithm: &SA,
        adaptive_strategy: &AS,
        ts: Seq<F>,
        ys: Seq<Vec<F>>,
        is: Seq<SA::Interpolant>,
    ) -> bool {
        &&& ts.len() > 0
        &&& ts[0] == self.tspan.start
        &&& ys[0]@ == self.y0@
        &&& trajectory_ok::<F, S, SA>(step_algorithm, ts, ys, is, self.y0@.len())
        &&& forall|j: int| 0 <= j < ts.len() ==> (#[trigger] ts[j]).spec_lt(self.tspan.end)
        &&& forall|j: int|
            0 <= j < ts.len() - 1 ==> step_link(
                &self.sys,
                step_algorithm,
                adaptive_strategy,
                ts[j],
                ts[j + 1],
                ys[j],
                ys[j + 1],
                #[trigger] is[j],
            )
    }

    /// The error `e` arose at the last state of the trajectory `ts`, `ys`.
    pub open spec fn fails_at<SA: StepAlgorithm<F, S>, AS: AdaptiveStrategy<F, SA::ErrorEstimate>>(
        &self,
        step_algorithm: &SA,
        adaptive_strategy: &AS,
        ts: Seq<F>,
        ys: Seq<Vec<F>>,
        e: SolveError<F, SA::ErrorEstimate>,
    ) -> bool {
        match e {
            SolveError::MissingCapability { capability } => exists|
                c: SA::Cache,
                h: F,
                y1: Seq<F>,
            |
                #[trigger] step_algorithm.spec_step(
                    &self.sys,
                    &c,
                    ys.last(),
                    ts.last(),
                    h,
                    y1,
                    Err(SolveError::MissingCapability { capability }),
                ),
            SolveError::SingularSystem { t, dt, step, solve } => {
                &&& t == ts.last()
                &&& step == ts.len() - 1
                &&& exists|c: SA::Cache, y1: Seq<F>, e0: SolveError<F, SA::ErrorEstimate>|
                    #[trigger] step_algorithm.spec_step(&self.sys, &c, ys.last(), t, dt, y1, Err(e0))
                        && e0 is SingularSystem && e0->SingularSystem_t == t && e0->SingularSystem_dt
                        == dt && e0->SingularSystem_solve == solve
            },
            SolveError::StepTooSmall { t, dt } => {
                &&& t == ts.last()
                &&& !t.spec_lt(t.spec_add(dt))
                &&& exists|
                    c: SA::Cache,
                    y1: Seq<F>,
                    i: SA::Interpolant,
                    er: SA::ErrorEstimate,
                    m: AS::Memory,
                |
                    #[trigger] step_algorithm.spec_step(&self.sys, &c, ys.last(), t, dt, y1, Ok((i, er)))
                        && (#[trigger] adaptive_strategy.spec_try_accept(m, dt, er, ys.last()@)).0 is Ok
            },
            SolveError::RetryBudgetExhausted { t, dt, error } => {
                &&& t == ts.last()
                &&& rejected_with(adaptive_strategy, ys.last()@, error, dt)
            },
            SolveError::TooManySteps { t } => {
                &&& t == ts.last()
                &&& ts.len() == usize::MAX
            },
        }
    }

    /// Steps from `tspan.start` until the last recorded time is no longer
    /// below `tspan.end`. Each recorded step is one step of the algorithm, of
    /// a size that the strategy handed out.
    pub fn solve<'a, SA: StepAlgorithm<F, S>, AS: AdaptiveStrategy<F, SA::ErrorEstimate>>(
        &'a self,
        step_algorithm: &'a SA,
        adaptive_strategy: &'a AS,
    ) -> (r: Result<OdeSolution<'a, F, S, SA>, SolveError<F, SA::ErrorEstimate>>)
        requires
            self.y0@.len() > 0,
            self.y0@.len() * self.y0@.len() <= usize::MAX,
            forall|y: Seq<F>| y.len() == self.y0@.len() ==> #[trigger] adaptive_strategy.judges(y),
        ensures
            !self.tspan.start.spec_lt(self.tspan.end) ==> (r matches Ok(sol) && sol.ts@.len() == 1),
            r matches Ok(sol) ==> {
                &&& sol.wf()
                &&& sol.sys == &self.sys
                &&& sol.step_algorithm == step_algorithm
                &&& sol.labels@ == self.sys.spec_labels()@
                &&& sol.tspan == self.tspan
                &&& sol.ts@[0] == self.tspan.start
                &&& sol.ys@[0]@ == self.y0@
                &&& !sol.ts@.last().spec_lt(self.tspan.end)
                &&& forall|j: int| 0 <= j < sol.ts@.len() - 1 ==> (#[trigger] sol.ts@[j]).spec_lt(self.tspan.end)
                &&& forall|j: int|
                    0 <= j < sol.ts@.len() - 1 ==> step_link(
                        &self.sys,
                        step_algorithm,
                        adaptive_strategy,
                        sol.ts@[j],
                        sol.ts@[j + 1],
                        sol.ys@[j],
                        sol.ys@[j + 1],
                        #[trigger] sol.interpolants@[j],
                    )
            },
            r matches Err(e) ==> exists|ts: Seq<F>, ys: Seq<Vec<F>>, is: Seq<SA::Interpolant>|
                #[trigger] self.run_of(step_algorithm, adaptive_strategy, ts, ys, is) && self.fails_at(
                    step_algorithm,
                    adaptive_strategy,
                    ts,
                    ys,
                    e,
                ),
    {
        let mut integrator = Integrator::new(
            &self.sys,
            step_algorithm,
            adaptive_strategy,
            self.tspan,
            to_vec(&self.y0),
        );
        loop
            invariant
                integrator.wf(),
                integrator.sys == &self.sys,
                integrator.step_algorithm == step_algorithm,
                integrator.adaptive_strategy == adaptive_strategy,
                integrator.ts@[0] == self.tspan.start,
                integrator.ys@[0]@ == self.y0@,
                forall|j: int|
                    0 <= j < integrator.ts@.len() - 1 ==> (#[trigger] integrator.ts@[j]).spec_lt(
                        self.tspan.end,
                    ),
            decreases usize::MAX - integrator.ts@.len(),
        {
            let last = integrator.ts[integrator.k];
            if !last.lt(&self.tspan.end) {
                let sol = OdeSolution {
                    sys: integrator.sys,
                    labels: self.sys.labels(),
                    tspan: self.tspan,
                    ts: integrator.ts,
                    ys: integrator.ys,
                    step_algorithm: integrator.step_algorithm,
                    interpolants: integrator.interpolants,
                };
                return Ok(sol);
            }
            assert(self.run_of(
                step_algorithm,
                adaptive_strategy,
                integrator.ts@,
                integrator.ys@,
                integrator.interpolants@,
            ));
            if integrator.ts.len() == usize::MAX {
                assert(self.fails_at(
                    step_algorithm,
                    adaptive_strategy,
                    integrator.ts@,
                    integrator.ys@,
                    SolveError::TooManySteps { t: last },
                ));
                return Err(SolveError::TooManySteps { t: last });
            }
            let ghost before = integrator;
            match integrator.step() {
                Ok(()) => {
                    assert(integrator.ts@[0] == integrator.ts@.drop_last()[0]);
                    assert(integrator.ys@[0] == integrator.ys@.drop_last()[0]);
                    assert forall|j: int| 0 <= j < integrator.ts@.len() - 1 implies (
                    #[trigger] integrator.ts@[j]).spec_lt(self.tspan.end) by {
                        assert(integrator.ts@[j] == before.ts@[j]);
                    }
                },
                Err(e) => {
                    assert(self.run_of(
                        step_algorithm,
                        adaptive_strategy,
                        integrator.ts@,
                        integrator.ys@,
                        integrator.interpolants@,
                    ));
                    assert(self.fails_at(
                        step_algorithm,
                        adaptive_strategy,
                        integrator.ts@,
                        integrator.ys@,
                        e,
                    ));
                    return Err(e);
                },
            }
        }
    }
}

impl<'a, F: Scalar, S: OdeSystem<F>, SA: StepAlgorithm<F, S>> OdeSolution<'a, F, S, SA> {
    pub open spec fn wf(&self) -> bool {
        &&& self.ys@.len() > 0
        &&& trajectory_ok::<F, S, SA>(self.step_algorithm, self.ts@, self.ys@, self.interpolants@, self.ys@[0]@.len())
    }

    /// The state at `t` read from the step that ends at index `k`.
    pub open spec fn interpolated(&self, k: int, t: F) -> Seq<F> {
        let t0 = self.ts@[k - 1];
        let dt = self.ts@[k].spec_sub(t0);
        self.step_algorithm.spec_interpolate(
            self.ys@[k - 1]@,
            self.ys@[k]@,
            &self.interpolants@[k - 1],
            dt,
            t.spec_sub(t0).spec_div(dt),
        )
    }

    /// The state at `t`: the first state at or before the start, the last one
    /// at or after the end, and in between the dense output of the step whose
    /// interval holds `t`.
    pub fn solution_at(&self, t: F) -> (r: Vec<F>)
        requires
            self.wf(),
        ensures
            t.spec_le(self.tspan.start) ==> r@ == self.ys@[0]@,
            !t.spec_le(self.tspan.start) && self.tspan.end.spec_le(t) ==> r@ == self.ys@.last()@,
            !t.spec_le(self.tspan.start) && !self.tspan.end.spec_le(t) ==> {
                if !self.ts@[0].spec_lt(t) {
                    r@ == self.ys@[0]@
                } else if self.ts@.last().spec_lt(t) {
                    r@ == self.ys@.last()@
                } else {
                    exists|k: int|
                        1 <= k < self.ts@.len() && (#[trigger] self.ts@[k - 1]).spec_lt(t)
                            && !self.ts@[k].spec_lt(t) && r@ == self.interpolated(k, t)
                }
            },
    {
        let last = self.ts.len() - 1;
        if t.le(&self.tspan.start) {
            return to_vec(&self.ys[0]);
        } else if self.tspan.end.le(&t) {
            return to_vec(&self.ys[last]);
        }
        if !self.ts[0].lt(&t) {
            return to_vec(&self.ys[0]);
        }
        if self.ts[last].lt(&t) {
            return to_vec(&self.ys[last]);
        }
        let mut lo: usize = 0;
        let mut hi: usize = last;
        while hi - lo > 1
            invariant
                lo < hi <= last,
                last + 1 == self.ts@.len(),
                self.ts@[lo as int].spec_lt(t),
                !self.ts@[hi as int].spec_lt(t),
            decreases hi - lo,
        {
            let mid = lo + (hi - lo) / 2;
            if self.ts[mid].lt(&t) {
                lo = mid;
            } else {
                hi = mid;
            }
        }
        let k = hi;
        let t0 = self.ts[k - 1];
        let dt = self.ts[k].sub(&t0);
        let s = t.sub(&t0).div(&dt);
        let r = self.step_algorithm.interpolate(
            &self.ys[k - 1],
            &self.ys[k],
            &self.interpolants[k - 1],
            dt,
            s,
        );
        assert(self.ts@[k - 1].spec_lt(t));
        r
    }
}

} // verus!
