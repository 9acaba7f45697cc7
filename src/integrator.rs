use vstd::prelude::*;

use crate::adaptive_strategy::{AdaptiveStrategy, ConstantStep};
use crate::error::SolveError;
use crate::scalar::{zeros, Scalar};
use crate::step_algorithm::StepAlgorithm;
use crate::system::OdeSystem;

verus! {

/// How many times in a row a step may be rejected before the solve gives up.
pub const MAX_RETRIES: usize = 64;

/// A time span from `start` to `end`; callers keep `start < end`.
#[derive(Clone, Copy, Debug)]
pub struct TSpan<F> {
    pub start: F,
    pub end: F,
}

impl<F> TSpan<F> {
    pub fn new(start: F, end: F) -> (r: Self)
        ensures
            r.start == start,
            r.end == end,
    {
        Self { start, end }
    }
}

/// `h` is a step size that `strategy` hands out: its initial one, or the
/// size of one of its verdicts.
pub open spec fn proposed<F: Scalar, E, AS: AdaptiveStrategy<F, E>>(strategy: &AS, h: F) -> bool {
    ||| h == strategy.spec_init_dt()
    ||| exists|m: AS::Memory, cur: F, e: E, y: Seq<F>|
        #[trigger] strategy.spec_try_accept(m, cur, e, y).0 == Ok::<F, F>(h)
            || strategy.spec_try_accept(m, cur, e, y).0 == Err::<F, F>(h)
}

/// `strategy` rejected some attempt from `y` and asked for a retry with `h`.
pub open spec fn rejected_to<F: Scalar, E, AS: AdaptiveStrategy<F, E>>(
    strategy: &AS,
    y: Seq<F>,
    h: F,
) -> bool {
    exists|m: AS::Memory, cur: F, e: E|
        #[trigger] strategy.spec_try_accept(m, cur, e, y).0 == Err::<F, F>(h)
}

/// `strategy` rejected some attempt from `y` whose error was `e`, and asked
/// for a retry with `h`.
pub open spec fn rejected_with<F: Scalar, E, AS: AdaptiveStrategy<F, E>>(
    strategy: &AS,
    y: Seq<F>,
    e: E,
    h: F,
) -> bool {
    exists|m: AS::Memory, cur: F| #[trigger] strategy.spec_try_accept(m, cur, e, y).0 == Err::<F, F>(h)
}

/// The recorded step from `(t0, y0)` to `(t1, y1)` with `interpolant`: the
/// step algorithm's step of a size `h` that the strategy handed out, with
/// `t1 = t0 + h`.
pub open spec fn step_link<
    F: Scalar,
    S: OdeSystem<F>,
    SA: StepAlgorithm<F, S>,
    AS: AdaptiveStrategy<F, SA::ErrorEstimate>,
>(
    sys: &S,
    step_algorithm: &SA,
    strategy: &AS,
    t0: F,
    t1: F,
    y0: Vec<F>,
    y1: Vec<F>,
    interpolant: SA::Interpolant,
) -> bool {
    exists|h: F, c: SA::Cache, e: SA::ErrorEstimate|
        #[trigger] step_algorithm.spec_step(sys, &c, y0, t0, h, y1@, Ok((interpolant, e)))
            && step_algorithm.cache_ok(&c) && t1 == t0.spec_add(h) && proposed(strategy, h)
}

/// An attempt of size `h` with strategy memory `m` is the first one of a
/// step, made with the step size `dt0` and memory `m0` held before it, or a
/// retry with a size that the strategy asked for when rejecting an attempt
/// from `y`.
pub open spec fn attempt<F: Scalar, E, AS: AdaptiveStrategy<F, E>>(
    strategy: &AS,
    y: Seq<F>,
    dt0: F,
    m0: AS::Memory,
    h: F,
    m: AS::Memory,
) -> bool {
    ||| h == dt0 && m == m0
    ||| rejected_to(strategy, y, h)
}

/// A constant step hands out no step size but its constant.
pub proof fn constant_step_proposes_its_dt<F: Scalar, E>(c: &ConstantStep<F>, h: F)
    requires
        proposed::<F, E, ConstantStep<F>>(c, h),
    ensures
        h == c.0,
{
}

/// Under a constant step, every recorded step advances the time by exactly
/// the constant.
pub proof fn constant_step_advances_by_dt<
    F: Scalar,
    S: OdeSystem<F>,
    SA: StepAlgorithm<F, S>,
>(
    sys: &S,
    step_algorithm: &SA,
    c: &ConstantStep<F>,
    t0: F,
    t1: F,
    y0: Vec<F>,
    y1: Vec<F>,
    interpolant: SA::Interpolant,
)
    requires
        step_link(sys, step_algorithm, c, t0, t1, y0, y1, interpolant),
    ensures
        t1 == t0.spec_add(c.0),
{
    let (h, cc, e) = choose|h: F, cc: SA::Cache, e: SA::ErrorEstimate|
        #[trigger] step_algorithm.spec_step(sys, &cc, y0, t0, h, y1@, Ok((interpolant, e)))
            && t1 == t0.spec_add(h) && proposed::<F, SA::ErrorEstimate, ConstantStep<F>>(c, h);
    constant_step_proposes_its_dt::<F, SA::ErrorEstimate>(c, h);
}

/// A trajectory of `n`-component states: one more time and state than
/// interpolants, every state of `n` components, times strictly increasing
/// from one entry to the next.
pub open spec fn trajectory_ok<F: Scalar, S: OdeSystem<F>, SA: StepAlgorithm<F, S>>(
    step_algorithm: &SA,
    ts: Seq<F>,
    ys: Seq<Vec<F>>,
    interpolants: Seq<SA::Interpolant>,
    n: nat,
) -> bool {
    &&& n > 0
    &&& n * n <= usize::MAX
    &&& ts.len() == ys.len()
    &&& ys.len() == interpolants.len() + 1
    &&& forall|i: int| 0 <= i < ys.len() ==> (#[trigger] ys[i])@.len() == n
    &&& forall|i: int|
        0 <= i < interpolants.len() ==> step_algorithm.interpolant_ok(&#[trigger] interpolants[i], n)
    &&& forall|i: int| 0 <= i < ts.len() - 1 ==> (#[trigger] ts[i]).spec_lt(ts[i + 1])
}

/// `e`, with the index of the step that failed where it has room for one.
fn at_step<F, E>(e: SolveError<F, E>, k: usize) -> (r: SolveError<F, E>)
    ensures
        e is SingularSystem ==> r == (SolveError::SingularSystem::<F, E> {
            t: e->SingularSystem_t,
            dt: e->SingularSystem_dt,
            step: k,
            solve: e->SingularSystem_solve,
        }),
        !(e is SingularSystem) ==> r == e,
{
    match e {
        SolveError::SingularSystem { t, dt, step: _, solve } => SolveError::SingularSystem {
            t,
            dt,
            step: k,
            solve,
        },
        other => other,
    }
}

/// The stepping engine: drives one step algorithm and one strategy from the
/// last accepted state, and records the trajectory.
pub struct Integrator<
    'a,
    F: Scalar,
    Sys: OdeSystem<F>,
    Step: StepAlgorithm<F, Sys>,
    AS: AdaptiveStrategy<F, Step::ErrorEstimate>,
> {
    pub sys: &'a Sys,
    pub step_algorithm: &'a Step,
    pub adaptive_strategy: &'a AS,
    pub dt: F,
    pub cache: Step::Cache,
    pub memory: AS::Memory,
    pub k: usize,
    pub ts: Vec<F>,
    pub ys: Vec<Vec<F>>,
    pub interpolants: Vec<Step::Interpolant>,
}

impl<
    'a,
    F: Scalar,
    Sys: OdeSystem<F>,
    Step: StepAlgorithm<F, Sys>,
    AS: AdaptiveStrategy<F, Step::ErrorEstimate>,
> Integrator<'a, F, Sys, Step, AS> {
    /// The number of components of the states.
    pub open spec fn dim(&self) -> nat {
        self.ys@[0]@.len()
    }

    pub open spec fn wf(&self) -> bool {
        &&& self.ys@.len() > 0
        &&& self.k + 1 == self.ts@.len()
        &&& trajectory_ok::<F, Sys, Step>(self.step_algorithm, self.ts@, self.ys@, self.interpolants@, self.dim())
        &&& self.step_algorithm.cache_ok(&self.cache)
        &&& proposed(self.adaptive_strategy, self.dt)
        &&& forall|y: Seq<F>| y.len() == self.dim() ==> #[trigger] self.adaptive_strategy.judges(y)
        &&& forall|j: int|
            0 <= j < self.k ==> step_link(
                self.sys,
                self.step_algorithm,
                self.adaptive_strategy,
                self.ts@[j],
                self.ts@[j + 1],
                self.ys@[j],
                self.ys@[j + 1],
                #[trigger] self.interpolants@[j],
            )
    }

    /// The recorded trajectory is the same in `self` and `o`.
    pub open spec fn same_trajectory(&self, o: &Self) -> bool {
        &&& self.ts@ == o.ts@
        &&& self.ys@ == o.ys@
        &&& self.interpolants@ == o.interpolants@
        &&& self.k == o.k
    }

    pub fn new(
        sys: &'a Sys,
        step_algorithm: &'a Step,
        adaptive_strategy: &'a AS,
        tspan: TSpan<F>,
        y0: Vec<F>,
    ) -> (r: Self)
        requires
            y0@.len() > 0,
            y0@.len() * y0@.len() <= usize::MAX,
            forall|y: Seq<F>| y.len() == y0@.len() ==> #[trigger] adaptive_strategy.judges(y),
        ensures
            r.wf(),
            r.ts@.len() == 1,
            r.sys == sys,
            r.step_algorithm == step_algorithm,
            r.adaptive_strategy == adaptive_strategy,
            r.k == 0,
            r.ts@ == seq![tspan.start],
            r.ys@.len() == 1,
            r.ys@[0]@ == y0@,
            r.interpolants@.len() == 0,
            r.dt == adaptive_strategy.spec_init_dt(),
            r.memory == adaptive_strategy.spec_init_memory(),
    {
        let cache = step_algorithm.init_cache(sys);
        let dt = adaptive_strategy.init_dt();
        let memory = adaptive_strategy.init_memory();
        let t0 = tspan.start;
        let mut ts: Vec<F> = Vec::new();
        ts.push(t0);
        let mut ys: Vec<Vec<F>> = Vec::new();
        ys.push(y0);
        let r = Self {
            sys,
            step_algorithm,
            adaptive_strategy,
            dt,
            cache,
            memory,
            k: 0,
            ts,
            ys,
            interpolants: Vec::new(),
        };
        assert(r.ts@ =~= seq![tspan.start]);
        r
    }

    /// Takes one accepted step, retrying rejected ones from the same state.
    ///
    /// On success the trajectory gains exactly one entry, whose time is the
    /// last time plus the step size that the strategy accepted, and `dt` is
    /// the size that the strategy proposed; on failure the trajectory is as
    /// it was.
    pub fn step(&mut self) -> (r: Result<(), SolveError<F, Step::ErrorEstimate>>)
        requires
            old(self).wf(),
            old(self).ts@.len() < usize::MAX,
        ensures
            final(self).wf(),
            final(self).sys == old(self).sys,
            final(self).step_algorithm == old(self).step_algorithm,
            final(self).adaptive_strategy == old(self).adaptive_strategy,
            final(self).dim() == old(self).dim(),
            r is Err ==> final(self).same_trajectory(old(self)),
            r matches Err(SolveError::MissingCapability { capability }) ==> exists|
                c: Step::Cache,
                h: F,
                y1: Seq<F>,
            |
                #[trigger] old(self).step_algorithm.spec_step(
                    old(self).sys,
                    &c,
                    old(self).ys@.last(),
                    old(self).ts@.last(),
                    h,
                    y1,
                    Err(SolveError::MissingCapability { capability }),
                ) && old(self).step_algorithm.cache_ok(&c),
            r matches Err(SolveError::SingularSystem { t, dt, step, solve }) ==> {
                &&& step == old(self).k
                &&& t == old(self).ts@.last()
                &&& exists|c: Step::Cache, y1: Seq<F>, e0: SolveError<F, Step::ErrorEstimate>|
                    #[trigger] old(self).step_algorithm.spec_step(
                        old(self).sys,
                        &c,
                        old(self).ys@.last(),
                        old(self).ts@.last(),
                        dt,
                        y1,
                        Err(e0),
                    ) && old(self).step_algorithm.cache_ok(&c) && e0 is SingularSystem && e0->SingularSystem_t
                        == t && e0->SingularSystem_dt == dt && e0->SingularSystem_solve == solve
            },
            r matches Err(SolveError::StepTooSmall { t, dt }) ==> {
                &&& t == old(self).ts@.last()
                &&& !t.spec_lt(t.spec_add(dt))
                &&& exists|
                    c: Step::Cache,
                    y1: Seq<F>,
                    i: Step::Interpolant,
                    e: Step::ErrorEstimate,
                    m: AS::Memory,
                |
                    #[trigger] old(self).step_algorithm.spec_step(
                        old(self).sys,
                        &c,
                        old(self).ys@.last(),
                        t,
                        dt,
                        y1,
                        Ok((i, e)),
                    ) && old(self).step_algorithm.cache_ok(&c) && (#[trigger] old(
                        self,
                    ).adaptive_strategy.spec_try_accept(m, dt, e, old(self).ys@.last()@)).0 is Ok && attempt(
                        old(self).adaptive_strategy,
                        old(self).ys@.last()@,
                        old(self).dt,
                        old(self).memory,
                        dt,
                        m,
                    )
            },
            r matches Err(SolveError::RetryBudgetExhausted { t, dt, error }) ==> {
                &&& t == old(self).ts@.last()
                &&& final(self).dt == dt
                &&& rejected_with(old(self).adaptive_strategy, old(self).ys@.last()@, error, dt)
            },
            !(r matches Err(SolveError::TooManySteps { .. })),
            r is Ok ==> {
                &&& final(self).k == old(self).k + 1
                &&& final(self).ts@.drop_last() == old(self).ts@
                &&& final(self).ys@.drop_last() == old(self).ys@
                &&& final(self).interpolants@.drop_last() == old(self).interpolants@
                &&& exists|h: F, c: Step::Cache, e: Step::ErrorEstimate, m: AS::Memory|
                    {
                        &&& final(self).ts@.last() == old(self).ts@.last().spec_add(h)
                        &&& #[trigger] old(self).step_algorithm.spec_step(
                            old(self).sys,
                            &c,
                            old(self).ys@.last(),
                            old(self).ts@.last(),
                            h,
                            final(self).ys@.last()@,
                            Ok((final(self).interpolants@.last(), e)),
                        )
                        &&& #[trigger] old(self).adaptive_strategy.spec_try_accept(
                            m,
                            h,
                            e,
                            old(self).ys@.last()@,
                        ) == (Ok::<F, F>(final(self).dt), final(self).memory)
                        &&& old(self).step_algorithm.cache_ok(&c)
                        &&& attempt(
                            old(self).adaptive_strategy,
                            old(self).ys@.last()@,
                            old(self).dt,
                            old(self).memory,
                            h,
                            m,
                        )
                    }
            },
    {
        let ghost start = *self;
        let n = self.ys[0].len();
        let mut retries: usize = 0;
        loop
            invariant
                self.wf(),
                self.same_trajectory(&start),
                self.sys == start.sys,
                self.step_algorithm == start.step_algorithm,
                self.adaptive_strategy == start.adaptive_strategy,
                n == self.dim(),
                n == start.dim(),
                start == *old(self),
                start.wf(),
                start.ts@.len() < usize::MAX,
                retries <= MAX_RETRIES,
                attempt(
                    self.adaptive_strategy,
                    start.ys@.last()@,
                    start.dt,
                    start.memory,
                    self.dt,
                    self.memory,
                ),
            decreases MAX_RETRIES - retries,
        {
            let k = self.k;
            let t = self.ts[k];
            let mut y1: Vec<F> = zeros(n);
            let dt = self.dt;
            let stepped = self.step_algorithm.step(
                &mut self.cache,
                self.sys,
                &mut y1,
                &self.ys[k],
                t,
                dt,
            );
            let ghost c = self.cache;
            assert(self.ys@[k as int] == start.ys@.last());
            let (interpolant, error) = match stepped {
                Ok(out) => out,
                Err(e) => {
                    let ghost ge = e;
                    let failure = at_step(e, k);
                    proof {
                        assert(self.step_algorithm.spec_step(
                            self.sys,
                            &c,
                            start.ys@.last(),
                            start.ts@.last(),
                            dt,
                            y1@,
                            Err(ge),
                        ));
                        assert(t == start.ts@.last());
                        assert(ge is SingularSystem ==> ge->SingularSystem_t == t && ge->SingularSystem_dt
                            == dt);
                        assert(ge is SingularSystem ==> (exists|
                            cc: Step::Cache,
                            yy: Seq<F>,
                            e0: SolveError<F, Step::ErrorEstimate>,
                        |
                            #[trigger] old(self).step_algorithm.spec_step(
                                old(self).sys,
                                &cc,
                                old(self).ys@.last(),
                                old(self).ts@.last(),
                                ge->SingularSystem_dt,
                                yy,
                                Err(e0),
                            ) && e0 is SingularSystem && e0->SingularSystem_t == ge->SingularSystem_t
                                && e0->SingularSystem_dt == ge->SingularSystem_dt
                                && e0->SingularSystem_solve == ge->SingularSystem_solve));
                        assert(failure is SingularSystem ==> failure->SingularSystem_t == ge->SingularSystem_t
                            && failure->SingularSystem_dt == ge->SingularSystem_dt
                            && failure->SingularSystem_solve == ge->SingularSystem_solve
                            && failure->SingularSystem_step == old(self).k && ge is SingularSystem);
                    }
                    return Err(failure);
                },
            };
            let ghost m = self.memory;
            let verdict = self.adaptive_strategy.try_accept(
                &mut self.memory,
                dt,
                &error,
                &self.ys[k],
            );
            match verdict {
                Ok(new_dt) => {
                    let t1 = t.add(&dt);
                    if !t.lt(&t1) {
                        assert(self.step_algorithm.spec_step(
                            self.sys,
                            &c,
                            start.ys@.last(),
                            t,
                            dt,
                            y1@,
                            Ok((interpolant, error)),
                        ));
                        assert(self.adaptive_strategy.spec_try_accept(m, dt, error, start.ys@.last()@).0
                            is Ok);
                        return Err(SolveError::StepTooSmall { t, dt });
                    }
                    let ghost old_interps = self.interpolants@;
                    self.ts.push(t1);
                    self.ys.push(y1);
                    self.interpolants.push(interpolant);
                    self.dt = new_dt;
                    self.k = k + 1;
                    proof {
                        assert(self.ts@.drop_last() =~= start.ts@);
                        assert(self.ys@.drop_last() =~= start.ys@);
                        assert(self.interpolants@.drop_last() =~= start.interpolants@);
                        assert(self.ys@[0] == start.ys@[0]);
                        assert(self.adaptive_strategy.spec_try_accept(m, dt, error, start.ys@.last()@)
                            == (Ok::<F, F>(self.dt), self.memory));
                        assert(proposed(self.adaptive_strategy, self.dt));
                        assert(self.step_algorithm.spec_step(
                            self.sys,
                            &c,
                            start.ys@.last(),
                            start.ts@.last(),
                            dt,
                            self.ys@.last()@,
                            Ok((self.interpolants@.last(), error)),
                        ));
                        assert(proposed(self.adaptive_strategy, dt));
                        assert forall|j: int| 0 <= j < self.k implies step_link(
                            self.sys,
                            self.step_algorithm,
                            self.adaptive_strategy,
                            self.ts@[j],
                            self.ts@[j + 1],
                            self.ys@[j],
                            self.ys@[j + 1],
                            #[trigger] self.interpolants@[j],
                        ) by {
                            if j < k {
                                assert(self.interpolants@[j] == start.interpolants@[j]);
                                assert(self.ts@[j + 1] == start.ts@[j + 1]);
                                assert(self.ys@[j + 1] == start.ys@[j + 1]);
                            } else {
                                assert(self.interpolants@[j] == self.interpolants@.last());
                            }
                        }
                    }
                    return Ok(());
                },
                Err(new_dt) => {
                    self.dt = new_dt;
                    retries += 1;
                    assert(self.adaptive_strategy.spec_try_accept(m, dt, error, start.ys@.last()@).0
                        == Err::<F, F>(new_dt));
                    assert(proposed(self.adaptive_strategy, new_dt));
                    assert(t == start.ts@.last());
                    if retries >= MAX_RETRIES || !t.lt(&t.add(&new_dt)) {
                        return Err(SolveError::RetryBudgetExhausted { t, dt: new_dt, error });
                    }
                },
            }
        }
    }
}

} // verus!
