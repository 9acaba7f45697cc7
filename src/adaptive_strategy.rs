use vstd::prelude::*;

use crate::scalar::Scalar;

verus! {

/// Chooses step sizes and judges each step.
pub trait AdaptiveStrategy<F: Scalar, E> {
    /// What the strategy remembers from one step to the next.
    type Memory;

    spec fn spec_init_dt(&self) -> F;

    /// The states that the strategy can judge a step from.
    spec fn judges(&self, y: Seq<F>) -> bool;

    spec fn spec_init_memory(&self) -> Self::Memory;

    /// The verdict on a step and the memory afterwards: `Ok(dt)` accepts the
    /// step and proposes `dt` for the next one, `Err(dt)` rejects it and asks
    /// for a retry with `dt`.
    spec fn spec_try_accept(&self, memory: Self::Memory, cur_dt: F, error: E, y: Seq<F>) -> (
        Result<F, F>,
        Self::Memory,
    );

    fn init_dt(&self) -> (r: F)
        ensures
            r == self.spec_init_dt(),
    ;

    fn init_memory(&self) -> (r: Self::Memory)
        ensures
            r == self.spec_init_memory(),
    ;

    fn try_accept(&self, memory: &mut Self::Memory, cur_dt: F, error: &E, y: &Vec<F>) -> (r:
        Result<F, F>)
        requires
            self.judges(y@),
        ensures
            (r, *final(memory)) == self.spec_try_accept(*old(memory), cur_dt, *error, y@),
    ;
}

/// max |y_i|, folded from the left.
pub open spec fn max_abs<F: Scalar>(y: Seq<F>) -> F
    decreases y.len(),
{
    if y.len() <= 1 {
        y[0].spec_abs()
    } else {
        max_abs(y.drop_last()).spec_max(y.last().spec_abs())
    }
}

/// atol + rtol * max |y_i|.
pub open spec fn tolerance<F: Scalar>(atol: F, rtol: F, y: Seq<F>) -> F {
    atol.spec_add(rtol.spec_mul(max_abs(y)))
}

/// The exponent `gain / (order + 1)`.
pub open spec fn exponent<F: Scalar>(gain: F, order: u32) -> F {
    gain.spec_div(F::spec_ratio((order as i64 + 1) as i64, 1i64))
}

fn max_abs_exec<F: Scalar>(y: &Vec<F>) -> (r: F)
    requires
        y@.len() > 0,
    ensures
        r == max_abs(y@),
{
    let mut m = y[0].abs();
    let mut i: usize = 1;
    while i < y.len()
        invariant
            1 <= i <= y@.len(),
            m == max_abs(y@.subrange(0, i as int)),
        decreases y@.len() - i,
    {
        let a = y[i].abs();
        proof {
            let s = y@.subrange(0, i as int + 1);
            assert(s.drop_last() =~= y@.subrange(0, i as int));
        }
        m = m.max(&a);
        i += 1;
    }
    assert(y@.subrange(0, y@.len() as int) =~= y@);
    m
}

fn tolerance_exec<F: Scalar>(atol: F, rtol: F, y: &Vec<F>) -> (r: F)
    requires
        y@.len() > 0,
    ensures
        r == tolerance(atol, rtol, y@),
{
    let m = max_abs_exec(y);
    atol.add(&rtol.mul(&m))
}

fn exponent_exec<F: Scalar>(gain: F, order: u32) -> (r: F)
    ensures
        r == exponent(gain, order),
{
    gain.div(&F::ratio(order as i64 + 1, 1))
}

/// The same step size for every step, whatever the error.
#[derive(Clone, Copy, Debug)]
pub struct ConstantStep<F>(pub F);

impl<F: Scalar, E> AdaptiveStrategy<F, E> for ConstantStep<F> {
    type Memory = ();

    open spec fn spec_init_dt(&self) -> F {
        self.0
    }

    /// Any state: a constant step does not look at it.
    open spec fn judges(&self, y: Seq<F>) -> bool {
        true
    }

    open spec fn spec_init_memory(&self) -> () {
        ()
    }

    open spec fn spec_try_accept(&self, memory: (), cur_dt: F, error: E, y: Seq<F>) -> (
        Result<F, F>,
        (),
    ) {
        (Ok(self.0), ())
    }

    fn init_dt(&self) -> (r: F) {
        self.0
    }

    fn init_memory(&self) -> (r: ()) {
        ()
    }

    fn try_accept(&self, memory: &mut (), cur_dt: F, error: &E, y: &Vec<F>) -> (r: Result<F, F>) {
        Ok(self.0)
    }
}

/// A constant step accepts every step and always proposes its initial step
/// size again, whatever the current step size, error, state or memory.
pub proof fn constant_step_keeps_dt<F: Scalar, E>(
    c: ConstantStep<F>,
    memory: (),
    cur_dt: F,
    error: E,
    y: Seq<F>,
)
    ensures
        c.spec_try_accept(memory, cur_dt, error, y) == (
            Ok::<F, F>(AdaptiveStrategy::<F, E>::spec_init_dt(&c)),
            (),
        ),
{
}

/// Integral step-size control: the next step is
/// `dt * (tol / error)^(1 / (order + 1))` with `tol = atol + rtol * max |y_i|`.
/// It never rejects a step.
#[derive(Clone, Copy, Debug)]
pub struct IntegralController<F> {
    pub init: F,
    pub atol: F,
    pub rtol: F,
    pub order: u32,
}

impl<F: Scalar> IntegralController<F> {
    pub fn new(init: F, atol: F, rtol: F, order: u32) -> (r: Self)
        ensures
            r.init == init,
            r.atol == atol,
            r.rtol == rtol,
            r.order == order,
    {
        Self { init, atol, rtol, order }
    }

    /// The step size proposed after a step of size `cur_dt` with the given
    /// error, from a state `y`.
    pub open spec fn spec_next_dt(&self, cur_dt: F, error: F, y: Seq<F>) -> F {
        cur_dt.spec_mul(
            tolerance(self.atol, self.rtol, y).spec_div(error).spec_powf(
                exponent(F::spec_one(), self.order),
            ),
        )
    }
}

impl<F: Scalar> AdaptiveStrategy<F, F> for IntegralController<F> {
    type Memory = ();

    open spec fn spec_init_dt(&self) -> F {
        self.init
    }

    /// A state with at least one component, to take the largest of.
    open spec fn judges(&self, y: Seq<F>) -> bool {
        y.len() > 0
    }

    open spec fn spec_init_memory(&self) -> () {
        ()
    }

    open spec fn spec_try_accept(&self, memory: (), cur_dt: F, error: F, y: Seq<F>) -> (
        Result<F, F>,
        (),
    ) {
        (Ok(self.spec_next_dt(cur_dt, error, y)), ())
    }

    fn init_dt(&self) -> (r: F) {
        self.init
    }

    fn init_memory(&self) -> (r: ()) {
        ()
    }

    fn try_accept(&self, memory: &mut (), cur_dt: F, error: &F, y: &Vec<F>) -> (r: Result<F, F>) {
        let tol = tolerance_exec(self.atol, self.rtol, y);
        let e = exponent_exec(F::one(), self.order);
        Ok(cur_dt.mul(&tol.div(error).powf(&e)))
    }
}

/// Proportional-integral step-size control: the next step is
/// `dt * (tol / error)^(beta1 / (order + 1)) * (tol' / error')^(beta2 / (order + 1))`
/// where `tol' / error'` is the ratio of the step before; on the first step,
/// where there is none, it is `dt * (tol / error)^(1 / (order + 1))`.
/// It never rejects a step.
#[derive(Clone, Copy, Debug)]
pub struct ProportionalIntegralController<F> {
    pub init: F,
    pub atol: F,
    pub rtol: F,
    pub order: u32,
    pub beta1: F,
    pub beta2: F,
}

impl<F: Scalar> ProportionalIntegralController<F> {
    /// A controller with the gains `beta1 = 7/10` and `beta2 = -4/10`.
    pub fn new(init: F, atol: F, rtol: F, order: u32) -> (r: Self)
        ensures
            r.init == init,
            r.atol == atol,
            r.rtol == rtol,
            r.order == order,
            r.beta1 == F::spec_ratio(7i64, 10i64),
            r.beta2 == F::spec_ratio(-4i64, 10i64),
    {
        Self::with_gains(init, atol, rtol, order, F::ratio(7, 10), F::ratio(-4, 10))
    }

    pub fn with_gains(init: F, atol: F, rtol: F, order: u32, beta1: F, beta2: F) -> (r: Self)
        ensures
            r.init == init,
            r.atol == atol,
            r.rtol == rtol,
            r.order == order,
            r.beta1 == beta1,
            r.beta2 == beta2,
    {
        Self { init, atol, rtol, order, beta1, beta2 }
    }

    /// The step size proposed after a step of size `cur_dt` whose
    /// tolerance-to-error ratio is `ratio`, given the ratio of the step before.
    pub open spec fn spec_next_dt(&self, cur_dt: F, ratio: F, previous: Option<F>) -> F {
        match previous {
            None => cur_dt.spec_mul(ratio.spec_powf(exponent(F::spec_one(), self.order))),
            Some(p) => cur_dt.spec_mul(ratio.spec_powf(exponent(self.beta1, self.order))).spec_mul(
                p.spec_powf(exponent(self.beta2, self.order)),
            ),
        }
    }
}

impl<F: Scalar> AdaptiveStrategy<F, F> for ProportionalIntegralController<F> {
    /// The tolerance-to-error ratio of the last step, if any.
    type Memory = Option<F>;

    open spec fn spec_init_dt(&self) -> F {
        self.init
    }

    /// A state with at least one component, to take the largest of.
    open spec fn judges(&self, y: Seq<F>) -> bool {
        y.len() > 0
    }

    open spec fn spec_init_memory(&self) -> Option<F> {
        None
    }

    open spec fn spec_try_accept(&self, memory: Option<F>, cur_dt: F, error: F, y: Seq<F>) -> (
        Result<F, F>,
        Option<F>,
    ) {
        let ratio = tolerance(self.atol, self.rtol, y).spec_div(error);
        (Ok(self.spec_next_dt(cur_dt, ratio, memory)), Some(ratio))
    }

    fn init_dt(&self) -> (r: F) {
        self.init
    }

    fn init_memory(&self) -> (r: Option<F>) {
        None
    }

    fn try_accept(&self, memory: &mut Option<F>, cur_dt: F, error: &F, y: &Vec<F>) -> (r: Result<
        F,
        F,
    >) {
        let tol = tolerance_exec(self.atol, self.rtol, y);
        let ratio = tol.div(error);
        let new_dt = match *memory {
            None => cur_dt.mul(&ratio.powf(&exponent_exec(F::one(), self.order))),
            Some(p) => cur_dt.mul(&ratio.powf(&exponent_exec(self.beta1, self.order))).mul(
                &p.powf(&exponent_exec(self.beta2, self.order)),
            ),
        };
        *memory = Some(ratio);
        Ok(new_dt)
    }
}

} // verus!
