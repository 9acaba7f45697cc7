use ivp::adaptive_strategy::{
    AdaptiveStrategy, ConstantStep, IntegralController, ProportionalIntegralController,
};
use ivp::error::{Capability, SolveError};
use ivp::euler::Euler;
use ivp::integrator::{Integrator, TSpan};
use ivp::problem::OdeProblem;
use ivp::rosenbrock23::Rosenbrock23;
use ivp::scalar::Scalar;
use ivp::step_algorithm::StepAlgorithm;
use ivp::system::{identity_into, OdeSystem};
use ivp::tsit5::Tsit5;

#[derive(Clone, Copy, Debug, PartialEq, PartialOrd)]
struct R(f64);

impl Scalar for R {
    type Factor = nalgebra::LU<f64, nalgebra::Dyn, nalgebra::Dyn>;

    fn spec_zero() -> Self {
        R(0.0)
    }
    fn spec_one() -> Self {
        R(1.0)
    }
    fn spec_ratio(num: i64, den: i64) -> Self {
        R(num as f64 / den as f64)
    }
    fn spec_add(self, o: Self) -> Self {
        R(self.0 + o.0)
    }
    fn spec_sub(self, o: Self) -> Self {
        R(self.0 - o.0)
    }
    fn spec_mul(self, o: Self) -> Self {
        R(self.0 * o.0)
    }
    fn spec_div(self, o: Self) -> Self {
        R(self.0 / o.0)
    }
    fn spec_neg(self) -> Self {
        R(-self.0)
    }
    fn spec_abs(self) -> Self {
        R(self.0.abs())
    }
    fn spec_max(self, o: Self) -> Self {
        R(self.0.max(o.0))
    }
    fn spec_sqrt(self) -> Self {
        R(self.0.sqrt())
    }
    fn spec_powf(self, e: Self) -> Self {
        R(self.0.powf(e.0))
    }
    fn spec_lt(self, o: Self) -> bool {
        self.0 < o.0
    }
    fn spec_le(self, o: Self) -> bool {
        self.0 <= o.0
    }
    fn spec_factorize(m: Vec<Self>, n: usize) -> Self::Factor {
        let vals: Vec<f64> = m.iter().map(|x| x.0).collect();
        nalgebra::DMatrix::from_row_slice(n, n, &vals).lu()
    }
    fn spec_order(f: Self::Factor) -> usize {
        f.l().nrows()
    }
    fn spec_solve(f: Self::Factor, b: Vec<Self>) -> Option<Vec<Self>> {
        let mut v = nalgebra::DVector::from_iterator(b.len(), b.iter().map(|x| x.0));
        if f.solve_mut(&mut v) {
            Some(v.iter().map(|x| R(*x)).collect())
        } else {
            None
        }
    }
    fn zero() -> Self {
        R(0.0)
    }
    fn one() -> Self {
        R(1.0)
    }
    fn ratio(num: i64, den: i64) -> Self {
        R(num as f64 / den as f64)
    }
    fn add(&self, o: &Self) -> Self {
        R(self.0 + o.0)
    }
    fn sub(&self, o: &Self) -> Self {
        R(self.0 - o.0)
    }
    fn mul(&self, o: &Self) -> Self {
        R(self.0 * o.0)
    }
    fn div(&self, o: &Self) -> Self {
        R(self.0 / o.0)
    }
    fn neg(&self) -> Self {
        R(-self.0)
    }
    fn abs(&self) -> Self {
        R(self.0.abs())
    }
    fn max(&self, o: &Self) -> Self {
        R(self.0.max(o.0))
    }
    fn sqrt(&self) -> Self {
        R(self.0.sqrt())
    }
    fn powf(&self, e: &Self) -> Self {
        R(self.0.powf(e.0))
    }
    fn lt(&self, o: &Self) -> bool {
        self.0 < o.0
    }
    fn le(&self, o: &Self) -> bool {
        self.0 <= o.0
    }
    fn factorize(m: &Vec<Self>, n: usize) -> Self::Factor {
        Self::spec_factorize(m.clone(), n)
    }
    fn solve_in_place(f: &Self::Factor, b: &mut Vec<Self>) -> bool {
        match Self::spec_solve(f.clone(), b.clone()) {
            Some(x) => {
                *b = x;
                true
            }
            None => false,
        }
    }
}

fn rs(v: &[f64]) -> Vec<R> {
    v.iter().map(|x| R(*x)).collect()
}

/// dy/dt = -y, with its Jacobian.
struct Decay {
    jacobian: bool,
}

impl OdeSystem<R> for Decay {
    fn spec_dimension(&self) -> usize {
        self.dimension()
    }

    fn spec_labels(&self) -> Vec<String> {
        self.labels()
    }
    fn field_at(&self, y: Vec<R>, t: R, i: usize) -> R {
        let mut out = vec![R(0.0); y.len()];
        self.vfield(&mut out, &y, t);
        out[i]
    }
    fn dimension(&self) -> usize {
        1
    }
    fn labels(&self) -> Vec<String> {
        vec!["y".to_string()]
    }
    fn vfield(&self, out: &mut Vec<R>, y: &Vec<R>, _t: R) {
        out[0] = R(-y[0].0);
    }
    fn has_jacobian(&self) -> bool {
        self.jacobian
    }
    fn jacobian_at(&self, _y: Vec<R>, _t: R, _i: usize) -> R {
        R(-1.0)
    }
    fn mass_matrix(&self, out: &mut Vec<R>, n: usize) {
        identity_into(out, n);
    }
    fn jacobian(&self, out: &mut Vec<R>, _y: &Vec<R>, _t: R) -> bool {
        if self.jacobian {
            out[0] = R(-1.0);
        }
        self.jacobian
    }
}

/// A model whose implicit matrix is zero.
struct Degenerate;

impl OdeSystem<R> for Degenerate {
    fn spec_dimension(&self) -> usize {
        self.dimension()
    }

    fn spec_labels(&self) -> Vec<String> {
        self.labels()
    }
    fn field_at(&self, y: Vec<R>, t: R, i: usize) -> R {
        let mut out = vec![R(0.0); y.len()];
        self.vfield(&mut out, &y, t);
        out[i]
    }
    fn dimension(&self) -> usize {
        1
    }
    fn labels(&self) -> Vec<String> {
        vec!["y".to_string()]
    }
    fn vfield(&self, out: &mut Vec<R>, _y: &Vec<R>, _t: R) {
        out[0] = R(1.0);
    }
    fn mass_at(&self, _n: usize, _i: usize) -> R {
        R(0.0)
    }
    fn has_jacobian(&self) -> bool {
        true
    }
    fn jacobian_at(&self, _y: Vec<R>, _t: R, _i: usize) -> R {
        R(0.0)
    }
    fn mass_matrix(&self, out: &mut Vec<R>, _n: usize) {
        out[0] = R(0.0);
    }
    fn jacobian(&self, out: &mut Vec<R>, _y: &Vec<R>, _t: R) -> bool {
        out[0] = R(0.0);
        true
    }
}

struct LotkaVolterra {
    alpha: f64,
    beta: f64,
    gamma: f64,
    delta: f64,
}

impl OdeSystem<R> for LotkaVolterra {
    fn spec_dimension(&self) -> usize {
        self.dimension()
    }

    fn spec_labels(&self) -> Vec<String> {
        self.labels()
    }
    fn field_at(&self, y: Vec<R>, t: R, i: usize) -> R {
        let mut out = vec![R(0.0); y.len()];
        self.vfield(&mut out, &y, t);
        out[i]
    }
    fn dimension(&self) -> usize {
        2
    }
    fn labels(&self) -> Vec<String> {
        vec!["sheep".to_string(), "wolves".to_string()]
    }
    fn vfield(&self, out: &mut Vec<R>, y: &Vec<R>, _t: R) {
        let (x, y) = (y[0].0, y[1].0);
        out[0] = R(self.alpha * x - self.beta * x * y);
        out[1] = R(self.delta * x * y - self.gamma * y);
    }
    fn mass_matrix(&self, out: &mut Vec<R>, n: usize) {
        identity_into(out, n);
    }
    fn jacobian(&self, _out: &mut Vec<R>, _y: &Vec<R>, _t: R) -> bool {
        false
    }
}

struct Rober {
    k1: f64,
    k2: f64,
    k3: f64,
}

impl OdeSystem<R> for Rober {
    fn spec_dimension(&self) -> usize {
        self.dimension()
    }

    fn spec_labels(&self) -> Vec<String> {
        self.labels()
    }
    fn field_at(&self, y: Vec<R>, t: R, i: usize) -> R {
        let mut out = vec![R(0.0); y.len()];
        self.vfield(&mut out, &y, t);
        out[i]
    }
    fn dimension(&self) -> usize {
        3
    }
    fn labels(&self) -> Vec<String> {
        vec!["y1".to_string(), "y2".to_string(), "y3".to_string()]
    }
    fn vfield(&self, du: &mut Vec<R>, u: &Vec<R>, _t: R) {
        let (y1, y2, y3) = (u[0].0, u[1].0, u[2].0);
        du[0] = R(-self.k1 * y1 + self.k3 * y2 * y3);
        du[1] = R(self.k1 * y1 - self.k3 * y2 * y3 - self.k2 * y2 * y2);
        du[2] = R(y1 + y2 + y3 - 1.0);
    }
    fn mass_at(&self, _n: usize, i: usize) -> R {
        R(if i == 0 || i == 4 { 1.0 } else { 0.0 })
    }
    fn has_jacobian(&self) -> bool {
        true
    }
    fn jacobian_at(&self, y: Vec<R>, t: R, i: usize) -> R {
        let mut out = vec![R(0.0); 9];
        self.jacobian(&mut out, &y, t);
        out[i]
    }
    fn mass_matrix(&self, out: &mut Vec<R>, n: usize) {
        for (i, dst) in out.iter_mut().enumerate() {
            *dst = self.mass_at(n, i);
        }
    }
    fn jacobian(&self, out: &mut Vec<R>, u: &Vec<R>, _t: R) -> bool {
        let (y2, y3) = (u[1].0, u[2].0);
        let j = [
            -self.k1,
            self.k3 * y3,
            self.k3 * y2,
            self.k1,
            -self.k3 * y3 - 2.0 * self.k2 * y2,
            -self.k3 * y2,
            1.0,
            1.0,
            1.0,
        ];
        for (dst, v) in out.iter_mut().zip(j.iter()) {
            *dst = R(*v);
        }
        true
    }
}

fn decay_error<SA, AS>(sa: &SA, strategy: &AS) -> f64
where
    SA: StepAlgorithm<R, Decay>,
    AS: AdaptiveStrategy<R, SA::ErrorEstimate>,
{
    let prob = OdeProblem::new(Decay { jacobian: true }, rs(&[1.0]), TSpan::new(R(0.0), R(1.0)));
    let sol = prob.solve(sa, strategy).ok().unwrap();
    let t = sol.ts.last().unwrap().0;
    let y = sol.ys.last().unwrap()[0].0;
    (y - (-t).exp()).abs()
}

#[test]
fn constant_step_keeps_dt() {
    let c = ConstantStep(R(0.25));
    assert_eq!(AdaptiveStrategy::<R, ()>::init_dt(&c), R(0.25));
    let y = rs(&[3.0, -4.0]);
    for cur in [0.25, 0.5, 1e-9, 7.0] {
        let r = c.try_accept(&mut (), R(cur), &R(cur * 100.0), &y);
        assert_eq!(r, Ok(R(0.25)));
    }
}

#[test]
fn constant_step_integrator_keeps_dt() {
    let sys = Decay { jacobian: true };
    let strategy = ConstantStep(R(0.25));
    let mut it = Integrator::new(&sys, &Euler, &strategy, TSpan::new(R(0.0), R(1.0)), rs(&[1.0]));
    for k in 1..=5 {
        it.step().ok().unwrap();
        assert_eq!(it.dt, R(0.25));
        assert_eq!(it.ts[k], R(0.25 * k as f64));
    }
    assert_eq!(it.ts.len(), 6);
    assert_eq!(it.ys.len(), 6);
    assert_eq!(it.interpolants.len(), 5);
}

#[test]
fn euler_step_value() {
    let mut cache: Vec<R> = Vec::new();
    let mut y1 = rs(&[0.0]);
    let r = Euler.step(&mut cache, &Decay { jacobian: true }, &mut y1, &rs(&[1.0]), R(0.0), R(0.1));
    assert!(r.is_ok());
    assert_eq!(y1, rs(&[0.9]));
    assert_eq!(cache, rs(&[-1.0]));
}

#[test]
fn euler_endpoints() {
    let y0 = rs(&[1.0, -2.0]);
    let y1 = rs(&[0.5, 3.0]);
    assert_eq!(StepAlgorithm::<R, Decay>::interpolate(&Euler, &y0, &y1, &(), R(0.1), R(0.0)), y0);
    assert_eq!(StepAlgorithm::<R, Decay>::interpolate(&Euler, &y0, &y1, &(), R(0.1), R(1.0)), y1);
    assert_eq!(StepAlgorithm::<R, Decay>::interpolate(&Euler, &y0, &y1, &(), R(0.1), R(0.5)), rs(&[0.75, 0.5]));
}

#[test]
fn rosenbrock_endpoints() {
    let sys = Decay { jacobian: true };
    let mut cache = Rosenbrock23.init_cache(&sys);
    let y0 = rs(&[1.0]);
    let mut y1 = rs(&[0.0]);
    let (ks, err) = Rosenbrock23.step(&mut cache, &sys, &mut y1, &y0, R(0.0), R(0.1)).ok().unwrap();
    assert_eq!(ks.len(), 3);
    assert!(err.0 >= 0.0);
    assert!((y1[0].0 - (-0.1f64).exp()).abs() < 1e-3);
    assert_eq!(StepAlgorithm::<R, Decay>::interpolate(&Rosenbrock23, &y0, &y1, &ks, R(0.1), R(0.0)), y0);
    assert_eq!(StepAlgorithm::<R, Decay>::interpolate(&Rosenbrock23, &y0, &y1, &ks, R(0.1), R(1.0)), y1);
}

#[test]
fn tsit5_endpoints() {
    let sys = LotkaVolterra { alpha: 1.5, beta: 1.0, gamma: 3.0, delta: 1.0 };
    let mut cache = Tsit5.init_cache(&sys);
    let y0 = rs(&[1.0, 1.0]);
    let mut y1 = rs(&[0.0, 0.0]);
    let (ks, _err) = Tsit5.step(&mut cache, &sys, &mut y1, &y0, R(0.0), R(0.1)).ok().unwrap();
    assert_eq!(StepAlgorithm::<R, LotkaVolterra>::interpolate(&Tsit5, &y0, &y1, &ks, R(0.1), R(0.0)), y0);
    let end = StepAlgorithm::<R, LotkaVolterra>::interpolate(&Tsit5, &y0, &y1, &ks, R(0.1), R(1.0));
    for i in 0..2 {
        assert!((end[i].0 - y1[i].0).abs() < 1e-12);
    }
}

#[test]
fn tsit5_tableau_rows_sum_to_nodes() {
    let cache = StepAlgorithm::<R, Decay>::init_cache(&Tsit5, &Decay { jacobian: true });
    for s in 0..7 {
        let sum: f64 = cache.a[s].iter().map(|x| x.0).sum();
        assert!((sum - cache.c[s].0).abs() < 1e-12, "row {s}");
        for j in s..7 {
            assert_eq!(cache.a[s][j], R(0.0));
        }
    }
    let bt: f64 = cache.btilde.iter().map(|x| x.0).sum();
    assert!(bt.abs() < 1e-12);
}

#[test]
fn euler_is_first_order() {
    let e1 = decay_error(&Euler, &ConstantStep(R(0.1)));
    let e2 = decay_error(&Euler, &ConstantStep(R(0.05)));
    let e3 = decay_error(&Euler, &ConstantStep(R(0.025)));
    let (r1, r2) = (e1 / e2, e2 / e3);
    assert!(r1 > 1.8 && r1 < 2.2, "{r1}");
    assert!(r2 > 1.8 && r2 < 2.2, "{r2}");
}

#[test]
fn tsit5_is_fifth_order() {
    let e1 = decay_error(&Tsit5, &ConstantStep(R(0.2)));
    let e2 = decay_error(&Tsit5, &ConstantStep(R(0.1)));
    let e3 = decay_error(&Tsit5, &ConstantStep(R(0.05)));
    let (r1, r2) = (e1 / e2, e2 / e3);
    assert!(r1 > 20.0 && r1 < 64.0, "{r1} {e1} {e2}");
    assert!(r2 > 20.0 && r2 < 64.0, "{r2} {e2} {e3}");
}

#[test]
fn rober_conserves_mass() {
    let prob = OdeProblem::new(
        Rober { k1: 0.04, k2: 3e7, k3: 1e4 },
        rs(&[1.0, 0.0, 0.0]),
        TSpan::new(R(1e-5), R(1e5)),
    );
    let strategy = IntegralController::new(R(1e-8), R(1e-10), R(1e-6), 2);
    let sol = match prob.solve(&Rosenbrock23, &strategy) {
        Ok(sol) => sol,
        Err(e) => panic!("{e:?}"),
    };
    assert!(sol.ts.len() > 2);
    for y in sol.ys.iter() {
        let s = y[0].0 + y[1].0 + y[2].0;
        assert!((s - 1.0).abs() < 1e-6, "{s}");
    }
}

#[test]
fn lotka_volterra_stays_positive() {
    let prob = OdeProblem::new(
        LotkaVolterra { alpha: 1.5, beta: 1.0, gamma: 3.0, delta: 1.0 },
        rs(&[1.0, 1.0]),
        TSpan::new(R(0.0), R(10.0)),
    );
    let strategy = IntegralController::new(R(0.01), R(1e-6), R(1e-6), 4);
    let sol = prob.solve(&Tsit5, &strategy).ok().unwrap();
    assert!(sol.ts.len() > 2);
    for y in sol.ys.iter() {
        for v in y.iter() {
            assert!(v.0.is_finite() && v.0 > 0.0);
        }
    }
    for k in 0..=100 {
        let y = sol.solution_at(R(k as f64 * 0.1));
        assert!(y[0].0.is_finite() && y[0].0 > 0.0 && y[1].0.is_finite() && y[1].0 > 0.0);
    }
}

#[test]
fn boundary_queries_clamp() {
    let prob = OdeProblem::new(
        LotkaVolterra { alpha: 1.5, beta: 1.0, gamma: 3.0, delta: 1.0 },
        rs(&[1.0, 1.0]),
        TSpan::new(R(0.0), R(10.0)),
    );
    let strategy = IntegralController::new(R(0.1), R(1e-3), R(1e-6), 4);
    let sol = prob.solve(&Tsit5, &strategy).ok().unwrap();
    let last = sol.ys.last().unwrap().clone();
    assert_eq!(sol.solution_at(R(0.0)), rs(&[1.0, 1.0]));
    assert_eq!(sol.solution_at(R(-3.0)), rs(&[1.0, 1.0]));
    assert_eq!(sol.solution_at(R(10.0)), last);
    assert_eq!(sol.solution_at(R(25.0)), last);
    assert!(sol.ts.last().unwrap().0 >= 10.0);
}

#[test]
fn solution_at_interpolates_inside_a_step() {
    let prob = OdeProblem::new(Decay { jacobian: true }, rs(&[1.0]), TSpan::new(R(0.0), R(1.0)));
    let sol = prob.solve(&Euler, &ConstantStep(R(0.5))).ok().unwrap();
    assert_eq!(sol.ts, rs(&[0.0, 0.5, 1.0]));
    assert_eq!(sol.ys[1], rs(&[0.5]));
    assert_eq!(sol.ys[2], rs(&[0.25]));
    assert_eq!(sol.solution_at(R(0.25)), rs(&[0.75]));
    assert_eq!(sol.solution_at(R(0.75)), rs(&[0.375]));
    assert_eq!(sol.solution_at(R(0.5)), rs(&[0.5]));
}

#[test]
fn integral_controller_keeps_dt_at_tolerance() {
    let c = IntegralController::new(R(0.1), R(0.5), R(0.25), 4);
    let y = rs(&[-2.0, 1.0]);
    assert_eq!(c.try_accept(&mut (), R(0.3), &R(1.0), &y), Ok(R(0.3)));
    let pi = ProportionalIntegralController::new(R(0.1), R(0.5), R(0.25), 4);
    let mut memory = pi.init_memory();
    assert_eq!(pi.try_accept(&mut memory, R(0.3), &R(1.0), &y), Ok(R(0.3)));
    assert_eq!(memory, Some(R(1.0)));
}

#[test]
fn integral_controller_formula() {
    let c = IntegralController::new(R(0.1), R(1.0), R(0.0), 4);
    assert_eq!(AdaptiveStrategy::<R, R>::init_dt(&c), R(0.1));
    // (1 / (1/32))^(1/5) = 2
    let r = c.try_accept(&mut (), R(0.3), &R(1.0 / 32.0), &rs(&[5.0])).unwrap();
    assert!((r.0 - 0.6).abs() < 1e-12);
    // tol = 0.5 + 0.5 * max |y| = 2.5, error 2.5 * 1024 => factor 1/4 at order 4
    let c = IntegralController::new(R(0.1), R(0.5), R(0.5), 4);
    let r = c.try_accept(&mut (), R(1.0), &R(2.5 * 1024.0), &rs(&[1.0, -4.0, 3.0])).unwrap();
    assert!((r.0 - 0.25).abs() < 1e-12);
}

#[test]
fn pi_controller_uses_previous_ratio() {
    let pi = ProportionalIntegralController::with_gains(R(0.1), R(1.0), R(0.0), 1, R(1.0), R(1.0));
    let y = rs(&[0.0]);
    let mut memory = pi.init_memory();
    // first step: dt * (1 / 0.25)^(1/2) = 2 dt
    let r1 = pi.try_accept(&mut memory, R(1.0), &R(0.25), &y).unwrap();
    assert!((r1.0 - 2.0).abs() < 1e-12);
    // then: dt * (1/(1/16))^(1/2) * 4^(1/2) = dt * 4 * 2
    let r2 = pi.try_accept(&mut memory, R(1.0), &R(1.0 / 16.0), &y).unwrap();
    assert!((r2.0 - 8.0).abs() < 1e-12);
    assert_eq!(memory, Some(R(16.0)));
}

#[test]
fn missing_jacobian_is_reported() {
    let prob = OdeProblem::new(Decay { jacobian: false }, rs(&[1.0]), TSpan::new(R(0.0), R(1.0)));
    let strategy = IntegralController::new(R(0.1), R(1e-6), R(1e-3), 2);
    let r = prob.solve(&Rosenbrock23, &strategy);
    assert!(matches!(
        r.err(),
        Some(SolveError::MissingCapability { capability: Capability::Jacobian })
    ));
}

#[test]
fn singular_system_is_reported() {
    let prob = OdeProblem::new(Degenerate, rs(&[1.0]), TSpan::new(R(0.0), R(1.0)));
    let strategy = IntegralController::new(R(0.1), R(1e-6), R(1e-3), 2);
    let r = prob.solve(&Rosenbrock23, &strategy);
    match r.err() {
        Some(SolveError::SingularSystem { t, dt, step, solve }) => {
            assert_eq!((t, dt, step, solve), (R(0.0), R(0.1), 0, 1));
        }
        _ => panic!("expected a singular system"),
    }
}

#[test]
fn zero_step_is_reported() {
    let prob = OdeProblem::new(Decay { jacobian: true }, rs(&[1.0]), TSpan::new(R(0.0), R(1.0)));
    let strategy = ConstantStep(R(0.0));
    match prob.solve(&Euler, &strategy).err() {
        Some(SolveError::StepTooSmall { t, dt }) => assert_eq!((t, dt), (R(0.0), R(0.0))),
        _ => panic!("expected a step that does not advance"),
    }
}

#[test]
fn default_mass_matrix_is_identity() {
    let sys = LotkaVolterra { alpha: 1.5, beta: 1.0, gamma: 3.0, delta: 1.0 };
    let mut m = rs(&[7.0; 4]);
    sys.mass_matrix(&mut m, 2);
    assert_eq!(m, rs(&[1.0, 0.0, 0.0, 1.0]));
    let mut j = rs(&[5.0; 4]);
    assert!(!sys.jacobian(&mut j, &rs(&[1.0, 1.0]), R(0.0)));
    assert_eq!(j, rs(&[5.0; 4]));
}

#[test]
fn model_without_jacobian_fails_rosenbrock_first_step() {
    let sys = LotkaVolterra { alpha: 1.5, beta: 1.0, gamma: 3.0, delta: 1.0 };
    let strategy = IntegralController::new(R(0.1), R(1e-6), R(1e-3), 2);
    let mut it = Integrator::new(&sys, &Rosenbrock23, &strategy, TSpan::new(R(0.0), R(1.0)), rs(&[1.0, 1.0]));
    let r = it.step();
    assert!(matches!(
        r,
        Err(SolveError::MissingCapability { capability: Capability::Jacobian })
    ));
    assert_eq!(it.ts, rs(&[0.0]));
    assert_eq!(it.ys.len(), 1);
}

/// dy/dt = t^4, whose solution Tsit5 reproduces up to rounding.
struct Quartic;

impl OdeSystem<R> for Quartic {
    fn spec_dimension(&self) -> usize {
        self.dimension()
    }

    fn spec_labels(&self) -> Vec<String> {
        self.labels()
    }
    fn field_at(&self, y: Vec<R>, t: R, i: usize) -> R {
        let mut out = vec![R(0.0); y.len()];
        self.vfield(&mut out, &y, t);
        out[i]
    }
    fn dimension(&self) -> usize {
        1
    }
    fn labels(&self) -> Vec<String> {
        vec!["y".to_string()]
    }
    fn vfield(&self, out: &mut Vec<R>, _y: &Vec<R>, t: R) {
        out[0] = R(t.0.powi(4));
    }
    fn mass_matrix(&self, out: &mut Vec<R>, n: usize) {
        identity_into(out, n);
    }
    fn jacobian(&self, _out: &mut Vec<R>, _y: &Vec<R>, _t: R) -> bool {
        false
    }
}

#[test]
fn tsit5_integrates_quartic_exactly() {
    let mut cache = Tsit5.init_cache(&Quartic);
    let y0 = rs(&[2.0]);
    let mut y1 = rs(&[0.0]);
    let (t, dt) = (0.5f64, 0.25f64);
    let (ks, err) = Tsit5.step(&mut cache, &Quartic, &mut y1, &y0, R(t), R(dt)).ok().unwrap();
    let exact = 2.0 + ((t + dt).powi(5) - t.powi(5)) / 5.0;
    assert!((y1[0].0 - exact).abs() < 1e-14, "{} {}", y1[0].0, exact);
    assert!(err.0 < 1e-5);
    assert_eq!(ks.len(), 7);
    let mid = StepAlgorithm::<R, Quartic>::interpolate(&Tsit5, &y0, &y1, &ks, R(dt), R(0.5));
    let exact_mid = 2.0 + ((t + dt / 2.0).powi(5) - t.powi(5)) / 5.0;
    assert!((mid[0].0 - exact_mid).abs() < 1e-6);
}

/// dy/dt = c, a constant field, with a zero Jacobian.
struct Constant;

impl OdeSystem<R> for Constant {
    fn spec_dimension(&self) -> usize {
        self.dimension()
    }

    fn spec_labels(&self) -> Vec<String> {
        self.labels()
    }
    fn field_at(&self, _y: Vec<R>, _t: R, i: usize) -> R {
        R([2.0, -3.0][i])
    }
    fn has_jacobian(&self) -> bool {
        true
    }
    fn jacobian_at(&self, _y: Vec<R>, _t: R, _i: usize) -> R {
        R(0.0)
    }
    fn dimension(&self) -> usize {
        2
    }
    fn labels(&self) -> Vec<String> {
        vec!["a".to_string(), "b".to_string()]
    }
    fn vfield(&self, out: &mut Vec<R>, _y: &Vec<R>, _t: R) {
        out[0] = R(2.0);
        out[1] = R(-3.0);
    }
    fn mass_matrix(&self, out: &mut Vec<R>, n: usize) {
        identity_into(out, n);
    }
    fn jacobian(&self, out: &mut Vec<R>, _y: &Vec<R>, _t: R) -> bool {
        for v in out.iter_mut() {
            *v = R(0.0);
        }
        true
    }
}

#[test]
fn euler_step_of_predator_prey() {
    let sys = LotkaVolterra { alpha: 1.5, beta: 1.0, gamma: 3.0, delta: 1.0 };
    let mut cache = Euler.init_cache(&sys);
    let mut y1 = rs(&[0.0, 0.0]);
    assert!(Euler.step(&mut cache, &sys, &mut y1, &rs(&[1.0, 1.0]), R(0.0), R(0.5)).is_ok());
    assert_eq!(cache, rs(&[0.5, -2.0]));
    assert_eq!(y1, rs(&[1.25, 0.0]));
}

#[test]
fn tsit5_constant_field() {
    let mut cache = Tsit5.init_cache(&Constant);
    let y0 = rs(&[1.0, 1.0]);
    let mut y1 = rs(&[0.0, 0.0]);
    let (ks, err) = Tsit5.step(&mut cache, &Constant, &mut y1, &y0, R(0.0), R(0.5)).ok().unwrap();
    for k in ks.iter() {
        assert_eq!(*k, rs(&[2.0, -3.0]));
    }
    assert!((y1[0].0 - 2.0).abs() < 1e-14 && (y1[1].0 + 0.5).abs() < 1e-14);
    assert!(err.0 < 1e-14);
}

#[test]
fn rosenbrock_constant_field() {
    let mut cache = Rosenbrock23.init_cache(&Constant);
    assert_eq!(cache.mass_matrix, rs(&[1.0, 0.0, 0.0, 1.0]));
    assert_eq!(cache.f0.len(), 2);
    let y0 = rs(&[1.0, 1.0]);
    let mut y1 = rs(&[0.0, 0.0]);
    let (ks, err) = Rosenbrock23.step(&mut cache, &Constant, &mut y1, &y0, R(0.0), R(0.5)).ok().unwrap();
    for k in ks.iter() {
        assert!((k[0].0 - 2.0).abs() < 1e-12 && (k[1].0 + 3.0).abs() < 1e-12);
    }
    assert!((y1[0].0 - 2.0).abs() < 1e-12 && (y1[1].0 + 0.5).abs() < 1e-12);
    assert!(err.0 < 1e-12);
}


#[test]
fn empty_span_records_only_the_start() {
    let prob = OdeProblem::new(Decay { jacobian: true }, rs(&[1.0]), TSpan::new(R(1.0), R(1.0)));
    let strategy = ConstantStep(R(0.1));
    let sol = prob.solve(&Euler, &strategy).ok().unwrap();
    assert_eq!(sol.ts, rs(&[1.0]));
    assert_eq!(sol.ys, vec![rs(&[1.0])]);
    assert_eq!(sol.labels, vec!["y".to_string()]);
}

#[test]
fn retries_are_not_needed_by_constant_step() {
    let sys = Decay { jacobian: true };
    let strategy = ConstantStep(R(0.125));
    let mut it = Integrator::new(&sys, &Tsit5, &strategy, TSpan::new(R(0.0), R(1.0)), rs(&[1.0]));
    for _ in 0..8 {
        it.step().ok().unwrap();
    }
    for j in 0..8 {
        assert_eq!(it.ts[j + 1], R(it.ts[j].0 + 0.125));
    }
}

#[test]
fn constant_step_judges_any_state() {
    let c = ConstantStep(R(0.5));
    let empty: Vec<R> = Vec::new();
    assert_eq!(c.try_accept(&mut (), R(3.0), &(), &empty), Ok(R(0.5)));
}

#[test]
fn rosenbrock_cache_holds_model_mass_matrix() {
    let sys = Rober { k1: 0.04, k2: 3e7, k3: 1e4 };
    let cache = Rosenbrock23.init_cache(&sys);
    assert_eq!(cache.mass_matrix, rs(&[1.0, 0.0, 0.0, 0.0, 1.0, 0.0, 0.0, 0.0, 0.0]));
    assert_eq!(cache.f0, rs(&[0.0; 3]));
    assert_eq!(cache.f1, rs(&[0.0; 3]));
    assert_eq!(cache.f2, rs(&[0.0; 3]));
    assert!((cache.e32.0 - (6.0 + 2f64.sqrt())).abs() < 1e-15);
    assert!((cache.d.0 - 1.0 / (2.0 + 2f64.sqrt())).abs() < 1e-15);
}
