use vstd::prelude::*;

use crate::error::{Capability, SolveError};
use crate::scalar::{copy_into, solved, zeros, Scalar};
use crate::step_algorithm::{blend, blend_exec, euler_update, norm, norm_exec, StepAlgorithm};
use crate::system::{is_field, OdeSystem};

verus! {

/// A linearly implicit Rosenbrock method of orders 2 and 3 for stiff
/// systems. It needs the model's Jacobian and mass matrix, factorizes one
/// matrix per step and solves three systems against it.
#[derive(Clone, Copy, Debug)]
pub struct Rosenbrock23;

/// Constants of the method and scratch space of one step.
pub struct Rosenbrock23Cache<F> {
    pub e32: F,
    pub d: F,
    /// The mass matrix, row by row.
    pub mass_matrix: Vec<F>,
    pub f0: Vec<F>,
    pub f1: Vec<F>,
    pub f2: Vec<F>,
}

/// `6 + sqrt(2)`.
pub open spec fn spec_e32<F: Scalar>() -> F {
    F::spec_ratio(6, 1).spec_add(F::spec_ratio(2, 1).spec_sqrt())
}

/// `1 / (2 + sqrt(2))`.
pub open spec fn spec_d<F: Scalar>() -> F {
    F::spec_one().spec_div(F::spec_ratio(2, 1).spec_add(F::spec_ratio(2, 1).spec_sqrt()))
}

/// `(k1 - 2 k2 + k3) * (dt / 6)`, component by component.
pub open spec fn error_vector<F: Scalar>(dt: F, k1: Seq<F>, k2: Seq<F>, k3: Seq<F>) -> Seq<F> {
    Seq::new(
        k1.len(),
        |i: int|
            k1[i].spec_sub(k2[i].spec_mul(F::spec_ratio(2, 1))).spec_add(k3[i]).spec_mul(
                dt.spec_div(F::spec_ratio(6, 1)),
            ),
    )
}

/// `m[i][0] * v[0] + ... + m[i][cols - 1] * v[cols - 1]` for a matrix stored
/// row by row with `n` columns, summed from zero.
pub open spec fn row_dot<F: Scalar>(m: Seq<F>, n: int, v: Seq<F>, i: int, cols: int) -> F
    decreases cols,
{
    if cols <= 0 {
        F::spec_zero()
    } else {
        row_dot(m, n, v, i, cols - 1).spec_add(m[i * n + cols - 1].spec_mul(v[cols - 1]))
    }
}

proof fn lemma_index(i: int, j: int, n: int)
    requires
        0 <= i < n,
        0 <= j < n,
    ensures
        0 <= i * n + j < n * n,
{
    assert(0 <= i * n + j < n * n) by (nonlinear_arith)
        requires
            0 <= i < n,
            0 <= j < n,
    ;
}

fn row_dot_exec<F: Scalar>(m: &Vec<F>, n: usize, v: &Vec<F>, i: usize) -> (r: F)
    requires
        m@.len() == n * n,
        n * n <= usize::MAX,
        v@.len() == n,
        i < n,
    ensures
        r == row_dot(m@, n as int, v@, i as int, n as int),
{
    let mut acc = F::zero();
    let mut j: usize = 0;
    while j < n
        invariant
            j <= n,
            i < n,
            m@.len() == n * n,
            n * n <= usize::MAX,
            v@.len() == n,
            acc == row_dot(m@, n as int, v@, i as int, j as int),
        decreases n - j,
    {
        proof {
            lemma_index(i as int, j as int, n as int);
        }
        acc = acc.add(&m[i * n + j].mul(&v[j]));
        j += 1;
    }
    acc
}

/// `-1 / (dt d)`.
pub open spec fn neg_inv<F: Scalar>(dt: F, d: F) -> F {
    F::spec_one().spec_div(dt.spec_mul(d)).spec_neg()
}

/// `dt / 2`.
pub open spec fn half<F: Scalar>(dt: F) -> F {
    dt.spec_div(F::spec_ratio(2, 1))
}

/// The matrix factorized in a step: `J(y0, t) + M * c` with `c = -1 / (dt d)`,
/// row by row.
pub open spec fn w_matrix<F: Scalar, S: OdeSystem<F>>(sys: &S, y0: Vec<F>, t: F, n: usize, c: F) -> Seq<F> {
    Seq::new(
        (n * n) as nat,
        |i: int| sys.jacobian_at(y0, t, i as usize).spec_add(sys.mass_at(n, i as usize).spec_mul(c)),
    )
}

/// `x * c`, component by component.
pub open spec fn scaled<F: Scalar>(x: Seq<F>, c: F) -> Seq<F> {
    Seq::new(x.len(), |i: int| x[i].spec_mul(c))
}

/// `f1 - M k1`.
pub open spec fn rhs2<F: Scalar>(f1: Seq<F>, m: Seq<F>, k1: Seq<F>) -> Seq<F> {
    Seq::new(f1.len(), |i: int| f1[i].spec_sub(row_dot(m, f1.len() as int, k1, i, f1.len() as int)))
}

/// `k1 + x * c`.
pub open spec fn k2_of<F: Scalar>(k1: Seq<F>, x: Seq<F>, c: F) -> Seq<F> {
    Seq::new(k1.len(), |i: int| k1[i].spec_add(x[i].spec_mul(c)))
}

/// `e32 k2 + 2 k1`.
pub open spec fn combo<F: Scalar>(k1: Seq<F>, k2: Seq<F>, e32: F) -> Seq<F> {
    Seq::new(k1.len(), |i: int| e32.spec_mul(k2[i]).spec_add(F::spec_ratio(2, 1).spec_mul(k1[i])))
}

/// `f2 - M (e32 k2 + 2 k1) + e32 f1 + 2 f0`; with `M` the identity this is
/// `f2 - e32 (k2 - f1) - 2 (k1 - f0)` rearranged.
pub open spec fn rhs3<F: Scalar>(
    m: Seq<F>,
    f0: Seq<F>,
    f1: Seq<F>,
    f2: Seq<F>,
    k1: Seq<F>,
    k2: Seq<F>,
    e32: F,
) -> Seq<F> {
    Seq::new(
        f2.len(),
        |i: int|
            f2[i].spec_sub(row_dot(m, f2.len() as int, combo(k1, k2, e32), i, f2.len() as int)).spec_add(
                e32.spec_mul(f1[i]),
            ).spec_add(F::spec_ratio(2, 1).spec_mul(f0[i])),
    )
}

/// What a step reads before its first solve: f(y0, t) in `f0` and the mass
/// matrix.
pub open spec fn loaded<F: Scalar, S: OdeSystem<F>>(
    sys: &S,
    cache: &Rosenbrock23Cache<F>,
    y0: Vec<F>,
    t: F,
) -> bool {
    let n = y0@.len();
    &&& cache.f0@.len() == n
    &&& forall|i: int| 0 <= i < n ==> cache.f0@[i] == sys.field_at(y0, t, i as usize)
    &&& cache.mass_matrix@.len() == n * n
    &&& forall|i: int|
        0 <= i < n * n ==> cache.mass_matrix@[i] == sys.mass_at(n as usize, i as usize)
}

/// `k1 = -(1 / (dt d)) W^-1 f0`.
pub open spec fn stage1<F: Scalar>(w: Seq<F>, n: usize, c: F, f0: Seq<F>, k1: Seq<F>) -> bool {
    exists|x: Seq<F>| #[trigger] solved(w, n, f0, Some(x)) && k1 == scaled(x, c)
}

/// `f1 = f(y0 + dt/2 k1, t + dt/2)` and
/// `k2 = k1 - (1 / (dt d)) W^-1 (f1 - M k1)`.
pub open spec fn stage2<F: Scalar, S: OdeSystem<F>>(
    sys: &S,
    y0: Seq<F>,
    t: F,
    dt: F,
    w: Seq<F>,
    n: usize,
    c: F,
    m: Seq<F>,
    f1: Seq<F>,
    k1: Seq<F>,
    k2: Seq<F>,
) -> bool {
    &&& is_field(sys, euler_update(y0, half(dt), k1), t.spec_add(half(dt)), f1)
    &&& exists|x: Seq<F>| #[trigger] solved(w, n, rhs2(f1, m, k1), Some(x)) && k2 == k2_of(k1, x, c)
}

/// `f2 = f(y0 + dt k2, t + dt)` and
/// `k3 = -(1 / (dt d)) W^-1 (f2 - M (e32 k2 + 2 k1) + e32 f1 + 2 f0)`.
pub open spec fn stage3<F: Scalar, S: OdeSystem<F>>(
    sys: &S,
    y0: Seq<F>,
    t: F,
    dt: F,
    w: Seq<F>,
    n: usize,
    c: F,
    e32: F,
    m: Seq<F>,
    f0: Seq<F>,
    f1: Seq<F>,
    f2: Seq<F>,
    k1: Seq<F>,
    k2: Seq<F>,
    k3: Seq<F>,
) -> bool {
    &&& is_field(sys, euler_update(y0, dt, k2), t.spec_add(dt), f2)
    &&& exists|x: Seq<F>|
        #[trigger] solved(w, n, rhs3(m, f0, f1, f2, k1, k2, e32), Some(x)) && k3 == scaled(x, c)
}

/// The `solve`-th linear solve of a step met a singular matrix, the ones
/// before it having succeeded.
pub open spec fn singular_solve<F: Scalar, S: OdeSystem<F>>(
    sys: &S,
    cache: &Rosenbrock23Cache<F>,
    y0: Vec<F>,
    t: F,
    dt: F,
    solve: usize,
) -> bool {
    let n = y0@.len() as usize;
    let c = neg_inv(dt, cache.d);
    let w = w_matrix(sys, y0, t, n, c);
    if solve == 1 {
        solved(w, n, cache.f0@, None)
    } else if solve == 2 {
        exists|k1: Seq<F>|
            #[trigger] stage1(w, n, c, cache.f0@, k1) && is_field(
                sys,
                euler_update(y0@, half(dt), k1),
                t.spec_add(half(dt)),
                cache.f1@,
            ) && solved(w, n, rhs2(cache.f1@, cache.mass_matrix@, k1), None)
    } else if solve == 3 {
        exists|k1: Seq<F>, k2: Seq<F>|
            #[trigger] stage2(sys, y0@, t, dt, w, n, c, cache.mass_matrix@, cache.f1@, k1, k2) && stage1(w, n, c, cache.f0@, k1)
                && is_field(sys, euler_update(y0@, dt, k2), t.spec_add(dt), cache.f2@) && solved(
                w,
                n,
                rhs3(cache.mass_matrix@, cache.f0@, cache.f1@, cache.f2@, k1, k2, cache.e32),
                None,
            )
    } else {
        false
    }
}

impl<F: Scalar, S: OdeSystem<F>> StepAlgorithm<F, S> for Rosenbrock23 {
    type Cache = Rosenbrock23Cache<F>;

    /// The three stages `k1`, `k2`, `k3` of the step.
    type Interpolant = Vec<Vec<F>>;

    /// The Euclidean norm of `(k1 - 2 k2 + k3) * dt / 6`.
    type ErrorEstimate = F;

    open spec fn cache_ok(&self, cache: &Rosenbrock23Cache<F>) -> bool {
        &&& cache.e32 == spec_e32::<F>()
        &&& cache.d == spec_d::<F>()
    }

    open spec fn interpolant_ok(&self, interpolant: &Vec<Vec<F>>, n: nat) -> bool {
        &&& interpolant@.len() == 3
        &&& forall|s: int| 0 <= s < 3 ==> (#[trigger] interpolant@[s])@.len() == n
    }

    /// A missing Jacobian fails the step; otherwise `W` is factorized once
    /// and the three stages solved against it, the first singular solve
    /// failing the step; `y1 = y0 + dt k2`.
    open spec fn spec_step(
        &self,
        sys: &S,
        cache: &Rosenbrock23Cache<F>,
        y0: Vec<F>,
        t: F,
        dt: F,
        y1: Seq<F>,
        r: Result<(Vec<Vec<F>>, F), SolveError<F, F>>,
    ) -> bool {
        let n = y0@.len() as usize;
        let c = neg_inv(dt, cache.d);
        let w = w_matrix(sys, y0, t, n, c);
        let m = cache.mass_matrix@;
        let (f0, f1, f2) = (cache.f0@, cache.f1@, cache.f2@);
        match r {
            Ok(out) => {
                let ks = out.0@;
                &&& sys.has_jacobian()
                &&& loaded(sys, cache, y0, t)
                &&& ks.len() == 3
                &&& stage1(w, n, c, f0, ks[0]@)
                &&& stage2(sys, y0@, t, dt, w, n, c, m, f1, ks[0]@, ks[1]@)
                &&& stage3(sys, y0@, t, dt, w, n, c, cache.e32, m, f0, f1, f2, ks[0]@, ks[1]@, ks[2]@)
                &&& y1 == euler_update(y0@, dt, ks[1]@)
                &&& out.1 == norm(error_vector(dt, ks[0]@, ks[1]@, ks[2]@))
            },
            Err(SolveError::MissingCapability { capability }) => {
                &&& !sys.has_jacobian()
                &&& capability == Capability::Jacobian
            },
            Err(SolveError::SingularSystem { t: at, dt: size, step, solve }) => {
                &&& sys.has_jacobian()
                &&& loaded(sys, cache, y0, t)
                &&& at == t
                &&& size == dt
                &&& singular_solve(sys, cache, y0, t, dt, solve)
            },
            Err(_) => false,
        }
    }

    open spec fn spec_interpolate(
        &self,
        y0: Seq<F>,
        y1: Seq<F>,
        interpolant: &Vec<Vec<F>>,
        dt: F,
        s: F,
    ) -> Seq<F> {
        blend(y0, y1, s)
    }

    /// The constants, the mass matrix and the scratch vectors for the
    /// model's dimension.
    fn init_cache(&self, sys: &S) -> (r: Rosenbrock23Cache<F>)
        ensures
            ({
                let n = sys.spec_dimension();
                &&& n * n <= usize::MAX ==> r.mass_matrix@ == Seq::new(
                    (n * n) as nat,
                    |i: int| sys.mass_at(n, i as usize),
                )
                &&& r.f0@ == Seq::new(n as nat, |i: int| F::spec_zero())
                &&& r.f1@ == Seq::new(n as nat, |i: int| F::spec_zero())
                &&& r.f2@ == Seq::new(n as nat, |i: int| F::spec_zero())
            }),
    {
        let two = F::ratio(2, 1);
        let sqrt2 = two.sqrt();
        let n = sys.dimension();
        let mut mass_matrix: Vec<F> = Vec::new();
        match n.checked_mul(n) {
            Some(nn) => {
                mass_matrix = zeros(nn);
                sys.mass_matrix(&mut mass_matrix, n);
                assert(mass_matrix@ =~= Seq::new(nn as nat, |i: int| sys.mass_at(n, i as usize)));
            },
            None => {},
        }
        Rosenbrock23Cache {
            e32: F::ratio(6, 1).add(&sqrt2),
            d: F::one().div(&two.add(&sqrt2)),
            mass_matrix,
            f0: zeros(n),
            f1: zeros(n),
            f2: zeros(n),
        }
    }

    fn interpolate(
        &self,
        y0: &Vec<F>,
        y1: &Vec<F>,
        interpolant: &Vec<Vec<F>>,
        dt: F,
        s: F,
    ) -> (r: Vec<F>) {
        blend_exec(y0, y1, s)
    }

    fn step(
        &self,
        cache: &mut Rosenbrock23Cache<F>,
        system: &S,
        y1: &mut Vec<F>,
        y0: &Vec<F>,
        t: F,
        dt: F,
    ) -> (r: Result<(Vec<Vec<F>>, F), SolveError<F, F>>)
        ensures
            r matches Err(SolveError::MissingCapability { .. }) ==> {
                &&& *final(cache) == *old(cache)
                &&& final(y1)@ == old(y1)@
            },
    {
        let n = y0.len();
        let nn = n * n;
        let mut w: Vec<F> = zeros(nn);
        if !system.jacobian(&mut w, y0, t) {
            return Err(SolveError::MissingCapability { capability: Capability::Jacobian });
        }
        if cache.mass_matrix.len() != nn {
            cache.mass_matrix = zeros(nn);
        }
        // The mass matrix for the size of this state.
        system.mass_matrix(&mut cache.mass_matrix, n);
        if cache.f0.len() != n {
            cache.f0 = zeros(n);
        }
        if cache.f1.len() != n {
            cache.f1 = zeros(n);
        }
        if cache.f2.len() != n {
            cache.f2 = zeros(n);
        }
        let dto2 = dt.div(&F::ratio(2, 1));
        let dtd = dt.mul(&cache.d);
        let neginvdtd = F::one().div(&dtd).neg();
        let ghost c = neg_inv(dt, cache.d);
        assert(n == y0@.len() as usize);
        let ghost wm = w_matrix(system, *y0, t, n, c);
        let mut i: usize = 0;
        while i < nn
            invariant
                i <= nn,
                nn == n * n,
                w@.len() == nn,
                cache.mass_matrix@.len() == nn,
                neginvdtd == c,
                wm == w_matrix(system, *y0, t, n, c),
                forall|j: int| 0 <= j < nn ==> cache.mass_matrix@[j] == system.mass_at(n, j as usize),
                forall|j: int| 0 <= j < i ==> w@[j] == wm[j],
                forall|j: int| i <= j < nn ==> w@[j] == system.jacobian_at(*y0, t, j as usize),
            decreases nn - i,
        {
            let v = w[i].add(&cache.mass_matrix[i].mul(&neginvdtd));
            w.set(i, v);
            i += 1;
        }
        assert(w@ =~= wm);
        let lu = F::factorize(&w, n);
        system.vfield(&mut cache.f0, y0, t);
        let mut k1: Vec<F> = zeros(n);
        copy_into(&mut k1, &cache.f0);
        let ghost b1 = k1;
        if !F::solve_in_place(&lu, &mut k1) {
            assert(solved(w@, n, b1@, None));
            assert(singular_solve(system, cache, *y0, t, dt, 1));
            return Err(SolveError::SingularSystem { t, dt, step: 0, solve: 1 });
        }
        assert(solved(w@, n, b1@, Some(k1@)));
        let ghost x1 = k1@;
        let mut i: usize = 0;
        while i < n
            invariant
                i <= n,
                k1@.len() == n,
                x1.len() == n,
                forall|j: int| 0 <= j < i ==> k1@[j] == scaled(x1, neginvdtd)[j],
                forall|j: int| i <= j < n ==> k1@[j] == x1[j],
            decreases n - i,
        {
            let v = k1[i].mul(&neginvdtd);
            k1.set(i, v);
            i += 1;
        }
        assert(k1@ =~= scaled(x1, neginvdtd));
        assert(stage1(wm, n, c, cache.f0@, k1@));
        // stage 2 at y0 + dt/2 k1
        let mut i: usize = 0;
        while i < n
            invariant
                i <= n,
                n == y0@.len(),
                y1@.len() == n,
                k1@.len() == n,
                forall|j: int| 0 <= j < i ==> y1@[j] == euler_update(y0@, dto2, k1@)[j],
            decreases n - i,
        {
            y1.set(i, y0[i].add(&dto2.mul(&k1[i])));
            i += 1;
        }
        assert(y1@ =~= euler_update(y0@, dto2, k1@));
        system.vfield(&mut cache.f1, y1, t.add(&dto2));
        assert(is_field(system, y1@, t.spec_add(dto2), cache.f1@)) by {
            assert((*y1)@ == y1@);
        }
        assert(is_field(system, euler_update(y0@, half(dt), k1@), t.spec_add(half(dt)), cache.f1@));
        let mut k2: Vec<F> = Vec::with_capacity(n);
        let mut i: usize = 0;
        while i < n
            invariant
                i <= n,
                k1@.len() == n,
                cache.f1@.len() == n,
                cache.mass_matrix@.len() == n * n,
                n * n <= usize::MAX,
                k2@ =~= rhs2(cache.f1@, cache.mass_matrix@, k1@).subrange(0, i as int),
            decreases n - i,
        {
            let mk = row_dot_exec(&cache.mass_matrix, n, &k1, i);
            k2.push(cache.f1[i].sub(&mk));
            i += 1;
        }
        assert(k2@ =~= rhs2(cache.f1@, cache.mass_matrix@, k1@));
        let ghost b2 = k2;
        if !F::solve_in_place(&lu, &mut k2) {
            assert(solved(w@, n, b2@, None));
            assert(stage1(wm, n, c, cache.f0@, k1@));
            assert(solved(wm, n, rhs2(cache.f1@, cache.mass_matrix@, k1@), None));
            assert(exists|k: Seq<F>|
                #[trigger] stage1(wm, n, c, cache.f0@, k) && is_field(
                    system,
                    euler_update(y0@, half(dt), k),
                    t.spec_add(half(dt)),
                    cache.f1@,
                ) && solved(wm, n, rhs2(cache.f1@, cache.mass_matrix@, k), None));
            assert(singular_solve(system, cache, *y0, t, dt, 2));
            return Err(SolveError::SingularSystem { t, dt, step: 0, solve: 2 });
        }
        assert(solved(w@, n, b2@, Some(k2@)));
        let ghost x2 = k2@;
        let mut i: usize = 0;
        while i < n
            invariant
                i <= n,
                k1@.len() == n,
                k2@.len() == n,
                x2.len() == n,
                forall|j: int| 0 <= j < i ==> k2@[j] == k2_of(k1@, x2, neginvdtd)[j],
                forall|j: int| i <= j < n ==> k2@[j] == x2[j],
            decreases n - i,
        {
            let v = k1[i].add(&k2[i].mul(&neginvdtd));
            k2.set(i, v);
            i += 1;
        }
        assert(k2@ =~= k2_of(k1@, x2, neginvdtd));
        assert(stage2(system, y0@, t, dt, wm, n, c, cache.mass_matrix@, cache.f1@, k1@, k2@));
        // the order-2 solution y0 + dt k2
        let mut i: usize = 0;
        while i < n
            invariant
                i <= n,
                n == y0@.len(),
                y1@.len() == n,
                k2@.len() == n,
                forall|j: int| 0 <= j < i ==> y1@[j] == euler_update(y0@, dt, k2@)[j],
            decreases n - i,
        {
            y1.set(i, y0[i].add(&dt.mul(&k2[i])));
            i += 1;
        }
        assert(y1@ =~= euler_update(y0@, dt, k2@));
        system.vfield(&mut cache.f2, y1, t.add(&dt));
        assert(is_field(system, y1@, t.spec_add(dt), cache.f2@)) by {
            assert((*y1)@ == y1@);
        }
        assert(is_field(system, euler_update(y0@, dt, k2@), t.spec_add(dt), cache.f2@));
        let two = F::ratio(2, 1);
        let mut u: Vec<F> = Vec::with_capacity(n);
        let mut i: usize = 0;
        while i < n
            invariant
                i <= n,
                k1@.len() == n,
                k2@.len() == n,
                two == F::spec_ratio(2, 1),
                u@ =~= combo(k1@, k2@, cache.e32).subrange(0, i as int),
            decreases n - i,
        {
            u.push(cache.e32.mul(&k2[i]).add(&two.mul(&k1[i])));
            i += 1;
        }
        assert(u@ =~= combo(k1@, k2@, cache.e32));
        let mut k3: Vec<F> = Vec::with_capacity(n);
        let mut i: usize = 0;
        while i < n
            invariant
                i <= n,
                u@.len() == n,
                k1@.len() == n,
                k2@.len() == n,
                u@ == combo(k1@, k2@, cache.e32),
                cache.f0@.len() == n,
                cache.f1@.len() == n,
                cache.f2@.len() == n,
                cache.mass_matrix@.len() == n * n,
                n * n <= usize::MAX,
                two == F::spec_ratio(2, 1),
                k3@ =~= rhs3(cache.mass_matrix@, cache.f0@, cache.f1@, cache.f2@, k1@, k2@, cache.e32).subrange(
                    0,
                    i as int,
                ),
            decreases n - i,
        {
            let mu = row_dot_exec(&cache.mass_matrix, n, &u, i);
            let v = cache.f2[i].sub(&mu).add(&cache.e32.mul(&cache.f1[i])).add(&two.mul(&cache.f0[i]));
            k3.push(v);
            i += 1;
        }
        assert(k3@ =~= rhs3(cache.mass_matrix@, cache.f0@, cache.f1@, cache.f2@, k1@, k2@, cache.e32));
        let ghost b3 = k3;
        if !F::solve_in_place(&lu, &mut k3) {
            assert(solved(w@, n, b3@, None));
            let ghost w2 = w_matrix(system, *y0, t, y0@.len() as usize, neg_inv(dt, cache.d));
            let ghost n2 = y0@.len() as usize;
            let ghost c2 = neg_inv(dt, cache.d);
            assert(w2 == wm && n2 == n && c2 == c);
            assert(stage2(system, y0@, t, dt, w2, n2, c2, cache.mass_matrix@, cache.f1@, k1@, k2@));
            assert(stage1(w2, n2, c2, cache.f0@, k1@));
            assert(solved(w2, n2, rhs3(cache.mass_matrix@, cache.f0@, cache.f1@, cache.f2@, k1@, k2@, cache.e32), None));
            assert(singular_solve(system, cache, *y0, t, dt, 3));
            return Err(SolveError::SingularSystem { t, dt, step: 0, solve: 3 });
        }
        assert(solved(w@, n, b3@, Some(k3@)));
        let ghost x3 = k3@;
        let mut i: usize = 0;
        while i < n
            invariant
                i <= n,
                k3@.len() == n,
                x3.len() == n,
                forall|j: int| 0 <= j < i ==> k3@[j] == scaled(x3, neginvdtd)[j],
                forall|j: int| i <= j < n ==> k3@[j] == x3[j],
            decreases n - i,
        {
            let v = k3[i].mul(&neginvdtd);
            k3.set(i, v);
            i += 1;
        }
        assert(k3@ =~= scaled(x3, neginvdtd));
        let scale = dt.div(&F::ratio(6, 1));
        let mut e: Vec<F> = Vec::with_capacity(n);
        let mut i: usize = 0;
        while i < n
            invariant
                i <= n,
                k1@.len() == n,
                k2@.len() == n,
                k3@.len() == n,
                scale == dt.spec_div(F::spec_ratio(6, 1)),
                two == F::spec_ratio(2, 1),
                e@ =~= error_vector(dt, k1@, k2@, k3@).subrange(0, i as int),
            decreases n - i,
        {
            e.push(k1[i].sub(&k2[i].mul(&two)).add(&k3[i]).mul(&scale));
            i += 1;
        }
        assert(e@ =~= error_vector(dt, k1@, k2@, k3@));
        let error = norm_exec(&e);
        let mut ks: Vec<Vec<F>> = Vec::with_capacity(3);
        ks.push(k1);
        ks.push(k2);
        ks.push(k3);
        assert(ks@[0]@ == k1@ && ks@[1]@ == k2@ && ks@[2]@ == k3@);
        Ok((ks, error))
    }
}

} // verus!
