use vstd::prelude::*;

use crate::error::SolveError;
use crate::scalar::{copy_into, zeros, Scalar};
use crate::step_algorithm::{norm, norm_exec, StepAlgorithm};
use crate::system::{is_field, OdeSystem};

verus! {

/// Tsitouras' explicit 7-stage Runge-Kutta pair of orders 5 and 4, with a
/// dense output of order 4.
#[derive(Clone, Copy, Debug)]
pub struct Tsit5;

/// The Tsit5 tableau in the working number type.
pub struct Tsit5Cache<F> {
    pub c: Vec<F>,
    pub btilde: Vec<F>,
    pub a: Vec<Vec<F>>,
}

/// The nodes `c`, as `(numerator, denominator)`.
pub open spec fn c_pair(s: int) -> (i64, i64) {
    if s == 0 {
        (0, 1)
    } else if s == 1 {
        (161, 1000)
    } else if s == 2 {
        (327, 1000)
    } else if s == 3 {
        (9, 10)
    } else if s == 4 {
        (9800255409045097, 10000000000000000)
    } else {
        (1, 1)
    }
}

/// The differences of the weights of the two embedded orders.
pub open spec fn btilde_pair(s: int) -> (i64, i64) {
    if s == 0 {
        (1780011052226, 1000000000000000)
    } else if s == 1 {
        (816434459657, 1000000000000000)
    } else if s == 2 {
        (-7880878010262i64, 1000000000000000)
    } else if s == 3 {
        (144711007173263, 1000000000000000)
    } else if s == 4 {
        (-582357165452555i64, 1000000000000000)
    } else if s == 5 {
        (458082105929187, 1000000000000000)
    } else {
        (-1i64, 66)
    }
}

/// The weights of the order-5 solution, which form the last row of `a`.
pub open spec fn b_pair(j: int) -> (i64, i64) {
    if j == 0 {
        (9646076681806523, 100000000000000000)
    } else if j == 1 {
        (1, 100)
    } else if j == 2 {
        (4798896504144996, 10000000000000000)
    } else if j == 3 {
        (1379008574103742, 1000000000000000)
    } else if j == 4 {
        (-3290069515436081i64, 1000000000000000)
    } else if j == 5 {
        (2324710524099774, 1000000000000000)
    } else {
        (0, 1)
    }
}

/// The stage coefficients `a[s][j]` for `1 <= j < s <= 5`.
pub open spec fn inner_pair(s: int, j: int) -> (i64, i64) {
    if s == 2 {
        (335480655492357, 1000000000000000)
    } else if s == 3 && j == 1 {
        (-6359448489975075i64, 1000000000000000)
    } else if s == 3 {
        (4362295432869581, 1000000000000000)
    } else if s == 4 && j == 1 {
        (-1174888356406283i64, 100000000000000)
    } else if s == 4 && j == 2 {
        (7495539342889836, 1000000000000000)
    } else if s == 4 {
        (-9249506636175525i64, 100000000000000000)
    } else if j == 1 {
        (-1292096931784711i64, 100000000000000)
    } else if j == 2 {
        (8159367898576159, 1000000000000000)
    } else if j == 3 {
        (-71584973281401i64, 1000000000000000)
    } else {
        (-2826905039406838i64, 100000000000000000)
    }
}

pub open spec fn of_pair<F: Scalar>(p: (i64, i64)) -> F {
    F::spec_ratio(p.0, p.1)
}

/// `c[s] - a[s][1] - ... - a[s][m - 1]`, subtracted from the left.
pub open spec fn first_column<F: Scalar>(s: int, m: int) -> F
    decreases m,
{
    if m <= 1 {
        of_pair(c_pair(s))
    } else {
        first_column::<F>(s, m - 1).spec_sub(of_pair(inner_pair(s, m - 1)))
    }
}

/// The strictly lower triangular stage matrix; its first column makes each
/// row sum to its node.
pub open spec fn a_coef<F: Scalar>(s: int, j: int) -> F {
    if j >= s {
        F::spec_zero()
    } else if s == 6 {
        of_pair(b_pair(j))
    } else if j == 0 {
        first_column(s, s)
    } else {
        of_pair(inner_pair(s, j))
    }
}

/// `coefs[0] * ks[0][i] + ... + coefs[m - 1] * ks[m - 1][i]`, summed from zero.
pub open spec fn comb<F: Scalar>(coefs: Seq<F>, ks: Seq<Vec<F>>, i: int, m: int) -> F
    decreases m,
{
    if m <= 0 {
        F::spec_zero()
    } else {
        comb(coefs, ks, i, m - 1).spec_add(coefs[m - 1].spec_mul(ks[m - 1]@[i]))
    }
}

/// `y0 + dt * (coefs . ks)` over the first `m` stages.
pub open spec fn advance<F: Scalar>(y0: Seq<F>, dt: F, coefs: Seq<F>, ks: Seq<Vec<F>>, m: int) -> Seq<F> {
    Seq::new(y0.len(), |i: int| y0[i].spec_add(dt.spec_mul(comb(coefs, ks, i, m))))
}

/// `dt * (btilde . ks)`: the order-5 solution minus the order-4 one.
pub open spec fn difference<F: Scalar>(n: nat, dt: F, btilde: Seq<F>, ks: Seq<Vec<F>>) -> Seq<F> {
    Seq::new(n, |i: int| dt.spec_mul(comb(btilde, ks, i, 7)))
}

/// Seven stages of `n` components each.
pub open spec fn stages_fit<F>(ks: Seq<Vec<F>>, n: nat) -> bool {
    &&& ks.len() == 7
    &&& forall|s: int| 0 <= s < 7 ==> (#[trigger] ks[s])@.len() == n
}

/// `cache` holds the Tsit5 tableau.
pub open spec fn tableau_ok<F: Scalar>(cache: &Tsit5Cache<F>) -> bool {
        &&& cache.c@ == Seq::new(7, |s: int| of_pair::<F>(c_pair(s)))
        &&& cache.btilde@ == Seq::new(7, |s: int| of_pair::<F>(btilde_pair(s)))
        &&& cache.a@.len() == 7
        &&& forall|s: int|
            0 <= s < 7 ==> (#[trigger] cache.a@[s])@ == Seq::new(7, |j: int| a_coef::<F>(s, j))
}

/// The state at which stage `s` is evaluated.
pub open spec fn stage_input<F: Scalar>(y0: Seq<F>, dt: F, coefs: Seq<F>, ks: Seq<Vec<F>>, s: int) -> Seq<F> {
    if s == 0 {
        y0
    } else {
        advance(y0, dt, coefs, ks, s)
    }
}

proof fn lemma_comb_prefix<F: Scalar>(coefs: Seq<F>, ks1: Seq<Vec<F>>, ks2: Seq<Vec<F>>, i: int, m: int)
    requires
        forall|j: int| 0 <= j < m ==> ks1[j] == ks2[j],
    ensures
        comb(coefs, ks1, i, m) == comb(coefs, ks2, i, m),
    decreases m,
{
    if m > 0 {
        lemma_comb_prefix(coefs, ks1, ks2, i, m - 1);
    }
}

/// A stage state depends on the stages before it alone.
proof fn lemma_stage_prefix<F: Scalar>(
    y0: Seq<F>,
    dt: F,
    coefs: Seq<F>,
    ks1: Seq<Vec<F>>,
    ks2: Seq<Vec<F>>,
    s: int,
)
    requires
        s <= ks1.len(),
        s <= ks2.len(),
        forall|j: int| 0 <= j < ks1.len() && j < ks2.len() ==> ks1[j] == ks2[j],
    ensures
        stage_input(y0, dt, coefs, ks1, s) == stage_input(y0, dt, coefs, ks2, s),
{
    if s > 0 {
        assert forall|i: int| 0 <= i < y0.len() implies advance(y0, dt, coefs, ks1, s)[i] == advance(
            y0,
            dt,
            coefs,
            ks2,
            s,
        )[i] by {
            lemma_comb_prefix(coefs, ks1, ks2, i, s);
        }
        assert(advance(y0, dt, coefs, ks1, s) =~= advance(y0, dt, coefs, ks2, s));
    }
}

/// The dense-output weight of stage `s` at the fraction `th` of the step.
pub open spec fn dense_weight<F: Scalar>(s: int, th: F) -> F {
    let t2 = th.spec_mul(th);
    let q = |n: i64, d: i64| F::spec_ratio(n, d);
    if s == 0 {
        q(-10530884977290216i64, 10000000000000000).spec_mul(th).spec_mul(
            th.spec_sub(q(13299890189751412, 10000000000000000)),
        ).spec_mul(
            t2.spec_sub(q(14364028541716351, 10000000000000000).spec_mul(th)).spec_add(
                q(7139816917074209, 10000000000000000),
            ),
        )
    } else if s == 1 {
        q(1017, 10000).spec_mul(t2).spec_mul(
            t2.spec_sub(q(21966568338249754, 10000000000000000).spec_mul(th)).spec_add(
                q(12949852507374631, 10000000000000000),
            ),
        )
    } else if s == 2 {
        q(2490627285651252793, 1000000000000000000).spec_mul(t2).spec_mul(
            t2.spec_sub(q(238535645472061657, 100000000000000000).spec_mul(th)).spec_add(
                q(157803468208092486, 100000000000000000),
            ),
        )
    } else if s == 3 {
        q(-1654810288924490272i64, 100000000000000000).spec_mul(
            th.spec_sub(q(121712927295533244, 100000000000000000)),
        ).spec_mul(th.spec_sub(q(61620406037800089, 100000000000000000))).spec_mul(t2)
    } else if s == 4 {
        q(4737952196281928122, 100000000000000000).spec_mul(
            th.spec_sub(q(1203071208372362603, 1000000000000000000)),
        ).spec_mul(th.spec_sub(q(658047292653547382, 1000000000000000000))).spec_mul(t2)
    } else if s == 5 {
        q(-3487065786149660974i64, 100000000000000000).spec_mul(th.spec_sub(q(12, 10))).spec_mul(
            th.spec_sub(q(666666666666666667, 1000000000000000000)),
        ).spec_mul(t2)
    } else {
        q(25, 10).spec_mul(th.spec_sub(q(1, 1))).spec_mul(th.spec_sub(q(6, 10))).spec_mul(t2)
    }
}

fn pair_exec(table: u8, s: usize, j: usize) -> (r: (i64, i64))
    requires
        table <= 3,
        s < 7,
        table == 3 ==> 2 <= s <= 5 && 1 <= j < s,
    ensures
        table == 0 ==> r == c_pair(s as int),
        table == 1 ==> r == btilde_pair(s as int),
        table == 2 ==> r == b_pair(s as int),
        table == 3 ==> r == inner_pair(s as int, j as int),
        r.1 > 0,
{
    if table == 0 {
        if s == 0 {
            (0, 1)
        } else if s == 1 {
            (161, 1000)
        } else if s == 2 {
            (327, 1000)
        } else if s == 3 {
            (9, 10)
        } else if s == 4 {
            (9800255409045097, 10000000000000000)
        } else {
            (1, 1)
        }
    } else if table == 1 {
        if s == 0 {
            (1780011052226, 1000000000000000)
        } else if s == 1 {
            (816434459657, 1000000000000000)
        } else if s == 2 {
            (-7880878010262i64, 1000000000000000)
        } else if s == 3 {
            (144711007173263, 1000000000000000)
        } else if s == 4 {
            (-582357165452555i64, 1000000000000000)
        } else if s == 5 {
            (458082105929187, 1000000000000000)
        } else {
            (-1i64, 66)
        }
    } else if table == 2 {
        if s == 0 {
            (9646076681806523, 100000000000000000)
        } else if s == 1 {
            (1, 100)
        } else if s == 2 {
            (4798896504144996, 10000000000000000)
        } else if s == 3 {
            (1379008574103742, 1000000000000000)
        } else if s == 4 {
            (-3290069515436081i64, 1000000000000000)
        } else if s == 5 {
            (2324710524099774, 1000000000000000)
        } else {
            (0, 1)
        }
    } else {
        if s == 2 {
            (335480655492357, 1000000000000000)
        } else if s == 3 && j == 1 {
            (-6359448489975075i64, 1000000000000000)
        } else if s == 3 {
            (4362295432869581, 1000000000000000)
        } else if s == 4 && j == 1 {
            (-1174888356406283i64, 100000000000000)
        } else if s == 4 && j == 2 {
            (7495539342889836, 1000000000000000)
        } else if s == 4 {
            (-9249506636175525i64, 100000000000000000)
        } else if j == 1 {
            (-1292096931784711i64, 100000000000000)
        } else if j == 2 {
            (8159367898576159, 1000000000000000)
        } else if j == 3 {
            (-71584973281401i64, 1000000000000000)
        } else {
            (-2826905039406838i64, 100000000000000000)
        }
    }
}

fn coef_exec<F: Scalar>(table: u8, s: usize, j: usize) -> (r: F)
    requires
        table <= 3,
        s < 7,
        table == 3 ==> 2 <= s <= 5 && 1 <= j < s,
    ensures
        table == 0 ==> r == of_pair::<F>(c_pair(s as int)),
        table == 1 ==> r == of_pair::<F>(btilde_pair(s as int)),
        table == 2 ==> r == of_pair::<F>(b_pair(s as int)),
        table == 3 ==> r == of_pair::<F>(inner_pair(s as int, j as int)),
{
    let p = pair_exec(table, s, j);
    F::ratio(p.0, p.1)
}

fn a_coef_exec<F: Scalar>(s: usize, j: usize) -> (r: F)
    requires
        s < 7,
        j < 7,
    ensures
        r == a_coef::<F>(s as int, j as int),
{
    if j >= s {
        F::zero()
    } else if s == 6 {
        coef_exec(2, j, 0)
    } else if j == 0 {
        let mut acc: F = coef_exec(0, s, 0);
        let mut m: usize = 1;
        while m < s
            invariant
                1 <= m <= s,
                s < 6,
                acc == first_column::<F>(s as int, m as int),
            decreases s - m,
        {
            acc = acc.sub(&coef_exec(3, s, m));
            m += 1;
        }
        acc
    } else {
        coef_exec(3, s, j)
    }
}

fn table_row<F: Scalar>(table: u8) -> (r: Vec<F>)
    requires
        table <= 1,
    ensures
        r@.len() == 7,
        forall|s: int|
            0 <= s < 7 ==> #[trigger] r@[s] == if table == 0 {
                of_pair::<F>(c_pair(s))
            } else {
                of_pair::<F>(btilde_pair(s))
            },
{
    let mut r: Vec<F> = Vec::with_capacity(7);
    let mut s: usize = 0;
    while s < 7
        invariant
            s <= 7,
            table <= 1,
            r@.len() == s,
            forall|k: int|
                0 <= k < s ==> #[trigger] r@[k] == if table == 0 {
                    of_pair::<F>(c_pair(k))
                } else {
                    of_pair::<F>(btilde_pair(k))
                },
        decreases 7 - s,
    {
        r.push(coef_exec(table, s, 0));
        s += 1;
    }
    r
}

fn a_row<F: Scalar>(s: usize) -> (r: Vec<F>)
    requires
        s < 7,
    ensures
        r@ == Seq::new(7, |j: int| a_coef::<F>(s as int, j)),
{
    let mut r: Vec<F> = Vec::with_capacity(7);
    let mut j: usize = 0;
    while j < 7
        invariant
            j <= 7,
            s < 7,
            r@ =~= Seq::new(j as nat, |k: int| a_coef::<F>(s as int, k)),
        decreases 7 - j,
    {
        r.push(a_coef_exec(s, j));
        j += 1;
    }
    r
}

/// `coefs[0] * ks[0][i] + ... + coefs[m - 1] * ks[m - 1][i]`.
fn comb_exec<F: Scalar>(coefs: &Vec<F>, ks: &Vec<Vec<F>>, i: usize, m: usize) -> (r: F)
    requires
        m <= coefs@.len(),
        m <= ks@.len(),
        forall|j: int| 0 <= j < m ==> i < (#[trigger] ks@[j])@.len(),
    ensures
        r == comb(coefs@, ks@, i as int, m as int),
{
    let mut acc = F::zero();
    let mut j: usize = 0;
    while j < m
        invariant
            j <= m,
            m <= coefs@.len(),
            m <= ks@.len(),
            forall|k: int| 0 <= k < m ==> i < (#[trigger] ks@[k])@.len(),
            acc == comb(coefs@, ks@, i as int, j as int),
        decreases m - j,
    {
        acc = acc.add(&coefs[j].mul(&ks[j][i]));
        j += 1;
    }
    acc
}

fn dense_weight_exec<F: Scalar>(s: usize, th: F) -> (r: F)
    ensures
        r == dense_weight(s as int, th),
{
    let t2 = th.mul(&th);
    if s == 0 {
        F::ratio(-10530884977290216i64, 10000000000000000).mul(&th).mul(
            &th.sub(&F::ratio(13299890189751412, 10000000000000000)),
        ).mul(
            &t2.sub(&F::ratio(14364028541716351, 10000000000000000).mul(&th)).add(
                &F::ratio(7139816917074209, 10000000000000000),
            ),
        )
    } else if s == 1 {
        F::ratio(1017, 10000).mul(&t2).mul(
            &t2.sub(&F::ratio(21966568338249754, 10000000000000000).mul(&th)).add(
                &F::ratio(12949852507374631, 10000000000000000),
            ),
        )
    } else if s == 2 {
        F::ratio(2490627285651252793, 1000000000000000000).mul(&t2).mul(
            &t2.sub(&F::ratio(238535645472061657, 100000000000000000).mul(&th)).add(
                &F::ratio(157803468208092486, 100000000000000000),
            ),
        )
    } else if s == 3 {
        F::ratio(-1654810288924490272i64, 100000000000000000).mul(
            &th.sub(&F::ratio(121712927295533244, 100000000000000000)),
        ).mul(&th.sub(&F::ratio(61620406037800089, 100000000000000000))).mul(&t2)
    } else if s == 4 {
        F::ratio(4737952196281928122, 100000000000000000).mul(
            &th.sub(&F::ratio(1203071208372362603, 1000000000000000000)),
        ).mul(&th.sub(&F::ratio(658047292653547382, 1000000000000000000))).mul(&t2)
    } else if s == 5 {
        F::ratio(-3487065786149660974i64, 100000000000000000).mul(&th.sub(&F::ratio(12, 10))).mul(
            &th.sub(&F::ratio(666666666666666667, 1000000000000000000)),
        ).mul(&t2)
    } else {
        F::ratio(25, 10).mul(&th.sub(&F::ratio(1, 1))).mul(&th.sub(&F::ratio(6, 10))).mul(&t2)
    }
}

impl<F: Scalar, S: OdeSystem<F>> StepAlgorithm<F, S> for Tsit5 {
    type Cache = Tsit5Cache<F>;

    /// The seven stage derivatives of the step.
    type Interpolant = Vec<Vec<F>>;

    /// The Euclidean distance between the solutions of orders 5 and 4.
    type ErrorEstimate = F;

    open spec fn cache_ok(&self, cache: &Tsit5Cache<F>) -> bool {
        tableau_ok(cache)
    }

    open spec fn interpolant_ok(&self, interpolant: &Vec<Vec<F>>, n: nat) -> bool {
        stages_fit(interpolant@, n)
    }

    /// Each stage is the field at its own stage state and time; `y1` is the
    /// order-5 solution and the error the distance to the order-4 one.
    open spec fn spec_step(
        &self,
        sys: &S,
        cache: &Tsit5Cache<F>,
        y0: Vec<F>,
        t: F,
        dt: F,
        y1: Seq<F>,
        r: Result<(Vec<Vec<F>>, F), SolveError<F, F>>,
    ) -> bool {
        let ks = r->Ok_0.0@;
        &&& r is Ok
        &&& stages_fit(ks, y0@.len())
        &&& forall|s: int|
            0 <= s < 7 ==> is_field(
                sys,
                #[trigger] stage_input(y0@, dt, cache.a@[s]@, ks, s),
                t.spec_add(cache.c@[s].spec_mul(dt)),
                ks[s]@,
            )
        &&& y1 == advance(y0@, dt, cache.a@[6]@, ks, 6)
        &&& r->Ok_0.1 == norm(difference(y0@.len(), dt, cache.btilde@, ks))
    }

    open spec fn spec_interpolate(
        &self,
        y0: Seq<F>,
        y1: Seq<F>,
        interpolant: &Vec<Vec<F>>,
        dt: F,
        s: F,
    ) -> Seq<F> {
        advance(y0, dt, Seq::new(7, |k: int| dense_weight(k, s)), interpolant@, 7)
    }

    fn init_cache(&self, sys: &S) -> (r: Tsit5Cache<F>) {
        let c = table_row(0);
        let btilde = table_row(1);
        let mut a: Vec<Vec<F>> = Vec::with_capacity(7);
        let mut s: usize = 0;
        while s < 7
            invariant
                s <= 7,
                a@.len() == s,
                forall|k: int|
                    0 <= k < s ==> (#[trigger] a@[k])@ == Seq::new(7, |j: int| a_coef::<F>(k, j)),
            decreases 7 - s,
        {
            a.push(a_row(s));
            s += 1;
        }
        let r = Tsit5Cache { c, btilde, a };
        assert(r.c@ =~= Seq::new(7, |s: int| of_pair::<F>(c_pair(s))));
        assert(r.btilde@ =~= Seq::new(7, |s: int| of_pair::<F>(btilde_pair(s))));
        r
    }

    fn interpolate(
        &self,
        y0: &Vec<F>,
        y1: &Vec<F>,
        interpolant: &Vec<Vec<F>>,
        dt: F,
        s: F,
    ) -> (r: Vec<F>) {
        let ghost w = Seq::new(7, |k: int| dense_weight(k, s));
        let mut weights: Vec<F> = Vec::with_capacity(7);
        let mut k: usize = 0;
        while k < 7
            invariant
                k <= 7,
                weights@ =~= Seq::new(k as nat, |j: int| dense_weight(j, s)),
            decreases 7 - k,
        {
            weights.push(dense_weight_exec(k, s));
            k += 1;
        }
        assert(weights@ =~= w);
        let n = y0.len();
        let mut y: Vec<F> = Vec::with_capacity(n);
        let mut i: usize = 0;
        while i < n
            invariant
                i <= n,
                n == y0@.len(),
                weights@ == w,
                w.len() == 7,
                stages_fit(interpolant@, n as nat),
                y@ =~= advance(y0@, dt, w, interpolant@, 7).subrange(0, i as int),
            decreases n - i,
        {
            let sum = comb_exec(&weights, interpolant, i, 7);
            y.push(y0[i].add(&dt.mul(&sum)));
            i += 1;
        }
        y
    }

    fn step(
        &self,
        cache: &mut Tsit5Cache<F>,
        system: &S,
        y1: &mut Vec<F>,
        y0: &Vec<F>,
        t: F,
        dt: F,
    ) -> (r: Result<(Vec<Vec<F>>, F), SolveError<F, F>>) {
        let n = y0.len();
        let mut ks: Vec<Vec<F>> = Vec::with_capacity(7);
        copy_into(y1, y0);
        let mut s: usize = 0;
        while s < 7
            invariant
                s <= 7,
                n == y0@.len(),
                y1@.len() == n,
                tableau_ok(cache),
                ks@.len() == s,
                forall|k: int| 0 <= k < s ==> (#[trigger] ks@[k])@.len() == n,
                forall|q: int|
                    0 <= q < s ==> is_field(
                        system,
                        #[trigger] stage_input(y0@, dt, cache.a@[q]@, ks@, q),
                        t.spec_add(cache.c@[q].spec_mul(dt)),
                        ks@[q]@,
                    ),
                s == 0 ==> y1@ == y0@,
                s > 0 ==> y1@ == stage_input(y0@, dt, cache.a@[s - 1]@, ks@, s - 1),
            decreases 7 - s,
        {
            if s > 0 {
                let mut i: usize = 0;
                while i < n
                    invariant
                        i <= n,
                        1 <= s < 7,
                        n == y0@.len(),
                        y1@.len() == n,
                        tableau_ok(cache),
                        ks@.len() == s,
                        forall|k: int| 0 <= k < s ==> (#[trigger] ks@[k])@.len() == n,
                        forall|j: int|
                            0 <= j < i ==> y1@[j] == advance(y0@, dt, cache.a@[s as int]@, ks@, s as int)[j],
                    decreases n - i,
                {
                    let dy = comb_exec(&cache.a[s], &ks, i, s);
                    y1.set(i, y0[i].add(&dt.mul(&dy)));
                    i += 1;
                }
                assert(y1@ =~= advance(y0@, dt, cache.a@[s as int]@, ks@, s as int));
            }
            assert(y1@ == stage_input(y0@, dt, cache.a@[s as int]@, ks@, s as int));
            let ts = t.add(&cache.c[s].mul(&dt));
            let mut k: Vec<F> = zeros(n);
            system.vfield(&mut k, y1, ts);
            assert(is_field(system, y1@, ts, k@)) by {
                assert((*y1)@ == y1@);
            }
            let ghost old_ks = ks@;
            ks.push(k);
            proof {
                assert forall|q: int| 0 <= q <= s implies is_field(
                    system,
                    #[trigger] stage_input(y0@, dt, cache.a@[q]@, ks@, q),
                    t.spec_add(cache.c@[q].spec_mul(dt)),
                    ks@[q]@,
                ) by {
                    lemma_stage_prefix(y0@, dt, cache.a@[q]@, old_ks, ks@, q);
                    if q < s {
                        assert(ks@[q] == old_ks[q]);
                    }
                }
                lemma_stage_prefix(y0@, dt, cache.a@[s as int]@, old_ks, ks@, s as int);
            }
            s += 1;
        }
        assert(y1@ =~= advance(y0@, dt, cache.a@[6]@, ks@, 6));
        let mut diff: Vec<F> = Vec::with_capacity(n);
        let mut i: usize = 0;
        while i < n
            invariant
                i <= n,
                n == y0@.len(),
                tableau_ok(cache),
                stages_fit(ks@, n as nat),
                diff@ =~= difference(n as nat, dt, cache.btilde@, ks@).subrange(0, i as int),
            decreases n - i,
        {
            diff.push(dt.mul(&comb_exec(&cache.btilde, &ks, i, 7)));
            i += 1;
        }
        assert(diff@ =~= difference(n as nat, dt, cache.btilde@, ks@));
        let error = norm_exec(&diff);
        Ok((ks, error))
    }
}

} // verus!
