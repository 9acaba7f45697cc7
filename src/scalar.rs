use vstd::prelude::*;

verus! {

/// The number type that the solvers compute with, together with the dense
/// linear algebra that the linearly implicit method needs.
///
/// Every operation is tied to a spec function of the same meaning, so that the
/// contracts of the solvers can state exactly which expression they evaluate.
/// An implementation is expected to be deterministic: equal operands give
/// equal results.
pub trait Scalar: Copy + Sized {
    /// Result of factorizing a square matrix, reused for several solves.
    type Factor;

    spec fn spec_zero() -> Self;

    spec fn spec_one() -> Self;

    spec fn spec_ratio(num: i64, den: i64) -> Self;

    spec fn spec_add(self, o: Self) -> Self;

    spec fn spec_sub(self, o: Self) -> Self;

    spec fn spec_mul(self, o: Self) -> Self;

    spec fn spec_div(self, o: Self) -> Self;

    spec fn spec_neg(self) -> Self;

    spec fn spec_abs(self) -> Self;

    spec fn spec_max(self, o: Self) -> Self;

    spec fn spec_sqrt(self) -> Self;

    spec fn spec_powf(self, e: Self) -> Self;

    spec fn spec_lt(self, o: Self) -> bool;

    spec fn spec_le(self, o: Self) -> bool;

    /// The factorization of the `n` by `n` matrix `m`, stored row by row.
    spec fn spec_factorize(m: Vec<Self>, n: usize) -> Self::Factor;

    /// The order of the factorized matrix.
    spec fn spec_order(f: Self::Factor) -> usize;

    /// The solution `x` of `A x = b` for the factorized `A`; `None` where `A`
    /// is singular.
    spec fn spec_solve(f: Self::Factor, b: Vec<Self>) -> Option<Vec<Self>>;

    fn zero() -> (r: Self)
        ensures
            r == Self::spec_zero(),
    ;

    fn one() -> (r: Self)
        ensures
            r == Self::spec_one(),
    ;

    /// The number nearest to `num / den`.
    fn ratio(num: i64, den: i64) -> (r: Self)
        requires
            den != 0,
        ensures
            r == Self::spec_ratio(num, den),
    ;

    fn add(&self, o: &Self) -> (r: Self)
        ensures
            r == self.spec_add(*o),
    ;

    fn sub(&self, o: &Self) -> (r: Self)
        ensures
            r == self.spec_sub(*o),
    ;

    fn mul(&self, o: &Self) -> (r: Self)
        ensures
            r == self.spec_mul(*o),
    ;

    fn div(&self, o: &Self) -> (r: Self)
        ensures
            r == self.spec_div(*o),
    ;

    fn neg(&self) -> (r: Self)
        ensures
            r == self.spec_neg(),
    ;

    fn abs(&self) -> (r: Self)
        ensures
            r == self.spec_abs(),
    ;

    fn max(&self, o: &Self) -> (r: Self)
        ensures
            r == self.spec_max(*o),
    ;

    fn sqrt(&self) -> (r: Self)
        ensures
            r == self.spec_sqrt(),
    ;

    fn powf(&self, e: &Self) -> (r: Self)
        ensures
            r == self.spec_powf(*e),
    ;

    fn lt(&self, o: &Self) -> (r: bool)
        ensures
            r == self.spec_lt(*o),
    ;

    fn le(&self, o: &Self) -> (r: bool)
        ensures
            r == self.spec_le(*o),
    ;

    /// Factorizes the `n` by `n` matrix stored row by row in `m`.
    fn factorize(m: &Vec<Self>, n: usize) -> (r: Self::Factor)
        requires
            m@.len() == n * n,
        ensures
            r == Self::spec_factorize(*m, n),
            Self::spec_order(r) == n,
    ;

    /// Solves in place against a factorized matrix; `false` where the matrix
    /// is singular.
    fn solve_in_place(f: &Self::Factor, b: &mut Vec<Self>) -> (ok: bool)
        requires
            old(b)@.len() == Self::spec_order(*f),
        ensures
            final(b)@.len() == old(b)@.len(),
            ok == Self::spec_solve(*f, *old(b)) is Some,
            ok ==> final(b)@ == Self::spec_solve(*f, *old(b))->Some_0@,
    ;
}

/// `x` solves the `n` by `n` system with matrix `m` and right-hand side `b`:
/// `Some(x)`, or `None` where the matrix is singular.
pub open spec fn solved<F: Scalar>(m: Seq<F>, n: usize, b: Seq<F>, x: Option<Seq<F>>) -> bool {
    exists|mv: Vec<F>, bv: Vec<F>|
        #![trigger mv@, bv@]
        mv@ == m && bv@ == b && match F::spec_solve(F::spec_factorize(mv, n), bv) {
            Some(xv) => x == Some(xv@),
            None => x is None,
        }
}

/// `n` copies of zero.
pub fn zeros<F: Scalar>(n: usize) -> (r: Vec<F>)
    ensures
        r@ == Seq::new(n as nat, |i: int| F::spec_zero()),
{
    let z = F::zero();
    let mut r: Vec<F> = Vec::with_capacity(n);
    let mut i: usize = 0;
    while i < n
        invariant
            i <= n,
            z == F::spec_zero(),
            r@ == Seq::new(i as nat, |j: int| F::spec_zero()),
        decreases n - i,
    {
        r.push(z);
        i += 1;
        assert(r@ =~= Seq::new(i as nat, |j: int| F::spec_zero()));
    }
    r
}

/// A new vector with the values of `v`.
pub fn to_vec<F: Scalar>(v: &Vec<F>) -> (r: Vec<F>)
    ensures
        r@ == v@,
{
    let mut r: Vec<F> = Vec::with_capacity(v.len());
    let mut i: usize = 0;
    while i < v.len()
        invariant
            i <= v@.len(),
            r@ =~= v@.subrange(0, i as int),
        decreases v@.len() - i,
    {
        r.push(v[i]);
        i += 1;
    }
    r
}

/// Copies the values of `src` into `dst`, which has the same length.
pub fn copy_into<F: Scalar>(dst: &mut Vec<F>, src: &Vec<F>)
    requires
        old(dst)@.len() == src@.len(),
    ensures
        final(dst)@ == src@,
{
    let n = src.len();
    let mut i: usize = 0;
    while i < n
        invariant
            i <= n,
            n == src@.len(),
            dst@.len() == n,
            forall|j: int| 0 <= j < i ==> dst@[j] == src@[j],
        decreases n - i,
    {
        dst.set(i, src[i]);
        i += 1;
    }
    assert(dst@ =~= src@);
}

} // verus!
