use vstd::prelude::*;

use crate::scalar::Scalar;

verus! {

/// A vector field dy/dt = f(y, t) together with what the linearly implicit
/// method needs of it.
///
/// The spec functions say what each operation writes; an implementation
/// computes them as pure functions of their arguments.
pub trait OdeSystem<F: Scalar> {
    /// The number of components.
    spec fn spec_dimension(&self) -> usize;

    /// The names of the components.
    spec fn spec_labels(&self) -> Vec<String>;

    /// Component `i` of f(y, t).
    spec fn field_at(&self, y: Vec<F>, t: F, i: usize) -> F;

    /// Entry `i` of the `n` by `n` mass matrix stored row by row; the
    /// identity unless the model says otherwise.
    open spec fn mass_at(&self, n: usize, i: usize) -> F {
        if n > 0 && i / n == i % n {
            F::spec_one()
        } else {
            F::spec_zero()
        }
    }

    /// Whether the model offers a Jacobian; it does not unless it says so.
    open spec fn has_jacobian(&self) -> bool {
        false
    }

    /// Entry `i` of the Jacobian of f at (y, t), stored row by row.
    open spec fn jacobian_at(&self, y: Vec<F>, t: F, i: usize) -> F {
        F::spec_zero()
    }

    fn dimension(&self) -> (r: usize)
        ensures
            r == self.spec_dimension(),
    ;

    fn labels(&self) -> (r: Vec<String>)
        ensures
            r@ == self.spec_labels()@,
    ;

    /// Writes f(y, t) into `out`, one entry per component.
    fn vfield(&self, out: &mut Vec<F>, y: &Vec<F>, t: F)
        ensures
            final(out)@.len() == old(out)@.len(),
            forall|i: int|
                0 <= i < final(out)@.len() ==> final(out)@[i] == self.field_at(*y, t, i as usize),
    ;

    /// Writes the `n` by `n` mass matrix, row by row, into `out`.
    fn mass_matrix(&self, out: &mut Vec<F>, n: usize)
        ensures
            final(out)@.len() == old(out)@.len(),
            forall|i: int|
                0 <= i < final(out)@.len() ==> final(out)@[i] == self.mass_at(n, i as usize),
    ;

    /// Writes the Jacobian of f at (y, t), row by row, into `out` and
    /// returns `true`; where the model offers no Jacobian, returns `false`
    /// and leaves `out` as it was.
    fn jacobian(&self, out: &mut Vec<F>, y: &Vec<F>, t: F) -> (available: bool)
        ensures
            available == self.has_jacobian(),
            final(out)@.len() == old(out)@.len(),
            available ==> forall|i: int|
                0 <= i < final(out)@.len() ==> final(out)@[i] == self.jacobian_at(*y, t, i as usize),
            !available ==> final(out)@ == old(out)@,
    ;
}

/// `k` is f(y, t) for a state whose values are `y`.
pub open spec fn is_field<F: Scalar, S: OdeSystem<F>>(sys: &S, y: Seq<F>, t: F, k: Seq<F>) -> bool {
    &&& k.len() == y.len()
    &&& exists|v: Vec<F>|
        #[trigger] v@ == y && forall|i: int|
            0 <= i < k.len() ==> k[i] == sys.field_at(v, t, i as usize)
}

/// Writes the `n` by `n` identity, row by row, into `out`: the mass matrix
/// of a model that declares none.
pub fn identity_into<F: Scalar>(out: &mut Vec<F>, n: usize)
    ensures
        final(out)@.len() == old(out)@.len(),
        forall|i: int|
            0 <= i < final(out)@.len() ==> final(out)@[i] == if n > 0 && (i as usize) / n == (i as usize) % n {
                F::spec_one()
            } else {
                F::spec_zero()
            },
{
    let mut i: usize = 0;
    while i < out.len()
        invariant
            i <= out@.len(),
            out@.len() == old(out)@.len(),
            forall|j: int|
                0 <= j < i ==> out@[j] == if n > 0 && (j as usize) / n == (j as usize) % n {
                    F::spec_one()
                } else {
                    F::spec_zero()
                },
        decreases out@.len() - i,
    {
        if n > 0 && i / n == i % n {
            out.set(i, F::one());
        } else {
            out.set(i, F::zero());
        }
        i += 1;
    }
}

} // verus!
