//! The fixed-dimension tuple type: construction, indexed access, and the
//! elementwise operations, each verified against the sequence view.

use vstd::prelude::*;

use crate::elementwise::applied;
use crate::elementwise::combined;
use crate::elementwise::pointwise;

verus! {

/// An ordered sequence of exactly `N` scalars of type `T`. The dimension is
/// part of the type: tuples of different dimension are never comparable or
/// combinable. A tuple views as the `Seq<T>` of its elements, in index order.
pub struct Tuple<T, const N: usize> {
    data: Vec<T>,
}

impl<T, const N: usize> View for Tuple<T, N> {
    type V = Seq<T>;

    closed spec fn view(&self) -> Seq<T> {
        self.data@
    }
}

impl<T, const N: usize> Tuple<T, N> {
    /// The length is exactly `N` for the lifetime of the value.
    #[verifier::type_invariant]
    spec fn fixed_dimension(self) -> bool {
        self.data@.len() == N
    }

    /// The dimension `N`, also establishing that the view has length `N`.
    pub fn dim(&self) -> (n: usize)
        ensures
            n == N,
            self@.len() == N,
    {
        proof {
            use_type_invariant(&*self);
        }
        N
    }
}

impl<T: Copy, const N: usize> Tuple<T, N> {
    /// Builds a tuple from an array of `N` scalars, copying the values
    /// verbatim and preserving their order. Total and infallible.
    pub fn from(array: [T; N]) -> (t: Self)
        ensures
            t@ == array@,
    {
        let mut data: Vec<T> = Vec::new();
        let mut i: usize = 0;
        while i < N
            invariant
                i <= N,
                data@.len() == i,
                forall|j: int| 0 <= j < i ==> data@[j] == array@[j],
            decreases N - i,
        {
            data.push(array[i]);
            i += 1;
        }
        proof {
            assert(data@ =~= array@);
        }
        Tuple { data }
    }

    /// The `i`-th element. Callers must stay inside the dimension: there is
    /// no other error path, and no value is ever returned for an index out
    /// of range.
    pub fn index(&self, i: usize) -> (r: T)
        requires
            i < N,
        ensures
            r == self@[i as int],
    {
        proof {
            use_type_invariant(&*self);
        }
        self.data[i]
    }

    /// The `i`-th element by reference, for callers that hand out a borrow.
    pub fn index_ref(&self, i: usize) -> (r: &T)
        requires
            i < N,
        ensures
            *r == self@[i as int],
    {
        proof {
            use_type_invariant(&*self);
        }
        &self.data[i]
    }

    /// Checked access: `Some` of the `i`-th element exactly when `i` is a
    /// valid index, `None` exactly when `i >= N`. Out-of-range access never
    /// produces a scalar.
    pub fn get(&self, i: usize) -> (r: Option<T>)
        ensures
            i < N ==> r == Some(self@[i as int]),
            i >= N ==> r is None,
    {
        proof {
            use_type_invariant(&*self);
        }
        if i < N {
            Some(self.data[i])
        } else {
            None
        }
    }

    /// A fresh vector holding the `N` elements in index order: a restartable,
    /// read-only traversal of the tuple.
    pub fn to_vec(&self) -> (v: Vec<T>)
        ensures
            v@ == self@,
    {
        proof {
            use_type_invariant(&*self);
        }
        let mut v: Vec<T> = Vec::new();
        let mut i: usize = 0;
        while i < N
            invariant
                self@.len() == N,
                i <= N,
                v@.len() == i,
                forall|j: int| 0 <= j < i ==> v@[j] == self@[j],
            decreases N - i,
        {
            v.push(self.index(i));
            i += 1;
        }
        proof {
            assert(v@ =~= self@);
        }
        v
    }

    /// The elementwise combination of two tuples of the same dimension: the
    /// result's `i`-th element is what `f` returns on the operands' `i`-th
    /// elements. With `f` scalar addition this is tuple addition; likewise
    /// subtraction, the Hadamard product, and elementwise division. The
    /// operands are left untouched.
    pub fn combine<F: Fn(T, T) -> T>(&self, other: &Self, f: F) -> (r: Self)
        requires
            forall|i: int| 0 <= i < N ==> call_requires(f, (self@[i], other@[i])),
        ensures
            self@.len() == N,
            other@.len() == N,
            r@.len() == N,
            forall|i: int| 0 <= i < N ==> call_ensures(f, (self@[i], other@[i]), #[trigger] r@[i]),
            forall|g: spec_fn(T, T) -> T|
                (forall|x: T, y: T, z: T| call_ensures(f, (x, y), z) ==> z == g(x, y)) ==> r@
                    == #[trigger] combined(self@, other@, g),
    {
        proof {
            use_type_invariant(&*self);
            use_type_invariant(&*other);
        }
        let mut data: Vec<T> = Vec::new();
        let mut i: usize = 0;
        while i < N
            invariant
                self@.len() == N,
                other@.len() == N,
                forall|j: int| 0 <= j < N ==> call_requires(f, (self@[j], other@[j])),
                i <= N,
                data@.len() == i,
                forall|j: int| 0 <= j < i ==> call_ensures(
                    f,
                    (self@[j], other@[j]),
                    #[trigger] data@[j],
                ),
            decreases N - i,
        {
            data.push(f(self.index(i), other.index(i)));
            i += 1;
        }
        proof {
            assert forall|g: spec_fn(T, T) -> T|
                (forall|x: T, y: T, z: T| call_ensures(f, (x, y), z) ==> z == g(x, y))
                    implies data@ == #[trigger] combined(self@, other@, g) by {
                assert(data@ =~= combined(self@, other@, g));
            }
        }
        Tuple { data }
    }

    /// `f` applied to every element in place: the result's `i`-th element is
    /// what `f` returns on the operand's `i`-th element. With `f` scalar
    /// negation this is tuple negation; with `f` multiplication or division
    /// by a captured scalar, the scalar operations. The operand is left
    /// untouched.
    pub fn apply<F: Fn(T) -> T>(&self, f: F) -> (r: Self)
        requires
            forall|i: int| 0 <= i < N ==> call_requires(f, (self@[i],)),
        ensures
            self@.len() == N,
            r@.len() == N,
            forall|i: int| 0 <= i < N ==> call_ensures(f, (self@[i],), #[trigger] r@[i]),
            forall|g: spec_fn(T) -> T|
                (forall|x: T, z: T| call_ensures(f, (x,), z) ==> z == g(x)) ==> r@
                    == #[trigger] applied(self@, g),
    {
        proof {
            use_type_invariant(&*self);
        }
        let mut data: Vec<T> = Vec::new();
        let mut i: usize = 0;
        while i < N
            invariant
                self@.len() == N,
                forall|j: int| 0 <= j < N ==> call_requires(f, (self@[j],)),
                i <= N,
                data@.len() == i,
                forall|j: int| 0 <= j < i ==> call_ensures(f, (self@[j],), #[trigger] data@[j]),
            decreases N - i,
        {
            data.push(f(self.index(i)));
            i += 1;
        }
        proof {
            assert forall|g: spec_fn(T) -> T|
                (forall|x: T, z: T| call_ensures(f, (x,), z) ==> z == g(x)) implies data@
                == #[trigger] applied(self@, g) by {
                assert(data@ =~= applied(self@, g));
            }
        }
        Tuple { data }
    }

    /// Whether every pair of corresponding elements satisfies `p`. With `p` a
    /// tolerance predicate on scalars this is tolerance-based equality of two
    /// same-dimension tuples. True only if every pair can satisfy `p`; false
    /// only if some pair can fail it.
    pub fn all_pairs<F: Fn(T, T) -> bool>(&self, other: &Self, p: F) -> (r: bool)
        requires
            forall|i: int| 0 <= i < N ==> call_requires(p, (self@[i], other@[i])),
        ensures
            self@.len() == N,
            other@.len() == N,
            r ==> forall|i: int| 0 <= i < N ==> call_ensures(
                p,
                (self@[i], other@[i]),
                true,
            ),
            !r ==> exists|i: int| 0 <= i < N && call_ensures(
                p,
                (self@[i], other@[i]),
                false,
            ),
            forall|q: spec_fn(T, T) -> bool|
                (forall|x: T, y: T, z: bool| call_ensures(p, (x, y), z) ==> z == q(x, y)) ==> r
                    == #[trigger] pointwise(self@, other@, q),
    {
        proof {
            use_type_invariant(&*self);
            use_type_invariant(&*other);
        }
        let mut i: usize = 0;
        while i < N
            invariant
                self@.len() == N,
                other@.len() == N,
                forall|j: int| 0 <= j < N ==> call_requires(p, (self@[j], other@[j])),
                i <= N,
                forall|j: int| 0 <= j < i ==> call_ensures(
                    p,
                    (self@[j], other@[j]),
                    true,
                ),
            decreases N - i,
        {
            let ok = p(self.index(i), other.index(i));
            if !ok {
                proof {
                    assert forall|q: spec_fn(T, T) -> bool|
                        (forall|x: T, y: T, z: bool| call_ensures(p, (x, y), z) ==> z == q(x, y))
                            implies !(#[trigger] pointwise(self@, other@, q)) by {
                        assert(!q(self@[i as int], other@[i as int]));
                    }
                }
                return false;
            }
            i += 1;
        }
        proof {
            assert forall|q: spec_fn(T, T) -> bool|
                (forall|x: T, y: T, z: bool| call_ensures(p, (x, y), z) ==> z == q(x, y))
                    implies #[trigger] pointwise(self@, other@, q) by {
                assert forall|j: int| 0 <= j < self@.len() implies #[trigger] q(
                    self@[j],
                    other@[j],
                ) by {
                    assert(call_ensures(p, (self@[j], other@[j]), true));
                }
            }
        }
        true
    }
}

} // verus!
