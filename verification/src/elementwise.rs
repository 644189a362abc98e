//! Elementwise operations on sequences, and the algebraic laws they obey.
//!
//! A `Tuple` views as a `Seq` of scalars; the spec functions here say what an
//! elementwise operation produces on such a view, and the proof functions
//! state the laws of the tuple algebra: any law about the scalars lifts
//! pointwise to the whole sequence.

use vstd::prelude::*;

verus! {

/// The sequence whose `i`-th element is `f(a[i], b[i])`: the elementwise
/// combination of `a` and `b`, with `a`'s length.
pub open spec fn combined<T>(a: Seq<T>, b: Seq<T>, f: spec_fn(T, T) -> T) -> Seq<T> {
    Seq::new(a.len(), |i: int| f(a[i], b[i]))
}

/// The sequence whose `i`-th element is `f(a[i])`: `f` applied to every
/// element of `a` in place.
pub open spec fn applied<T>(a: Seq<T>, f: spec_fn(T) -> T) -> Seq<T> {
    Seq::new(a.len(), |i: int| f(a[i]))
}

/// Whether `a` and `b` have the same length and every pair of corresponding
/// elements satisfies `p`. With `p` a tolerance predicate on scalars, this is
/// tolerance-based equality of the two sequences.
pub open spec fn pointwise<T>(a: Seq<T>, b: Seq<T>, p: spec_fn(T, T) -> bool) -> bool {
    a.len() == b.len() && forall|i: int| 0 <= i < a.len() ==> #[trigger] p(a[i], b[i])
}

/// Tolerance equality is reflexive whenever the scalar predicate is: a
/// sequence is pointwise equal to itself.
pub proof fn lemma_pointwise_reflexive<T>(a: Seq<T>, p: spec_fn(T, T) -> bool)
    requires
        forall|x: T| #[trigger] p(x, x),
    ensures
        pointwise(a, a, p),
{
}

/// Elementwise combination is commutative whenever the scalar operation is:
/// combining `a` with `b` gives exactly the same sequence as combining `b`
/// with `a`.
pub proof fn lemma_combined_commutative<T>(a: Seq<T>, b: Seq<T>, f: spec_fn(T, T) -> T)
    requires
        a.len() == b.len(),
        forall|x: T, y: T| #[trigger] f(x, y) == f(y, x),
    ensures
        combined(a, b, f) == combined(b, a, f),
{
    assert(combined(a, b, f) =~= combined(b, a, f));
}

/// Elementwise commutativity restated through the tolerance predicate:
/// whenever the scalar operation commutes and the predicate is reflexive,
/// `combined(a, b, f)` and `combined(b, a, f)` are pointwise equal.
pub proof fn lemma_combined_commutes_within<T>(
    a: Seq<T>,
    b: Seq<T>,
    f: spec_fn(T, T) -> T,
    p: spec_fn(T, T) -> bool,
)
    requires
        a.len() == b.len(),
        forall|x: T, y: T| #[trigger] f(x, y) == f(y, x),
        forall|x: T| #[trigger] p(x, x),
    ensures
        pointwise(combined(a, b, f), combined(b, a, f), p),
{
    lemma_combined_commutative(a, b, f);
    lemma_pointwise_reflexive(combined(a, b, f), p);
}

/// Subtraction decomposes into addition of the negation: whenever the scalar
/// operations satisfy `fsub(x, y) == fadd(x, fneg(y))`, combining `a` and `b`
/// with `fsub` gives exactly combining `a` with the negation of `b` under
/// `fadd`.
pub proof fn lemma_combined_via_applied<T>(
    a: Seq<T>,
    b: Seq<T>,
    fsub: spec_fn(T, T) -> T,
    fadd: spec_fn(T, T) -> T,
    fneg: spec_fn(T) -> T,
)
    requires
        a.len() == b.len(),
        forall|x: T, y: T| #[trigger] fsub(x, y) == fadd(x, fneg(y)),
    ensures
        combined(a, b, fsub) == combined(a, applied(b, fneg), fadd),
{
    assert(combined(a, b, fsub) =~= combined(a, applied(b, fneg), fadd));
}

/// Applying an operation and then its inverse restores the sequence exactly:
/// whenever `g(f(x)) == x` for every scalar, `applied(applied(a, f), g) == a`.
/// With `f` scaling by `k` and `g` dividing by the same nonzero `k`, this is
/// the scale-then-unscale round trip.
pub proof fn lemma_applied_inverse<T>(a: Seq<T>, f: spec_fn(T) -> T, g: spec_fn(T) -> T)
    requires
        forall|x: T| #[trigger] g(f(x)) == x,
    ensures
        applied(applied(a, f), g) == a,
{
    assert(applied(applied(a, f), g) =~= a);
}

/// An involution applied twice restores the sequence exactly: whenever
/// `f(f(x)) == x` for every scalar (negation, for instance),
/// `applied(applied(a, f), f) == a`.
pub proof fn lemma_applied_involution<T>(a: Seq<T>, f: spec_fn(T) -> T)
    requires
        forall|x: T| #[trigger] f(f(x)) == x,
    ensures
        applied(applied(a, f), f) == a,
{
    lemma_applied_inverse(a, f, f);
}

} // verus!
