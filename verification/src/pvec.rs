//! The persistent vectors (`imbl::Vector`) that hold tap times and scale
//! degrees. The vector lives in a private field of [`PVector`], whose
//! contents are known only through the names below; each function here makes
//! one call into `imbl` and states what the call does to the contents.

use vstd::prelude::*;

use crate::note::Degree;

verus! {

/// A persistent vector of `imbl`, held opaquely.
#[verifier::external_body]
#[verifier::reject_recursive_types(A)]
pub struct PVector<A> {
    inner: imbl::Vector<A>,
}

/// The tap timestamps held by a vector, front to back.
pub uninterp spec fn stamp_items(v: PVector<u64>) -> Seq<u64>;

/// The scale degrees held by a vector, front to back.
pub uninterp spec fn degree_items(v: PVector<Degree>) -> Seq<Degree>;

/// `imbl::GenericVector::new`: a vector with no elements.
#[verifier::external_body]
pub(crate) fn stamps_new() -> (v: PVector<u64>)
    ensures
        stamp_items(v) == Seq::<u64>::empty(),
{
    PVector { inner: imbl::Vector::new() }
}

/// `imbl::GenericVector::len`: the number of elements.
#[verifier::external_body]
pub(crate) fn stamps_len(v: &PVector<u64>) -> (n: usize)
    ensures
        n == stamp_items(*v).len(),
{
    v.inner.len()
}

/// `imbl::GenericVector::get`: the element at `index`, if there is one.
#[verifier::external_body]
pub(crate) fn stamps_get(v: &PVector<u64>, index: usize) -> (r: Option<u64>)
    ensures
        index < stamp_items(*v).len() ==> r == Some(stamp_items(*v)[index as int]),
        index >= stamp_items(*v).len() ==> r is None,
{
    v.inner.get(index).copied()
}

/// `imbl::GenericVector::front`: the first element, if any.
#[verifier::external_body]
pub(crate) fn stamps_front(v: &PVector<u64>) -> (r: Option<u64>)
    ensures
        stamp_items(*v).len() > 0 ==> r == Some(stamp_items(*v)[0]),
        stamp_items(*v).len() == 0 ==> r is None,
{
    v.inner.front().copied()
}

/// `imbl::GenericVector::last`: the last element, if any.
#[verifier::external_body]
pub(crate) fn stamps_last(v: &PVector<u64>) -> (r: Option<u64>)
    ensures
        stamp_items(*v).len() > 0 ==> r == Some(stamp_items(*v).last()),
        stamp_items(*v).len() == 0 ==> r is None,
{
    v.inner.last().copied()
}

/// `imbl::GenericVector::push_back`: appends `value` at the back.
#[verifier::external_body]
pub(crate) fn stamps_push_back(v: &mut PVector<u64>, value: u64)
    ensures
        stamp_items(*final(v)) == stamp_items(*old(v)).push(value),
{
    v.inner.push_back(value)
}

/// `Clone::clone` of `imbl::GenericVector`: a vector with the same elements.
#[verifier::external_body]
pub(crate) fn stamps_clone(v: &PVector<u64>) -> (r: PVector<u64>)
    ensures
        stamp_items(r) == stamp_items(*v),
{
    PVector { inner: v.inner.clone() }
}

/// `imbl::GenericVector::skip`: the elements after the first `count`; empty
/// when `count` reaches the length.
#[verifier::external_body]
pub(crate) fn stamps_skip(v: &PVector<u64>, count: usize) -> (r: PVector<u64>)
    ensures
        count >= stamp_items(*v).len() ==> stamp_items(r) == Seq::<u64>::empty(),
        count < stamp_items(*v).len() ==> stamp_items(r) == stamp_items(*v).skip(count as int),
{
    PVector { inner: v.inner.skip(count) }
}

/// `imbl::GenericVector::new`: a vector with no degrees.
#[verifier::external_body]
pub(crate) fn degrees_new() -> (v: PVector<Degree>)
    ensures
        degree_items(v) == Seq::<Degree>::empty(),
{
    PVector { inner: imbl::Vector::new() }
}

/// `imbl::GenericVector::len`: the number of degrees.
#[verifier::external_body]
pub(crate) fn degrees_len(v: &PVector<Degree>) -> (n: usize)
    ensures
        n == degree_items(*v).len(),
{
    v.inner.len()
}

/// `imbl::GenericVector::get`: the degree at `index`, if there is one.
#[verifier::external_body]
pub(crate) fn degrees_get(v: &PVector<Degree>, index: usize) -> (r: Option<Degree>)
    ensures
        index < degree_items(*v).len() ==> r == Some(degree_items(*v)[index as int]),
        index >= degree_items(*v).len() ==> r is None,
{
    v.inner.get(index).copied()
}

/// `imbl::GenericVector::push_back`: appends a degree at the back.
#[verifier::external_body]
pub(crate) fn degrees_push_back(v: &mut PVector<Degree>, value: Degree)
    ensures
        degree_items(*final(v)) == degree_items(*old(v)).push(value),
{
    v.inner.push_back(value)
}

impl PVector<u64> {
    /// A vector of timestamps with the given elements, in order.
    pub fn from_slice(values: &[u64]) -> (v: PVector<u64>)
        ensures
            stamp_items(v) == values@,
    {
        let mut v = stamps_new();
        let mut i: usize = 0;
        while i < values.len()
            invariant
                i <= values@.len(),
                stamp_items(v) == values@.subrange(0, i as int),
            decreases values@.len() - i,
        {
            stamps_push_back(&mut v, values[i]);
            assert(values@.subrange(0, i as int).push(values@[i as int]) == values@.subrange(
                0,
                i + 1,
            ));
            i = i + 1;
        }
        assert(values@.subrange(0, values@.len() as int) == values@);
        v
    }

    /// The timestamps, front to back, as a `Vec`.
    pub fn to_vec(&self) -> (out: Vec<u64>)
        ensures
            out@ == stamp_items(*self),
    {
        let n = stamps_len(self);
        let mut out: Vec<u64> = Vec::new();
        let mut i: usize = 0;
        while i < n
            invariant
                n == stamp_items(*self).len(),
                i <= n,
                out@ == stamp_items(*self).subrange(0, i as int),
            decreases n - i,
        {
            match stamps_get(self, i) {
                Some(x) => {
                    out.push(x);
                },
                None => {},
            }
            assert(stamp_items(*self).subrange(0, i as int).push(stamp_items(*self)[i as int])
                == stamp_items(*self).subrange(0, i + 1));
            i = i + 1;
        }
        assert(stamp_items(*self).subrange(0, n as int) == stamp_items(*self));
        out
    }
}

} // verus!
