//! The non-finalizing structural wrapper and its forwarded behaviours.

use core::cmp::Ordering;
use vstd::pervasive::cloned;
use vstd::prelude::*;
use vstd::std_specs::cmp::PartialEqSpec;
use vstd::std_specs::cmp::PartialOrdSpec;

verus! {

/// A transparent wrapper for a value that takes part in the public/hidden
/// pairing without a finalizer of its own.
///
/// It holds `T`, forwards access to it, and is left through
/// [`destructure`](DropByValueWrapper::destructure), a plain consuming move.
/// Comparison and cloning delegate to `T` field for field, so a wrapped value
/// behaves under `==`, ordering and hashing exactly as the value it wraps.
#[derive(Debug, Hash, Ord)]
pub struct DropByValueWrapper<T> {
    /// The wrapped value.
    pub inner: T,
}

impl<T> DropByValueWrapper<T> {
    /// Wrap a value.
    pub fn new(t: T) -> (r: Self)
        ensures
            r == (DropByValueWrapper { inner: t }),
    {
        DropByValueWrapper { inner: t }
    }

    /// Consume the wrapper and return the wrapped value.
    pub fn destructure(self_: Self) -> (r: T)
        ensures
            r == self_.inner,
    {
        self_.inner
    }

    /// Borrow the wrapped value.
    pub fn borrow(&self) -> (r: &T)
        ensures
            *r == self.inner,
    {
        &self.inner
    }

    /// Mutably borrow the wrapped value.
    pub fn borrow_mut(&mut self) -> (r: &mut T)
        ensures
            *r == old(self).inner,
            final(self).inner == *final(r),
    {
        &mut self.inner
    }
}

impl<T> From<T> for DropByValueWrapper<T> {
    /// Wrapping through `From` is the same as [`DropByValueWrapper::new`].
    fn from(t: T) -> (r: Self) {
        DropByValueWrapper::new(t)
    }
}

impl<T> vstd::std_specs::convert::FromSpecImpl<T> for DropByValueWrapper<T> {
    open spec fn obeys_from_spec() -> bool {
        true
    }

    open spec fn from_spec(t: T) -> Self {
        DropByValueWrapper { inner: t }
    }
}

impl<T: Clone> Clone for DropByValueWrapper<T> {
    /// Cloning delegates to the wrapped value's own clone.
    fn clone(&self) -> (r: Self)
        ensures
            cloned::<T>(self.inner, r.inner),
    {
        DropByValueWrapper { inner: self.inner.clone() }
    }
}

impl<T: Default> Default for DropByValueWrapper<T> {
    /// The default wrapper wraps the wrapped type's default value.
    fn default() -> (r: Self)
        ensures
            call_ensures(T::default, (), r.inner),
    {
        DropByValueWrapper { inner: T::default() }
    }
}

impl<T: PartialEq> PartialEq for DropByValueWrapper<T> {
    /// Equality delegates to the wrapped values.
    fn eq(&self, other: &Self) -> bool {
        self.inner.eq(&other.inner)
    }

    /// Inequality delegates to the wrapped values.
    fn ne(&self, other: &Self) -> bool {
        self.inner.ne(&other.inner)
    }
}

impl<T: PartialEq> vstd::std_specs::cmp::PartialEqSpecImpl for DropByValueWrapper<T> {
    open spec fn obeys_eq_spec() -> bool {
        T::obeys_eq_spec()
    }

    open spec fn eq_spec(&self, other: &Self) -> bool {
        self.inner.eq_spec(&other.inner)
    }
}

impl<T: Eq> Eq for DropByValueWrapper<T> {

}

impl<T: PartialOrd> PartialOrd for DropByValueWrapper<T> {
    /// Ordering delegates to the wrapped values.
    fn partial_cmp(&self, other: &Self) -> Option<Ordering> {
        self.inner.partial_cmp(&other.inner)
    }

    fn lt(&self, other: &Self) -> bool {
        self.inner.lt(&other.inner)
    }

    fn le(&self, other: &Self) -> bool {
        self.inner.le(&other.inner)
    }

    fn gt(&self, other: &Self) -> bool {
        self.inner.gt(&other.inner)
    }

    fn ge(&self, other: &Self) -> bool {
        self.inner.ge(&other.inner)
    }
}

impl<T: PartialOrd> vstd::std_specs::cmp::PartialOrdSpecImpl for DropByValueWrapper<T> {
    open spec fn obeys_partial_cmp_spec() -> bool {
        T::obeys_partial_cmp_spec()
    }

    open spec fn partial_cmp_spec(&self, other: &Self) -> Option<Ordering> {
        self.inner.partial_cmp_spec(&other.inner)
    }
}

/// The wrapper's comparisons are exactly the wrapped values' comparisons:
/// equality and ordering delegate field for field.
pub proof fn lemma_wrapper_delegates<T: PartialOrd>(
    a: DropByValueWrapper<T>,
    b: DropByValueWrapper<T>,
)
    ensures
        a.eq_spec(&b) == a.inner.eq_spec(&b.inner),
        a.partial_cmp_spec(&b) == a.inner.partial_cmp_spec(&b.inner),
{
}

/// A record of two independently comparable fields: the structural example
/// wrapped by [`DropByValueWrapper`] where no finalizer is wanted.  Its
/// ordering compares `first` first and `second` second; its equality is
/// field-for-field equality.
#[derive(Clone, Copy, Debug, Hash, Ord)]
pub struct FieldPair {
    /// The field compared first.
    pub first: u32,
    /// The field compared second.
    pub second: u32,
}

impl PartialEq for FieldPair {
    /// Two pairs are equal when both fields agree.
    fn eq(&self, other: &Self) -> bool {
        self.first == other.first && self.second == other.second
    }
}

impl vstd::std_specs::cmp::PartialEqSpecImpl for FieldPair {
    open spec fn obeys_eq_spec() -> bool {
        true
    }

    open spec fn eq_spec(&self, other: &Self) -> bool {
        self.first == other.first && self.second == other.second
    }
}

impl Eq for FieldPair {

}

impl PartialOrd for FieldPair {
    /// Pairs are ordered by `first`, then by `second`.
    fn partial_cmp(&self, other: &Self) -> Option<Ordering> {
        if self.first < other.first {
            Some(Ordering::Less)
        } else if self.first > other.first {
            Some(Ordering::Greater)
        } else if self.second < other.second {
            Some(Ordering::Less)
        } else if self.second > other.second {
            Some(Ordering::Greater)
        } else {
            Some(Ordering::Equal)
        }
    }
}

impl vstd::std_specs::cmp::PartialOrdSpecImpl for FieldPair {
    open spec fn obeys_partial_cmp_spec() -> bool {
        true
    }

    open spec fn partial_cmp_spec(&self, other: &Self) -> Option<Ordering> {
        if self.first < other.first {
            Some(Ordering::Less)
        } else if self.first > other.first {
            Some(Ordering::Greater)
        } else if self.second < other.second {
            Some(Ordering::Less)
        } else if self.second > other.second {
            Some(Ordering::Greater)
        } else {
            Some(Ordering::Equal)
        }
    }
}

/// Equality and ordering agree on [`FieldPair`]: two pairs are equal exactly
/// when comparing them yields `Equal`.
pub proof fn lemma_pair_eq_iff_cmp_equal(a: FieldPair, b: FieldPair)
    ensures
        a.eq_spec(&b) <==> a.partial_cmp_spec(&b) == Some(Ordering::Equal),
{
}

/// Equality and ordering agree on a wrapped [`FieldPair`] as well: the
/// wrapper's forwarded comparisons keep the two consistent with each other.
pub proof fn lemma_wrapped_pair_eq_iff_cmp_equal(
    a: DropByValueWrapper<FieldPair>,
    b: DropByValueWrapper<FieldPair>,
)
    ensures
        a.eq_spec(&b) <==> a.partial_cmp_spec(&b) == Some(Ordering::Equal),
{
}

} // verus!
