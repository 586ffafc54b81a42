//! A guard that forwards an owned payload to a sink when finalized.

use vstd::prelude::*;

use crate::DropHandle;
use crate::DropMove;
use crate::DropMoveTypes;
use crate::DropMoveWrapper;

verus! {

/// The hidden field holder of a [`SinkGuard`]: the payload and the sink that
/// will consume it.
pub struct SinkGuardInner<T, G: FnOnce(T)> {
    /// The owned payload.
    pub payload: T,
    /// The function that receives the payload on finalization, such as one
    /// that returns it to a free list.
    pub sink: G,
}

/// Carries an owned payload to a sink.
///
/// On [`finalize`](SinkGuard::finalize) the finalizer takes both fields by
/// value and hands the payload to the sink, exactly once.  The non-finalizing
/// path [`into_inner`](SinkGuard::into_inner) instead returns both fields to
/// the caller, and the sink never runs.
pub struct SinkGuard<T, G: FnOnce(T)> {
    /// The cell owning the guard's fields.
    pub cell: DropMoveWrapper<SinkGuardInner<T, G>>,
}

impl<T, G: FnOnce(T)> DropMoveTypes for SinkGuardInner<T, G> {
    type Outer = SinkGuard<T, G>;

    open spec fn inner_of(outer: SinkGuard<T, G>) -> Self {
        outer.cell.inner
    }

    open spec fn outer_of(inner: Self) -> SinkGuard<T, G> {
        SinkGuard { cell: DropMoveWrapper { inner } }
    }

    proof fn lemma_inner_outer(x: Self) {
    }

    proof fn lemma_outer_inner(o: SinkGuard<T, G>) {
    }

    fn into_outer(self) -> (r: SinkGuard<T, G>) {
        SinkGuard { cell: DropMoveWrapper { inner: self } }
    }

    fn from_outer(o: SinkGuard<T, G>) -> (r: Self) {
        o.cell.inner
    }
}

impl<T, G: FnOnce(T)> DropMove for SinkGuardInner<T, G> {
    /// The sink must accept the payload.
    open spec fn finalizable(self) -> bool {
        call_requires(self.sink, (self.payload,))
    }

    /// The finalizer: take the fields and hand the payload to the sink.  The
    /// added postcondition records that the sink consumed the payload.
    fn drop_move(self_: DropHandle<Self>)
        ensures
            call_ensures(self_.inner().sink, ((self_.inner().payload),), ()),
    {
        let inner = DropHandle::into_inner(self_);
        (inner.sink)(inner.payload)
    }
}

impl<T, G: FnOnce(T)> SinkGuard<T, G> {
    /// Construct a guard that will hand `payload` to `sink` when finalized.
    pub fn new(payload: T, sink: G) -> (r: Self)
        ensures
            r == (SinkGuard {
                cell: DropMoveWrapper { inner: SinkGuardInner { payload, sink } },
            }),
    {
        SinkGuardInner { payload, sink }.into_outer()
    }

    /// Extract the payload and the sink without running the sink.
    pub fn into_inner(self) -> (r: (T, G))
        ensures
            r.0 == self.cell.inner.payload,
            r.1 == self.cell.inner.sink,
    {
        let inner = SinkGuardInner::from_outer(self);
        (inner.payload, inner.sink)
    }

    /// Tear the guard down: the sink receives the payload, exactly once.  On
    /// return, whatever the sink ensures of a call on the payload held.
    pub fn finalize(self)
        requires
            call_requires(self.cell.inner.sink, (self.cell.inner.payload,)),
        ensures
            call_ensures(self.cell.inner.sink, ((self.cell.inner.payload),), ()),
    {
        proof {
            SinkGuardInner::<T, G>::lemma_inner_outer(self.cell.inner);
        }
        DropMoveWrapper::finalize(self.cell)
    }

    /// Borrow the payload.
    pub fn borrow_payload(&self) -> (r: &T)
        ensures
            *r == self.cell.inner.payload,
    {
        &self.cell.inner.payload
    }
}

} // verus!
