//! A consuming-finalization protocol: values whose teardown logic receives
//! ownership of their fields, exactly once, without re-entering itself.
//!
//! Ordinary teardown hands a finalizer only a reference to the dying value, so
//! owned fields can never be moved out of it.  This crate turns teardown into
//! an explicit, consuming step.  A value's fields live in a hidden inner
//! structure; the public outer structure owns that inner structure through a
//! [`DropMoveWrapper`].  When the owner is done with the value it calls
//! [`DropMoveWrapper::finalize`] (directly or through a forwarding method of
//! the outer structure), which moves the inner structure out, wraps it in a
//! [`DropHandle`], and dispatches the handle to the finalizer declared by the
//! [`DropMove`] implementation.  The finalizer owns the fields and may consume
//! them; whatever it leaves in the handle is released through ordinary
//! per-field teardown by [`DropHandle::release`], a path that never dispatches
//! the finalizer again.
//!
//! Because every step consumes its input, a second extraction of the same
//! value, a double release of a field, or a re-dispatch of the finalizer from
//! the release path is not merely checked at run time: it cannot be written.

use vstd::prelude::*;

pub mod drop_guard;
pub mod drop_handle;
pub mod drop_move_wrap;
pub mod drop_wrapper;
pub mod sink_guard;

pub use drop_guard::DropGuard;
pub use drop_guard::DropGuardInner;
pub use drop_handle::DropHandle;
pub use drop_move_wrap::DropMoveWrapper;
pub use drop_wrapper::DropByValueWrapper;
pub use drop_wrapper::FieldPair;
pub use sink_guard::SinkGuard;
pub use sink_guard::SinkGuardInner;

verus! {

/// Ties an inner, field-holding structure to the outer structure that wraps
/// it.
///
/// The relationship is one-to-one and bidirectional: the outer structure owns
/// exactly one [`DropMoveWrapper`] around the inner structure, and converting
/// in either direction preserves the value.  The spec functions
/// [`inner_of`](DropMoveTypes::inner_of) and
/// [`outer_of`](DropMoveTypes::outer_of) are the mathematical halves of that
/// bijection; [`into_outer`](DropMoveTypes::into_outer) and
/// [`from_outer`](DropMoveTypes::from_outer) are the executable conversions,
/// each pinned to its spec half.  `from_outer` is the non-finalizing
/// destructure path: it consumes the outer structure without ever running the
/// finalizer.
pub trait DropMoveTypes: Sized {
    /// The outer structure wrapping `Self`.
    type Outer;

    /// The inner value held by an outer value.
    spec fn inner_of(outer: Self::Outer) -> Self;

    /// The outer value wrapping an inner value.
    spec fn outer_of(inner: Self) -> Self::Outer;

    /// Wrapping an inner value and reading it back yields the same value.
    proof fn lemma_inner_outer(x: Self)
        ensures
            Self::inner_of(Self::outer_of(x)) == x,
    ;

    /// Unwrapping an outer value and re-wrapping yields the same value.
    proof fn lemma_outer_inner(o: Self::Outer)
        ensures
            Self::outer_of(Self::inner_of(o)) == o,
    ;

    /// Wrap the inner structure into its outer structure.
    fn into_outer(self) -> (r: Self::Outer)
        ensures
            r == Self::outer_of(self),
    ;

    /// Consume the outer structure and return the inner structure, without
    /// running the finalizer.
    fn from_outer(o: Self::Outer) -> (r: Self)
        ensures
            r == Self::inner_of(o),
    ;
}

/// The finalizer capability: teardown that receives ownership of the value's
/// fields, through a [`DropHandle`], instead of a mere reference.
///
/// [`DropMoveWrapper::finalize`] is the only path that invokes
/// [`drop_move`](DropMove::drop_move), and it consumes the wrapper, so the
/// finalizer runs at most once per value.  The handle's own release path,
/// [`DropHandle::release`], tears the fields down individually and never
/// dispatches `drop_move` again; that distinction is what keeps a finalizer
/// from re-entering itself.
pub trait DropMove: DropMoveTypes {
    /// When the finalizer may run.  An implementation states here whatever its
    /// [`drop_move`](DropMove::drop_move) needs of the fields, such as the
    /// precondition of a stored function.
    spec fn finalizable(self) -> bool;

    /// Tear the value down, by move instead of by reference.
    ///
    /// The handle forwards the outer structure's surface, so the finalizer can
    /// call ordinary methods, and it can take the fields by value through
    /// [`DropHandle::into_inner`].  Reconstituting the outer structure with
    /// [`DropHandle::into_outer`] is allowed, but a finalizer that does so and
    /// then finalizes the result unconditionally never terminates; discarding
    /// the reconstituted value is harmless, since teardown only ever happens
    /// through an explicit call.
    ///
    /// If an implementation leaves this unwritten, teardown behaves like the
    /// ordinary kind: every field is released through its own per-field
    /// teardown.
    fn drop_move(self_: DropHandle<Self>)
        requires
            Self::inner_of(self_.outer).finalizable(),
    {
        DropHandle::release(self_);
    }
}

/// The conversions of [`DropMoveTypes`] compose to the identity: consuming a
/// value through the non-finalizing path and re-wrapping what came out yields
/// a value equal to the original, and the other way round.
pub proof fn lemma_round_trip<T: DropMoveTypes>(x: T, o: T::Outer)
    ensures
        T::inner_of(T::outer_of(x)) == x,
        T::outer_of(T::inner_of(o)) == o,
{
    T::lemma_inner_outer(x);
    T::lemma_outer_inner(o);
}

} // verus!
