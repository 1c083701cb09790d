//! What every wrapper over a foreign value has in common.

use vstd::prelude::*;

verus! {

/// A local type that stands for a foreign value of type `T`.
///
/// The view of a wrapper is the foreign value that it stands for.
pub trait Wrappable<T>: Sized + View<V = T> {
    /// Whether a wrapper can stand for `raw`. For a handle, this is that it
    /// is not null.
    spec fn wrappable(raw: T) -> bool;

    /// Wraps a foreign value, or gives `None` where there is nothing to wrap.
    fn wrap(raw: T) -> (wrapped: Option<Self>)
        ensures
            Self::wrappable(raw) <==> wrapped is Some,
            wrapped matches Some(wrapper) ==> wrapper@ == raw,
    ;

    /// The foreign value that this wrapper stands for.
    fn unwrap(&self) -> (raw: T)
        ensures
            raw == self@,
            Self::wrappable(raw),
    ;
}

} // verus!
