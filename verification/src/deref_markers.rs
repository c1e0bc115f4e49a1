//! Marker traits recording stability properties of dereferenceable types.
//!
//! These are trusted capability declarations with no runtime representation:
//! an implementer promises, by writing the impl, that the wrapper behaves as
//! the trait's documentation says.  Nothing here is checked mechanically;
//! the traits only exist so that generic code can demand the promise.

use vstd::prelude::*;

verus! {

/// Marker trait for types whose dereference target is the same data on
/// every call.
///
/// A dereference implementation could legally hand out different data each
/// time it is called; code that builds storage views on top of a wrapper
/// must be able to rule that out, so it bounds the wrapper by this trait.
pub trait SameDataDeref {
}

/// Marker trait for types that dereference to a stable address, even when
/// the wrapper itself is moved.
///
/// This is the promise a heap-owning container makes: moving the container
/// moves only the handle, not the storage behind it.  It implies
/// [`SameDataDeref`].
pub trait StableDeref: SameDataDeref {
}

impl<T> SameDataDeref for &T {
}

impl<T> StableDeref for &T {
}

impl<T> SameDataDeref for &mut T {
}

impl<T> StableDeref for &mut T {
}

impl<T> SameDataDeref for Box<T> {
}

impl<T> StableDeref for Box<T> {
}

impl<T> SameDataDeref for Vec<T> {
}

impl<T> StableDeref for Vec<T> {
}

} // verus!
