//! Helpers for using boxes.

use vstd::prelude::*;

verus! {

/// Extension trait allowing placement-style construction: the stored value
/// is produced by a closure that runs as part of building the container.
pub trait BoxExt: Sized {
    /// Type stored in the box.
    type Stored;

    /// The value a finished container holds.
    spec fn stored(&self) -> Self::Stored;

    /// Creates the container, running the closure to produce the value it
    /// stores.
    fn new_with<F: FnOnce() -> Self::Stored>(f: F) -> (r: Self)
        requires
            f.requires(()),
        ensures
            f.ensures((), r.stored()),
    ;
}

impl<T> BoxExt for Box<T> {
    type Stored = T;

    open spec fn stored(&self) -> T {
        **self
    }

    fn new_with<F: FnOnce() -> T>(f: F) -> (r: Self) {
        Box::new(f())
    }
}

} // verus!
