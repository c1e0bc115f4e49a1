//! Borrowing single values as possibly-uninitialized cells.
//!
//! These traits let code be generic over "anything that can stand for one
//! storage cell": a plain value, which is always a written cell holding
//! itself, or an [`Out`] handle, whose cell may still be unwritten.

use vstd::prelude::*;

use crate::zeroed::ZeroValid;
use crate::Out;

verus! {

/// Read access to a value as a single possibly-uninitialized cell.
///
/// The cell spec must denote the same underlying storage across calls; every
/// operation below relates its final cell to its initial one, so this holds
/// by construction for the implementations here.
pub trait BorrowUninit<Borrowed> {
    /// The borrowed cell: `None` when unwritten.
    spec fn cell(&self) -> Option<Borrowed>;

    /// Borrows the element of a written cell.
    ///
    /// The caller must prove that the cell was written; there is no runtime
    /// path from an unwritten cell to a reference.
    fn assume_init_ref(&self) -> (r: &Borrowed)
        requires
            <Self as BorrowUninit<Borrowed>>::cell(self) is Some,
        ensures
            *r == <Self as BorrowUninit<Borrowed>>::cell(self)->0,
    ;
}

/// Write access to a value as a single possibly-uninitialized cell.
pub trait BorrowOut<Borrowed>: BorrowUninit<Borrowed> {
    /// Initializes the cell with a whole, valid value; this is the only
    /// path that moves the borrowed cell to the written state.
    fn init(&mut self, item: Borrowed)
        ensures
            <Self as BorrowUninit<Borrowed>>::cell(final(self)) == Some(item),
    ;

    /// Mutably borrows the element of a written cell.
    ///
    /// The caller must prove that the cell was written; the returned
    /// reference can replace the element only with another whole value, so
    /// the cell stays written.
    fn assume_init_mut(&mut self) -> (r: &mut Borrowed)
        requires
            <Self as BorrowUninit<Borrowed>>::cell(old(self)) is Some,
        ensures
            *r == <Self as BorrowUninit<Borrowed>>::cell(old(self))->0,
            <Self as BorrowUninit<Borrowed>>::cell(final(self)) == Some(*final(r)),
    ;

    /// Brings the cell to the written state, overwriting it with the
    /// default value only where the storage actually needs it.
    ///
    /// On storage that already holds a valid value this is a no-op, so
    /// callers learn only that the cell is written afterwards.
    fn default_if_needed(&mut self) where Borrowed: Default
        ensures
            <Self as BorrowUninit<Borrowed>>::cell(final(self)) is Some,
    ;

    /// Brings the cell to the written state, overwriting it with zeroes
    /// only where the storage actually needs it.
    ///
    /// On storage that already holds a valid value this is a no-op, so
    /// callers learn only that the cell is written afterwards.
    fn zeroed_if_needed(&mut self) where Borrowed: ZeroValid
        ensures
            <Self as BorrowUninit<Borrowed>>::cell(final(self)) is Some,
    ;
}

impl<T> BorrowUninit<T> for T {
    /// A plain value is a written cell holding itself.
    open spec fn cell(&self) -> Option<T> {
        Some(*self)
    }

    fn assume_init_ref(&self) -> &T {
        self
    }
}

impl<T> BorrowOut<T> for T {
    fn init(&mut self, item: T) {
        *self = item;
    }

    fn assume_init_mut(&mut self) -> &mut T {
        self
    }

    /// A plain value is already valid, so nothing is overwritten.
    fn default_if_needed(&mut self) where T: Default {
    }

    /// A plain value is already valid, so nothing is overwritten.
    fn zeroed_if_needed(&mut self) where T: ZeroValid {
    }
}

impl<T> BorrowUninit<T> for Out<T> {
    open spec fn cell(&self) -> Option<T> {
        self@
    }

    fn assume_init_ref(&self) -> &T {
        Out::assume_init_ref(self)
    }
}

impl<T> BorrowOut<T> for Out<T> {
    fn init(&mut self, item: T) {
        self.write_mut(item);
    }

    fn assume_init_mut(&mut self) -> &mut T {
        Out::assume_init_mut(self)
    }

    /// An unwritten cell must actually receive a value, so the default
    /// value is written unconditionally.
    fn default_if_needed(&mut self) where T: Default {
        self.write_mut(T::default());
    }

    /// An unwritten cell must actually receive a value, so zeroes are
    /// written unconditionally.
    fn zeroed_if_needed(&mut self) where T: ZeroValid {
        self.write_zeroes();
    }
}

} // verus!
