//! Traits and types for working with partially initialized storage, with the
//! safety rules stated as machine-checked contracts.
//!
//! A storage cell either *holds a written value* or is *unwritten*.  The types
//! here let code fill cells, regions of cells and position-tracked buffers
//! while the verifier proves that no unwritten cell is ever read: every read
//! path carries a `requires` clause demanding that the cell was written, and
//! the write-only handles are the only public way to reach the written state.
//!
//! The main entry points are [`Out`], a write-only handle over a single cell,
//! `slice::OutSlice`, a region of such cells, and `slice::Cursor`, which
//! tracks how many leading cells of a region are initialized.

use vstd::prelude::*;

pub mod borrow;
pub mod boxed;
pub mod cast;
pub mod deref_markers;
pub mod slice;
pub mod zeroed;

pub use borrow::BorrowOut;
pub use borrow::BorrowUninit;

use crate::zeroed::ZeroValid;

verus! {

/// A single storage cell for a value of type `T` that starts out unwritten
/// and only ever moves to the written state by receiving a whole, valid `T`.
///
/// The handle is write-only: no public operation yields the stored value, or
/// a reference to it, without a proof obligation that the cell was written.
/// This rules out by construction the bug where live data is replaced with a
/// partially formed value and then read back.
pub struct Out<T> {
    slot: Option<T>,
}

impl<T> View for Out<T> {
    type V = Option<T>;

    closed spec fn view(&self) -> Option<T> {
        self.slot
    }
}

impl<T> Out<T> {
    /// True when the cell holds a value written through this handle's API.
    pub open spec fn is_written(&self) -> bool {
        self@ is Some
    }

    /// The value held by a written cell.
    pub open spec fn value(&self) -> T
        recommends
            self.is_written(),
    {
        self@->0
    }

    /// Creates an unwritten cell.
    pub fn uninit() -> (r: Self)
        ensures
            !r.is_written(),
    {
        Out { slot: None }
    }

    /// Writes a valid value into the cell, initializing it.
    ///
    /// This consumes the handle; the written cell is returned, so the caller
    /// keeps access to the (now provably initialized) value.
    pub fn write(self, value: T) -> (r: Self)
        ensures
            r.is_written(),
            r.value() == value,
    {
        Out { slot: Some(value) }
    }

    /// Writes a valid value into the cell, initializing it in place.
    ///
    /// Same as `write`, except that it works through a mutable reference
    /// instead of consuming the handle.
    pub fn write_mut(&mut self, value: T)
        ensures
            final(self).is_written(),
            final(self).value() == value,
    {
        self.slot = Some(value);
    }

    /// Takes the stored value out of a written cell.
    ///
    /// The caller must prove that the cell was written; there is no runtime
    /// path from an unwritten cell to a `T`.
    pub fn into_assume_init(self) -> (r: T)
        requires
            self.is_written(),
        ensures
            r == self.value(),
    {
        match self.slot {
            Some(v) => v,
            None => vstd::pervasive::unreached(),
        }
    }

    /// Borrows the stored value of a written cell.
    pub fn assume_init_ref(&self) -> (r: &T)
        requires
            self.is_written(),
        ensures
            *r == self.value(),
    {
        match &self.slot {
            Some(v) => v,
            None => vstd::pervasive::unreached(),
        }
    }

    /// Mutably borrows the stored value of a written cell.
    ///
    /// The returned reference can replace the value only with another whole
    /// `T`, so the cell stays written.
    pub fn assume_init_mut(&mut self) -> (r: &mut T)
        requires
            old(self).is_written(),
        ensures
            *r == old(self).value(),
            final(self).is_written(),
            final(self).value() == *final(r),
    {
        match &mut self.slot {
            Some(v) => v,
            None => vstd::pervasive::unreached(),
        }
    }

    /// Overwrites the cell with the all-zero value of `T`, initializing it.
    ///
    /// Only element types that declare the all-zero bit pattern valid (via
    /// [`ZeroValid`]) offer this fast path.
    pub fn write_zeroes(&mut self) where T: ZeroValid
        ensures
            final(self).is_written(),
            final(self).value() == T::zero(),
    {
        self.slot = Some(T::zeroed());
    }

    /// Overwrites the cell with the all-zero value of `T` and hands back the
    /// written cell, consuming the handle.
    pub fn into_zeroed(self) -> (r: Self) where T: ZeroValid
        ensures
            r.is_written(),
            r.value() == T::zero(),
    {
        Out { slot: Some(T::zeroed()) }
    }
}

impl<T> Out<T> {
    /// Wraps an already valid value as a written cell.
    pub fn new(value: T) -> (r: Self)
        ensures
            r.is_written(),
            r.value() == value,
    {
        Out { slot: Some(value) }
    }
}

/// A cell of any `T` may be zeroed, because the zeroed cell is merely
/// unwritten.  Note that this says nothing about `T` itself: zeroing a cell
/// of `T` never produces a written value of `T`.
impl<T> ZeroValid for Out<T> {
    closed spec fn zero() -> Out<T> {
        Out { slot: None }
    }

    fn zeroed() -> (r: Out<T>) {
        Out { slot: None }
    }
}

} // verus!
