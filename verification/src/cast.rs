//! Conversion from containers of possibly-uninitialized cells to their
//! fully-initialized counterparts.
//!
//! The conversion is only available once every cell of the container is
//! provably written; the proof obligation replaces the unchecked reinterpret
//! step such a conversion would otherwise need.

use vstd::prelude::*;

use crate::slice::{region_values, BorrowOutSlice, BorrowUninitSlice, OutSlice};

verus! {

/// Array type constructor: names, for a container shape holding
/// possibly-uninitialized cells, the same shape holding initialized
/// elements.
pub trait ArrTc<Item> {
    /// The initialized counterpart of the container.
    type Arr;
}

impl<T> ArrTc<T> for OutSlice<T> {
    type Arr = Vec<T>;
}

impl<T> ArrTc<T> for Vec<T> {
    type Arr = Vec<T>;
}

/// Initialization type constructor: converts a container of
/// possibly-uninitialized cells into its initialized counterpart, keeping
/// the elements cell for cell.
pub trait InitTc<Item>: ArrTc<Item> + BorrowOutSlice<Item> + Sized {
    /// The elements an initialized container holds.
    spec fn output_values(output: Self::Arr) -> Seq<Item>;

    /// Converts the container, which the caller must prove fully written,
    /// into its initialized counterpart.
    fn cast(self) -> (r: Self::Arr)
        requires
            forall|i: int| 0 <= i < self.region().len() ==> self.region()[i] is Some,
        ensures
            Self::output_values(r) == region_values(self.region()),
    ;
}

impl<T> InitTc<T> for OutSlice<T> {
    open spec fn output_values(output: Vec<T>) -> Seq<T> {
        output@
    }

    fn cast(self) -> (r: Vec<T>) {
        self.into_assume_init()
    }
}

impl<T> InitTc<T> for Vec<T> {
    open spec fn output_values(output: Vec<T>) -> Seq<T> {
        output@
    }

    /// A buffer of valid elements already is its initialized counterpart.
    fn cast(self) -> (r: Vec<T>) {
        proof {
            assert(region_values(self.region()) =~= self@);
        }
        self
    }
}

} // verus!
