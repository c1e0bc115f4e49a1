//! The zero-validity classifier and helpers for zeroing out storage.

use vstd::prelude::*;

verus! {

/// Trait declaring that overwriting the whole memory location of `Self` with
/// zeroes produces a valid value.
///
/// This is a closed, per-type declaration: it holds for the machine integer
/// types, `bool`, `char` and compositions thereof, and is never assumed for
/// arbitrary types.  Asking for the zero fast path on a type without the
/// declaration is rejected at compile time, not at run time.
pub trait ZeroValid: Sized {
    /// The canonical all-zero value of the type.
    spec fn zero() -> Self;

    /// Creates the value whose memory representation is all zeroes.
    fn zeroed() -> (r: Self)
        ensures
            r == Self::zero(),
    ;

    /// Overwrites the value with all zeroes.
    fn write_zeroes(&mut self)
        ensures
            *final(self) == Self::zero(),
    {
        *self = Self::zeroed();
    }
}

impl ZeroValid for bool {
    open spec fn zero() -> bool {
        false
    }

    fn zeroed() -> bool {
        false
    }
}

impl ZeroValid for char {
    open spec fn zero() -> char {
        '\0'
    }

    fn zeroed() -> char {
        '\0'
    }
}

impl ZeroValid for u8 {
    open spec fn zero() -> u8 {
        0
    }

    fn zeroed() -> u8 {
        0
    }
}

impl ZeroValid for i8 {
    open spec fn zero() -> i8 {
        0
    }

    fn zeroed() -> i8 {
        0
    }
}

impl ZeroValid for u16 {
    open spec fn zero() -> u16 {
        0
    }

    fn zeroed() -> u16 {
        0
    }
}

impl ZeroValid for i16 {
    open spec fn zero() -> i16 {
        0
    }

    fn zeroed() -> i16 {
        0
    }
}

impl ZeroValid for u32 {
    open spec fn zero() -> u32 {
        0
    }

    fn zeroed() -> u32 {
        0
    }
}

impl ZeroValid for i32 {
    open spec fn zero() -> i32 {
        0
    }

    fn zeroed() -> i32 {
        0
    }
}

impl ZeroValid for u64 {
    open spec fn zero() -> u64 {
        0
    }

    fn zeroed() -> u64 {
        0
    }
}

impl ZeroValid for i64 {
    open spec fn zero() -> i64 {
        0
    }

    fn zeroed() -> i64 {
        0
    }
}

impl ZeroValid for u128 {
    open spec fn zero() -> u128 {
        0
    }

    fn zeroed() -> u128 {
        0
    }
}

impl ZeroValid for i128 {
    open spec fn zero() -> i128 {
        0
    }

    fn zeroed() -> i128 {
        0
    }
}

impl ZeroValid for usize {
    open spec fn zero() -> usize {
        0
    }

    fn zeroed() -> usize {
        0
    }
}

impl ZeroValid for isize {
    open spec fn zero() -> isize {
        0
    }

    fn zeroed() -> isize {
        0
    }
}

impl ZeroValid for () {
    open spec fn zero() -> () {
        ()
    }

    fn zeroed() -> () {
        ()
    }
}

impl<A: ZeroValid, B: ZeroValid> ZeroValid for (A, B) {
    open spec fn zero() -> (A, B) {
        (A::zero(), B::zero())
    }

    fn zeroed() -> (A, B) {
        (A::zeroed(), B::zeroed())
    }
}

impl<A: ZeroValid, B: ZeroValid, C: ZeroValid> ZeroValid for (A, B, C) {
    open spec fn zero() -> (A, B, C) {
        (A::zero(), B::zero(), C::zero())
    }

    fn zeroed() -> (A, B, C) {
        (A::zeroed(), B::zeroed(), C::zeroed())
    }
}

impl<A: ZeroValid, B: ZeroValid, C: ZeroValid, D: ZeroValid> ZeroValid for (A, B, C, D) {
    open spec fn zero() -> (A, B, C, D) {
        (A::zero(), B::zero(), C::zero(), D::zero())
    }

    fn zeroed() -> (A, B, C, D) {
        (A::zeroed(), B::zeroed(), C::zeroed(), D::zeroed())
    }
}

impl<A: ZeroValid, B: ZeroValid, C: ZeroValid, D: ZeroValid, E: ZeroValid> ZeroValid for (
    A,
    B,
    C,
    D,
    E,
) {
    open spec fn zero() -> (A, B, C, D, E) {
        (A::zero(), B::zero(), C::zero(), D::zero(), E::zero())
    }

    fn zeroed() -> (A, B, C, D, E) {
        (A::zeroed(), B::zeroed(), C::zeroed(), D::zeroed(), E::zeroed())
    }
}

impl<A: ZeroValid, B: ZeroValid, C: ZeroValid, D: ZeroValid, E: ZeroValid, F: ZeroValid> ZeroValid for (
    A,
    B,
    C,
    D,
    E,
    F,
) {
    open spec fn zero() -> (A, B, C, D, E, F) {
        (A::zero(), B::zero(), C::zero(), D::zero(), E::zero(), F::zero())
    }

    fn zeroed() -> (A, B, C, D, E, F) {
        (A::zeroed(), B::zeroed(), C::zeroed(), D::zeroed(), E::zeroed(), F::zeroed())
    }
}

/// Trait unifying a single value and a buffer of values for the purpose of
/// counting storage cells: a scalar stands for exactly one cell, a buffer for
/// as many cells as it has elements.
pub trait PtrCount {
    /// Either `Self` or the type of one element of the buffer.
    type Item;

    /// How many cells of type `Self::Item` the value occupies.
    fn item_count(&self) -> usize;
}

/// Marker trait declaring that every bit pattern a cell of
/// `<Self as PtrCount>::Item` may hold is a valid value of that type.
pub trait AnyValid: PtrCount {
}

impl<T> PtrCount for T {
    type Item = T;

    fn item_count(&self) -> (n: usize)
        ensures
            n == 1,
    {
        1
    }
}

impl<T> AnyValid for T {
}

} // verus!
