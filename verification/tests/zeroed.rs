use possibly_uninit::boxed::BoxExt;
use possibly_uninit::zeroed::{PtrCount, ZeroValid};
use possibly_uninit::{BorrowOut, BorrowUninit, Out};

#[test]
fn test_box_new_with() {
    let b = Box::new_with(|| 42);
    assert_eq!(*b, 42);
}

#[test]
fn zeroed_scalars_are_canonical_zero() {
    assert_eq!(u8::zeroed(), 0);
    assert_eq!(i8::zeroed(), 0);
    assert_eq!(u16::zeroed(), 0);
    assert_eq!(i16::zeroed(), 0);
    assert_eq!(u32::zeroed(), 0);
    assert_eq!(i32::zeroed(), 0);
    assert_eq!(u64::zeroed(), 0);
    assert_eq!(i64::zeroed(), 0);
    assert_eq!(u128::zeroed(), 0);
    assert_eq!(i128::zeroed(), 0);
    assert_eq!(usize::zeroed(), 0);
    assert_eq!(isize::zeroed(), 0);
    assert_eq!(bool::zeroed(), false);
    assert_eq!(char::zeroed(), '\0');
    assert_eq!(<()>::zeroed(), ());
}

#[test]
fn zeroed_tuples_are_zero_componentwise() {
    assert_eq!(<(u8, bool)>::zeroed(), (0, false));
    assert_eq!(<(u8, u16, u32)>::zeroed(), (0, 0, 0));
    assert_eq!(<(u8, u16, u32, u64)>::zeroed(), (0, 0, 0, 0));
    assert_eq!(<(u8, u16, u32, u64, i8)>::zeroed(), (0, 0, 0, 0, 0));
    assert_eq!(<(u8, u16, u32, u64, i8, bool)>::zeroed(), (0, 0, 0, 0, 0, false));
}

#[test]
fn write_zeroes_overwrites_in_place() {
    let mut v: u32 = 77;
    v.write_zeroes();
    assert_eq!(v, 0);
}

#[test]
fn a_scalar_counts_as_one_cell() {
    let v: u64 = 3;
    assert_eq!(v.item_count(), 1);
}

#[test]
fn out_cell_write_then_read() {
    let cell: Out<u8> = Out::uninit();
    let cell = cell.write(5);
    assert_eq!(cell.into_assume_init(), 5);

    let mut cell: Out<u8> = Out::uninit();
    cell.write_mut(6);
    assert_eq!(*Out::assume_init_ref(&cell), 6);
}

#[test]
fn out_cell_zeroing_yields_zero_value() {
    let mut cell: Out<u32> = Out::uninit();
    cell.write_zeroes();
    assert_eq!(cell.into_assume_init(), 0);

    let cell: Out<bool> = Out::uninit();
    let cell = cell.into_zeroed();
    assert_eq!(cell.into_assume_init(), false);
}

#[test]
fn borrow_traits_on_plain_values_and_cells() {
    let mut value: u8 = 9;
    assert_eq!(*BorrowUninit::<u8>::assume_init_ref(&value), 9);
    BorrowOut::<u8>::init(&mut value, 12);
    assert_eq!(value, 12);
    BorrowOut::<u8>::zeroed_if_needed(&mut value);
    assert_eq!(value, 12);
    BorrowOut::<u8>::default_if_needed(&mut value);
    assert_eq!(value, 12);

    let mut cell: Out<u8> = Out::uninit();
    BorrowOut::<u8>::init(&mut cell, 8);
    assert_eq!(*BorrowUninit::<u8>::assume_init_ref(&cell), 8);

    let mut cell: Out<u16> = Out::uninit();
    BorrowOut::<u16>::zeroed_if_needed(&mut cell);
    assert_eq!(cell.into_assume_init(), 0);

    let mut cell: Out<u16> = Out::uninit();
    BorrowOut::<u16>::default_if_needed(&mut cell);
    assert_eq!(cell.into_assume_init(), 0);
}

#[test]
fn assume_init_mut_writes_through() {
    let mut cell: Out<u8> = Out::new(3);
    *Out::assume_init_mut(&mut cell) = 4;
    assert_eq!(cell.into_assume_init(), 4);

    let mut value: u8 = 1;
    *BorrowOut::<u8>::assume_init_mut(&mut value) = 2;
    assert_eq!(value, 2);
}

#[test]
fn zeroed_out_cell_is_unwritten() {
    let _cell: Out<String> = Out::zeroed();
}
