use possibly_uninit::slice::cursor::Cursor;
use possibly_uninit::slice::OutSlice;

#[test]
fn slice() {
    let uninit = OutSlice::<u8>::new_uninit(4);
    let mut cursor = Cursor::new(uninit);
    cursor.push(0).expect("Array full");
    cursor.push(1).expect("Array full");
    cursor.push(2).expect("Array full");
    cursor.push(3).expect("Array full");

    assert_eq!(cursor.written(), &[0, 1, 2, 3]);
    assert_eq!(cursor.pop().expect("Empty array"), 3);
    assert_eq!(cursor.try_pop_slice(2).expect("Array too short"), &[1, 2]);

    cursor.push(24).expect("Array full");
    cursor.push(42).expect("Array full");
    cursor.push(47).expect("Array full");

    let arr = cursor.try_cast_initialized().unwrap_or_else(|_| panic!("Cursor not filled"));
    assert_eq!(arr, &[0, 24, 42, 47]);
}

#[test]
fn arr() {
    let uninit = vec![0u8, 0, 0, 0];
    let mut cursor = Cursor::new(uninit);
    cursor.push(0).expect("Array full");
    cursor.push(1).expect("Array full");
    cursor.push(2).expect("Array full");
    cursor.push(3).expect("Array full");

    assert_eq!(cursor.written(), &[0, 1, 2, 3]);
    assert_eq!(cursor.pop().expect("Empty array"), 3);
    assert_eq!(cursor.try_pop_slice(2).expect("Array too short"), &[1, 2]);

    cursor.push(24).expect("Array full");
    cursor.push(42).expect("Array full");
    cursor.push(47).expect("Array full");

    let arr = cursor.try_cast_initialized().unwrap_or_else(|_| panic!("Cursor not filled"));
    assert_eq!(arr, &[0, 24, 42, 47]);
}

#[test]
fn boxed_arr() {
    let mut cursor = Cursor::<u8, OutSlice<u8>>::from_vec_entire_capaity(Vec::new(), 4);
    cursor.push(0).expect("Array full");
    cursor.push(1).expect("Array full");
    cursor.push(2).expect("Array full");
    cursor.push(3).expect("Array full");

    assert_eq!(cursor.written(), &[0, 1, 2, 3]);
    assert_eq!(cursor.pop().expect("Empty array"), 3);
    assert_eq!(cursor.try_pop_slice(2).expect("Array too short"), &[1, 2]);

    cursor.push(24).expect("Array full");
    cursor.push(42).expect("Array full");
    cursor.push(47).expect("Array full");

    let arr = cursor.try_cast_initialized().unwrap_or_else(|_| panic!("Cursor not filled"));
    assert_eq!(arr, &[0, 24, 42, 47]);
}

#[test]
fn boxed_slice() {
    let uninit = Vec::new();
    let mut cursor = Cursor::from_vec_preserving_len(uninit, 4);
    cursor.push(0).expect("Array full");
    cursor.push(1).expect("Array full");
    cursor.push(2).expect("Array full");
    cursor.push(3).expect("Array full");

    assert_eq!(cursor.written(), &[0, 1, 2, 3]);
    assert_eq!(cursor.pop().expect("Empty array"), 3);
    assert_eq!(cursor.try_pop_slice(2).expect("Array too short"), &[1, 2]);

    cursor.push(24).expect("Array full");
    cursor.push(42).expect("Array full");
    cursor.push(47).expect("Array full");

    let arr = cursor.try_cast_initialized().unwrap_or_else(|_| panic!("Cursor not filled"));
    assert_eq!(arr, &[0, 24, 42, 47]);
}

#[test]
fn fill_then_drain_returns_reverse_order() {
    let mut cursor = Cursor::new(OutSlice::<u32>::new_uninit(4));
    cursor.push(0).expect("Array full");
    cursor.push(1).expect("Array full");
    cursor.push(2).expect("Array full");
    cursor.push(3).expect("Array full");
    assert_eq!(cursor.written(), &[0, 1, 2, 3]);

    assert_eq!(cursor.pop(), Some(3));
    assert_eq!(cursor.written(), &[0, 1, 2]);
    assert_eq!(cursor.pop(), Some(2));
    assert_eq!(cursor.pop(), Some(1));
    assert_eq!(cursor.pop(), Some(0));
    assert_eq!(cursor.remaining_count(), 4);
    assert!(cursor.written().is_empty());
}

#[test]
fn push_into_full_cursor_rejects_value() {
    let mut cursor = Cursor::new(OutSlice::<u8>::new_uninit(4));
    cursor.push(0).expect("Array full");
    cursor.push(1).expect("Array full");
    cursor.push(2).expect("Array full");
    cursor.push(3).expect("Array full");

    assert_eq!(cursor.push(9), Err(9));
    assert_eq!(cursor.written(), &[0, 1, 2, 3]);
    assert_eq!(cursor.remaining_count(), 0);
}

#[test]
fn try_cast_initialized_is_all_or_nothing() {
    let mut cursor = Cursor::new(OutSlice::<u8>::new_uninit(4));
    cursor.push(0).expect("Array full");
    cursor.push(1).expect("Array full");
    cursor.push(2).expect("Array full");

    let mut cursor = match cursor.try_cast_initialized() {
        Ok(_) => panic!("cast succeeded on a partially filled cursor"),
        Err(c) => c,
    };
    assert_eq!(cursor.written(), &[0, 1, 2]);

    cursor.push(3).expect("Array full");
    let arr = cursor.try_cast_initialized().unwrap_or_else(|_| panic!("Cursor not filled"));
    assert_eq!(arr, &[0, 1, 2, 3]);
}

#[test]
fn try_pop_slice_fails_atomically() {
    let mut cursor = Cursor::new(OutSlice::<u8>::new_uninit(4));
    cursor.push(10).expect("Array full");
    cursor.push(11).expect("Array full");

    assert_eq!(cursor.try_pop_slice(5), None);
    assert_eq!(cursor.written(), &[10, 11]);
    assert_eq!(cursor.remaining_count(), 2);
}

#[test]
fn push_iter_stops_at_capacity() {
    let mut cursor = Cursor::new(OutSlice::<u8>::new_uninit(4));
    cursor.push(9).expect("Array full");

    let source = vec![1u8, 2, 3, 4, 5, 6, 7, 8, 9, 10];
    let written = cursor.push_iter(source);
    assert_eq!(written, 3);
    assert_eq!(cursor.written().len(), 4);
    assert_eq!(cursor.written(), &[9, 1, 2, 3]);
}

#[test]
fn push_iter_stops_at_source_exhaustion() {
    let mut cursor = Cursor::new(OutSlice::<u8>::new_uninit(8));
    let written = cursor.push_iter(vec![5u8, 6]);
    assert_eq!(written, 2);
    assert_eq!(cursor.written(), &[5, 6]);
    assert_eq!(cursor.remaining_count(), 6);
}

#[test]
fn push_iter_takes_references_to_copyable_items() {
    let values = [7u8, 8, 9];
    let mut cursor = Cursor::new(OutSlice::<u8>::new_uninit(2));
    let refs: Vec<&u8> = values.iter().collect();
    let written = cursor.push_iter(refs);
    assert_eq!(written, 2);
    assert_eq!(cursor.written(), &[7, 8]);
}

#[test]
fn pop_on_empty_cursor_returns_nothing() {
    let mut cursor = Cursor::new(OutSlice::<u8>::new_uninit(3));
    assert_eq!(cursor.pop(), None);
}

#[test]
fn pop_slice_pops_at_most_what_is_written() {
    let mut cursor = Cursor::new(OutSlice::<u8>::new_uninit(4));
    cursor.push(1).expect("Array full");
    cursor.push(2).expect("Array full");
    let popped = cursor.pop_slice(10);
    assert_eq!(popped, &[1, 2]);
    assert_eq!(cursor.remaining_count(), 4);
}

#[test]
fn reset_rewinds_the_position() {
    let mut cursor = Cursor::new(OutSlice::<u8>::new_uninit(3));
    cursor.push(1).expect("Array full");
    cursor.push(2).expect("Array full");
    cursor.reset();
    assert!(cursor.written().is_empty());
    assert_eq!(cursor.remaining_count(), 3);
}

#[test]
fn from_vec_preserving_len_seeds_the_position() {
    let mut cursor = Cursor::from_vec_preserving_len(vec![3u8, 1, 4], 5);
    assert_eq!(cursor.written(), &[3, 1, 4]);
    assert_eq!(cursor.remaining_count(), 2);
    cursor.push(1).expect("Array full");
    cursor.push(5).expect("Array full");
    let arr = cursor.try_cast_initialized().unwrap_or_else(|_| panic!("Cursor not filled"));
    assert_eq!(arr, &[3, 1, 4, 1, 5]);
}

#[test]
fn from_vec_resizing_reuses_the_whole_buffer() {
    let mut cursor = Cursor::from_vec_resizing(vec![9u8, 9, 9]);
    assert!(cursor.written().is_empty());
    assert_eq!(cursor.remaining_count(), 3);
    cursor.push(1).expect("Array full");
    assert_eq!(cursor.written(), &[1]);
}
