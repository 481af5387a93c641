use core::cell::{Cell, UnsafeCell};
use core::fmt::Debug;
use core::marker::PhantomData;
use core::mem::ManuallyDrop;
use core::num::Wrapping;
use core::ops::Deref;

use chromium::{SharedSlice, StableLayout, StableVec, UniqueSlice};

fn there_and_back<T: StableLayout + PartialEq + Debug + Clone>(items: Vec<T>) {
    let expected = items.clone();
    let shared = SharedSlice::from(&items[..]);
    assert_eq!(shared.len(), expected.len());
    let back: &[T] = shared.into();
    assert_eq!(back, &expected[..]);
    let owned = StableVec::from(items);
    assert_eq!(owned.len(), expected.len());
    let back: Vec<T> = owned.into();
    assert_eq!(back, expected);
}

fn admissible<T: StableLayout>() {}

#[test]
fn integers_are_elements() {
    there_and_back(vec![0u8, 255]);
    there_and_back(vec![0u16, 65535]);
    there_and_back(vec![0u32, 4294967295]);
    there_and_back(vec![0u64, 18446744073709551615]);
    there_and_back(vec![0usize, usize::MAX]);
    there_and_back(vec![-128i8, 127]);
    there_and_back(vec![-32768i16, 32767]);
    there_and_back(vec![-2147483648i32, 2147483647]);
    there_and_back(vec![i64::MIN, i64::MAX]);
    there_and_back(vec![isize::MIN, isize::MAX]);
}

#[test]
fn bool_char_and_unit_are_elements() {
    there_and_back(vec![true, false]);
    there_and_back(vec!['a', '\u{1f600}']);
    there_and_back(vec![(), (), ()]);
}

#[test]
fn arrays_of_any_size_are_elements() {
    there_and_back(vec![[1u8, 2, 3], [4, 5, 6]]);
    there_and_back(vec![[[1i16; 2]; 2]]);
    there_and_back(vec![[7u32; 33]]);
    there_and_back(vec![[0u8; 0]]);
    admissible::<[u64; 5000]>();
}

#[test]
fn wrappers_are_elements_when_their_payload_is() {
    there_and_back(vec![Wrapping(250u8) + Wrapping(10u8)]);
    there_and_back(vec![ManuallyDrop::new(3i32)]);
    there_and_back(vec![PhantomData::<u16>]);
    there_and_back(vec![Cell::new(5u8)]);
    admissible::<UnsafeCell<i64>>();
    admissible::<Cell<[bool; 4]>>();
}

#[test]
fn references_and_boxes_are_elements() {
    let x = 11u32;
    let mut y = 12u32;
    there_and_back(vec![&x, &x]);
    there_and_back(vec![Some(&x), None]);
    there_and_back(vec![Box::new(1i8), Box::new(2i8)]);
    there_and_back(vec![Some(Box::new('z')), None]);
    let mut exclusive = [&mut y];
    let rec = UniqueSlice::from(&mut exclusive[..]);
    assert_eq!(**rec.deref().first().unwrap(), 12);
    admissible::<Option<&mut u8>>();
    admissible::<&&[u8; 2]>();
}
