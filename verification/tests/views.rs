use core::ops::{Deref, DerefMut};

use chromium::{
    CSharedSlice, CSharedStr, CUniqueSlice, CUniqueStr, SharedSlice, SharedStr, UniqueSlice,
    UniqueStr,
};

#[test]
fn shared_slice_keeps_address_and_length() {
    let data = [10u16, 20, 30];
    let view: &[u16] = &data;
    let rec = SharedSlice::from(view);
    assert_eq!(rec.len(), 3);
    assert_eq!(rec.addr(), view.as_ptr() as usize);
    let back: &[u16] = rec.into();
    assert_eq!(back.as_ptr(), view.as_ptr());
    assert_eq!(back.len(), 3);
    assert_eq!(back, &[10, 20, 30]);
}

#[test]
fn shared_slice_of_nothing_is_empty_and_not_null() {
    let nothing: &[i32] = &[];
    let rec = SharedSlice::from(nothing);
    assert_eq!(rec.len(), 0);
    assert_ne!(rec.addr(), 0);
    let back: &[i32] = rec.into();
    assert!(back.is_empty());
}

#[test]
fn shared_slice_default_is_empty_and_not_null() {
    let rec: SharedSlice<'static, i32> = SharedSlice::default();
    assert_eq!(rec.len(), 0);
    assert_ne!(rec.addr(), 0);
    assert_eq!(rec.deref(), &[] as &[i32]);
    let back: &[i32] = rec.into();
    assert_eq!(back.len(), 0);
}

#[test]
fn shared_slice_copies_show_the_same_elements() {
    let data = [1u8, 2, 3];
    let rec = SharedSlice::from(&data[..]);
    let copy = rec;
    let clone = rec.clone();
    assert_eq!(rec.deref(), copy.deref());
    assert_eq!(rec.deref(), clone.deref());
    assert_eq!(rec.addr(), clone.addr());
}

#[test]
fn shared_slice_of_arrays_and_references() {
    let x = 7i64;
    let refs = [&x, &x];
    let rec = SharedSlice::from(&refs[..]);
    assert_eq!(*rec[1], 7);
    let rows = [[1u8, 2], [3, 4]];
    let rec = SharedSlice::from(&rows[..]);
    assert_eq!(rec[1], [3, 4]);
}

#[test]
fn unique_slice_write_through_record_is_seen_after_reconstruction() {
    let mut data = [1, 2, 3, 4];
    let mut rec = UniqueSlice::from(&mut data[..]);
    rec.deref_mut()[0] = 9;
    assert_eq!(rec.len(), 4);
    let back: &mut [i32] = rec.into();
    assert_eq!(back, &mut [9, 2, 3, 4]);
    assert_eq!(data, [9, 2, 3, 4]);
}

#[test]
fn unique_slice_write_through_native_form_is_seen_by_new_record() {
    let mut data = [1u32, 2, 3];
    let rec = UniqueSlice::from(&mut data[..]);
    let native: &mut [u32] = rec.into();
    native[2] = 30;
    let again = UniqueSlice::from(native);
    assert_eq!(again.deref(), &[1, 2, 30]);
    assert_eq!(again.len(), 3);
}

#[test]
fn unique_slice_keeps_address_and_length() {
    let mut data = [5u64, 6];
    let at = data.as_ptr() as usize;
    let rec = UniqueSlice::from(&mut data[..]);
    assert_eq!(rec.addr(), at);
    assert_eq!(rec.len(), 2);
    let back: &mut [u64] = rec.into();
    assert_eq!(back.as_ptr() as usize, at);
    assert_eq!(back.len(), 2);
}

#[test]
fn unique_slice_default_is_empty_and_not_null() {
    let mut rec: UniqueSlice<'static, i32> = UniqueSlice::default();
    assert_eq!(rec.len(), 0);
    assert_ne!(rec.addr(), 0);
    assert!(rec.deref_mut().is_empty());
    let back: &mut [i32] = rec.into();
    assert!(back.is_empty());
}

#[test]
fn shared_str_keeps_bytes_of_any_text() {
    let text = "h\u{e9}llo \u{4e16}\u{754c} \u{1f600}";
    let rec = SharedStr::from(text);
    assert_eq!(rec.len(), text.len());
    assert_eq!(rec.len(), 18);
    assert_eq!(rec.addr(), text.as_ptr() as usize);
    assert_eq!(rec.as_bytes(), text.as_bytes());
    let back: &str = rec.into();
    assert_eq!(back.as_bytes(), text.as_bytes());
    assert_eq!(back.as_ptr(), text.as_ptr());
}

#[test]
fn shared_str_default_is_empty_and_not_null() {
    let rec: SharedStr<'static> = SharedStr::default();
    assert_eq!(rec.len(), 0);
    assert_ne!(rec.addr(), 0);
    assert_eq!(rec.deref(), "");
    let copy = rec.clone();
    let back: &str = copy.into();
    assert_eq!(back, "");
}

#[test]
fn unique_str_write_is_seen_and_stays_text() {
    let mut owner = String::from("hello w\u{f6}rld");
    let mut rec = UniqueStr::from(owner.as_mut_str());
    assert_eq!(rec.len(), 12);
    rec.deref_mut().make_ascii_uppercase();
    assert_eq!(rec.deref(), "HELLO W\u{f6}RLD");
    let back: &mut str = rec.into();
    assert_eq!(back, "HELLO W\u{f6}RLD");
    back.make_ascii_lowercase();
    let again = UniqueStr::from(back);
    assert_eq!(again.deref(), "hello w\u{f6}rld");
    assert_eq!(owner, "hello w\u{f6}rld");
}

#[test]
fn unique_str_default_is_empty_and_not_null() {
    let rec: UniqueStr<'static> = UniqueStr::default();
    assert_eq!(rec.len(), 0);
    assert_ne!(rec.addr(), 0);
    assert_eq!(rec.deref(), "");
    let back: &mut str = rec.into();
    assert_eq!(back.len(), 0);
}

#[test]
fn c_shared_slice_round_trip() {
    let my_slice: &[i32] = &[1, 2, 3, 4];
    let c = CSharedSlice::from(my_slice);
    assert_eq!(c.deref(), &[1, 2, 3, 4]);
    assert_eq!(c.len(), 4);
    assert_eq!(c.addr(), my_slice.as_ptr() as usize);
    let copy = c.clone();
    let back: &[i32] = c.into();
    assert_eq!(back, &[1, 2, 3, 4]);
    assert_eq!(copy.deref(), back);
    let empty: CSharedSlice<'static, i32> = CSharedSlice::default();
    assert_eq!(empty.len(), 0);
    assert_ne!(empty.addr(), 0);
}

#[test]
fn c_unique_slice_round_trip() {
    let mut data = [1, 2, 3, 4];
    let mut c = CUniqueSlice::from(&mut data[..]);
    c.deref_mut()[0] = 9;
    assert_eq!(c.deref(), &[9, 2, 3, 4]);
    let back: &mut [i32] = c.into();
    back[3] = 0;
    assert_eq!(data, [9, 2, 3, 0]);
}

#[test]
fn c_unique_slice_empty_slice() {
    let c: CUniqueSlice<'static, i32> = CUniqueSlice::empty_slice();
    assert_eq!(c.len(), 0);
    assert_ne!(c.addr(), 0);
    let d: CUniqueSlice<'static, [u8; 2]> = CUniqueSlice::default();
    assert_eq!(d.len(), 0);
    let back: &mut [[u8; 2]] = d.into();
    assert!(back.is_empty());
}

#[test]
fn c_shared_str_round_trip() {
    let s = CSharedStr::from("gr\u{fc}n");
    assert_eq!(s.len(), 5);
    assert_eq!(s.deref(), "gr\u{fc}n");
    let copy = s;
    let back: &str = s.into();
    assert_eq!(back, "gr\u{fc}n");
    assert_eq!(copy.addr(), back.as_ptr() as usize);
    let empty: CSharedStr<'static> = CSharedStr::default();
    assert_eq!(empty.deref(), "");
    assert_ne!(empty.addr(), 0);
}

#[test]
fn c_unique_str_round_trip() {
    let mut owner = String::from("abc");
    let mut s = CUniqueStr::from(owner.as_mut_str());
    s.deref_mut().make_ascii_uppercase();
    assert_eq!(s.len(), 3);
    let back: &mut str = s.into();
    assert_eq!(back, "ABC");
    assert_eq!(owner, "ABC");
    let empty: CUniqueStr<'static> = CUniqueStr::default();
    assert_eq!(empty.deref(), "");
    assert_ne!(empty.addr(), 0);
}

#[test]
fn unique_slice_write_reaches_lender_when_record_is_dropped() {
    let mut data = [1, 2, 3, 4];
    let mut rec = UniqueSlice::from(&mut data[..]);
    rec.deref_mut()[0] = 9;
    drop(rec);
    assert_eq!(data, [9, 2, 3, 4]);
    let mut rec = CUniqueSlice::from(&mut data[..]);
    rec.deref_mut()[3] = 0;
    drop(rec);
    assert_eq!(data, [9, 2, 3, 0]);
}

#[test]
fn unique_str_write_reaches_lender_when_record_is_dropped() {
    let mut h = String::from("hello");
    let mut u = UniqueStr::from(h.as_mut_str());
    let m: &mut str = u.deref_mut();
    assert_eq!(m.len(), 5);
    m.make_ascii_uppercase();
    assert_eq!(u.deref(), "HELLO");
    drop(u);
    assert_eq!(h, "HELLO");
    let mut c = CUniqueStr::from(h.as_mut_str());
    c.deref_mut().make_ascii_lowercase();
    drop(c);
    assert_eq!(h, "hello");
}
