//! The few facts about the standard library that the records rely on and that
//! are taken on trust rather than proved.

use core::mem::ManuallyDrop;
use core::ops::DerefMut;
use vstd::layout::align_of;
use vstd::prelude::*;
use vstd::std_specs::manually_drop::ManuallyDropAdditionalFns;
use vstd::utf8::encode_utf8;

verus! {

/// `core::num::Wrapping`, carried as an opaque value.
#[verifier::external_type_specification]
#[verifier::external_body]
#[verifier::reject_recursive_types(T)]
pub struct ExWrapping<T>(core::num::Wrapping<T>);

/// `core::cell::Cell`, carried as an opaque value.
#[verifier::external_type_specification]
#[verifier::external_body]
#[verifier::reject_recursive_types(T)]
pub struct ExCell<T: ?Sized>(core::cell::Cell<T>);

/// `core::cell::UnsafeCell`, carried as an opaque value.
#[verifier::external_type_specification]
#[verifier::external_body]
#[verifier::reject_recursive_types(T)]
pub struct ExUnsafeCell<T: ?Sized>(core::cell::UnsafeCell<T>);

/// `<[T]>::as_ptr`, with the pointer read as an integer.
///
/// Trusted: the data pointer of a slice reference is never null and is
/// aligned for `T`, also when the slice is empty. Nothing else is claimed of
/// the address; in particular two equal slices may well live at different
/// addresses.
#[verifier::external_body]
pub(crate) fn slice_addr<T>(sli: &[T]) -> (a: usize)
    ensures
        a != 0,
        a as nat % align_of::<T>() == 0,
{
    sli.as_ptr() as usize
}

/// `Vec::capacity`.
///
/// Trusted: a vector never holds more elements than it has room for. The
/// capacity itself is the allocator's business and is not described.
#[verifier::external_body]
pub(crate) fn vec_capacity<T>(v: &Vec<T>) -> (c: usize)
    ensures
        c >= v@.len(),
{
    v.capacity()
}

/// `String::capacity`.
///
/// Trusted: a string's capacity, counted in bytes, is at least the length of
/// its UTF-8 encoding.
#[verifier::external_body]
pub(crate) fn string_capacity(s: &String) -> (c: usize)
    ensures
        c >= encode_utf8(s@).len(),
{
    s.capacity()
}

/// `DerefMut::deref_mut` of `ManuallyDrop<T>`.
///
/// Trusted: the returned borrow is a borrow of the wrapped value: it starts out
/// as that value, and whatever it holds when it ends is what the wrapper holds
/// from then on.
pub assume_specification<T: ?Sized>[ <ManuallyDrop<T> as DerefMut>::deref_mut ](
    m: &mut ManuallyDrop<T>,
) -> (r: &mut T)
    ensures
        &*r == old(m).view_ref(),
        &*final(r) == final(m).view_ref(),
;

/// `String::as_mut_str`.
///
/// Trusted: the returned borrow shows the string's text, and the text it holds
/// when it ends is the string's text from then on.
pub assume_specification[ String::as_mut_str ](s: &mut String) -> (r: &mut str)
    ensures
        r@ == old(s)@,
        final(r)@ == final(s)@,
;

/// `Default::default` of `&mut str`.
///
/// Trusted: the default exclusive text view is the empty text.
pub assume_specification<'a>[ <&'a mut str as Default>::default ]() -> (r: &'a mut str)
    ensures
        r@ == Seq::<char>::empty(),
;

} // verus!
