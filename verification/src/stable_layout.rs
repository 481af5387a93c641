//! Which types may be the element of a flat record.

use core::cell::{Cell, UnsafeCell};
use core::marker::PhantomData;
use core::mem::ManuallyDrop;
use core::num::Wrapping;
use vstd::prelude::*;

verus! {

/// Marks a type whose layout in memory is fixed: it does not depend on the
/// compiler's version or on how the program was built.
///
/// Only such a type may be the element type of a slice or vector record, for
/// only then do both sides of a boundary agree on what the address in the
/// record points to. The mark is a compile-time matter: using a type without
/// it as an element is a type error, and nothing is checked at run time.
///
/// A type may carry the mark if it is
/// * an integer of at most 64 bits, `bool`, `char` or `()`;
/// * a fixed-size array of marked elements;
/// * a wrapper that is laid out as its single marked payload;
/// * a reference or owning pointer to a marked type of fixed size, with or
///   without `Option` around it;
/// * a struct laid out field by field in declaration order, all of whose
///   fields are marked.
///
/// The records of this crate do not carry the mark themselves. Here each is
/// backed by a borrow or a buffer, whose layout the compiler chooses; the mark
/// belongs on the form of pointer and integers in which a record leaves the
/// program.
///
/// The mark says nothing about padding bytes or about bit patterns that are
/// not values of the type. Giving it to a type of one's own is a promise
/// about that type's layout, and nothing holds the promise to the type.
pub trait StableLayout {
}

impl StableLayout for u8 {
}

impl StableLayout for u16 {
}

impl StableLayout for u32 {
}

impl StableLayout for u64 {
}

impl StableLayout for usize {
}

impl StableLayout for i8 {
}

impl StableLayout for i16 {
}

impl StableLayout for i32 {
}

impl StableLayout for i64 {
}

impl StableLayout for isize {
}

impl StableLayout for bool {
}

impl StableLayout for char {
}

impl StableLayout for () {
}

/// `PhantomData<T>` takes no room, but it stands for a `T`, so it is marked
/// only where `T` is.
impl<T: StableLayout> StableLayout for PhantomData<T> {
}

impl<T: StableLayout> StableLayout for Wrapping<T> {
}

impl<T: StableLayout> StableLayout for ManuallyDrop<T> {
}

impl<T: StableLayout> StableLayout for UnsafeCell<T> {
}

impl<T: StableLayout> StableLayout for Cell<T> {
}

impl<T: StableLayout, const N: usize> StableLayout for [T; N] {
}

impl<'a, T: StableLayout> StableLayout for &'a T {
}

impl<'a, T: StableLayout> StableLayout for Option<&'a T> {
}

impl<'a, T: StableLayout> StableLayout for &'a mut T {
}

impl<'a, T: StableLayout> StableLayout for Option<&'a mut T> {
}

impl<T: StableLayout> StableLayout for Box<T> {
}

impl<T: StableLayout> StableLayout for Option<Box<T>> {
}

} // verus!
