//! The flat record for `&[T]`, under the name it has in C headers.

use crate::native::slice_addr;
use crate::stable_layout::StableLayout;
use core::ops::Deref;
use vstd::layout::align_of;
use vstd::prelude::*;

verus! {

/// A **shared** view of a contiguous run of elements, as a flat record: the
/// address where the run starts and the number of elements in it, which
/// `addr` and `len` read.
///
/// The record owns nothing. It is backed by the borrow it was made from, so
/// on this side of a boundary the compiler still checks that the memory
/// outlives the record and is not written meanwhile. Any number of shared
/// records may show the same memory. Converting a record back with `into`
/// gives the native view again.
pub struct CSharedSlice<'a, T: StableLayout> {
    data: &'a [T],
}

impl<'a, T: StableLayout> View for CSharedSlice<'a, T> {
    type V = Seq<T>;

    /// The elements that the record gives access to. Records are compared
    /// by this view, element by element, and not by the address they carry.
    open spec fn view(&self) -> Seq<T> {
        self.native()@
    }
}

impl<'a, T: StableLayout> CSharedSlice<'a, T> {
    /// The native view that the record stands for.
    pub closed spec fn native(self) -> &'a [T] {
        self.data
    }

    /// The record's length field.
    pub open spec fn spec_len(self) -> nat {
        self@.len()
    }

    /// The number of elements in the view.
    pub fn len(&self) -> (n: usize)
        ensures
            n == self.spec_len(),
    {
        self.data.len()
    }

    /// The record's address field. It is aligned for `T` and never null: an
    /// empty record carries a sentinel address that is not meant to be read
    /// through.
    pub fn addr(&self) -> (a: usize)
        ensures
            a != 0,
            a as nat % align_of::<T>() == 0,
    {
        slice_addr(self.data)
    }

    /// Round trip. Whatever record `from` makes of the native view `v`, and
    /// whatever view `from` makes of that record in turn: the view that comes
    /// back is `v`, and the record in between has the length of `v`.
    pub proof fn lemma_round_trip(v: &'a [T], rec: Self, back: &'a [T])
        requires
            call_ensures(<Self as From<&'a [T]>>::from, (v,), rec),
            call_ensures(<&'a [T] as From<Self>>::from, (rec,), back),
        ensures
            back == v,
            back@ == v@,
            rec.spec_len() == v@.len(),
            back@.len() == v@.len(),
    {
    }
}

impl<'a, T: StableLayout> Clone for CSharedSlice<'a, T> {
    /// A shared view can be duplicated freely, whether or not `T` can.
    fn clone(&self) -> (r: Self)
        ensures
            r == *self,
    {
        *self
    }
}

impl<'a, T: StableLayout> Copy for CSharedSlice<'a, T> {
}

impl<'a, T: StableLayout> Default for CSharedSlice<'a, T> {
    /// The empty view.
    fn default() -> (r: Self)
        ensures
            r@ == Seq::<T>::empty(),
            r.spec_len() == 0,
    {
        Self { data: &[] }
    }
}

impl<'a, T: StableLayout> Deref for CSharedSlice<'a, T> {
    type Target = [T];

    /// Reads go to the elements of the native view.
    fn deref(&self) -> (r: &[T])
        ensures
            r == self.native(),
            r@ == self@,
    {
        self.data
    }
}

impl<'a, T: StableLayout> From<&'a [T]> for CSharedSlice<'a, T> {
    /// Captures a native view. Nothing is copied.
    fn from(sli: &'a [T]) -> (r: Self)
        ensures
            r.native() == sli,
            r@ == sli@,
            r.spec_len() == sli@.len(),
    {
        Self { data: sli }
    }
}

impl<'a, T: StableLayout> vstd::std_specs::convert::FromSpecImpl<&'a [T]> for CSharedSlice<'a, T> {
    open spec fn obeys_from_spec() -> bool {
        true
    }

    closed spec fn from_spec(sli: &'a [T]) -> Self {
        CSharedSlice { data: sli }
    }
}

impl<'a, T: StableLayout> From<CSharedSlice<'a, T>> for &'a [T] {
    /// Gives back the native view that the record stands for.
    fn from(c_shared: CSharedSlice<'a, T>) -> (r: Self)
        ensures
            r == c_shared.native(),
            r@ == c_shared@,
    {
        c_shared.data
    }
}

impl<'a, T: StableLayout> vstd::std_specs::convert::FromSpecImpl<CSharedSlice<'a, T>> for &'a [T] {
    open spec fn obeys_from_spec() -> bool {
        true
    }

    open spec fn from_spec(c_shared: CSharedSlice<'a, T>) -> Self {
        c_shared.native()
    }
}

} // verus!
