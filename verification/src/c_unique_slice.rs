//! The flat record for `&mut [T]`, under the name it has in C headers.

use crate::native::slice_addr;
use crate::stable_layout::StableLayout;
use core::ops::{Deref, DerefMut};
use vstd::layout::align_of;
use vstd::prelude::*;

verus! {

/// A **unique** view of a contiguous run of elements, as a flat record: the
/// address where the run starts and the number of elements in it, which
/// `addr` and `len` read.
///
/// The record owns nothing, but while it lives it is the only way to the
/// memory it points to. It is backed by the exclusive borrow it was made
/// from, so it can be neither copied nor cloned, and converting it back with
/// `into` hands that same borrow on: what is written through the record, or
/// through the view that comes out of it, is what the lender finds when the
/// borrow ends.
pub struct CUniqueSlice<'a, T: StableLayout> {
    data: &'a mut [T],
}

impl<'a, T: StableLayout> View for CUniqueSlice<'a, T> {
    type V = Seq<T>;

    /// The elements that the record gives access to, as they are now.
    open spec fn view(&self) -> Seq<T> {
        self.native()@
    }
}

impl<'a, T: StableLayout> CUniqueSlice<'a, T> {
    /// The native view that the record stands for. Its final value is what
    /// the lender of the memory gets back.
    pub closed spec fn native(self) -> &'a mut [T] {
        self.data
    }

    /// The record's length field.
    pub open spec fn spec_len(self) -> nat {
        self@.len()
    }

    /// Gives the record of an empty view: no elements, and an address that
    /// is not null although nothing lives there.
    pub fn empty_slice() -> (r: Self)
        ensures
            r@ == Seq::<T>::empty(),
            r.spec_len() == 0,
    {
        Self { data: &mut [] }
    }

    /// The number of elements in the view.
    pub fn len(&self) -> (n: usize)
        ensures
            n == self.spec_len(),
    {
        self.data.len()
    }

    /// The record's address field. It is aligned for `T` and never null: an
    /// empty record carries a sentinel address that is not meant to be read
    /// through.
    pub fn addr(&self) -> (a: usize)
        ensures
            a != 0,
            a as nat % align_of::<T>() == 0,
    {
        slice_addr(self.data)
    }

    /// Round trip. Whatever record `from` makes of the native view `v`, and
    /// whatever view `from` makes of that record in turn: the view that comes
    /// back shows the elements that `v` showed, and what it holds when its
    /// borrow ends is what the lender of `v` finds.
    pub proof fn lemma_round_trip(v: &'a mut [T], rec: Self, back: &'a mut [T])
        requires
            call_ensures(<Self as From<&'a mut [T]>>::from, (v,), rec),
            call_ensures(<&'a mut [T] as From<Self>>::from, (rec,), back),
        ensures
            old(back)@ == old(v)@,
            rec.spec_len() == old(v)@.len(),
            old(back)@.len() == old(v)@.len(),
            final(back)@ == final(v)@,
    {
    }

    /// Writes are seen. Let `native` be the view that `from` makes of the
    /// record `rec`, let `written` be that view later in the same borrow,
    /// after any writes through it, and let `again` be the record that
    /// `from` makes of it then. `again` shows what was written, and it
    /// answers to the same lender as `rec` did.
    pub proof fn lemma_write_is_observed(
        rec: Self,
        native: &'a mut [T],
        written: &'a mut [T],
        again: Self,
    )
        requires
            call_ensures(<&'a mut [T] as From<Self>>::from, (rec,), native),
            final(written)@ == final(native)@,
            call_ensures(<Self as From<&'a mut [T]>>::from, (written,), again),
        ensures
            again@ == old(written)@,
            again.spec_len() == old(written)@.len(),
            final(again.native())@ == final(rec.native())@,
    {
    }

    /// The end of a record is the end of its borrow. Once a record is gone
    /// for good, dropped or otherwise never used again, what it showed last
    /// is what the lender of the memory finds: a write through the record
    /// reaches the lender whether or not the record is converted back.
    pub proof fn lemma_record_ends_with_its_borrow(rec: Self)
        requires
            has_resolved(rec),
        ensures
            final(rec.native())@ == rec@,
    {
    }
}

impl<'a, T: StableLayout> Default for CUniqueSlice<'a, T> {
    /// The empty view, as `empty_slice` gives it.
    fn default() -> (r: Self)
        ensures
            r@ == Seq::<T>::empty(),
            r.spec_len() == 0,
    {
        Self::empty_slice()
    }
}

impl<'a, T: StableLayout> Deref for CUniqueSlice<'a, T> {
    type Target = [T];

    /// Reads go to the elements of the native view.
    fn deref(&self) -> (r: &[T])
        ensures
            r@ == self@,
    {
        self.data
    }
}

impl<'a, T: StableLayout> DerefMut for CUniqueSlice<'a, T> {
    /// Writes go to the elements of the native view. When the returned borrow
    /// ends, the record shows what was written, and it still stands for the
    /// same loan: the lender will find whatever the record holds at its end.
    fn deref_mut(&mut self) -> (r: &mut [T])
        ensures
            r@ == old(self)@,
            final(self)@ == final(r)@,
            final(final(self).native())@ == final(old(self).native())@,
    {
        self.data
    }
}

impl<'a, T: StableLayout> From<&'a mut [T]> for CUniqueSlice<'a, T> {
    /// Captures a native view. Nothing is copied, and the borrow moves into
    /// the record. The record shows the view as it is at this moment, with
    /// everything that was written through it before.
    fn from(sli: &'a mut [T]) -> (r: Self)
        ensures
            r@ == old(sli)@,
            r.spec_len() == old(sli)@.len(),
            final(r.native())@ == final(sli)@,
    {
        Self { data: sli }
    }
}

/// An exclusive borrow that moves into a record is a new borrow of the same
/// memory. Whether the two are one value is left open here, so the
/// conversion is described by the postconditions of `from`: same elements
/// now, same elements at the end.
impl<'a, T: StableLayout> vstd::std_specs::convert::FromSpecImpl<&'a mut [T]> for CUniqueSlice<'a, T> {
    open spec fn obeys_from_spec() -> bool {
        false
    }

    closed spec fn from_spec(sli: &'a mut [T]) -> Self {
        CUniqueSlice { data: sli }
    }
}

impl<'a, T: StableLayout> From<CUniqueSlice<'a, T>> for &'a mut [T] {
    /// Gives back the native view that the record stands for.
    fn from(c_unique: CUniqueSlice<'a, T>) -> (r: Self)
        ensures
            r@ == c_unique@,
            r@.len() == c_unique.spec_len(),
            final(r)@ == final(c_unique.native())@,
    {
        c_unique.data
    }
}

/// See the note on the conversion in the other direction.
impl<'a, T: StableLayout> vstd::std_specs::convert::FromSpecImpl<CUniqueSlice<'a, T>> for &'a mut [T] {
    open spec fn obeys_from_spec() -> bool {
        false
    }

    open spec fn from_spec(c_unique: CUniqueSlice<'a, T>) -> Self {
        c_unique.native()
    }
}

} // verus!
