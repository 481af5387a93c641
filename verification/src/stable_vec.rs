//! The flat record for `Vec<T>`.

use crate::native::{slice_addr, vec_capacity};
use crate::stable_layout::StableLayout;
use core::mem::ManuallyDrop;
use core::ops::{Deref, DerefMut};
use vstd::layout::align_of;
use vstd::prelude::*;

verus! {

/// An **owning** buffer of elements, as a flat record: the address of the
/// allocation, the number of elements in use and the number there is room
/// for, which `addr`, `len` and `capacity` read.
///
/// The record takes the vector over when it is made: the vector is moved in,
/// so the code that had it can no longer free it. Converting the record back
/// with `into` gives the vector again, and with it the duty to free the
/// memory. A record that is dropped without being converted frees nothing:
/// the allocation is leaked, never freed twice.
pub struct StableVec<T: StableLayout> {
    buf: ManuallyDrop<Vec<T>>,
}

impl<T: StableLayout> View for StableVec<T> {
    type V = Seq<T>;

    /// The elements in use.
    open spec fn view(&self) -> Seq<T> {
        self.native()@
    }
}

impl<T: StableLayout> StableVec<T> {
    /// The native buffer that the record stands for.
    pub closed spec fn native(self) -> Vec<T> {
        self.buf@
    }

    /// The record's length field.
    pub open spec fn spec_len(self) -> nat {
        self@.len()
    }

    /// The number of elements in use.
    pub fn len(&self) -> (n: usize)
        ensures
            n == self.spec_len(),
    {
        self.buf.deref().len()
    }

    /// The record's capacity field. The length never exceeds it.
    pub fn capacity(&self) -> (c: usize)
        ensures
            c >= self.spec_len(),
    {
        vec_capacity(self.buf.deref())
    }

    /// The record's address field. It is aligned for `T` and never null: a
    /// buffer that has not allocated carries a sentinel address that is not
    /// meant to be read through.
    pub fn addr(&self) -> (a: usize)
        ensures
            a != 0,
            a as nat % align_of::<T>() == 0,
    {
        slice_addr(self.buf.deref().as_slice())
    }

    /// Round trip. Whatever record `from` makes of the native buffer `v`,
    /// and whatever buffer `from` makes of that record in turn: the buffer
    /// that comes back is `v` itself, and the record in between has the
    /// length of `v`.
    pub proof fn lemma_round_trip(v: Vec<T>, rec: Self, back: Vec<T>)
        requires
            call_ensures(<Self as From<Vec<T>>>::from, (v,), rec),
            call_ensures(<Vec<T> as From<Self>>::from, (rec,), back),
        ensures
            back == v,
            back@ == v@,
            rec.spec_len() == v@.len(),
            back@.len() == v@.len(),
    {
    }

    /// Writes are seen. Let `written` be a native buffer in whatever state it
    /// was left, such as the buffer that came out of a record and was then
    /// changed, and let `again` be the record that `from` makes of it.
    /// `again` stands for `written` as it is: it shows what was written.
    pub proof fn lemma_write_is_observed(written: Vec<T>, again: Self)
        requires
            call_ensures(<Self as From<Vec<T>>>::from, (written,), again),
        ensures
            again.native() == written,
            again@ == written@,
            again.spec_len() == written@.len(),
    {
    }
}

impl<T: StableLayout> Deref for StableVec<T> {
    type Target = [T];

    /// Reads go to the elements in use.
    fn deref(&self) -> (r: &[T])
        ensures
            r@ == self@,
    {
        self.buf.deref().as_slice()
    }
}

impl<T: StableLayout> DerefMut for StableVec<T> {
    /// Writes go to the elements in use. When the returned borrow ends, the
    /// record holds what was written.
    fn deref_mut(&mut self) -> (r: &mut [T])
        ensures
            r@ == old(self)@,
            final(self)@ == final(r)@,
    {
        self.buf.deref_mut().as_mut_slice()
    }
}

impl<T: StableLayout> From<Vec<T>> for StableVec<T> {
    /// Takes a native buffer over. Nothing is copied, and the record shows
    /// the buffer as it is at this moment.
    fn from(vec: Vec<T>) -> (r: Self)
        ensures
            r.native() == vec,
            r@ == vec@,
            r.spec_len() == vec@.len(),
    {
        Self { buf: ManuallyDrop::new(vec) }
    }
}

/// The record is told apart from others only by the buffer it stands for,
/// which is what `from` promises; no record is singled out as "the" result.
impl<T: StableLayout> vstd::std_specs::convert::FromSpecImpl<Vec<T>> for StableVec<T> {
    open spec fn obeys_from_spec() -> bool {
        false
    }

    closed spec fn from_spec(vec: Vec<T>) -> Self {
        choose|r: Self| r.native() == vec
    }
}

impl<T: StableLayout> From<StableVec<T>> for Vec<T> {
    /// Gives the native buffer back, and with it the ownership of the memory.
    fn from(sv: StableVec<T>) -> (r: Self)
        ensures
            r == sv.native(),
            r@ == sv@,
    {
        ManuallyDrop::into_inner(sv.buf)
    }
}

impl<T: StableLayout> vstd::std_specs::convert::FromSpecImpl<StableVec<T>> for Vec<T> {
    open spec fn obeys_from_spec() -> bool {
        true
    }

    open spec fn from_spec(sv: StableVec<T>) -> Self {
        sv.native()
    }
}

impl<T: StableLayout> Default for StableVec<T> {
    /// The record of an empty vector.
    fn default() -> (r: Self)
        ensures
            r@ == Seq::<T>::empty(),
            r.spec_len() == 0,
    {
        Self::from(Vec::default())
    }
}

} // verus!
