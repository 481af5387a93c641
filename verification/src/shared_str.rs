//! The flat record for `&str`.

use crate::native::slice_addr;
use core::ops::Deref;
use vstd::prelude::*;
use vstd::string::StringSliceAdditionalSpecFns;
use vstd::utf8::encode_utf8;

verus! {

/// A **shared** view of a text, as a flat record: the address of its first
/// byte and its length in bytes, which `addr` and `len` read.
///
/// The bytes are the UTF-8 encoding of the text. A record can only be made
/// from a native `&str`, which is valid UTF-8 by its type, and it is backed
/// by the borrow it was made from, so the text cannot change while the
/// record lives.
pub struct SharedStr<'a> {
    data: &'a str,
}

impl<'a> View for SharedStr<'a> {
    type V = Seq<char>;

    /// The text that the record gives access to. Records are compared by
    /// this view and not by the address they carry.
    open spec fn view(&self) -> Seq<char> {
        self.native()@
    }
}

impl<'a> SharedStr<'a> {
    /// The native view that the record stands for.
    pub closed spec fn native(self) -> &'a str {
        self.data
    }

    /// The bytes that the record points to: the text in UTF-8.
    pub open spec fn spec_bytes(self) -> Seq<u8> {
        encode_utf8(self@)
    }

    /// The record's length field, which counts bytes.
    pub open spec fn spec_len(self) -> nat {
        self.spec_bytes().len()
    }

    /// The length of the text in bytes.
    pub fn len(&self) -> (n: usize)
        ensures
            n == self.spec_len(),
    {
        self.data.as_bytes().len()
    }

    /// The record's address field. It is never null: an empty record carries
    /// a sentinel address that is not meant to be read through.
    pub fn addr(&self) -> (a: usize)
        ensures
            a != 0,
    {
        slice_addr(self.data.as_bytes())
    }

    /// Round trip. Whatever record `from` makes of the native text `v`, and
    /// whatever text `from` makes of that record in turn: the text that comes
    /// back is `v`, byte for byte, and the record in between has the bytes
    /// and the length of `v`.
    pub proof fn lemma_round_trip(v: &'a str, rec: Self, back: &'a str)
        requires
            call_ensures(<Self as From<&'a str>>::from, (v,), rec),
            call_ensures(<&'a str as From<Self>>::from, (rec,), back),
        ensures
            back == v,
            back.spec_bytes() == v.spec_bytes(),
            rec.spec_bytes() == v.spec_bytes(),
            rec.spec_len() == v.spec_bytes().len(),
    {
    }
}

impl<'a> Clone for SharedStr<'a> {
    /// A shared view can be duplicated freely.
    fn clone(&self) -> (r: Self)
        ensures
            r == *self,
    {
        *self
    }
}

impl<'a> Copy for SharedStr<'a> {
}

impl<'a> Default for SharedStr<'a> {
    /// The empty text.
    fn default() -> (r: Self)
        ensures
            r@ == Seq::<char>::empty(),
            r.spec_len() == 0,
    {
        proof {
            reveal_strlit("");
        }
        let r = Self { data: "" };
        assert(r@ =~= Seq::<char>::empty());
        r
    }
}

impl<'a> Deref for SharedStr<'a> {
    type Target = str;

    /// Reads go to the native text.
    fn deref(&self) -> (r: &str)
        ensures
            r == self.native(),
            r@ == self@,
    {
        self.data
    }
}

impl<'a> From<&'a str> for SharedStr<'a> {
    /// Captures a native text. Nothing is copied or checked again: a `&str`
    /// is valid UTF-8 already.
    fn from(s: &'a str) -> (r: Self)
        ensures
            r.native() == s,
            r@ == s@,
            r.spec_bytes() == s.spec_bytes(),
            r.spec_len() == s.spec_bytes().len(),
    {
        Self { data: s }
    }
}

impl<'a> vstd::std_specs::convert::FromSpecImpl<&'a str> for SharedStr<'a> {
    open spec fn obeys_from_spec() -> bool {
        true
    }

    closed spec fn from_spec(s: &'a str) -> Self {
        SharedStr { data: s }
    }
}

impl<'a> From<SharedStr<'a>> for &'a str {
    /// Gives back the native text that the record stands for.
    fn from(shared: SharedStr<'a>) -> (r: Self)
        ensures
            r == shared.native(),
            r@ == shared@,
            r.spec_bytes() == shared.spec_bytes(),
    {
        shared.data
    }
}

impl<'a> vstd::std_specs::convert::FromSpecImpl<SharedStr<'a>> for &'a str {
    open spec fn obeys_from_spec() -> bool {
        true
    }

    open spec fn from_spec(shared: SharedStr<'a>) -> Self {
        shared.native()
    }
}

} // verus!
