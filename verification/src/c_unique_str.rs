//! The flat record for `&mut str`, under the name it has in C headers.

use crate::native::slice_addr;
use core::ops::{Deref, DerefMut};
use vstd::prelude::*;
use vstd::utf8::encode_utf8;

verus! {

/// A **unique** view of a text, as a flat record: the address of its first
/// byte and its length in bytes, which `addr` and `len` read.
///
/// The bytes are the UTF-8 encoding of the text. The record is backed by the
/// exclusive borrow it was made from, so it can be neither copied nor cloned,
/// and the text can be changed only through the record or through the native
/// view that comes out of it. Both are `&mut str` underneath, through which
/// the bytes stay valid UTF-8 whatever is written.
pub struct CUniqueStr<'a> {
    data: &'a mut str,
}

impl<'a> View for CUniqueStr<'a> {
    type V = Seq<char>;

    /// The text that the record gives access to, as it is now.
    open spec fn view(&self) -> Seq<char> {
        self.native()@
    }
}

impl<'a> CUniqueStr<'a> {
    /// The native view that the record stands for. Its final value is what
    /// the lender of the memory gets back.
    pub closed spec fn native(self) -> &'a mut str {
        self.data
    }

    /// The bytes that the record points to: the text in UTF-8.
    pub open spec fn spec_bytes(self) -> Seq<u8> {
        encode_utf8(self@)
    }

    /// The record's length field, which counts bytes.
    pub open spec fn spec_len(self) -> nat {
        self.spec_bytes().len()
    }

    /// The length of the text in bytes.
    pub fn len(&self) -> (n: usize)
        ensures
            n == self.spec_len(),
    {
        self.data.as_bytes().len()
    }

    /// The record's address field. It is never null: an empty record carries
    /// a sentinel address that is not meant to be read through.
    pub fn addr(&self) -> (a: usize)
        ensures
            a != 0,
    {
        slice_addr(self.data.as_bytes())
    }

    /// Round trip. Whatever record `from` makes of the native text `v`, and
    /// whatever text `from` makes of that record in turn: the text that comes
    /// back is the text that `v` showed, byte for byte, and what it holds
    /// when its borrow ends is what the lender of `v` finds.
    pub proof fn lemma_round_trip(v: &'a mut str, rec: Self, back: &'a mut str)
        requires
            call_ensures(<Self as From<&'a mut str>>::from, (v,), rec),
            call_ensures(<&'a mut str as From<Self>>::from, (rec,), back),
        ensures
            old(back)@ == old(v)@,
            encode_utf8(old(back)@) == encode_utf8(old(v)@),
            rec.spec_bytes() == encode_utf8(old(v)@),
            rec.spec_len() == encode_utf8(old(v)@).len(),
            final(back)@ == final(v)@,
    {
    }

    /// Writes are seen. Let `native` be the text that `from` makes of the
    /// record `rec`, let `written` be that text later in the same borrow,
    /// after any writes through it, and let `again` be the record that
    /// `from` makes of it then. `again` shows what was written, and it
    /// answers to the same lender as `rec` did.
    pub proof fn lemma_write_is_observed(
        rec: Self,
        native: &'a mut str,
        written: &'a mut str,
        again: Self,
    )
        requires
            call_ensures(<&'a mut str as From<Self>>::from, (rec,), native),
            final(written)@ == final(native)@,
            call_ensures(<Self as From<&'a mut str>>::from, (written,), again),
        ensures
            again@ == old(written)@,
            again.spec_bytes() == encode_utf8(old(written)@),
            final(again.native())@ == final(rec.native())@,
    {
    }

    /// The end of a record is the end of its borrow. Once a record is gone
    /// for good, dropped or otherwise never used again, what it showed last
    /// is what the lender of the memory finds: a write through the record
    /// reaches the lender whether or not the record is converted back.
    pub proof fn lemma_record_ends_with_its_borrow(rec: Self)
        requires
            has_resolved(rec),
        ensures
            final(rec.native())@ == rec@,
    {
    }
}

impl<'a> Default for CUniqueStr<'a> {
    /// The empty text.
    fn default() -> (r: Self)
        ensures
            r@ == Seq::<char>::empty(),
            r.spec_len() == 0,
    {
        Self { data: Default::default() }
    }
}

impl<'a> Deref for CUniqueStr<'a> {
    type Target = str;

    /// Reads go to the native text.
    fn deref(&self) -> (r: &str)
        ensures
            r@ == self@,
    {
        self.data
    }
}

impl<'a> DerefMut for CUniqueStr<'a> {
    /// Writes go to the native text. When the returned borrow ends, the
    /// record shows what was written, and it still stands for the same loan:
    /// the lender will find whatever the record holds at its end.
    fn deref_mut(&mut self) -> (r: &mut str)
        ensures
            r@ == old(self)@,
            final(self)@ == final(r)@,
            final(final(self).native())@ == final(old(self).native())@,
    {
        self.data
    }
}

impl<'a> From<&'a mut str> for CUniqueStr<'a> {
    /// Captures a native text. Nothing is copied or checked again, and the
    /// borrow moves into the record. The record shows the text as it is at
    /// this moment, with everything that was written through it before.
    fn from(s: &'a mut str) -> (r: Self)
        ensures
            r@ == old(s)@,
            r.spec_bytes() == encode_utf8(old(s)@),
            r.spec_len() == encode_utf8(old(s)@).len(),
            final(r.native())@ == final(s)@,
    {
        Self { data: s }
    }
}

/// An exclusive borrow that moves into a record is a new borrow of the same
/// memory. Whether the two are one value is left open here, so the
/// conversion is described by the postconditions of `from`: same text now,
/// same text at the end.
impl<'a> vstd::std_specs::convert::FromSpecImpl<&'a mut str> for CUniqueStr<'a> {
    open spec fn obeys_from_spec() -> bool {
        false
    }

    closed spec fn from_spec(s: &'a mut str) -> Self {
        CUniqueStr { data: s }
    }
}

impl<'a> From<CUniqueStr<'a>> for &'a mut str {
    /// Gives back the native text that the record stands for.
    fn from(c_unique: CUniqueStr<'a>) -> (r: Self)
        ensures
            r@ == c_unique@,
            encode_utf8(r@) == c_unique.spec_bytes(),
            final(r)@ == final(c_unique.native())@,
    {
        c_unique.data
    }
}

/// See the note on the conversion in the other direction.
impl<'a> vstd::std_specs::convert::FromSpecImpl<CUniqueStr<'a>> for &'a mut str {
    open spec fn obeys_from_spec() -> bool {
        false
    }

    open spec fn from_spec(c_unique: CUniqueStr<'a>) -> Self {
        c_unique.native()
    }
}

} // verus!
