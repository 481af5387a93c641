//! The flat record for `String`.

use crate::native::{slice_addr, string_capacity};
use core::mem::ManuallyDrop;
use core::ops::{Deref, DerefMut};
use vstd::prelude::*;
use vstd::utf8::encode_utf8;

verus! {

/// An **owning** text buffer, as a flat record: the address of the
/// allocation, the number of bytes in use and the number there is room for,
/// which `addr`, `len` and `capacity` read.
///
/// The bytes in use are the UTF-8 encoding of the text. The record takes the
/// string over when it is made: the string is moved in, so the code that had
/// it can no longer free it. Converting the record back with `into` gives the
/// string again, and with it the duty to free the memory. A record that is
/// dropped without being converted frees nothing: the allocation is leaked,
/// never freed twice.
pub struct StableString {
    buf: ManuallyDrop<String>,
}

impl View for StableString {
    type V = Seq<char>;

    /// The text in the buffer.
    open spec fn view(&self) -> Seq<char> {
        self.native()@
    }
}

impl StableString {
    /// The native buffer that the record stands for.
    pub closed spec fn native(self) -> String {
        self.buf@
    }

    /// The bytes in use: the text in UTF-8.
    pub open spec fn spec_bytes(self) -> Seq<u8> {
        encode_utf8(self@)
    }

    /// The record's length field, which counts bytes.
    pub open spec fn spec_len(self) -> nat {
        self.spec_bytes().len()
    }

    /// The length of the text in bytes.
    pub fn len(&self) -> (n: usize)
        ensures
            n == self.spec_len(),
    {
        self.buf.deref().as_str().as_bytes().len()
    }

    /// The record's capacity field, in bytes. The length never exceeds it.
    pub fn capacity(&self) -> (c: usize)
        ensures
            c >= self.spec_len(),
    {
        string_capacity(self.buf.deref())
    }

    /// The record's address field. It is never null: a buffer that has not
    /// allocated carries a sentinel address that is not meant to be read
    /// through.
    pub fn addr(&self) -> (a: usize)
        ensures
            a != 0,
    {
        slice_addr(self.buf.deref().as_str().as_bytes())
    }

    /// Round trip. Whatever record `from` makes of the native string `v`,
    /// and whatever string `from` makes of that record in turn: the string
    /// that comes back is `v` itself, byte for byte, and the record in
    /// between has the bytes and the length of `v`.
    pub proof fn lemma_round_trip(v: String, rec: Self, back: String)
        requires
            call_ensures(<Self as From<String>>::from, (v,), rec),
            call_ensures(<String as From<Self>>::from, (rec,), back),
        ensures
            back == v,
            encode_utf8(back@) == encode_utf8(v@),
            rec.spec_bytes() == encode_utf8(v@),
            rec.spec_len() == encode_utf8(v@).len(),
    {
    }

    /// Writes are seen. Let `written` be a native string in whatever state
    /// it was left, such as the string that came out of a record and was
    /// then changed, and let `again` be the record that `from` makes of it.
    /// `again` stands for `written` as it is: it shows what was written.
    pub proof fn lemma_write_is_observed(written: String, again: Self)
        requires
            call_ensures(<Self as From<String>>::from, (written,), again),
        ensures
            again.native() == written,
            again@ == written@,
            again.spec_bytes() == encode_utf8(written@),
    {
    }
}

impl Deref for StableString {
    type Target = str;

    /// Reads go to the text in the buffer.
    fn deref(&self) -> (r: &str)
        ensures
            r@ == self@,
    {
        self.buf.deref().as_str()
    }
}

impl DerefMut for StableString {
    /// Writes go to the text in the buffer. When the returned borrow ends,
    /// the record holds what was written.
    fn deref_mut(&mut self) -> (r: &mut str)
        ensures
            r@ == old(self)@,
            final(self)@ == final(r)@,
    {
        self.buf.deref_mut().as_mut_str()
    }
}

impl From<String> for StableString {
    /// Takes a native string over. Nothing is copied or checked again: a
    /// `String` is valid UTF-8 already. The record shows the string as it is
    /// at this moment.
    fn from(s: String) -> (r: Self)
        ensures
            r.native() == s,
            r@ == s@,
            r.spec_bytes() == encode_utf8(s@),
            r.spec_len() == encode_utf8(s@).len(),
    {
        Self { buf: ManuallyDrop::new(s) }
    }
}

/// The record is told apart from others only by the string it stands for,
/// which is what `from` promises; no record is singled out as "the" result.
impl vstd::std_specs::convert::FromSpecImpl<String> for StableString {
    open spec fn obeys_from_spec() -> bool {
        false
    }

    closed spec fn from_spec(s: String) -> Self {
        choose|r: Self| r.native() == s
    }
}

impl From<StableString> for String {
    /// Gives the native string back, and with it the ownership of the memory.
    fn from(sv: StableString) -> (r: Self)
        ensures
            r == sv.native(),
            r@ == sv@,
    {
        ManuallyDrop::into_inner(sv.buf)
    }
}

impl vstd::std_specs::convert::FromSpecImpl<StableString> for String {
    open spec fn obeys_from_spec() -> bool {
        true
    }

    open spec fn from_spec(sv: StableString) -> Self {
        sv.native()
    }
}

impl Default for StableString {
    /// The record of an empty string.
    fn default() -> (r: Self)
        ensures
            r@ == Seq::<char>::empty(),
            r.spec_len() == 0,
    {
        Self::from(String::default())
    }
}

} // verus!
