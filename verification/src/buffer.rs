//! The dual-representation buffer type and its uniform interface.

use crate::encoding::{bytes_eq, lemma_encode_utf8_concat, lossy_utf8, string_push,
    try_str_from_utf8, utf8_lossy};
use std::borrow::Cow;
use vstd::prelude::*;
use vstd::string::{StrSliceExecFns, StringExecFns, StringSliceAdditionalSpecFns};
use vstd::utf8::{decode_utf8, encode_utf8, valid_utf8};

verus! {

broadcast use vstd::utf8::encode_utf8_valid_utf8, vstd::utf8::encode_utf8_decode_utf8;

/// An owned buffer that may be UTF-8 encoded.
pub type MaybeUtf8Owned = MaybeUtf8<String, Vec<u8>>;

/// A borrowed view of a buffer that may be UTF-8 encoded.
pub type MaybeUtf8Slice<'a> = MaybeUtf8<&'a str, &'a [u8]>;

/// Octet data that may or may not be valid UTF-8 text.
///
/// The variant is decided once, when a value is built: bytes that validate
/// become [`MaybeUtf8::Utf8`], all others stay [`MaybeUtf8::NotUtf8`]. The
/// `Utf8` payload is text by construction and is never re-validated; the
/// variant never moves back from `NotUtf8` to `Utf8`, even when later appends
/// make the whole content valid again.
#[derive(Debug, Clone)]
pub enum MaybeUtf8<S, V> {
    /// A payload validated as UTF-8 encoded text.
    Utf8(S),
    /// An arbitrary, not necessarily valid, byte sequence.
    NotUtf8(V),
}

impl<S, V> MaybeUtf8<S, V> {
    /// True when the active variant carries validated text.
    pub open spec fn is_text(&self) -> bool {
        self is Utf8
    }
}

impl View for MaybeUtf8<String, Vec<u8>> {
    type V = Seq<u8>;

    /// The flat byte content, independent of the variant.
    open spec fn view(&self) -> Seq<u8> {
        match self {
            MaybeUtf8::Utf8(s) => encode_utf8(s@),
            MaybeUtf8::NotUtf8(v) => v@,
        }
    }
}

impl<'a> View for MaybeUtf8<&'a str, &'a [u8]> {
    type V = Seq<u8>;

    /// The flat byte content, independent of the variant.
    open spec fn view(&self) -> Seq<u8> {
        match self {
            MaybeUtf8::Utf8(s) => s.spec_bytes(),
            MaybeUtf8::NotUtf8(v) => v@,
        }
    }
}

impl MaybeUtf8<String, Vec<u8>> {
    /// The characters of the text payload; meaningful only for `Utf8` values.
    pub open spec fn text_view(&self) -> Seq<char>
        recommends
            self.is_text(),
    {
        match self {
            MaybeUtf8::Utf8(s) => s@,
            MaybeUtf8::NotUtf8(_) => Seq::<char>::empty(),
        }
    }

    /// Borrow the whole content as a flat slice of octets.
    pub fn as_bytes<'a>(&'a self) -> (r: &'a [u8])
        ensures
            r@ == self@,
    {
        match self {
            MaybeUtf8::Utf8(s) => s.as_str().as_bytes(),
            MaybeUtf8::NotUtf8(v) => v.as_slice(),
        }
    }

    /// Borrow the content as text, exactly: absent when the variant is not
    /// validated text.
    pub fn as_utf8<'a>(&'a self) -> (r: Option<&'a str>)
        ensures
            r is Some <==> self.is_text(),
            r matches Some(s) ==> s@ == self.text_view() && s.spec_bytes() == self@,
    {
        match self {
            MaybeUtf8::Utf8(s) => Some(s.as_str()),
            MaybeUtf8::NotUtf8(_) => None,
        }
    }

    /// Build a buffer from an owned byte sequence, classifying it once: bytes
    /// that validate as UTF-8 become text, all others stay raw bytes,
    /// unchanged.
    pub fn from_bytes(bytes: Vec<u8>) -> (r: Self)
        ensures
            r@ == bytes@,
            r.is_text() <==> valid_utf8(bytes@),
            r.is_text() ==> r.text_view() == decode_utf8(bytes@),
    {
        let opt = try_str_from_utf8(bytes.as_slice());
        match opt {
            Some(string) => MaybeUtf8::Utf8(string.to_owned()),
            None => MaybeUtf8::NotUtf8(bytes),
        }
    }

    /// Borrow the content as a view that does not own its data.
    pub fn as_slice<'a>(&'a self) -> (r: MaybeUtf8<&'a str, &'a [u8]>)
        ensures
            r@ == self@,
            r.is_text() == self.is_text(),
            self.is_text() ==> r.text_view() == self.text_view(),
    {
        match self {
            MaybeUtf8::Utf8(s) => MaybeUtf8::Utf8(s.as_str()),
            MaybeUtf8::NotUtf8(v) => MaybeUtf8::NotUtf8(v.as_slice()),
        }
    }

    /// Append a single character. A character is valid text by definition, so
    /// a `Utf8` value stays `Utf8`; on a `NotUtf8` value the character's
    /// encoded bytes are appended and the variant stays `NotUtf8`.
    pub fn push_char(&mut self, c: char)
        ensures
            final(self)@ == old(self)@ + encode_utf8(seq![c]),
            final(self).is_text() == old(self).is_text(),
            old(self).is_text() ==> final(self).text_view() == old(self).text_view().push(c),
    {
        let mut tmp = MaybeUtf8::NotUtf8(Vec::new());
        core::mem::swap(self, &mut tmp);
        match tmp {
            MaybeUtf8::Utf8(mut s) => {
                proof {
                    lemma_encode_utf8_concat(s@, seq![c]);
                    assert(s@.push(c) =~= s@ + seq![c]);
                }
                string_push(&mut s, c);
                *self = MaybeUtf8::Utf8(s);
            },
            MaybeUtf8::NotUtf8(mut v) => {
                let mut one = String::new();
                string_push(&mut one, c);
                proof {
                    assert(one@ =~= seq![c]);
                }
                v.extend_from_slice(one.as_str().as_bytes());
                *self = MaybeUtf8::NotUtf8(v);
            },
        }
    }

    /// Append validated text. Two valid UTF-8 sequences concatenate to a
    /// valid one, so a `Utf8` value stays `Utf8`; on a `NotUtf8` value the
    /// text's raw encoded bytes are appended and the variant stays `NotUtf8`.
    pub fn push_str(&mut self, string: &str)
        ensures
            final(self)@ == old(self)@ + string.spec_bytes(),
            final(self).is_text() == old(self).is_text(),
            old(self).is_text() ==> final(self).text_view() == old(self).text_view() + string@,
    {
        let mut tmp = MaybeUtf8::NotUtf8(Vec::new());
        core::mem::swap(self, &mut tmp);
        match tmp {
            MaybeUtf8::Utf8(mut s) => {
                proof {
                    lemma_encode_utf8_concat(s@, string@);
                }
                s.append(string);
                *self = MaybeUtf8::Utf8(s);
            },
            MaybeUtf8::NotUtf8(mut v) => {
                v.extend_from_slice(string.as_bytes());
                *self = MaybeUtf8::NotUtf8(v);
            },
        }
    }

    /// Append arbitrary bytes, the general mutation primitive. The incoming
    /// bytes are validated standalone: when they are valid UTF-8 and the
    /// value is text, it stays text; otherwise the value is reinterpreted as
    /// its byte form and stays `NotUtf8` from then on. Bytes truncated inside
    /// a multi-byte sequence count as invalid for this single call; partial
    /// sequences are not buffered across calls.
    pub fn push_bytes(&mut self, bytes: &[u8])
        ensures
            final(self)@ == old(self)@ + bytes@,
            final(self).is_text() <==> old(self).is_text() && valid_utf8(bytes@),
            old(self).is_text() && valid_utf8(bytes@) ==> final(self).text_view()
                == old(self).text_view() + decode_utf8(bytes@),
    {
        let opt = try_str_from_utf8(bytes);
        match opt {
            Some(string) => {
                self.push_str(string);
            },
            None => {
                let mut tmp = MaybeUtf8::NotUtf8(Vec::new());
                core::mem::swap(self, &mut tmp);
                let mut v = tmp.into_bytes();
                v.extend_from_slice(bytes);
                *self = MaybeUtf8::NotUtf8(v);
            },
        }
    }

    /// Convert into an owned string: text converts directly, bytes are
    /// decoded lossily.
    pub fn into_string(self) -> (r: String)
        ensures
            self.is_text() ==> r@ == self.text_view(),
            !self.is_text() ==> r@ == lossy_utf8(self@),
            valid_utf8(self@) ==> r@ == decode_utf8(self@),
    {
        match self {
            MaybeUtf8::Utf8(s) => s,
            MaybeUtf8::NotUtf8(v) => {
                let cow = utf8_lossy(v.as_slice());
                match cow {
                    Cow::Borrowed(b) => b.to_owned(),
                    Cow::Owned(s) => s,
                }
            },
        }
    }

    /// Convert into an owned byte sequence: a flatten of whichever carrier is
    /// active, never lossy.
    pub fn into_bytes(self) -> (r: Vec<u8>)
        ensures
            r@ == self@,
    {
        match self {
            MaybeUtf8::Utf8(s) => s.as_str().as_bytes_vec(),
            MaybeUtf8::NotUtf8(v) => v,
        }
    }

    /// Borrow the content as text, or decode it lossily: text is borrowed
    /// directly without allocating, bytes have every maximal invalid
    /// subsequence replaced by U+FFFD.
    pub fn as_utf8_lossy<'a>(&'a self) -> (r: Cow<'a, str>)
        ensures
            self.is_text() ==> r@ == self.text_view() && r is Borrowed,
            !self.is_text() ==> r@ == lossy_utf8(self@),
            valid_utf8(self@) ==> r@ == decode_utf8(self@),
    {
        match self {
            MaybeUtf8::Utf8(s) => Cow::Borrowed(s.as_str()),
            MaybeUtf8::NotUtf8(v) => utf8_lossy(v.as_slice()),
        }
    }
}

impl<'a> MaybeUtf8<&'a str, &'a [u8]> {
    /// The characters of the text payload; meaningful only for `Utf8` values.
    pub open spec fn text_view(&self) -> Seq<char>
        recommends
            self.is_text(),
    {
        match self {
            MaybeUtf8::Utf8(s) => s@,
            MaybeUtf8::NotUtf8(_) => Seq::<char>::empty(),
        }
    }

    /// Borrow the whole content as a flat slice of octets.
    pub fn as_bytes(&self) -> (r: &'a [u8])
        ensures
            r@ == self@,
    {
        match self {
            MaybeUtf8::Utf8(s) => s.as_bytes(),
            MaybeUtf8::NotUtf8(v) => v,
        }
    }

    /// Borrow the content as text, exactly: absent when the variant is not
    /// validated text.
    pub fn as_utf8(&self) -> (r: Option<&'a str>)
        ensures
            r is Some <==> self.is_text(),
            r matches Some(s) ==> s@ == self.text_view() && s.spec_bytes() == self@,
    {
        match self {
            MaybeUtf8::Utf8(s) => Some(s),
            MaybeUtf8::NotUtf8(_) => None,
        }
    }

    /// Re-borrow the view.
    pub fn as_slice(&self) -> (r: MaybeUtf8<&'a str, &'a [u8]>)
        ensures
            r@ == self@,
            r.is_text() == self.is_text(),
            self.is_text() ==> r.text_view() == self.text_view(),
    {
        match self {
            MaybeUtf8::Utf8(s) => MaybeUtf8::Utf8(*s),
            MaybeUtf8::NotUtf8(v) => MaybeUtf8::NotUtf8(*v),
        }
    }

    /// Borrow the content as text, or decode it lossily: text is borrowed
    /// directly without allocating, bytes have every maximal invalid
    /// subsequence replaced by U+FFFD.
    pub fn as_utf8_lossy(&self) -> (r: Cow<'a, str>)
        ensures
            self.is_text() ==> r@ == self.text_view() && r is Borrowed,
            !self.is_text() ==> r@ == lossy_utf8(self@),
            valid_utf8(self@) ==> r@ == decode_utf8(self@),
    {
        match self {
            MaybeUtf8::Utf8(s) => Cow::Borrowed(*s),
            MaybeUtf8::NotUtf8(v) => utf8_lossy(*v),
        }
    }
}

/// Law: the flat content of an owned buffer in the text variant is valid
/// UTF-8 — no operation places invalid bytes into that variant.
pub proof fn lemma_text_is_valid_utf8(m: &MaybeUtf8<String, Vec<u8>>)
    requires
        m.is_text(),
    ensures
        valid_utf8(m@),
{
    match m {
        MaybeUtf8::Utf8(s) => {
            vstd::utf8::encode_utf8_valid_utf8(s@);
        },
        MaybeUtf8::NotUtf8(_) => {
        },
    }
}

/// Law: the flat content of a borrowed view in the text variant is valid
/// UTF-8 — no operation places invalid bytes into that variant.
pub proof fn lemma_text_slice_is_valid_utf8<'a>(m: &MaybeUtf8<&'a str, &'a [u8]>)
    requires
        m.is_text(),
    ensures
        valid_utf8(m@),
{
    match m {
        MaybeUtf8::Utf8(s) => {
            vstd::utf8::encode_utf8_valid_utf8(s@);
        },
        MaybeUtf8::NotUtf8(_) => {
        },
    }
}

impl From<String> for MaybeUtf8<String, Vec<u8>> {
    /// Build a buffer from an owned string: always text, no validation
    /// needed.
    fn from(string: String) -> (r: Self) {
        MaybeUtf8::Utf8(string)
    }
}

impl vstd::std_specs::convert::FromSpecImpl<String> for MaybeUtf8<String, Vec<u8>> {
    open spec fn obeys_from_spec() -> bool {
        true
    }

    open spec fn from_spec(string: String) -> Self {
        MaybeUtf8::Utf8(string)
    }
}

impl<'a> From<&'a str> for MaybeUtf8<&'a str, &'a [u8]> {
    /// Build a view from a borrowed string slice: always text, no validation
    /// needed.
    fn from(string: &'a str) -> (r: Self) {
        MaybeUtf8::Utf8(string)
    }
}

impl<'a> vstd::std_specs::convert::FromSpecImpl<&'a str> for MaybeUtf8<&'a str, &'a [u8]> {
    open spec fn obeys_from_spec() -> bool {
        true
    }

    open spec fn from_spec(string: &'a str) -> Self {
        MaybeUtf8::Utf8(string)
    }
}

impl PartialEq for MaybeUtf8<String, Vec<u8>> {
    /// Identity is the flattened byte content alone: the variant tag takes no
    /// part in it.
    fn eq(&self, other: &Self) -> (r: bool) {
        bytes_eq(self.as_bytes(), other.as_bytes())
    }
}

impl vstd::std_specs::cmp::PartialEqSpecImpl for MaybeUtf8<String, Vec<u8>> {
    open spec fn obeys_eq_spec() -> bool {
        true
    }

    open spec fn eq_spec(&self, other: &Self) -> bool {
        self@ == other@
    }
}

impl<'a> PartialEq for MaybeUtf8<&'a str, &'a [u8]> {
    /// Identity is the flattened byte content alone: the variant tag takes no
    /// part in it.
    fn eq(&self, other: &Self) -> (r: bool) {
        bytes_eq(self.as_bytes(), other.as_bytes())
    }
}

impl<'a> vstd::std_specs::cmp::PartialEqSpecImpl for MaybeUtf8<&'a str, &'a [u8]> {
    open spec fn obeys_eq_spec() -> bool {
        true
    }

    open spec fn eq_spec(&self, other: &Self) -> bool {
        self@ == other@
    }
}

impl<'a> PartialEq<MaybeUtf8<&'a str, &'a [u8]>> for MaybeUtf8<String, Vec<u8>> {
    /// Owned and borrowed forms are interchangeable under equality whenever
    /// their byte content matches.
    fn eq(&self, other: &MaybeUtf8<&'a str, &'a [u8]>) -> (r: bool) {
        bytes_eq(self.as_bytes(), other.as_bytes())
    }
}

impl<'a> vstd::std_specs::cmp::PartialEqSpecImpl<MaybeUtf8<&'a str, &'a [u8]>> for MaybeUtf8<String, Vec<u8>> {
    open spec fn obeys_eq_spec() -> bool {
        true
    }

    open spec fn eq_spec(&self, other: &MaybeUtf8<&'a str, &'a [u8]>) -> bool {
        self@ == other@
    }
}

impl<'a> PartialEq<MaybeUtf8<String, Vec<u8>>> for MaybeUtf8<&'a str, &'a [u8]> {
    /// Owned and borrowed forms are interchangeable under equality whenever
    /// their byte content matches.
    fn eq(&self, other: &MaybeUtf8<String, Vec<u8>>) -> (r: bool) {
        bytes_eq(self.as_bytes(), other.as_bytes())
    }
}

impl<'a> vstd::std_specs::cmp::PartialEqSpecImpl<MaybeUtf8<String, Vec<u8>>> for MaybeUtf8<&'a str, &'a [u8]> {
    open spec fn obeys_eq_spec() -> bool {
        true
    }

    open spec fn eq_spec(&self, other: &MaybeUtf8<String, Vec<u8>>) -> bool {
        self@ == other@
    }
}

} // verus!
