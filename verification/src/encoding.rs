//! UTF-8 encoding facts and thin trusted bridges to the standard library's
//! validation and lossy-decoding routines.

use vstd::prelude::*;
use vstd::string::StringSliceAdditionalSpecFns;
use vstd::utf8::{decode_utf8, encode_utf8, valid_utf8};

verus! {

/// The character sequence that lossy UTF-8 decoding produces for the given
/// bytes: every maximal invalid subsequence is replaced by U+FFFD. The result
/// depends on the bytes alone; it is pinned down here only as far as the
/// contracts below state.
pub uninterp spec fn lossy_utf8(bytes: Seq<u8>) -> Seq<char>;

/// The UTF-8 encoding of a concatenation is the concatenation of the
/// encodings.
pub proof fn lemma_encode_utf8_concat(s1: Seq<char>, s2: Seq<char>)
    ensures
        encode_utf8(s1 + s2) == encode_utf8(s1) + encode_utf8(s2),
    decreases s1.len(),
{
    if s1.len() == 0 {
        assert(s1 + s2 =~= s2);
        assert(encode_utf8(s1) + encode_utf8(s2) =~= encode_utf8(s2));
    } else {
        assert((s1 + s2).drop_first() =~= s1.drop_first() + s2);
        lemma_encode_utf8_concat(s1.drop_first(), s2);
        assert(encode_utf8(s1 + s2) =~= encode_utf8(s1) + encode_utf8(s2));
    }
}

/// Relies on `core::str::from_utf8`: it returns a string slice viewing
/// exactly the given bytes when they are valid UTF-8, and an error otherwise.
#[verifier::external_body]
pub(crate) fn try_str_from_utf8<'a>(bytes: &'a [u8]) -> (r: Option<&'a str>)
    ensures
        r matches Some(s) ==> s.spec_bytes() == bytes@,
        r is Some <==> valid_utf8(bytes@),
{
    core::str::from_utf8(bytes).ok()
}

/// Relies on `String::push`: it appends the given character to the string.
#[verifier::external_body]
pub(crate) fn string_push(s: &mut String, c: char)
    ensures
        final(s)@ == old(s)@.push(c),
{
    s.push(c)
}

/// Relies on `String::from_utf8_lossy`: it decodes the bytes, replacing every
/// maximal invalid subsequence with U+FFFD, and borrows the input unchanged
/// when it is already valid UTF-8.
#[verifier::external_body]
pub(crate) fn utf8_lossy<'a>(bytes: &'a [u8]) -> (r: std::borrow::Cow<'a, str>)
    ensures
        r@ == lossy_utf8(bytes@),
        valid_utf8(bytes@) ==> r@ == decode_utf8(bytes@),
{
    String::from_utf8_lossy(bytes)
}

/// Compares two byte slices element by element.
pub fn bytes_eq(a: &[u8], b: &[u8]) -> (r: bool)
    ensures
        r == (a@ == b@),
{
    if a.len() != b.len() {
        return false;
    }
    let mut i: usize = 0;
    while i < a.len()
        invariant
            0 <= i <= a@.len(),
            a@.len() == b@.len(),
            forall|j: int| 0 <= j < i ==> a@[j] == b@[j],
        decreases a@.len() - i,
    {
        if a[i] != b[i] {
            return false;
        }
        i = i + 1;
    }
    proof {
        assert(a@ =~= b@);
    }
    true
}

} // verus!
