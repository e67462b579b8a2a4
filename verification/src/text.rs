//! Text crossing a C boundary: scanning for embedded nul characters and
//! decoding caller-supplied bytes as UTF-8.
//!
//! Every string handed across the boundary must be valid UTF-8 and free of
//! embedded nul characters, since it travels as a null-terminated byte
//! sequence. Text that cannot be represented that way is rejected with an
//! absent result rather than mangled.

use vstd::prelude::*;
use vstd::utf8::{decode_first_scalar, decode_utf8, decode_utf8_first_scalar, encode_scalar};
use vstd::utf8::{pop_first_scalar, take_first_scalar, valid_utf8};

verus! {

/// True when the character sequence contains an embedded nul, which a
/// null-terminated C string cannot carry.
pub open spec fn contains_nul(s: Seq<char>) -> bool {
    exists|i: int| 0 <= i < s.len() && s[i] == '\0'
}

/// The text as it may cross the boundary: the sequence itself when it is free
/// of embedded nuls, and absent otherwise.
pub open spec fn c_text_of(s: Seq<char>) -> Option<Seq<char>> {
    if contains_nul(s) {
        Option::None
    } else {
        Option::Some(s)
    }
}

/// Scans a string for an embedded nul character.
pub fn has_embedded_nul(s: &str) -> (r: bool)
    ensures
        r == contains_nul(s@),
{
    let len = s.unicode_len();
    let mut i: usize = 0;
    while i < len
        invariant
            len == s@.len(),
            0 <= i <= len,
            forall|j: int| 0 <= j < i ==> s@[j] != '\0',
        decreases len - i,
    {
        if s.get_char(i) == '\0' {
            return true;
        }
        i = i + 1;
    }
    false
}

/// Returns an owned copy of the text if it can be carried by a
/// null-terminated C string, and an absent result otherwise.
pub fn to_c_text(s: &str) -> (r: Option<String>)
    ensures
        r is Some <==> c_text_of(s@) is Some,
        r matches Some(t) ==> c_text_of(s@) == Some(t@),
{
    if has_embedded_nul(s) {
        None
    } else {
        Some(s.to_owned())
    }
}

/// The nul scalar is encoded in UTF-8 only by the single byte 0, so bytes
/// holding no 0 byte decode to text holding no embedded nul: any text that
/// arrived through the boundary as a null-terminated C string can later be
/// handed back out as one.
pub proof fn lemma_c_string_text_has_no_nul(b: Seq<u8>)
    requires
        valid_utf8(b),
        forall|i: int| 0 <= i < b.len() ==> b[i] != 0,
    ensures
        !contains_nul(decode_utf8(b)),
        c_text_of(decode_utf8(b)) == Some(decode_utf8(b)),
    decreases b.len(),
{
    if b.len() != 0 {
        let first = decode_first_scalar(b) as char;
        let rest = pop_first_scalar(b);
        // were the first character nul, its encoding would be the single byte
        // 0, which the hypothesis rules out
        assert(first != '\0') by {
            if first == '\0' {
                decode_utf8_first_scalar(b);
                assert(0u32 & 0x7Fu32 == 0u32) by (bit_vector);
                assert(encode_scalar('\0' as u32) =~= seq![0u8]);
                assert(take_first_scalar(b)[0] == b[0]);
            }
        }
        assert(forall|i: int| 0 <= i < rest.len() ==> rest[i] != 0);
        lemma_c_string_text_has_no_nul(rest);
        let d = decode_utf8(b);
        assert forall|i: int| 0 <= i < d.len() implies d[i] != '\0' by {
            if i > 0 {
                assert(d[i] == decode_utf8(rest)[i - 1]);
            }
        }
    }
}

/// Relies on std's `str::from_utf8`: it returns `Ok` exactly when the bytes
/// are valid UTF-8, and the returned string slice is their decoding.
#[verifier::external_body]
pub(crate) fn utf8_str(bytes: &[u8]) -> (r: Option<&str>)
    ensures
        r is Some <==> valid_utf8(bytes@),
        r matches Some(s) ==> s@ == decode_utf8(bytes@),
{
    core::str::from_utf8(bytes).ok()
}

} // verus!
