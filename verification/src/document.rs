//! Documents as the boundary sees them: the source text the caller handed in
//! and the token count the engine derived from it.
//!
//! Parsing itself belongs to the engine. A `Document` handle records what the
//! boundary later reads back out of a parsed document: its full text and how
//! many tokens the parse produced. The shell validates caller bytes with
//! [`document_source_text`], has the engine parse the text, and then builds
//! the handle with [`harper_create_document`].

use vstd::prelude::*;
use vstd::utf8::{decode_utf8, encode_utf8, valid_utf8};
use vstd::utf8::{encode_utf8_decode_utf8, encode_utf8_valid_utf8};

use crate::text::{c_text_of, contains_nul, to_c_text, utf8_str};

verus! {

/// A document handle: the text it was created from together with the number
/// of tokens the engine's parse of that text produced.
pub struct Document {
    /// The document's full text.
    pub text: String,
    /// How many tokens the engine produced when parsing the text.
    pub token_count: usize,
}

/// The text a document may be created from, given the caller's bytes: absent
/// when no bytes were supplied or they are not valid UTF-8, and their
/// decoding otherwise.
pub open spec fn source_text_result(bytes: Option<Seq<u8>>) -> Option<Seq<char>> {
    match bytes {
        Option::None => Option::None,
        Option::Some(b) => if valid_utf8(b) {
            Option::Some(decode_utf8(b))
        } else {
            Option::None
        },
    }
}

/// Decodes the caller-supplied bytes a document is to be created from.
/// Absent bytes or bytes that are not valid UTF-8 yield an absent result.
pub fn document_source_text(bytes: Option<&[u8]>) -> (r: Option<String>)
    ensures
        r.deep_view() == source_text_result(
            match bytes {
                Option::None => Option::<Seq<u8>>::None,
                Option::Some(b) => Option::Some(b@),
            },
        ),
{
    match bytes {
        None => None,
        Some(b) => match utf8_str(b) {
            None => None,
            Some(s) => Some(s.to_owned()),
        },
    }
}

/// Builds the handle for a freshly parsed document from its text and the
/// token count the parse produced.
pub fn harper_create_document(text: String, token_count: usize) -> (d: Document)
    ensures
        d.text == text,
        d.token_count == token_count,
{
    Document { text, token_count }
}

/// Releases a document handle. An absent handle is a no-op.
#[allow(unused_variables)]
pub fn harper_free_document(doc: Option<Document>) {
}

/// Returns an owned copy of the document's full text, or an absent result
/// when the handle is absent or the text cannot travel as a null-terminated
/// string.
pub fn harper_get_document_text(doc: Option<&Document>) -> (r: Option<String>)
    ensures
        r.deep_view() == match doc {
            Option::None => Option::<Seq<char>>::None,
            Option::Some(d) => c_text_of(d.text@),
        },
{
    match doc {
        None => None,
        Some(d) => to_c_text(d.text.as_str()),
    }
}

/// Reports how many tokens the document's parse produced, truncated to a
/// 32-bit count, and 0 for an absent handle.
pub fn harper_get_token_count(doc: Option<&Document>) -> (r: i32)
    ensures
        doc is None ==> r == 0,
        doc matches Some(d) ==> (d.token_count <= i32::MAX ==> r == d.token_count as i32),
{
    match doc {
        None => 0,
        Some(d) => #[verifier::truncate] (d.token_count as i32),
    }
}

/// Round trip across the boundary: a document created from the UTF-8
/// encoding of any nul-free text carries exactly that text, and reading the
/// document's text back returns it unchanged.
pub proof fn lemma_document_text_round_trip(t: Seq<char>)
    requires
        !contains_nul(t),
    ensures
        source_text_result(Some(encode_utf8(t))) == Some(t),
        c_text_of(t) == Some(t),
{
    encode_utf8_valid_utf8(t);
    encode_utf8_decode_utf8(t);
}

} // verus!
