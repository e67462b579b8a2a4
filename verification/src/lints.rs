//! Lint findings and the lint-execution surface.
//!
//! A lint finding is one diagnostic the engine produced: a human-readable
//! message, a half-open character span `[start, end)` into the source text,
//! and an ordered list of suggested replacements. The engine decides what the
//! findings are; this module owns everything around them: the absent-handle
//! sentinels, the reported counts, the index checks on suggestion lookups,
//! and the nul gate on every string handed back.

use vstd::prelude::*;

use crate::document::Document;
use crate::group::LintGroup;
use crate::text::{c_text_of, contains_nul, to_c_text};

verus! {

/// One lint finding, as the boundary hands it to the caller.
pub struct Lint {
    /// The finding's human-readable description.
    pub message: String,
    /// First character offset of the finding's span.
    pub start: usize,
    /// One past the last character offset of the finding's span.
    pub end: usize,
    /// Suggested replacement texts, in the order the engine produced them.
    pub suggestions: Vec<String>,
}

/// Completes a lint pass: when both handles are present, hands the engine's
/// findings to the caller as one owned array and writes its length, truncated
/// to a 32-bit count; when either handle is absent, returns an absent array
/// and leaves the count location untouched.
pub fn harper_get_lints(
    doc: Option<&Document>,
    group: Option<&LintGroup>,
    findings: Vec<Lint>,
    count: &mut i32,
) -> (r: Option<Vec<Lint>>)
    ensures
        r is Some <==> doc is Some && group is Some,
        r matches Some(v) ==> v@ == findings@,
        doc is None || group is None ==> *final(count) == *old(count),
        doc is Some && group is Some && findings@.len() <= i32::MAX ==> *final(count)
            == findings@.len() as i32,
{
    if doc.is_none() || group.is_none() {
        return None;
    }
    *count = #[verifier::truncate] (findings.len() as i32);
    Some(findings)
}

/// Releases a lint array and every finding in it. An absent array, or a count
/// of zero or less, is a no-op.
#[allow(unused_variables)]
pub fn harper_free_lints(lints: Option<Vec<Lint>>, count: i32) {
}

/// Releases a single lint finding. An absent handle is a no-op.
#[allow(unused_variables)]
pub fn harper_free_lint(lint: Option<Lint>) {
}

/// Returns an owned copy of the finding's message, or an absent result when
/// the handle is absent or the message cannot travel as a null-terminated
/// string.
pub fn harper_get_lint_message(lint: Option<&Lint>) -> (r: Option<String>)
    ensures
        r.deep_view() == match lint {
            Option::None => Option::<Seq<char>>::None,
            Option::Some(l) => c_text_of(l.message@),
        },
{
    match lint {
        None => None,
        Some(l) => to_c_text(l.message.as_str()),
    }
}

/// Writes the finding's span `[start, end)` into the two output locations as
/// 64-bit offsets and reports success; an absent handle reports failure and
/// writes nothing.
pub fn harper_get_lint_start_and_end(lint: Option<&Lint>, start: &mut i64, end: &mut i64) -> (r:
    bool)
    ensures
        r == (lint is Some),
        lint is None ==> *final(start) == *old(start) && *final(end) == *old(end),
        lint matches Some(l) ==> {
            &&& l.start <= i64::MAX ==> *final(start) == l.start as i64
            &&& l.end <= i64::MAX ==> *final(end) == l.end as i64
        },
{
    match lint {
        None => false,
        Some(l) => {
            *start = #[verifier::truncate] (l.start as i64);
            *end = #[verifier::truncate] (l.end as i64);
            true
        },
    }
}

/// Reports how many suggested replacements the finding carries, truncated to
/// a 32-bit count, and 0 for an absent handle.
pub fn harper_get_lint_suggestion_count(lint: Option<&Lint>) -> (r: i32)
    ensures
        lint is None ==> r == 0,
        lint matches Some(l) ==> (l.suggestions@.len() <= i32::MAX ==> r == l.suggestions@.len()
            as i32),
{
    match lint {
        None => 0,
        Some(l) => #[verifier::truncate] (l.suggestions.len() as i32),
    }
}

/// Returns an owned copy of the suggestion at the given zero-based index, or
/// an absent result when the handle is absent, the index is negative or out
/// of bounds, or the suggestion cannot travel as a null-terminated string.
pub fn harper_get_lint_suggestion_text(lint: Option<&Lint>, index: i32) -> (r: Option<String>)
    ensures
        lint is None ==> r is None,
        index < 0 ==> r is None,
        lint matches Some(l) ==> (index >= 0 ==> {
            &&& r is Some <==> (index as int) < l.suggestions@.len() && !contains_nul(
                l.suggestions@[index as int]@,
            )
            &&& r matches Some(s) ==> s@ == l.suggestions@[index as int]@
        }),
{
    match lint {
        None => None,
        Some(l) => {
            if index < 0 {
                None
            } else {
                let idx = index as usize;
                if idx >= l.suggestions.len() {
                    None
                } else {
                    to_c_text(l.suggestions[idx].as_str())
                }
            }
        },
    }
}

} // verus!
