//! The engine-version query.
//!
//! The engine's version identifier is a build-time constant; the boundary
//! hands the caller an owned copy of it. A version string with an embedded
//! nul cannot be encoded for the caller, and the surface treats that as an
//! unrecoverable build inconsistency rather than a runtime error: the shell
//! checks with [`crate::text::has_embedded_nul`] and aborts the process, so
//! such an input is excluded here rather than answered.

use vstd::prelude::*;

use crate::text::contains_nul;

verus! {

/// Returns an owned copy of the engine's version identifier, ready to cross
/// the boundary as a null-terminated string.
pub fn harper_version(engine_version: &str) -> (r: String)
    requires
        !contains_nul(engine_version@),
    ensures
        r@ == engine_version@,
{
    engine_version.to_owned()
}

} // verus!
