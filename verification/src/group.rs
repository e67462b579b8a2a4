//! Lint-group handles.
//!
//! A lint group stands for a caller-owned configuration of the engine's lint
//! rules: a curated dictionary and a fixed dialect, chosen once at
//! construction and not parameterized by the boundary. The configuration
//! itself lives with the engine; the boundary only manages the handle's
//! lifetime and answers absent handles with the neutral sentinel.

use vstd::prelude::*;

verus! {

/// A lint-group handle: one caller-owned instance of the engine's fixed rule
/// configuration (curated dictionary, Australian English dialect). The handle
/// may be reused across many documents.
pub struct LintGroup {
}

/// Creates a fresh lint-group handle with the boundary's fixed configuration.
pub fn harper_create_lint_group() -> LintGroup {
    LintGroup {}
}

/// Releases a lint-group handle. An absent handle is a no-op.
#[allow(unused_variables)]
pub fn harper_free_lint_group(group: Option<LintGroup>) {
}

} // verus!
