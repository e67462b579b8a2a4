//! A verified marshalling core for a C-callable boundary over a
//! natural-language linting engine.
//!
//! The boundary exposes the engine's documents, lint groups and lint findings
//! to C callers as opaque handles. This crate holds everything on this side of
//! the engine that can be checked: UTF-8 validation of caller-supplied bytes,
//! rejection of text that cannot travel as a null-terminated string, absent
//! handles answered with each operation's neutral sentinel, index and bounds
//! checks on suggestion lookups, and the truncating counts the surface
//! reports. The raw-pointer `extern "C"` shell and the calls into the engine
//! itself live outside the crate and hand plain values in and out.

pub mod document;
pub mod group;
pub mod lints;
pub mod text;
pub mod version;
