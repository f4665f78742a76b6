//! Event-tracing facade for consensus-style algorithms.
//!
//! Call sites emit typed lifecycle events (epoch/round/step starts, proposal
//! and vote receipt, errors, custom annotations). A registry dispatches each
//! event to a pluggable sink; the codec turns a trace point into a JSON
//! document, merging the typed fields of the event into the free-form
//! attribute bag supplied by the caller.

pub mod codec;
pub mod event;
pub mod json;
pub mod point;
pub mod time;
pub mod trace;

use vstd::prelude::*;

verus! {

/// The library's semantic version, embedded as `metadata.v` in every
/// encoded record.
pub open spec fn spec_version() -> Seq<char> {
    "0.1.0"@
}

/// Returns the library's fixed version string.
pub fn version() -> (s: &'static str)
    ensures
        s@ == spec_version(),
{
    "0.1.0"
}

} // verus!
