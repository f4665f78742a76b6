//! The typed event model: what kind of lifecycle event happened, and the
//! envelope that carries it together with a caller-chosen name and an
//! optional free-form attribute bag.

use vstd::prelude::*;

use crate::json::Json;

verus! {

/// The kind of a trace event. The variants are mutually exclusive.
#[derive(Debug)]
pub enum EventType {
    /// A proposal was received.
    Propose { epoch_id: u64, round_id: u64, proposer: String, hash: String },
    /// A vote was received.
    Vote { epoch_id: u64, round_id: u64, voter: String, hash: String },
    /// Something went wrong; the details live in the attribute bag.
    Error,
    /// A new phase of the protocol started.
    Keyframe { frame_info: Keyframe },
    /// A caller-defined event; the payload lives in the attribute bag.
    Custom,
}

/// The start of a phase. A protocol run nests strictly: an epoch contains
/// rounds, a round contains named steps. The identifiers are not validated
/// for consistency; callers may pass what they like.
#[derive(Debug)]
pub enum Keyframe {
    /// An epoch started.
    NewEpoch { epoch_id: u64 },
    /// A round started within an epoch.
    NewRound { round_id: u64, epoch_id: u64 },
    /// A named step started within a round.
    NewStep { step_name: String, round_id: u64, epoch_id: u64 },
}

/// One emitted event: a caller-chosen name, the typed kind, and an optional
/// free-form attribute bag. When present, the bag must be a JSON object;
/// the codec rejects any other shape.
#[derive(Debug)]
pub struct TraceEvent {
    /// Caller-chosen name; assumed (not required) to be unique per logical
    /// event kind.
    pub event_name: String,
    /// The typed kind of the event.
    pub event_type: EventType,
    /// Free-form attributes, merged with the typed fields at encode time.
    pub tag: Option<Json>,
}

} // verus!
