//! The tracer registry: a slot that holds the installed sink, and the free
//! reporting functions that build events and hand them to the active sink.

use vstd::prelude::*;
use vstd::string::StringExecFns;

use crate::event::{EventType, Keyframe, TraceEvent};
use crate::json::Json;
use crate::point::{Metadata, TracePoint};

verus! {

/// The capability a sink must offer: dispose of one trace point, identify
/// the reporting node, and tell the time. Side effects of `report` are
/// entirely sink-defined; the core imposes nothing on them.
pub trait Trace: Sync + Send {
    /// Disposes of one trace point; the sink becomes its sole owner.
    fn report(&self, point: TracePoint);

    /// Node-identifying information, queried once per reported event.
    fn metadata(&self) -> Metadata;

    /// The sink's notion of current time (allows deterministic time
    /// injection for testing).
    fn now(&self) -> u64;
}

/// Returned when installing a sink fails. No current sink produces it; it
/// exists so that future sinks may reject incompatible configurations.
#[derive(Debug)]
pub struct SetTraceError;

/// The sink active before any installation: it discards every point, knows
/// no address, and reads the wall clock.
pub struct DefaultTrace;

impl Trace for DefaultTrace {
    fn report(&self, _point: TracePoint) {
    }

    fn metadata(&self) -> Metadata {
        Metadata::default()
    }

    fn now(&self) -> u64 {
        crate::time::now()
    }
}

/// The registry's state: either no sink was installed yet (the default
/// sink is active) or a caller-supplied sink is. Installation is one-way:
/// there is no transition back to the uninstalled state, only replacement.
pub struct Registry<T> {
    pub sink: Option<T>,
}

impl<T: Trace> Registry<T> {
    /// Whether a caller-supplied sink is active.
    pub open spec fn installed(self) -> bool {
        self.sink is Some
    }

    /// A fresh registry: no sink installed, the default sink is active.
    pub fn new() -> (r: Registry<T>)
        ensures
            !r.installed(),
    {
        Registry { sink: None }
    }

    /// Installs `sink`, replacing whatever sink was active — the default
    /// one or a previously installed one. No teardown is run on the
    /// replaced sink. Never fails today; the `Result` leaves room for
    /// future sinks to reject incompatible configurations.
    pub fn set_tracer(&mut self, sink: T) -> (r: Result<(), SetTraceError>)
        ensures
            final(self).sink == Some(sink),
            final(self).installed(),
            r is Ok,
    {
        self.sink = Some(sink);
        Ok(())
    }
}

/// Builds the trace point for `event` by querying one sink for its
/// metadata and time, and hands it to that same sink.
fn dispatch<S: Trace>(sink: &S, event: TraceEvent) {
    let metadata = sink.metadata();
    sink.report(TracePoint { timestamp: sink.now(), event, metadata });
}

/// Reports `event` through the registry's active sink: the installed one,
/// or the default sink when none was installed.
pub fn report<T: Trace>(registry: &Registry<T>, event: TraceEvent) {
    match &registry.sink {
        Some(sink) => dispatch(sink, event),
        None => dispatch(&DefaultTrace, event),
    }
}

/// Reports a keyframe event under `event_name`, with no attribute bag.
pub fn report_keyframe<T: Trace>(registry: &Registry<T>, event_name: String, keyframe: Keyframe) {
    report(
        registry,
        TraceEvent {
            event_name,
            event_type: EventType::Keyframe { frame_info: keyframe },
            tag: None,
        },
    )
}

/// Reports the start of epoch `epoch_id`.
pub fn start_epoch<T: Trace>(registry: &Registry<T>, epoch_id: u64) {
    report_keyframe(registry, String::from_str("start_epoch"), Keyframe::NewEpoch { epoch_id });
}

/// Reports the start of round `round_id` within epoch `epoch_id`.
pub fn start_round<T: Trace>(registry: &Registry<T>, round_id: u64, epoch_id: u64) {
    report_keyframe(
        registry,
        String::from_str("start_round"),
        Keyframe::NewRound { round_id, epoch_id },
    )
}

/// Reports the start of step `step_name` within round `round_id` of epoch
/// `epoch_id`.
pub fn start_step<T: Trace>(
    registry: &Registry<T>,
    step_name: String,
    round_id: u64,
    epoch_id: u64,
) {
    report_keyframe(
        registry,
        String::from_str("start_step"),
        Keyframe::NewStep { step_name, round_id, epoch_id },
    )
}

/// Reports receipt of a proposal.
pub fn receive_proposal<T: Trace>(
    registry: &Registry<T>,
    event_name: String,
    epoch_id: u64,
    round_id: u64,
    proposer: String,
    hash: String,
    tag: Option<Json>,
) {
    report(
        registry,
        TraceEvent {
            event_name,
            event_type: EventType::Propose { epoch_id, round_id, proposer, hash },
            tag,
        },
    );
}

/// Reports receipt of a vote.
pub fn receive_vote<T: Trace>(
    registry: &Registry<T>,
    event_name: String,
    epoch_id: u64,
    round_id: u64,
    voter: String,
    hash: String,
    tag: Option<Json>,
) {
    report(
        registry,
        TraceEvent {
            event_name,
            event_type: EventType::Vote { epoch_id, round_id, voter, hash },
            tag,
        },
    )
}

/// Reports a custom event; the payload lives entirely in `tag`.
pub fn custom<T: Trace>(registry: &Registry<T>, event_name: String, tag: Option<Json>) {
    report(registry, TraceEvent { event_name, event_type: EventType::Custom, tag });
}

/// Reports an error event.
pub fn error<T: Trace>(registry: &Registry<T>, event_name: String, tag: Option<Json>) {
    report(registry, TraceEvent { event_name, event_type: EventType::Error, tag });
}

} // verus!
