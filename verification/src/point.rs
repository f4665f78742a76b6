//! The unit of record: one timestamped event together with the metadata of
//! the node that reports it.

use vstd::prelude::*;

use crate::event::TraceEvent;

verus! {

/// Identifies the reporting node. Supplied by the installed sink, not by
/// the call site.
#[derive(Debug)]
pub struct Metadata {
    pub address: String,
}

impl Default for Metadata {
    /// The default metadata carries an empty address.
    fn default() -> (r: Metadata)
        ensures
            r.address@ == Seq::<char>::empty(),
    {
        Metadata { address: String::new() }
    }
}

/// One trace record: a timestamp, the event, and the reporting node's
/// metadata. Built fresh for every reported event and handed to the sink,
/// which becomes its sole owner.
#[derive(Debug)]
pub struct TracePoint {
    pub timestamp: u64,
    pub event: TraceEvent,
    pub metadata: Metadata,
}

} // verus!
