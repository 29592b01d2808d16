//! Session events fanned out to subscribers of a call session.

use vstd::prelude::*;

verus! {

/// An event of one call session.
#[derive(Clone, Debug)]
pub enum SessionEvent {
    /// A track was attached to the registry.
    TrackAdded { track_id: String, timestamp: u64 },
    /// A track was detached from the registry.
    TrackRemoved { track_id: String, timestamp: u64 },
    /// The call ended.
    Hangup {
        track_id: String,
        timestamp: u64,
        reason: Option<String>,
        initiator: Option<String>,
        start_time: String,
        hangup_time: String,
        answer_time: Option<String>,
        ringing_time: Option<String>,
        from: Option<String>,
        to: Option<String>,
        extra: Option<String>,
        refer: Option<String>,
    },
}

} // verus!
