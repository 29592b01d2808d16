//! Call-control intent exchanged with the dialogue layer.

use vstd::prelude::*;

verus! {

/// A command the dialogue layer hands back to the call session.
#[derive(Clone, Debug)]
pub enum Command {
    /// End the call.
    Hangup { reason: Option<String>, initiator: Option<String> },
}

} // verus!
