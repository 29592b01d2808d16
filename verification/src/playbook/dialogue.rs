//! The dialogue handler capability set, implemented by conversation
//! drivers outside this crate.

use vstd::prelude::*;

use crate::call::Command;
use crate::event::SessionEvent;
use crate::media::MediaError;
use crate::playbook::ChatMessage;

verus! {

/// A conversation driver: started once, fed session events, and asked
/// for its history and a summary.
pub trait DialogueHandler {
    /// Commands to issue when the session starts.
    fn on_start(&mut self) -> Result<Vec<Command>, MediaError>;

    /// Commands to issue in reaction to one session event.
    fn on_event(&mut self, event: &SessionEvent) -> Result<Vec<Command>, MediaError>;

    /// The conversation so far.
    fn get_history(&self) -> Vec<ChatMessage>;

    /// A summary of the conversation for the given prompt.
    fn summarize(&mut self, prompt: &str) -> Result<String, MediaError>;
}

} // verus!
