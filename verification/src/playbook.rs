//! The dialogue/playbook boundary: what the media core needs from a
//! conversation driver.

use vstd::prelude::*;

pub mod dialogue;

verus! {

/// One turn of the conversation history.
pub struct ChatMessage {
    pub role: String,
    pub content: String,
}

} // verus!
