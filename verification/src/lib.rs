//! Media core of a real-time voice-call platform.
//!
//! The crate ingests per-track audio frames (raw PCM or RTP-encapsulated),
//! routes each frame through a configurable transform chain (codec decode and
//! encode, resampling, background-audio ducking), and accumulates a
//! synchronized mixed recording, while call tracks attach, detach, and
//! renegotiate concurrently.  Asynchronous shells (file and network I/O,
//! timers) live outside this crate; everything here is verified.

pub mod call;
pub mod config;
pub mod event;
pub mod locator;
pub mod media;
pub mod playbook;
