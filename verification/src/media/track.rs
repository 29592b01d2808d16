//! Track-level configuration and the per-track codec transcoder.

use vstd::prelude::*;

pub mod track_codec;

verus! {

/// The codecs a track can negotiate.  Values of this enum are the
/// library's own; the transcoder maps them to concrete codec instances.
#[derive(Clone, Copy, Debug, PartialEq, Eq, Structural)]
pub enum CodecType {
    PCMU,
    PCMA,
    G722,
    G729,
    TelephoneEvent,
    Opus,
}

/// Per-track media parameters, owned by the track itself.
#[derive(Clone, Debug)]
pub struct TrackConfig {
    pub codec: CodecType,
    pub samplerate: u32,
    /// Packetization interval in milliseconds.
    pub ptime: u32,
    pub channels: u8,
}

impl Default for TrackConfig {
    /// A 16 kHz mono PCMU track with 20 ms packets.
    fn default() -> (r: Self)
        ensures
            r.codec == CodecType::PCMU,
            r.samplerate == 16000,
            r.ptime == 20,
            r.channels == 1,
    {
        TrackConfig { codec: CodecType::PCMU, samplerate: 16000, ptime: 20, channels: 1 }
    }
}

} // verus!
