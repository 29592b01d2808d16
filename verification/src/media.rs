//! Frame data model shared by every media component.

use vstd::prelude::*;

pub mod ambiance;
pub mod codecs;
pub mod loader;
pub mod processor;
pub mod recorder;
pub mod stream;
pub mod track;

verus! {

/// Linear 16-bit PCM buffer.
pub type PcmBuf = Vec<i16>;

/// Sample rate every internal PCM path is normalized to.
pub const INTERNAL_SAMPLERATE: u32 = 16000;

/// Errors surfaced by the media core.  Per-frame trouble is recovered
/// locally and never reported through this type.
#[derive(Clone, Copy, Debug, PartialEq, Eq, Structural)]
pub enum MediaError {
    /// A component could not be constructed from its configuration
    /// (missing ambiance source path, unsupported bit depth in a source
    /// asset, unsupported file extension).
    Configuration,
    /// A resource could not be created or written.
    Io,
}

/// Payload of one audio frame: exactly one variant is active at a time.
pub enum Samples {
    /// Decoded linear audio.
    PCM { samples: Vec<i16> },
    /// Opaque encoded payload plus RTP metadata.
    RTP { payload_type: u8, payload: Vec<u8>, sequence_number: u16 },
    /// No audio this tick: a scheduling placeholder, not silence.
    Empty,
}

/// One audio frame travelling through the pipeline.
pub struct AudioFrame {
    pub track_id: String,
    pub timestamp: u64,
    pub sample_rate: u32,
    pub channels: u8,
    pub samples: Samples,
}

/// Index of the first occurrence of `x` in `s`, or -1 when absent.
pub open spec fn first_index_of<T>(s: Seq<T>, x: T) -> int
    decreases s.len(),
{
    if s.len() == 0 {
        -1
    } else if s[0] == x {
        0
    } else {
        let rest = first_index_of(s.skip(1), x);
        if rest == -1 {
            -1
        } else {
            rest + 1
        }
    }
}

/// `first_index_of` finds an in-range position holding `x`, exactly when
/// `s` contains `x`.
pub proof fn lemma_first_index_of<T>(s: Seq<T>, x: T)
    ensures
        -1 <= first_index_of(s, x) < s.len(),
        first_index_of(s, x) >= 0 <==> s.contains(x),
        s.contains(x) ==> s[first_index_of(s, x)] == x,
    decreases s.len(),
{
    if s.len() > 0 && s[0] != x {
        lemma_first_index_of(s.skip(1), x);
        assert(s.contains(x) ==> s.skip(1).contains(x)) by {
            if s.contains(x) {
                let i = choose|i: int| 0 <= i < s.len() && s[i] == x;
                assert(s.skip(1)[i - 1] == x);
            }
        }
        if s.skip(1).contains(x) {
            let j = choose|j: int| 0 <= j < s.skip(1).len() && s.skip(1)[j] == x;
            assert(s[j + 1] == x);
        }
        let rest = first_index_of(s.skip(1), x);
        if rest >= 0 {
            assert(s.skip(1)[rest] == x);
            assert(s[rest + 1] == x);
        }
    }
}

/// A position holding `x` with nothing equal to `x` before it is the
/// first occurrence.
pub proof fn lemma_first_index_of_is_first<T>(s: Seq<T>, x: T, i: int)
    requires
        0 <= i < s.len(),
        s[i] == x,
        forall|j: int| 0 <= j < i ==> s[j] != x,
    ensures
        first_index_of(s, x) == i,
    decreases s.len(),
{
    if i > 0 {
        assert(s[0] != x);
        assert(s.skip(1)[i - 1] == x);
        assert(forall|j: int| 0 <= j < i - 1 ==> s.skip(1)[j] == s[j + 1] && s[j + 1] != x);
        lemma_first_index_of_is_first(s.skip(1), x, i - 1);
    }
}

} // verus!
