//! Per-frame codec transcoding with on-demand resampler reuse.
//!
//! One `TrackCodec` instance is owned by exactly one track, so no locking
//! is needed on the decode/encode hot path.

use vstd::prelude::*;

use crate::media::codecs::bytes_to_samples;
use crate::media::codecs::g722_decode;
use crate::media::codecs::g722_encode;
use crate::media::codecs::g729_decode;
use crate::media::codecs::g729_encode;
use crate::media::codecs::le_bytes_of_pcm;
use crate::media::codecs::opus_decode;
use crate::media::codecs::opus_encode;
use crate::media::codecs::pcm_of_le_bytes;
use crate::media::codecs::pcma_decode;
use crate::media::codecs::pcma_decode_of;
use crate::media::codecs::pcma_encode;
use crate::media::codecs::pcma_encode_of;
use crate::media::codecs::pcmu_decode;
use crate::media::codecs::pcmu_decode_of;
use crate::media::codecs::pcmu_encode;
use crate::media::codecs::pcmu_encode_of;
use crate::media::codecs::samples_to_bytes;
use crate::media::track::CodecType;
use crate::media::AudioFrame;
use crate::media::PcmBuf;
use crate::media::Samples;

verus! {

/// First mapping for `pt` in the payload-type table, if any.
pub open spec fn lookup_spec(m: Seq<(u8, CodecType)>, pt: u8) -> Option<CodecType>
    decreases m.len(),
{
    if m.len() == 0 {
        None
    } else if m[0].0 == pt {
        Some(m[0].1)
    } else {
        lookup_spec(m.skip(1), pt)
    }
}

/// Fallback codec for a payload type that is not in the table.
pub open spec fn default_codec_of(pt: u8) -> CodecType {
    if pt == 0 {
        CodecType::PCMU
    } else if pt == 8 {
        CodecType::PCMA
    } else if pt == 9 {
        CodecType::G722
    } else if pt == 18 {
        CodecType::G729
    } else if pt == 111 {
        CodecType::Opus
    } else {
        CodecType::PCMU
    }
}

/// The codec the transcoder decodes `pt` with: the table entry, or the
/// protocol-convention fallback.
pub open spec fn codec_for(m: Seq<(u8, CodecType)>, pt: u8) -> CodecType {
    match lookup_spec(m, pt) {
        Some(c) => c,
        None => default_codec_of(pt),
    }
}

/// Native decode rate fixed by protocol convention for each codec.
pub open spec fn native_rate_of(codec: CodecType) -> u32 {
    match codec {
        CodecType::G722 => 16000,
        CodecType::Opus => 48000,
        _ => 8000,
    }
}

/// Sample rate each payload type must be fed for encoding.
pub open spec fn encode_target_rate(pt: u8) -> u32 {
    if pt == 9 {
        16000
    } else if pt == 111 {
        48000
    } else {
        8000
    }
}

/// Per-track transcoder: one owned instance of every codec, a cached
/// resampler, and the payload-type table.
pub struct TrackCodec {
    pub pcmu_encoder: audio_codec::pcmu::PcmuEncoder,
    pub pcmu_decoder: audio_codec::pcmu::PcmuDecoder,
    pub pcma_encoder: audio_codec::pcma::PcmaEncoder,
    pub pcma_decoder: audio_codec::pcma::PcmaDecoder,
    pub g722_encoder: audio_codec::g722::G722Encoder,
    pub g722_decoder: audio_codec::g722::G722Decoder,
    pub g729_encoder: audio_codec::g729::G729Encoder,
    pub g729_decoder: audio_codec::g729::G729Decoder,
    pub opus_encoder: Option<audio_codec::opus::OpusEncoder>,
    pub opus_decoder: Option<audio_codec::opus::OpusDecoder>,
    /// Cached derived value: rebuilt whenever the rate pair changes.
    pub resampler: Option<audio_codec::resampler::BoxedResampler>,
    pub resampler_in_rate: u32,
    pub resampler_out_rate: u32,
    pub payload_type_map: Vec<(u8, CodecType)>,
}

proof fn lemma_lookup_push(m: Seq<(u8, CodecType)>, pt: u8, c: CodecType, k: u8)
    ensures
        lookup_spec(m.push((pt, c)), k) == if lookup_spec(m, k) is Some {
            lookup_spec(m, k)
        } else if k == pt {
            Some(c)
        } else {
            None::<CodecType>
        },
    decreases m.len(),
{
    if m.len() == 0 {
        assert(m.push((pt, c))[0] == (pt, c));
        assert(m.push((pt, c)).skip(1) =~= Seq::<(u8, CodecType)>::empty());
    } else {
        assert(m.push((pt, c))[0] == m[0]);
        assert(m.push((pt, c)).skip(1) =~= m.skip(1).push((pt, c)));
        lemma_lookup_push(m.skip(1), pt, c, k);
        if m[0].0 == k {
            assert(lookup_spec(m, k) == Some(m[0].1));
            assert(lookup_spec(m.push((pt, c)), k) == Some(m[0].1));
        } else {
            assert(lookup_spec(m, k) == lookup_spec(m.skip(1), k));
            assert(lookup_spec(m.push((pt, c)), k) == lookup_spec(m.skip(1).push((pt, c)), k));
        }
    }
}

proof fn lemma_lookup_update(m: Seq<(u8, CodecType)>, j: int, c: CodecType, k: u8)
    requires
        0 <= j < m.len(),
        forall|i: int| 0 <= i < j ==> (#[trigger] m[i]).0 != m[j].0,
    ensures
        lookup_spec(m.update(j, (m[j].0, c)), k) == if k == m[j].0 {
            Some(c)
        } else {
            lookup_spec(m, k)
        },
    decreases m.len(),
{
    let m2 = m.update(j, (m[j].0, c));
    if j == 0 {
        assert(m2[0] == (m[0].0, c));
        assert(m2.skip(1) =~= m.skip(1));
    } else {
        assert(m2[0] == m[0]);
        assert(m2.skip(1) =~= m.skip(1).update(j - 1, (m[j].0, c)));
        assert(m.skip(1)[j - 1] == m[j]);
        assert(forall|i: int| 0 <= i < j - 1 ==> (#[trigger] m.skip(1)[i]).0 != m.skip(1)[j - 1].0);
        lemma_lookup_update(m.skip(1), j - 1, c, k);
        assert(m[0].0 != m[j].0);
    }
}

impl TrackCodec {
    /// The built-in payload-type table: protocol-convention defaults,
    /// overridable per instance.
    pub open spec fn default_entries() -> Seq<(u8, CodecType)> {
        seq![
            (0u8, CodecType::PCMU),
            (8u8, CodecType::PCMA),
            (9u8, CodecType::G722),
            (18u8, CodecType::G729),
            (101u8, CodecType::TelephoneEvent),
            (111u8, CodecType::Opus),
        ]
    }

    pub fn new() -> (r: TrackCodec)
        ensures
            r.payload_type_map@ == TrackCodec::default_entries(),
            r.resampler is None,
            r.resampler_in_rate == 0,
            r.resampler_out_rate == 0,
            r.opus_encoder is None,
            r.opus_decoder is None,
    {
        let mut payload_type_map: Vec<(u8, CodecType)> = Vec::new();
        payload_type_map.push((0u8, CodecType::PCMU));
        payload_type_map.push((8u8, CodecType::PCMA));
        payload_type_map.push((9u8, CodecType::G722));
        payload_type_map.push((18u8, CodecType::G729));
        payload_type_map.push((101u8, CodecType::TelephoneEvent));
        payload_type_map.push((111u8, CodecType::Opus));
        proof {
            assert(payload_type_map@ =~= TrackCodec::default_entries());
        }
        TrackCodec {
            pcmu_encoder: audio_codec::pcmu::PcmuEncoder::new(),
            pcmu_decoder: audio_codec::pcmu::PcmuDecoder::new(),
            pcma_encoder: audio_codec::pcma::PcmaEncoder::new(),
            pcma_decoder: audio_codec::pcma::PcmaDecoder::new(),
            g722_encoder: audio_codec::g722::G722Encoder::new(),
            g722_decoder: audio_codec::g722::G722Decoder::new(),
            g729_encoder: audio_codec::g729::G729Encoder::new(),
            g729_decoder: audio_codec::g729::G729Decoder::new(),
            opus_encoder: None,
            opus_decoder: None,
            resampler: None,
            resampler_in_rate: 0,
            resampler_out_rate: 0,
            payload_type_map,
        }
    }

    /// A fresh transcoder carrying the same payload-type table: new
    /// codec instances, an empty resampler cache.
    pub fn duplicate(&self) -> (r: TrackCodec)
        ensures
            r.payload_type_map@ == self.payload_type_map@,
            r.resampler is None,
            r.resampler_in_rate == 0,
            r.resampler_out_rate == 0,
    {
        let mut copy = TrackCodec::new();
        let mut map: Vec<(u8, CodecType)> = Vec::new();
        let n = self.payload_type_map.len();
        let mut i: usize = 0;
        while i < n
            invariant
                n == self.payload_type_map@.len(),
                i <= n,
                map@ == self.payload_type_map@.take(i as int),
            decreases n - i,
        {
            map.push(self.payload_type_map[i]);
            proof {
                assert(map@ =~= self.payload_type_map@.take(i + 1));
            }
            i += 1;
        }
        proof {
            assert(self.payload_type_map@.take(n as int) =~= self.payload_type_map@);
        }
        copy.payload_type_map = map;
        copy
    }

    /// Register (or override) the codec decoded for a payload type.
    pub fn set_payload_type(&mut self, payload_type: u8, codec: CodecType)
        ensures
            forall|k: u8| lookup_spec(final(self).payload_type_map@, k) == if k == payload_type {
                Some(codec)
            } else {
                lookup_spec(old(self).payload_type_map@, k)
            },
    {
        let n = self.payload_type_map.len();
        let mut i: usize = 0;
        while i < n
            invariant
                n == self.payload_type_map.len(),
                i <= n,
                *self == *old(self),
                forall|j: int| 0 <= j < i ==> (#[trigger] self.payload_type_map@[j]).0
                    != payload_type,
            decreases n - i,
        {
            if self.payload_type_map[i].0 == payload_type {
                self.payload_type_map.set(i, (payload_type, codec));
                proof {
                    assert forall|k: u8|
                        lookup_spec(self.payload_type_map@, k) == if k == payload_type {
                            Some(codec)
                        } else {
                            lookup_spec(old(self).payload_type_map@, k)
                        } by {
                        lemma_lookup_update(old(self).payload_type_map@, i as int, codec, k);
                    }
                }
                return ;
            }
            i += 1;
        }
        proof {
            lemma_lookup_none(self.payload_type_map@, payload_type);
        }
        self.payload_type_map.push((payload_type, codec));
        proof {
            assert forall|k: u8|
                lookup_spec(self.payload_type_map@, k) == if k == payload_type {
                    Some(codec)
                } else {
                    lookup_spec(old(self).payload_type_map@, k)
                } by {
                lemma_lookup_push(old(self).payload_type_map@, payload_type, codec, k);
            }
        }
    }

    /// Whether a payload type carries audio: the static audio payload
    /// types, or the dynamic range 96..=127 by convention.
    pub fn is_audio(payload_type: u8) -> (r: bool)
        ensures
            r == (payload_type == 0 || payload_type == 8 || payload_type == 9 || payload_type
                == 18 || payload_type == 111 || (96 <= payload_type <= 127)),
    {
        match payload_type {
            0 | 8 | 9 | 18 | 111 => true,
            pt if pt >= 96 && pt <= 127 => true,
            _ => false,
        }
    }

    fn lookup_payload_type(&self, pt: u8) -> (r: Option<CodecType>)
        ensures
            r == lookup_spec(self.payload_type_map@, pt),
    {
        let n = self.payload_type_map.len();
        let mut i: usize = 0;
        proof {
            assert(self.payload_type_map@.skip(0) =~= self.payload_type_map@);
        }
        while i < n
            invariant
                n == self.payload_type_map.len(),
                i <= n,
                lookup_spec(self.payload_type_map@, pt) == lookup_spec(
                    self.payload_type_map@.skip(i as int),
                    pt,
                ),
            decreases n - i,
        {
            let entry = self.payload_type_map[i];
            proof {
                assert(self.payload_type_map@.skip(i as int)[0] == self.payload_type_map@[i as int]);
                assert(self.payload_type_map@.skip(i as int).skip(1) =~= self.payload_type_map@.skip(
                    i as int + 1,
                ));
            }
            if entry.0 == pt {
                return Some(entry.1);
            }
            i += 1;
        }
        proof {
            assert(self.payload_type_map@.skip(n as int) =~= Seq::<(u8, CodecType)>::empty());
        }
        None
    }

    /// Convert linear PCM from `in_rate` to `out_rate`, reusing the cached
    /// resampler unless the rate pair changed since the prior call.  Equal
    /// or zero rates pass the buffer through unchanged.
    pub fn resample(&mut self, pcm: PcmBuf, in_rate: u32, out_rate: u32) -> (r: PcmBuf)
        ensures
            in_rate == out_rate ==> r == pcm && *final(self) == *old(self),
            in_rate != out_rate && (in_rate == 0 || out_rate == 0) ==> r == pcm,
            in_rate != out_rate && in_rate > 0 && out_rate > 0 ==> final(self).resampler_in_rate
                == in_rate && final(self).resampler_out_rate == out_rate && final(self).resampler
                is Some,
            final(self).payload_type_map == old(self).payload_type_map,
    {
        if in_rate == out_rate {
            return pcm;
        }
        if in_rate == 0 || out_rate == 0 {
            return pcm;
        }
        let rebuild = match &self.resampler {
            Some(_) => self.resampler_in_rate != in_rate || self.resampler_out_rate != out_rate,
            None => true,
        };
        if rebuild {
            match audio_codec::resampler::BoxedResampler::new(in_rate as usize, out_rate as usize) {
                Ok(rs) => {
                    self.resampler = Some(rs);
                    self.resampler_in_rate = in_rate;
                    self.resampler_out_rate = out_rate;
                },
                Err(_) => {
                    return pcm;
                },
            }
        }
        match &mut self.resampler {
            Some(rs) => rs.resample(pcm.as_slice()),
            None => pcm,
        }
    }

    /// Decode an RTP payload to linear PCM at `target_sample_rate`.
    ///
    /// The codec comes from the payload-type table (with the static
    /// fallback map for unregistered types); an unknown codec falls back
    /// to reinterpreting the bytes as raw 16-bit PCM so the pipeline
    /// stays alive.  The result is `(rate, channels, pcm)`.
    pub fn decode(&mut self, payload_type: u8, payload: &[u8], target_sample_rate: u32) -> (r: (
        u32,
        u16,
        PcmBuf,
    ))
        ensures
            r.0 == target_sample_rate,
            codec_for(old(self).payload_type_map@, payload_type) != CodecType::Opus ==> r.1 == 1,
            r.1 == 1 || r.1 == 2,
            codec_for(old(self).payload_type_map@, payload_type) == CodecType::Opus
                && target_sample_rate == 48000 ==> (r.1 == 2 <==> r.2@.len() >= 1920),
            codec_for(old(self).payload_type_map@, payload_type) == CodecType::PCMU
                && target_sample_rate == 8000 ==> r.2@ == pcmu_decode_of(payload@),
            codec_for(old(self).payload_type_map@, payload_type) == CodecType::PCMA
                && target_sample_rate == 8000 ==> r.2@ == pcma_decode_of(payload@),
            codec_for(old(self).payload_type_map@, payload_type) == CodecType::TelephoneEvent
                && target_sample_rate == 8000 ==> r.2@ == pcm_of_le_bytes(payload@),
            codec_for(old(self).payload_type_map@, payload_type) == CodecType::G722
                && target_sample_rate == 16000 ==> r.2@.len() == 2 * payload@.len(),
            codec_for(old(self).payload_type_map@, payload_type) == CodecType::G729
                && target_sample_rate == 8000 ==> r.2@.len() == (payload@.len() / 10) * 80,
            native_rate_of(codec_for(old(self).payload_type_map@, payload_type))
                != target_sample_rate && target_sample_rate > 0 ==> final(self).resampler_in_rate
                == native_rate_of(codec_for(old(self).payload_type_map@, payload_type)) && final(self).resampler_out_rate == target_sample_rate && final(self).resampler is Some,
            final(self).payload_type_map == old(self).payload_type_map,
    {
        let codec = match self.lookup_payload_type(payload_type) {
            Some(c) => c,
            None => match payload_type {
                0 => CodecType::PCMU,
                8 => CodecType::PCMA,
                9 => CodecType::G722,
                18 => CodecType::G729,
                111 => CodecType::Opus,
                _ => CodecType::PCMU,
            },
        };

        let pcm = match codec {
            CodecType::PCMU => pcmu_decode(&mut self.pcmu_decoder, payload),
            CodecType::PCMA => pcma_decode(&mut self.pcma_decoder, payload),
            CodecType::G722 => g722_decode(&mut self.g722_decoder, payload),
            CodecType::G729 => g729_decode(&mut self.g729_decoder, payload),
            CodecType::Opus => {
                if self.opus_decoder.is_none() {
                    self.opus_decoder = Some(audio_codec::opus::OpusDecoder::new_default());
                }
                match &mut self.opus_decoder {
                    Some(dec) => opus_decode(dec, payload),
                    None => bytes_to_samples(payload),
                }
            },
            CodecType::TelephoneEvent => bytes_to_samples(payload),
        };

        let (in_rate, channels): (u32, u16) = match codec {
            CodecType::PCMU => (8000, 1),
            CodecType::PCMA => (8000, 1),
            CodecType::G722 => (16000, 1),
            CodecType::G729 => (8000, 1),
            CodecType::Opus => if pcm.len() >= 1920 {
                (48000, 2)
            } else {
                (48000, 1)
            },
            CodecType::TelephoneEvent => (8000, 1),
        };

        let out = self.resample(pcm, in_rate, target_sample_rate);
        (target_sample_rate, channels, out)
    }

    /// Encode a frame for `payload_type`.
    ///
    /// PCM is resampled to the codec's required rate when needed and then
    /// encoded; an RTP payload passes through unchanged under its own
    /// payload type; anything else yields an empty payload.
    pub fn encode(&mut self, payload_type: u8, frame: AudioFrame) -> (r: (u8, Vec<u8>))
        ensures
            frame.samples matches Samples::RTP { payload_type: pt2, payload: pl, .. } ==> r.0 == pt2
                && r.1 == pl,
            frame.samples is Empty ==> r.0 == payload_type && r.1@.len() == 0,
            frame.samples is PCM ==> r.0 == payload_type,
            frame.samples matches Samples::PCM { samples } ==> ((frame.sample_rate
                == encode_target_rate(payload_type) && payload_type == 0) ==> r.1@
                == pcmu_encode_of(samples@)),
            frame.samples matches Samples::PCM { samples } ==> ((frame.sample_rate
                == encode_target_rate(payload_type) && payload_type == 8) ==> r.1@
                == pcma_encode_of(samples@)),
            frame.samples matches Samples::PCM { samples } ==> ((frame.sample_rate
                == encode_target_rate(payload_type) && payload_type == 9) ==> r.1@.len() == (
            samples@.len() + 1) / 2),
            frame.samples matches Samples::PCM { samples } ==> ((frame.sample_rate
                == encode_target_rate(payload_type) && payload_type == 18) ==> r.1@.len() <= (
            samples@.len() / 80) * 10),
            frame.samples matches Samples::PCM { samples } ==> ((frame.sample_rate
                == encode_target_rate(payload_type) && !(payload_type == 0 || payload_type == 8
                || payload_type == 9 || payload_type == 18 || payload_type == 111)) ==> r.1@
                == le_bytes_of_pcm(samples@)),
            frame.samples is PCM && frame.sample_rate != encode_target_rate(payload_type)
                && frame.sample_rate > 0 ==> final(self).resampler_in_rate == frame.sample_rate
                && final(self).resampler_out_rate == encode_target_rate(payload_type) && final(self).resampler is Some,
    {
        match frame.samples {
            Samples::PCM { samples } => {
                let target_samplerate: u32 = match payload_type {
                    0 => 8000,
                    8 => 8000,
                    9 => 16000,
                    18 => 8000,
                    111 => 48000,
                    _ => 8000,
                };
                let pcm = if frame.sample_rate != target_samplerate {
                    self.resample(samples, frame.sample_rate, target_samplerate)
                } else {
                    samples
                };
                let payload = match payload_type {
                    0 => pcmu_encode(&mut self.pcmu_encoder, pcm.as_slice()),
                    8 => pcma_encode(&mut self.pcma_encoder, pcm.as_slice()),
                    9 => g722_encode(&mut self.g722_encoder, pcm.as_slice()),
                    18 => g729_encode(&mut self.g729_encoder, pcm.as_slice()),
                    111 => {
                        if self.opus_encoder.is_none() {
                            self.opus_encoder = Some(audio_codec::opus::OpusEncoder::new_default());
                        }
                        match &mut self.opus_encoder {
                            Some(enc) => opus_encode(enc, pcm.as_slice()),
                            None => samples_to_bytes(pcm.as_slice()),
                        }
                    },
                    _ => samples_to_bytes(pcm.as_slice()),
                };
                (payload_type, payload)
            },
            Samples::RTP { payload_type: pt, payload, sequence_number: _ } => (pt, payload),
            Samples::Empty => (payload_type, Vec::new()),
        }
    }
}

proof fn lemma_lookup_none(m: Seq<(u8, CodecType)>, pt: u8)
    requires
        forall|j: int| 0 <= j < m.len() ==> (#[trigger] m[j]).0 != pt,
    ensures
        lookup_spec(m, pt) is None,
    decreases m.len(),
{
    if m.len() > 0 {
        assert(forall|j: int| 0 <= j < m.skip(1).len() ==> (#[trigger] m.skip(1)[j]).0 != pt);
        lemma_lookup_none(m.skip(1), pt);
    }
}

} // verus!
