//! Decoding source assets (ambient beds) to internal 16-bit PCM.
//!
//! Reading files and downloading live outside this crate; everything
//! that computes — bit-depth conversion, stereo fold-down, resampling,
//! MP3 frame collection — is here.

use vstd::prelude::*;

use crate::media::recorder::has_wav_suffix;
use crate::media::recorder::lower_code;
use crate::media::MediaError;
use crate::media::PcmBuf;

verus! {

#[verifier::external_type_specification]
#[verifier::external_body]
pub struct ExMp3Decoder<'a>(rmp3::Decoder<'a>);

/// One step of MP3 decoding: an audio frame, or a non-audio chunk.
pub enum Mp3Chunk {
    Audio { sample_rate: u32, channels: u16, samples: Vec<i16> },
    Other,
}

/// Relies on `rmp3::Decoder::new`: a decoder positioned at the start of
/// the given bytes.
#[verifier::external_body]
fn mp3_decoder_new<'a>(data: &'a [u8]) -> rmp3::Decoder<'a> {
    rmp3::Decoder::new(data)
}

/// Relies on `rmp3::Decoder::next`: the next frame of the stream, or
/// nothing at its end.  The samples depend on the decoder's state, so
/// nothing is stated of them.
#[verifier::external_body]
fn mp3_next<'a>(dec: &mut rmp3::Decoder<'a>) -> (r: Option<Mp3Chunk>) {
    match dec.next() {
        Some(rmp3::Frame::Audio(audio)) => Some(
            Mp3Chunk::Audio {
                sample_rate: audio.sample_rate(),
                channels: audio.channels(),
                samples: audio.samples().to_vec(),
            },
        ),
        Some(rmp3::Frame::Other(_)) => Some(Mp3Chunk::Other),
        None => None,
    }
}

/// Gather every audio frame of an MP3 stream: the first frame's sample
/// rate (0 when none was seen) and all samples in order.  The values
/// come from the MP3 decoder and are not specified here; what is done
/// with them afterwards is (`resample_to`).
pub fn collect_mp3_frames(data: &[u8]) -> (r: (u32, Vec<i16>)) {
    let mut dec = mp3_decoder_new(data);
    let mut samples: Vec<i16> = Vec::new();
    let mut sample_rate: u32 = 0;
    // Every MP3 frame consumes at least one input byte, so the input
    // length bounds the number of frames.
    let mut budget = data.len();
    let mut done = false;
    while !done && budget > 0
        decreases budget,
    {
        match mp3_next(&mut dec) {
            Some(chunk) => {
                match chunk {
                    Mp3Chunk::Audio { sample_rate: rate, channels: _, samples: frame } => {
                        if sample_rate == 0 {
                            sample_rate = rate;
                        }
                        let mut frame = frame;
                        samples.append(&mut frame);
                    },
                    Mp3Chunk::Other => {},
                }
            },
            None => {
                done = true;
            },
        }
        budget = budget - 1;
    }
    (sample_rate, samples)
}

/// Convert PCM to `target_rate`.  Equal rates, an unknown source rate,
/// or a zero target pass the buffer through unchanged; otherwise the
/// resampler's output is returned as produced.
pub fn resample_to(pcm: PcmBuf, sample_rate: u32, target_rate: u32) -> (r: PcmBuf)
    ensures
        sample_rate == target_rate || sample_rate == 0 || target_rate == 0 ==> r == pcm,
{
    if sample_rate == target_rate || sample_rate == 0 {
        return pcm;
    }
    match audio_codec::resampler::BoxedResampler::new(
        sample_rate as usize,
        target_rate as usize,
    ) {
        Ok(mut rs) => rs.resample(pcm.as_slice()),
        Err(_) => pcm,
    }
}

/// Decode a whole MP3 byte stream to PCM at `target_sample_rate`.
pub fn decode_mp3_pcm(data: &[u8], target_sample_rate: u32) -> PcmBuf {
    let (sample_rate, samples) = collect_mp3_frames(data);
    resample_to(samples, sample_rate, target_sample_rate)
}

/// Truncating halving (rounding toward zero), as integer division of
/// the sample average does.
pub open spec fn trunc_half(x: int) -> int {
    if x >= 0 {
        x / 2
    } else {
        -((-x) / 2)
    }
}

/// The high 16-bit word of a 32-bit sample: the floor of `v / 65536`,
/// written over Euclidean division on the magnitude.
pub open spec fn high_word(v: i32) -> int {
    if v >= 0 {
        (v as int) / 65536
    } else {
        -((-(v as int) + 65535) / 65536)
    }
}

/// One source sample converted to 16-bit, by bit depth.
pub open spec fn wav_sample_to_i16(v: i32, bits: u16) -> int {
    if bits == 16 {
        v as int
    } else if bits == 8 {
        (v as int) * 256
    } else {
        high_word(v)
    }
}

/// Stereo folded to mono: each complete pair averages, a trailing odd
/// sample passes through.
pub open spec fn mono_of(s: Seq<i16>) -> Seq<i16> {
    Seq::new(
        ((s.len() + 1) / 2) as nat,
        |i: int|
            if 2 * i + 1 < s.len() {
                trunc_half(s[2 * i] + s[2 * i + 1]) as i16
            } else {
                s[2 * i]
            },
    )
}

/// Convert integer WAV samples of the given bit depth to 16-bit PCM.
///
/// 8-bit widens by 256, 24- and 32-bit keep the high word, 16-bit is
/// unchanged; any other depth is a configuration error.
pub fn convert_wav_samples(raw: &Vec<i32>, bits: u16) -> (r: Result<PcmBuf, MediaError>)
    requires
        bits == 8 ==> forall|i: int| 0 <= i < raw@.len() ==> -128 <= #[trigger] raw@[i] <= 127,
        bits == 16 ==> forall|i: int|
            0 <= i < raw@.len() ==> -32768 <= #[trigger] raw@[i] <= 32767,
    ensures
        r is Ok <==> (bits == 8 || bits == 16 || bits == 24 || bits == 32),
        r matches Ok(v) ==> v@.len() == raw@.len() && (forall|i: int|
            0 <= i < raw@.len() ==> #[trigger] v@[i] == wav_sample_to_i16(raw@[i], bits)),
        r matches Err(e) ==> e == MediaError::Configuration,
    {
    if !(bits == 8 || bits == 16 || bits == 24 || bits == 32) {
        return Err(MediaError::Configuration);
    }
    let n = raw.len();
    let mut out: PcmBuf = Vec::new();
    let mut i: usize = 0;
    while i < n
        invariant
            n == raw@.len(),
            i <= n,
            bits == 8 || bits == 16 || bits == 24 || bits == 32,
            bits == 8 ==> forall|k: int| 0 <= k < n ==> -128 <= #[trigger] raw@[k] <= 127,
            bits == 16 ==> forall|k: int| 0 <= k < n ==> -32768 <= #[trigger] raw@[k] <= 32767,
            out@.len() == i,
            forall|k: int| 0 <= k < i ==> #[trigger] out@[k] == wav_sample_to_i16(raw@[k], bits),
        decreases n - i,
    {
        let v = raw[i];
        let s: i16 = if bits == 16 {
            v as i16
        } else if bits == 8 {
            (v * 256) as i16
        } else {
            high_word_exec(v)
        };
        out.push(s);
        i += 1;
    }
    Ok(out)
}

/// The high word of a 32-bit sample, as the floor of `v / 65536`.
fn high_word_exec(v: i32) -> (r: i16)
    ensures
        r == high_word(v),
{
    let w = v as i64;
    if w >= 0 {
        let q = (w as u64) / 65536;
        proof {
            vstd::arithmetic::div_mod::lemma_div_is_ordered((w as u64) as int, 0x7FFF_FFFF, 65536);
        }
        q as i16
    } else {
        let mag = ((-w) + 65535) as u64;
        let q = mag / 65536;
        proof {
            vstd::arithmetic::div_mod::lemma_div_is_ordered(mag as int, 0x8000_FFFF, 65536);
        }
        (-(q as i64)) as i16
    }
}

/// Fold interleaved stereo samples down to mono by pairwise averaging.
pub fn stereo_to_mono(samples: &PcmBuf) -> (r: PcmBuf)
    ensures
        r@ == mono_of(samples@),
{
    let n = samples.len();
    let mut out: PcmBuf = Vec::new();
    let mut i: usize = 0;
    while i + 1 < n
        invariant
            n == samples@.len(),
            i % 2 == 0,
            i <= n + 1,
            out@.len() == i / 2,
            forall|k: int| 0 <= k < i / 2 ==> #[trigger] out@[k] == mono_of(samples@)[k],
        decreases n - i,
    {
        let a = samples[i];
        let b = samples[i + 1];
        let sum: i32 = a as i32 + b as i32;
        let avg: i16 = if sum >= 0 {
            ((sum as u32) / 2) as i16
        } else {
            let q = ((-(sum as i64)) as u64) / 2;
            (-(q as i64)) as i16
        };
        out.push(avg);
        proof {
            assert(mono_of(samples@)[i as int / 2] == trunc_half(
                samples@[2 * (i as int / 2)] + samples@[2 * (i as int / 2) + 1],
            ) as i16);
        }
        i += 2;
    }
    if i < n {
        out.push(samples[i]);
    }
    proof {
        assert(out@ =~= mono_of(samples@));
    }
    out
}

/// The whole integer-WAV conversion, element by element.
pub open spec fn wav_pcm_spec(raw: Seq<i32>, bits: u16) -> Seq<i16> {
    Seq::new(raw.len(), |i: int| wav_sample_to_i16(raw[i], bits) as i16)
}

/// Decode integer WAV samples end to end: bit-depth conversion, stereo
/// fold-down, then resampling to the target rate.
pub fn wav_to_pcm(
    raw: &Vec<i32>,
    bits: u16,
    stereo: bool,
    sample_rate: u32,
    target_rate: u32,
) -> (r: Result<PcmBuf, MediaError>)
    requires
        bits == 8 ==> forall|i: int| 0 <= i < raw@.len() ==> -128 <= #[trigger] raw@[i] <= 127,
        bits == 16 ==> forall|i: int|
            0 <= i < raw@.len() ==> -32768 <= #[trigger] raw@[i] <= 32767,
    ensures
        r is Ok <==> (bits == 8 || bits == 16 || bits == 24 || bits == 32),
        r matches Ok(v) ==> ((sample_rate == target_rate || sample_rate == 0 || target_rate == 0)
            ==> v@ == if stereo {
            mono_of(wav_pcm_spec(raw@, bits))
        } else {
            wav_pcm_spec(raw@, bits)
        }),
        r matches Err(e) ==> e == MediaError::Configuration,
{
    let converted = match convert_wav_samples(raw, bits) {
        Ok(v) => v,
        Err(e) => {
            return Err(e);
        },
    };
    proof {
        assert(converted@ =~= wav_pcm_spec(raw@, bits));
    }
    let folded = if stereo {
        stereo_to_mono(&converted)
    } else {
        converted
    };
    Ok(resample_to(folded, sample_rate, target_rate))
}

/// The audio container kinds the loader understands.
#[derive(Clone, Copy, Debug, PartialEq, Eq, Structural)]
pub enum AudioKind {
    Wav,
    Mp3,
}

/// Whether the path ends in `.mp3`, compared ASCII-case-insensitively
/// (the codes are `.`, `m`, `p`, `3`).
pub open spec fn has_mp3_suffix(s: Seq<char>) -> bool {
    &&& s.len() >= 4
    &&& lower_code(s[s.len() - 4]) == 46
    &&& lower_code(s[s.len() - 3]) == 109
    &&& lower_code(s[s.len() - 2]) == 112
    &&& lower_code(s[s.len() - 1]) == 51
}

/// Classify a source path by its extension; anything but `.wav` and
/// `.mp3` is a configuration error.
pub fn classify_audio_extension(path: &String) -> (r: Result<AudioKind, MediaError>)
    ensures
        has_wav_suffix(path@) ==> r == Ok::<AudioKind, MediaError>(AudioKind::Wav),
        !has_wav_suffix(path@) && has_mp3_suffix(path@) ==> r == Ok::<AudioKind, MediaError>(
            AudioKind::Mp3,
        ),
        !has_wav_suffix(path@) && !has_mp3_suffix(path@) ==> r == Err::<AudioKind, MediaError>(
            MediaError::Configuration,
        ),
{
    let n = path.as_str().unicode_len();
    if n < 4 {
        return Err(MediaError::Configuration);
    }
    let c1 = lower_char_code(path.as_str().get_char(n - 4));
    let c2 = lower_char_code(path.as_str().get_char(n - 3));
    let c3 = lower_char_code(path.as_str().get_char(n - 2));
    let c4 = lower_char_code(path.as_str().get_char(n - 1));
    if c1 == 46 && c2 == 119 && c3 == 97 && c4 == 118 {
        Ok(AudioKind::Wav)
    } else if c1 == 46 && c2 == 109 && c3 == 112 && c4 == 51 {
        Ok(AudioKind::Mp3)
    } else {
        Err(MediaError::Configuration)
    }
}

fn lower_char_code(c: char) -> (r: u32)
    ensures
        r == lower_code(c),
{
    let code = c as u32;
    if 65 <= code && code <= 90 {
        code + 32
    } else {
        code
    }
}

} // verus!
