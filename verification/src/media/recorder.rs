//! Synchronized stereo recording: channel assignment, dual-buffer
//! accumulation, chunked draining with silence padding, interleaving, and
//! byte-exact WAV header construction.
//!
//! The timer, the cancellation token, and every file write live outside
//! this crate; the state and arithmetic they drive is all here.

use vstd::prelude::*;

use crate::media::first_index_of;
use crate::media::lemma_first_index_of_is_first;
use crate::media::AudioFrame;
use crate::media::MediaError;
use crate::media::PcmBuf;
use crate::media::Samples;

verus! {

/// Target container for a recording.  Every format is written inside a
/// WAV container, so the extension is uniformly `wav`.
#[derive(Clone, Copy, Debug, PartialEq, Eq, Structural)]
pub enum RecorderFormat {
    Wav,
    Pcm,
    Pcmu,
    Pcma,
    G722,
}

impl RecorderFormat {
    /// The file extension every recording uses.
    pub fn extension(&self) -> (r: &'static str)
        ensures
            r@ == "wav"@,
    {
        "wav"
    }

    pub fn is_supported(&self) -> (r: bool)
        ensures
            r,
    {
        true
    }

    /// The format actually written for this requested format.
    pub fn effective(&self) -> (r: RecorderFormat)
        ensures
            r == *self,
    {
        *self
    }
}

impl Default for RecorderFormat {
    fn default() -> (r: Self)
        ensures
            r == RecorderFormat::Wav,
    {
        RecorderFormat::Wav
    }
}

/// Recording configuration.
pub struct RecorderOption {
    pub recorder_file: String,
    pub samplerate: u32,
    /// Drain cadence in milliseconds.
    pub ptime: u32,
    pub format: Option<RecorderFormat>,
}

impl Default for RecorderOption {
    fn default() -> (r: Self)
        ensures
            r.recorder_file@.len() == 0,
            r.samplerate == 16000,
            r.ptime == 200,
            r.format is None,
    {
        RecorderOption { recorder_file: String::new(), samplerate: 16000, ptime: 200, format: None }
    }
}

/// ASCII lower-casing of one character code.
pub open spec fn lower_code(c: char) -> int {
    if 65 <= c as int <= 90 {
        c as int + 32
    } else {
        c as int
    }
}

/// Whether the path already ends in `.wav`, compared ASCII-case-
/// insensitively (the codes are `.`, `w`, `a`, `v`).
pub open spec fn has_wav_suffix(s: Seq<char>) -> bool {
    &&& s.len() >= 4
    &&& lower_code(s[s.len() - 4]) == 46
    &&& lower_code(s[s.len() - 3]) == 119
    &&& lower_code(s[s.len() - 2]) == 97
    &&& lower_code(s[s.len() - 1]) == 118
}

impl RecorderOption {
    pub fn new(recorder_file: String) -> (r: Self)
        ensures
            r.recorder_file == recorder_file,
            r.samplerate == 16000,
            r.ptime == 200,
            r.format is None,
    {
        RecorderOption { recorder_file, samplerate: 16000, ptime: 200, format: None }
    }

    /// The format this recording resolves to: the configured one, or the
    /// given default.
    pub fn resolved_format(&self, default: RecorderFormat) -> (r: RecorderFormat)
        ensures
            r == self.format.unwrap_or(default),
    {
        match self.format {
            Some(f) => f.effective(),
            None => default.effective(),
        }
    }

    /// Pin the format to its effective value and make sure a non-empty
    /// path carries the matching extension.
    pub fn ensure_path_extension(&mut self, fallback_format: RecorderFormat)
        ensures
            final(self).format == Some(old(self).format.unwrap_or(fallback_format)),
            final(self).samplerate == old(self).samplerate,
            final(self).ptime == old(self).ptime,
            old(self).recorder_file@.len() == 0 ==> final(self).recorder_file@ == old(self).recorder_file@,
            old(self).recorder_file@.len() > 0 && has_wav_suffix(old(self).recorder_file@)
                ==> final(self).recorder_file@ == old(self).recorder_file@,
            old(self).recorder_file@.len() > 0 && !has_wav_suffix(old(self).recorder_file@)
                ==> final(self).recorder_file@ == old(self).recorder_file@ + "."@ + "wav"@,
    {
        let effective_format = match self.format {
            Some(f) => f.effective(),
            None => fallback_format.effective(),
        };
        self.format = Some(effective_format);

        let n = self.recorder_file.as_str().unicode_len();
        if n == 0 {
            return ;
        }

        let extension = effective_format.extension();
        if !Self::path_has_wav_suffix(&self.recorder_file, n) {
            self.recorder_file.append(".");
            self.recorder_file.append(extension);
        }
    }

    /// Case-insensitive check of the final `.wav` on a path of `n` chars.
    fn path_has_wav_suffix(s: &String, n: usize) -> (r: bool)
        requires
            n == s@.len(),
            n > 0,
        ensures
            r == has_wav_suffix(s@),
    {
        if n < 4 {
            return false;
        }
        let c1 = Self::lower_char_code(s.as_str().get_char(n - 4));
        let c2 = Self::lower_char_code(s.as_str().get_char(n - 3));
        let c3 = Self::lower_char_code(s.as_str().get_char(n - 2));
        let c4 = Self::lower_char_code(s.as_str().get_char(n - 1));
        c1 == 46 && c2 == 119 && c3 == 97 && c4 == 118
    }

    fn lower_char_code(c: char) -> (r: u32)
        ensures
            r == lower_code(c),
    {
        let code = c as u32;
        if 65 <= code && code <= 90 {
            code + 32
        } else {
            code
        }
    }
}

/// `(format tag, sample rate, channels, bits per sample)` of the header:
/// derived from the RTP payload type in passthrough mode, or fixed
/// 16-bit stereo PCM at the configured rate in mixing mode.
pub open spec fn wav_format_params(payload_type: Option<u8>, samplerate: u32) -> (
    u16,
    u32,
    u16,
    u16,
) {
    match payload_type {
        Some(pt) => {
            let (tag, rate, chan): (u16, u32, u16) = if pt == 0 {
                (0x0007, 8000, 1)
            } else if pt == 8 {
                (0x0006, 8000, 1)
            } else if pt == 9 {
                (0x0064, 16000, 1)
            } else if pt == 10 {
                (0x0001, 44100, 2)
            } else if pt == 11 {
                (0x0001, 44100, 1)
            } else {
                (0x0001, 16000, 1)
            };
            let bits: u16 = if pt == 9 {
                4
            } else if pt == 0 || pt == 8 {
                8
            } else {
                16
            };
            (tag, rate, chan, bits)
        },
        None => (0x0001, samplerate, 2, 16),
    }
}

/// Byte rate field: a fixed 64 kbit/s constant for G.722, else
/// `rate * channels * bits / 8`.
pub open spec fn wav_bytes_per_sec(tag: u16, rate: u32, channels: u16, bits: u16) -> int {
    if tag == 0x0064 {
        8000
    } else {
        rate * channels * (bits as int / 8)
    }
}

/// Block align field: one byte per channel for the companded and G.722
/// formats, else `bits / 8 * channels`.
pub open spec fn wav_block_align(tag: u16, channels: u16, bits: u16) -> int {
    if tag == 0x0064 || tag == 0x0007 || tag == 0x0006 {
        channels as int
    } else {
        (bits as int / 8) * channels
    }
}

/// Little-endian bytes of a 32-bit value.
pub open spec fn u32_le(x: int) -> Seq<u8> {
    seq![
        (x % 256) as u8,
        ((x / 256) % 256) as u8,
        ((x / 65536) % 256) as u8,
        ((x / 16777216) % 256) as u8,
    ]
}

/// Little-endian bytes of a 16-bit value.
pub open spec fn u16_le(x: int) -> Seq<u8> {
    seq![(x % 256) as u8, ((x / 256) % 256) as u8]
}

/// The exact 44-byte RIFF/WAVE header for `data_size` payload bytes.
pub open spec fn wav_header_bytes(payload_type: Option<u8>, samplerate: u32, data_size: u32) -> Seq<
    u8,
> {
    let (tag, rate, channels, bits) = wav_format_params(payload_type, samplerate);
    seq![82u8, 73u8, 70u8, 70u8]  // "RIFF"
     + u32_le(data_size + 36) + seq![87u8, 65u8, 86u8, 69u8]  // "WAVE"
     + seq![102u8, 109u8, 116u8, 32u8]  // "fmt "
     + u32_le(16) + u16_le(tag as int) + u16_le(channels as int) + u32_le(rate as int) + u32_le(
        wav_bytes_per_sec(tag, rate, channels, bits),
    ) + u16_le(wav_block_align(tag, channels, bits)) + u16_le(bits as int) + seq![
        100u8,
        97u8,
        116u8,
        97u8,
    ]  // "data"
     + u32_le(data_size as int)
}

/// Append the little-endian bytes of a 32-bit value.
fn push_u32_le(v: &mut Vec<u8>, x: u32)
    ensures
        final(v)@ == old(v)@ + u32_le(x as int),
{
    v.push((x % 256) as u8);
    v.push(((x / 256) % 256) as u8);
    v.push(((x / 65536) % 256) as u8);
    v.push(((x / 16777216) % 256) as u8);
    proof {
        assert(final(v)@ =~= old(v)@ + u32_le(x as int));
    }
}

/// Append the little-endian bytes of a 16-bit value.
fn push_u16_le(v: &mut Vec<u8>, x: u16)
    ensures
        final(v)@ == old(v)@ + u16_le(x as int),
{
    v.push((x % 256) as u8);
    v.push(((x / 256) % 256) as u8);
    proof {
        assert(final(v)@ =~= old(v)@ + u16_le(x as int));
    }
}

/// Build the header that precedes `data_size` bytes of audio data.
///
/// The RIFF chunk size field is exactly `data_size + 36` and the `data`
/// chunk size field is exactly `data_size`, byte for byte.
/// The header's `(tag, rate, channels, bits)` as executable values.
fn wav_params_exec(payload_type: Option<u8>, samplerate: u32) -> (r: (u16, u32, u16, u16))
    ensures
        r == wav_format_params(payload_type, samplerate),
        payload_type is Some ==> r.1 <= 44100,
        payload_type is None ==> r.1 == samplerate && r.2 == 2 && r.3 == 16,
        r.2 <= 2,
        r.3 <= 16,
{
    match payload_type {
        Some(pt) => {
            let (tag, rate, chan): (u16, u32, u16) = match pt {
                0 => (0x0007, 8000, 1),
                8 => (0x0006, 8000, 1),
                9 => (0x0064, 16000, 1),
                10 => (0x0001, 44100, 2),
                11 => (0x0001, 44100, 1),
                _ => (0x0001, 16000, 1),
            };
            let bits: u16 = match pt {
                9 => 4,
                0 | 8 => 8,
                _ => 16,
            };
            (tag, rate, chan, bits)
        },
        None => (0x0001, samplerate, 2, 16),
    }
}

#[verifier::rlimit(60)]
pub fn build_wav_header(payload_type: Option<u8>, samplerate: u32, data_size: u32) -> (r: Vec<u8>)
    requires
        data_size + 36 <= 0xFFFF_FFFF,
        payload_type is None ==> samplerate <= 0x3FFF_FFFF,
    ensures
        r@ == wav_header_bytes(payload_type, samplerate, data_size),
        r@.len() == 44,
        r@.subrange(4, 8) == u32_le(data_size + 36),
        r@.subrange(40, 44) == u32_le(data_size as int),
{
    let (format_tag, sample_rate, channels, bits_per_sample): (u16, u32, u16, u16) =
        wav_params_exec(payload_type, samplerate);

    let mut header_buf: Vec<u8> = Vec::new();
    header_buf.push(82);
    header_buf.push(73);
    header_buf.push(70);
    header_buf.push(70);
    let file_size = data_size + 36;
    push_u32_le(&mut header_buf, file_size);
    header_buf.push(87);
    header_buf.push(65);
    header_buf.push(86);
    header_buf.push(69);

    header_buf.push(102);
    header_buf.push(109);
    header_buf.push(116);
    header_buf.push(32);
    push_u32_le(&mut header_buf, 16);
    push_u16_le(&mut header_buf, format_tag);
    push_u16_le(&mut header_buf, channels);
    push_u32_le(&mut header_buf, sample_rate);

    proof {
        assert(sample_rate <= 0x3FFF_FFFF);
        assert((sample_rate as int) * (channels as int) <= 0x7FFF_FFFE && (sample_rate as int) * (
        channels as int) * ((bits_per_sample as int) / 8) <= 0xFFFF_FFFF) by (nonlinear_arith)
            requires
                sample_rate <= 0x3FFF_FFFF,
                channels <= 2,
                bits_per_sample <= 16,
        ;
    }
    let bytes_per_sec: u32 = match format_tag {
        0x0064 => 8000,
        _ => sample_rate * (channels as u32) * (bits_per_sample as u32 / 8),
    };
    push_u32_le(&mut header_buf, bytes_per_sec);

    proof {
        assert(((bits_per_sample as int) / 8) * (channels as int) <= 0xFFFF) by (nonlinear_arith)
            requires
                channels <= 2,
                bits_per_sample <= 16,
        ;
    }
    let block_align: u16 = match format_tag {
        0x0064 | 0x0007 | 0x0006 => 1 * channels,
        _ => (bits_per_sample / 8) * channels,
    };
    push_u16_le(&mut header_buf, block_align);
    push_u16_le(&mut header_buf, bits_per_sample);

    header_buf.push(100);
    header_buf.push(97);
    header_buf.push(116);
    header_buf.push(97);
    push_u32_le(&mut header_buf, data_size);

    proof {
        assert(header_buf@ =~= wav_header_bytes(payload_type, samplerate, data_size));
        assert(header_buf@.subrange(4, 8) =~= u32_le(data_size + 36));
        assert(header_buf@.subrange(40, 44) =~= u32_le(data_size as int));
    }
    header_buf
}

/// Cap on how much one `pop` may take from a buffer: ten seconds at
/// 16 kHz.
pub const MAX_POP_CHUNK: usize = 160000;

/// A run of silence.
pub open spec fn zeros(n: int) -> Seq<i16> {
    Seq::new(n as nat, |i: int| 0i16)
}

/// The smaller of two lengths.
pub open spec fn min_int(a: int, b: int) -> int {
    if a <= b {
        a
    } else {
        b
    }
}

/// Stereo interleaving: ch0, ch1, ch0, ch1, ...
pub open spec fn interleaved(a: Seq<i16>, b: Seq<i16>) -> Seq<i16> {
    Seq::new((2 * a.len()) as nat, |i: int| if i % 2 == 0 { a[i / 2] } else { b[i / 2] })
}

/// The id views of the first-seen track list.
pub open spec fn id_views(ids: Seq<String>) -> Seq<Seq<char>> {
    ids.map_values(|s: String| s@)
}

/// The channel a track id maps to, given the first-seen id list: its
/// first-appearance position modulo two, or the next free position
/// modulo two for a fresh id.
pub open spec fn channel_of(ids: Seq<Seq<char>>, tid: Seq<char>) -> int {
    if ids.contains(tid) {
        first_index_of(ids, tid) % 2
    } else {
        (ids.len() as int) % 2
    }
}

/// The effective chunk a `pop` takes from one buffer.
pub open spec fn pop_taken(buf: Seq<i16>, cap: int) -> int {
    min_int(buf.len() as int, cap)
}

/// The bounded-mode chunk size: the request, capped.
pub open spec fn safe_chunk(chunk_size: usize) -> int {
    min_int(chunk_size as int, MAX_POP_CHUNK as int)
}

/// Recording state: channel assignment, the two channel buffers, and the
/// running byte count the header is patched from.
pub struct Recorder {
    pub session_id: String,
    pub option: RecorderOption,
    /// Bytes of audio data written so far.
    pub samples_written: usize,
    /// Track ids in first-seen order; position modulo two is the channel.
    pub channel_ids: Vec<String>,
    pub mono_buf: PcmBuf,
    pub stereo_buf: PcmBuf,
    /// Set on cancellation: the drain loop then flushes and closes.
    pub cancelled: bool,
}

impl Recorder {
    /// The first-seen id list as character sequences.
    pub open spec fn ids(self) -> Seq<Seq<char>> {
        id_views(self.channel_ids@)
    }

    /// First-seen ids are distinct.
    pub open spec fn wf(self) -> bool {
        forall|i: int, j: int|
            0 <= i < j < self.ids().len() ==> self.ids()[i] != self.ids()[j]
    }

    pub fn new(session_id: String, option: RecorderOption) -> (r: Recorder)
        ensures
            r.wf(),
            r.session_id == session_id,
            r.option == option,
            r.samples_written == 0,
            r.channel_ids@.len() == 0,
            r.mono_buf@.len() == 0,
            r.stereo_buf@.len() == 0,
            !r.cancelled,
    {
        Recorder {
            session_id,
            option,
            samples_written: 0,
            channel_ids: Vec::new(),
            mono_buf: Vec::new(),
            stereo_buf: Vec::new(),
            cancelled: false,
        }
    }

    /// Channel for a track id: its first-appearance position modulo two;
    /// a fresh id is appended to the first-seen list.
    pub fn get_channel_index(&mut self, track_id: &String) -> (idx: usize)
        requires
            old(self).wf(),
        ensures
            final(self).wf(),
            idx == channel_of(old(self).ids(), track_id@),
            idx == 0 || idx == 1,
            old(self).ids().contains(track_id@) ==> final(self).channel_ids == old(self).channel_ids,
            !old(self).ids().contains(track_id@) ==> final(self).ids() == old(self).ids().push(track_id@),
            final(self).samples_written == old(self).samples_written,
            final(self).mono_buf == old(self).mono_buf,
            final(self).stereo_buf == old(self).stereo_buf,
            final(self).option == old(self).option,
            final(self).session_id == old(self).session_id,
            final(self).cancelled == old(self).cancelled,
    {
        let n = self.channel_ids.len();
        let mut i: usize = 0;
        while i < n
            invariant
                old(self).wf(),
                n == self.channel_ids@.len(),
                i <= n,
                *self == *old(self),
                forall|j: int| 0 <= j < i ==> old(self).ids()[j] != track_id@,
            decreases n - i,
        {
            if self.channel_ids[i].eq(track_id) {
                proof {
                    assert(old(self).ids()[i as int] == track_id@);
                    assert(old(self).ids().contains(track_id@));
                    lemma_first_index_of_is_first(old(self).ids(), track_id@, i as int);
                }
                return i % 2;
            }
            proof {
                assert(old(self).ids()[i as int] == self.channel_ids@[i as int]@);
            }
            i += 1;
        }
        let new_idx = n;
        self.channel_ids.push(track_id.clone());
        proof {
            assert(!old(self).ids().contains(track_id@));
            assert(self.ids() =~= old(self).ids().push(track_id@));
            assert forall|x: int, y: int|
                0 <= x < y < self.ids().len() implies self.ids()[x] != self.ids()[y] by {
                if y < old(self).ids().len() {
                    assert(old(self).ids()[x] != old(self).ids()[y]);
                } else {
                    assert(self.ids()[y] == track_id@);
                    assert(self.ids()[x] == old(self).ids()[x]);
                }
            }
        }
        new_idx % 2
    }

    /// Buffer a frame's PCM samples on its assigned channel.  Non-PCM
    /// and empty frames are ignored without touching the channel list.
    pub fn append_frame(&mut self, frame: AudioFrame) -> (r: Result<(), MediaError>)
        requires
            old(self).wf(),
        ensures
            final(self).wf(),
            r is Ok,
            !(frame.samples matches Samples::PCM { samples } && samples@.len() > 0)
                ==> *final(self) == *old(self),
            frame.samples matches Samples::PCM { samples: buf } ==> (buf@.len() > 0 ==> ({
                let ch = channel_of(old(self).ids(), frame.track_id@);
                &&& ch == 0 ==> final(self).mono_buf@ == old(self).mono_buf@ + buf@
                    && final(self).stereo_buf == old(self).stereo_buf
                &&& ch == 1 ==> final(self).stereo_buf@ == old(self).stereo_buf@ + buf@
                    && final(self).mono_buf == old(self).mono_buf
                &&& old(self).ids().contains(frame.track_id@)
                    ==> final(self).channel_ids == old(self).channel_ids
                &&& !old(self).ids().contains(frame.track_id@)
                    ==> final(self).ids() == old(self).ids().push(frame.track_id@)
                &&& final(self).samples_written == old(self).samples_written
                &&& final(self).option == old(self).option
                &&& final(self).cancelled == old(self).cancelled
            })),
    {
        let (track_id, samples) = match frame.samples {
            Samples::PCM { samples } => (frame.track_id, samples),
            _ => {
                return Ok(());
            },
        };
        if samples.len() == 0 {
            return Ok(());
        }

        let channel_idx = self.get_channel_index(&track_id);
        let mut buffer = samples;
        if channel_idx == 0 {
            self.mono_buf.append(&mut buffer);
        } else {
            self.stereo_buf.append(&mut buffer);
        }
        Ok(())
    }

    /// Take up to `extract_size` samples from the front of `buffer`.
    fn extract_samples(buffer: &mut PcmBuf, extract_size: usize) -> (r: PcmBuf)
        ensures
            extract_size > 0 && old(buffer)@.len() > 0 ==> ({
                let take = min_int(extract_size as int, old(buffer)@.len() as int);
                r@ == old(buffer)@.take(take) && final(buffer)@ == old(buffer)@.skip(take)
            }),
            !(extract_size > 0 && old(buffer)@.len() > 0) ==> r@.len() == 0 && final(buffer)@
                == old(buffer)@,
    {
        if extract_size == 0 || buffer.len() == 0 {
            return Vec::new();
        }
        let take = if extract_size < buffer.len() {
            extract_size
        } else {
            buffer.len()
        };
        let mut taken: PcmBuf = Vec::new();
        let mut k: usize = 0;
        while k < take
            invariant
                take <= buffer@.len(),
                k <= take,
                *buffer == *old(buffer),
                taken@ == old(buffer)@.take(k as int),
            decreases take - k,
        {
            taken.push(buffer[k]);
            proof {
                assert(taken@ =~= old(buffer)@.take(k + 1));
            }
            k += 1;
        }
        let mut rest: PcmBuf = Vec::new();
        let n = buffer.len();
        let mut k: usize = take;
        while k < n
            invariant
                take <= n == buffer@.len(),
                take <= k <= n,
                *buffer == *old(buffer),
                rest@ == old(buffer)@.subrange(take as int, k as int),
            decreases n - k,
        {
            rest.push(buffer[k]);
            proof {
                assert(rest@ =~= old(buffer)@.subrange(take as int, k + 1));
            }
            k += 1;
        }
        *buffer = rest;
        proof {
            assert(taken@ =~= old(buffer)@.take(min_int(extract_size as int, old(buffer)@.len() as int)));
        }
        taken
    }

    /// Pad `buf` with zeros up to `target`.
    fn pad_to(buf: &mut PcmBuf, target: usize)
        requires
            old(buf)@.len() <= target,
        ensures
            final(buf)@ == old(buf)@ + zeros(target - old(buf)@.len()),
    {
        while buf.len() < target
            invariant
                buf@.len() <= target,
                buf@ == old(buf)@ + zeros(buf@.len() - old(buf)@.len()),
            decreases target - buf@.len(),
        {
            buf.push(0);
            proof {
                assert(buf@ =~= old(buf)@ + zeros(buf@.len() - old(buf)@.len()));
            }
        }
    }

    /// Drain one chunk from both channel buffers.
    ///
    /// In bounded mode (any request but `usize::MAX`) both results come
    /// back exactly `safe_chunk` long, zero-padded where a channel
    /// starved.  In the unbounded flush mode each buffer gives what it
    /// has (up to the cap) and the shorter side is padded to the longer:
    /// the two results are always the same length.
    pub fn pop(&mut self, chunk_size: usize) -> (r: (PcmBuf, PcmBuf))
        ensures
            r.0@.len() == r.1@.len(),
            final(self).mono_buf@ == old(self).mono_buf@.skip(
                pop_taken(old(self).mono_buf@, taken_cap(chunk_size)),
            ),
            final(self).stereo_buf@ == old(self).stereo_buf@.skip(
                pop_taken(old(self).stereo_buf@, taken_cap(chunk_size)),
            ),
            *final(self) == (Recorder {
                mono_buf: final(self).mono_buf,
                stereo_buf: final(self).stereo_buf,
                ..*old(self)
            }),
            chunk_size != usize::MAX ==> ({
                let safe = safe_chunk(chunk_size);
                let m_take = pop_taken(old(self).mono_buf@, safe);
                let s_take = pop_taken(old(self).stereo_buf@, safe);
                r.0@ == old(self).mono_buf@.take(m_take) + zeros(safe - m_take)
                    && r.1@ == old(self).stereo_buf@.take(s_take) + zeros(safe - s_take)
                    && r.0@.len() == safe
            }),
            chunk_size == usize::MAX ==> ({
                let m_take = pop_taken(old(self).mono_buf@, MAX_POP_CHUNK as int);
                let s_take = pop_taken(old(self).stereo_buf@, MAX_POP_CHUNK as int);
                let target = if m_take <= s_take {
                    s_take
                } else {
                    m_take
                };
                r.0@ == old(self).mono_buf@.take(m_take) + zeros(target - m_take)
                    && r.1@ == old(self).stereo_buf@.take(s_take) + zeros(target - s_take)
            }),
    {
        let safe_chunk_size = if chunk_size < MAX_POP_CHUNK {
            chunk_size
        } else {
            MAX_POP_CHUNK
        };
        let unbounded = chunk_size == usize::MAX;

        let mut mono_result = Self::extract_samples(&mut self.mono_buf, safe_chunk_size);
        if !unbounded && mono_result.len() < safe_chunk_size {
            Self::pad_to(&mut mono_result, safe_chunk_size);
        }
        let mut stereo_result = Self::extract_samples(&mut self.stereo_buf, safe_chunk_size);
        if !unbounded && stereo_result.len() < safe_chunk_size {
            Self::pad_to(&mut stereo_result, safe_chunk_size);
        }

        if unbounded {
            let max_len = if mono_result.len() < stereo_result.len() {
                stereo_result.len()
            } else {
                mono_result.len()
            };
            Self::pad_to(&mut mono_result, max_len);
            Self::pad_to(&mut stereo_result, max_len);
            proof {
                lemma_pop_shapes(old(self).mono_buf@, old(self).stereo_buf@, chunk_size);
            }
            (mono_result, stereo_result)
        } else {
            proof {
                lemma_pop_shapes(old(self).mono_buf@, old(self).stereo_buf@, chunk_size);
            }
            (mono_result, stereo_result)
        }
    }

    /// Interleave two equal-length channel chunks sample by sample.
    pub fn mix_buffers(mono_buf: &PcmBuf, stereo_buf: &PcmBuf) -> (r: Vec<i16>)
        requires
            mono_buf@.len() == stereo_buf@.len(),
        ensures
            r@ == interleaved(mono_buf@, stereo_buf@),
            r@.len() == 2 * mono_buf@.len(),
    {
        let len = mono_buf.len();
        let mut mix_buff: Vec<i16> = Vec::new();
        let mut i: usize = 0;
        while i < len
            invariant
                len == mono_buf@.len() == stereo_buf@.len(),
                i <= len,
                mix_buff@.len() == 2 * i,
                forall|j: int|
                    0 <= j < i ==> mix_buff@[2 * j] == mono_buf@[j] && mix_buff@[2 * j + 1]
                        == stereo_buf@[j],
            decreases len - i,
        {
            mix_buff.push(mono_buf[i]);
            mix_buff.push(stereo_buf[i]);
            i += 1;
        }
        proof {
            assert(mix_buff@ =~= interleaved(mono_buf@, stereo_buf@));
        }
        mix_buff
    }

    /// Samples per drain tick: `samplerate / 1000 * ptime`.
    pub fn chunk_size(&self) -> (r: usize)
        requires
            (self.option.samplerate as int / 1000) * (self.option.ptime as int) <= 0xFFFF_FFFF,
        ensures
            r == (self.option.samplerate as int / 1000) * (self.option.ptime as int),
    {
        (self.option.samplerate / 1000 * self.option.ptime) as usize
    }

    /// Account for `frame_count` interleaved stereo frames written to
    /// disk: four bytes each (two channels of 16-bit samples).
    pub fn note_interleaved_written(&mut self, frame_count: usize)
        requires
            old(self).samples_written + 4 * frame_count <= usize::MAX,
        ensures
            final(self).samples_written == old(self).samples_written + 4 * frame_count,
            *final(self) == (Recorder {
                samples_written: final(self).samples_written,
                ..*old(self)
            }),
    {
        self.samples_written = self.samples_written + 4 * frame_count;
    }

    /// Account for raw RTP payload bytes written in passthrough mode.
    pub fn note_rtp_written(&mut self, byte_count: usize)
        requires
            old(self).samples_written + byte_count <= usize::MAX,
        ensures
            final(self).samples_written == old(self).samples_written + byte_count,
            *final(self) == (Recorder {
                samples_written: final(self).samples_written,
                ..*old(self)
            }),
    {
        self.samples_written = self.samples_written + byte_count;
    }

    /// Request cancellation: the drain loop switches to flushing.
    pub fn stop_recording(&mut self) -> (r: Result<(), MediaError>)
        ensures
            r is Ok,
            final(self).cancelled,
            *final(self) == (Recorder { cancelled: true, ..*old(self) }),
    {
        self.cancelled = true;
        Ok(())
    }
}

/// The cap a `pop` request applies to each buffer.
pub open spec fn taken_cap(chunk_size: usize) -> int {
    min_int(chunk_size as int, MAX_POP_CHUNK as int)
}

proof fn lemma_pop_shapes(mono: Seq<i16>, stereo: Seq<i16>, chunk_size: usize)
    ensures
        pop_taken(mono, taken_cap(chunk_size)) <= mono.len(),
        pop_taken(stereo, taken_cap(chunk_size)) <= stereo.len(),
{
}

/// Recorder channel determinism: from an empty registry, the first two
/// distinct track ids map to channels 0 and 1 in order of first
/// appearance, and a third distinct id wraps around to channel 0.
pub proof fn lemma_channel_determinism(a: Seq<char>, b: Seq<char>, c: Seq<char>)
    requires
        a != b,
        a != c,
        b != c,
    ensures
        channel_of(Seq::empty(), a) == 0,
        channel_of(seq![a], b) == 1,
        channel_of(seq![a, b], c) == 0,
        channel_of(seq![a, b], a) == 0,
        channel_of(seq![a, b], b) == 1,
{
    let two = seq![a, b];
    assert(two[0] == a);
    assert(two[1] == b);
    lemma_first_index_of_is_first(two, a, 0);
    lemma_first_index_of_is_first(two, b, 1);
    assert(!seq![a].contains(b)) by {
        assert(forall|i: int| 0 <= i < 1 ==> seq![a][i] == a);
    }
    assert(!two.contains(c)) by {
        assert(forall|i: int| 0 <= i < 2 ==> two[i] == a || two[i] == b);
    }
}

} // verus!
