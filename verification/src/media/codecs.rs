//! Trusted boundary around the `audio_codec` crate: codec encoder and
//! decoder instances, the resampler, and the little-endian byte helpers.
//!
//! Every item here either declares an outside type opaquely or states, of
//! one outside function, exactly what that crate's source shows.  The rest
//! of the library is verified against these contracts.

use vstd::prelude::*;

verus! {

#[verifier::external_type_specification]
#[verifier::external_body]
pub struct ExPcmuEncoder(audio_codec::pcmu::PcmuEncoder);

#[verifier::external_type_specification]
#[verifier::external_body]
pub struct ExPcmuDecoder(audio_codec::pcmu::PcmuDecoder);

#[verifier::external_type_specification]
#[verifier::external_body]
pub struct ExPcmaEncoder(audio_codec::pcma::PcmaEncoder);

#[verifier::external_type_specification]
#[verifier::external_body]
pub struct ExPcmaDecoder(audio_codec::pcma::PcmaDecoder);

#[verifier::external_type_specification]
#[verifier::external_body]
pub struct ExG722Encoder(audio_codec::g722::G722Encoder);

#[verifier::external_type_specification]
#[verifier::external_body]
pub struct ExG722Decoder(audio_codec::g722::G722Decoder);

#[verifier::external_type_specification]
#[verifier::external_body]
pub struct ExG729Encoder(audio_codec::g729::G729Encoder);

#[verifier::external_type_specification]
#[verifier::external_body]
pub struct ExG729Decoder(audio_codec::g729::G729Decoder);

#[verifier::external_type_specification]
#[verifier::external_body]
pub struct ExOpusEncoder(audio_codec::opus::OpusEncoder);

#[verifier::external_type_specification]
#[verifier::external_body]
pub struct ExOpusDecoder(audio_codec::opus::OpusDecoder);

#[verifier::external_type_specification]
#[verifier::external_body]
pub struct ExBoxedResampler(audio_codec::resampler::BoxedResampler);

#[verifier::external_type_specification]
#[verifier::external_body]
pub struct ExCodecError(audio_codec::CodecError);

/// Relies on `PcmuEncoder::new`: stateless constructor.
pub assume_specification[ audio_codec::pcmu::PcmuEncoder::new ]() -> audio_codec::pcmu::PcmuEncoder;

/// Relies on `PcmuDecoder::new`: stateless constructor.
pub assume_specification[ audio_codec::pcmu::PcmuDecoder::new ]() -> audio_codec::pcmu::PcmuDecoder;

/// Relies on `PcmaEncoder::new`: stateless constructor.
pub assume_specification[ audio_codec::pcma::PcmaEncoder::new ]() -> audio_codec::pcma::PcmaEncoder;

/// Relies on `PcmaDecoder::new`: stateless constructor.
pub assume_specification[ audio_codec::pcma::PcmaDecoder::new ]() -> audio_codec::pcma::PcmaDecoder;

/// Relies on `G722Encoder::new`: fresh 64 kbit/s, 16 kHz, unpacked encoder.
pub assume_specification[ audio_codec::g722::G722Encoder::new ]() -> audio_codec::g722::G722Encoder;

/// Relies on `G722Decoder::new`: fresh 64 kbit/s, 16 kHz, unpacked decoder.
pub assume_specification[ audio_codec::g722::G722Decoder::new ]() -> audio_codec::g722::G722Decoder;

/// Relies on `G729Encoder::new`: fresh encoder with VAD/DTX disabled.
pub assume_specification[ audio_codec::g729::G729Encoder::new ]() -> audio_codec::g729::G729Encoder;

/// Relies on `G729Decoder::new`: fresh decoder.
pub assume_specification[ audio_codec::g729::G729Decoder::new ]() -> audio_codec::g729::G729Decoder;

/// Relies on `OpusEncoder::new_default`: fresh 48 kHz mono encoder.
pub assume_specification[ audio_codec::opus::OpusEncoder::new_default ]() -> audio_codec::opus::OpusEncoder;

/// Relies on `OpusDecoder::new_default`: fresh 48 kHz mono decoder.
pub assume_specification[ audio_codec::opus::OpusDecoder::new_default ]() -> audio_codec::opus::OpusDecoder;

/// Relies on `BoxedResampler::new`: fails exactly when a rate is zero (the
/// coefficient buffer it allocates is always large enough).
pub assume_specification[ audio_codec::resampler::BoxedResampler::new ](
    input_rate: usize,
    output_rate: usize,
) -> (r: Result<audio_codec::resampler::BoxedResampler, audio_codec::CodecError>)
    ensures
        r is Ok <==> (input_rate > 0 && output_rate > 0),
;

/// Relies on `BoxedResampler::resample`: rate conversion through the
/// resampler's polyphase filter; the sample values are unspecified here.
pub assume_specification[ audio_codec::resampler::BoxedResampler::resample ](
    r: &mut audio_codec::resampler::BoxedResampler,
    input: &[i16],
) -> Vec<i16>;

/// What `PcmuDecoder::decode` returns for a payload: one mu-law expansion
/// per byte, a function of the bytes alone (the decoder carries no state).
pub uninterp spec fn pcmu_decode_of(payload: Seq<u8>) -> Seq<i16>;

/// What `PcmuEncoder::encode` returns: one mu-law compression per sample,
/// a function of the samples alone.
pub uninterp spec fn pcmu_encode_of(samples: Seq<i16>) -> Seq<u8>;

/// What `PcmaDecoder::decode` returns: one a-law expansion per byte.
pub uninterp spec fn pcma_decode_of(payload: Seq<u8>) -> Seq<i16>;

/// What `PcmaEncoder::encode` returns: one a-law compression per sample.
pub uninterp spec fn pcma_encode_of(samples: Seq<i16>) -> Seq<u8>;

/// Relies on `PcmuDecoder::decode` (via the `Decoder` trait): a stateless
/// table lookup producing one sample per input byte.
#[verifier::external_body]
pub fn pcmu_decode(dec: &mut audio_codec::pcmu::PcmuDecoder, data: &[u8]) -> (r: Vec<i16>)
    ensures
        r@ == pcmu_decode_of(data@),
        r@.len() == data@.len(),
{
    audio_codec::Decoder::decode(dec, data)
}

/// Relies on `PcmuEncoder::encode` (via the `Encoder` trait): a stateless
/// table lookup producing one byte per input sample.
#[verifier::external_body]
pub fn pcmu_encode(enc: &mut audio_codec::pcmu::PcmuEncoder, samples: &[i16]) -> (r: Vec<u8>)
    ensures
        r@ == pcmu_encode_of(samples@),
        r@.len() == samples@.len(),
{
    audio_codec::Encoder::encode(enc, samples)
}

/// Relies on `PcmaDecoder::decode`: stateless, one sample per byte.
#[verifier::external_body]
pub fn pcma_decode(dec: &mut audio_codec::pcma::PcmaDecoder, data: &[u8]) -> (r: Vec<i16>)
    ensures
        r@ == pcma_decode_of(data@),
        r@.len() == data@.len(),
{
    audio_codec::Decoder::decode(dec, data)
}

/// Relies on `PcmaEncoder::encode`: stateless, one byte per sample.
#[verifier::external_body]
pub fn pcma_encode(enc: &mut audio_codec::pcma::PcmaEncoder, samples: &[i16]) -> (r: Vec<u8>)
    ensures
        r@ == pcma_encode_of(samples@),
        r@.len() == samples@.len(),
{
    audio_codec::Encoder::encode(enc, samples)
}

/// Relies on `G722Decoder::decode`: in the default 16 kHz unpacked mode
/// each byte yields two samples; the values depend on the decoder's
/// filter state, so only the length is stated.
#[verifier::external_body]
pub fn g722_decode(dec: &mut audio_codec::g722::G722Decoder, data: &[u8]) -> (r: Vec<i16>)
    ensures
        r@.len() == 2 * data@.len(),
{
    audio_codec::Decoder::decode(dec, data)
}

/// Relies on `G722Encoder::encode`: in the default 16 kHz unpacked mode
/// each sample pair yields one byte, and a trailing odd sample is
/// zero-padded into one more; the values depend on the encoder's
/// filter state.
#[verifier::external_body]
pub fn g722_encode(enc: &mut audio_codec::g722::G722Encoder, samples: &[i16]) -> (r: Vec<u8>)
    ensures
        r@.len() == (samples@.len() + 1) / 2,
{
    audio_codec::Encoder::encode(enc, samples)
}

/// Relies on `G729Decoder::decode`: every complete 10-byte frame yields 80
/// samples and trailing bytes are dropped; the values depend on the
/// decoder's state.
#[verifier::external_body]
pub fn g729_decode(dec: &mut audio_codec::g729::G729Decoder, data: &[u8]) -> (r: Vec<i16>)
    ensures
        r@.len() == (data@.len() / 10) * 80,
{
    audio_codec::Decoder::decode(dec, data)
}

/// Relies on `G729Encoder::encode`: every complete 80-sample frame yields
/// at most 10 bytes and trailing samples are dropped.
#[verifier::external_body]
pub fn g729_encode(enc: &mut audio_codec::g729::G729Encoder, samples: &[i16]) -> (r: Vec<u8>)
    ensures
        r@.len() <= (samples@.len() / 80) * 10,
{
    audio_codec::Encoder::encode(enc, samples)
}

/// Relies on `OpusDecoder::decode`: nothing is stated of the result, which
/// depends on the decoder's internal state.
#[verifier::external_body]
pub fn opus_decode(dec: &mut audio_codec::opus::OpusDecoder, data: &[u8]) -> (r: Vec<i16>) {
    audio_codec::Decoder::decode(dec, data)
}

/// Relies on `OpusEncoder::encode`: nothing is stated of the result, which
/// depends on the encoder's internal state.
#[verifier::external_body]
pub fn opus_encode(enc: &mut audio_codec::opus::OpusEncoder, samples: &[i16]) -> (r: Vec<u8>) {
    audio_codec::Encoder::encode(enc, samples)
}

/// The unsigned 16-bit reading of a sample's two's-complement bits.
pub open spec fn u16_of_i16(s: i16) -> int {
    if s < 0 {
        s + 0x10000
    } else {
        s as int
    }
}

/// Low byte of a sample's little-endian representation.
pub open spec fn lo_byte(s: i16) -> u8 {
    (u16_of_i16(s) % 256) as u8
}

/// High byte of a sample's little-endian representation.
pub open spec fn hi_byte(s: i16) -> u8 {
    (u16_of_i16(s) / 256) as u8
}

/// The sample whose little-endian representation is `(lo, hi)`.
pub open spec fn i16_of_le_bytes(lo: u8, hi: u8) -> i16 {
    let u = lo + 256 * (hi as int);
    if u >= 0x8000 {
        (u - 0x10000) as i16
    } else {
        u as i16
    }
}

/// Little-endian byte serialization of a PCM buffer.
pub open spec fn le_bytes_of_pcm(s: Seq<i16>) -> Seq<u8> {
    Seq::new(2 * s.len(), |i: int| if i % 2 == 0 { lo_byte(s[i / 2]) } else { hi_byte(s[i / 2]) })
}

/// PCM buffer read from little-endian bytes; a trailing odd byte is dropped.
pub open spec fn pcm_of_le_bytes(b: Seq<u8>) -> Seq<i16> {
    Seq::new(b.len() / 2, |i: int| i16_of_le_bytes(b[2 * i], b[2 * i + 1]))
}

/// Relies on `audio_codec::samples_to_bytes`: little-endian serialization,
/// two bytes per sample.
#[verifier::external_body]
pub fn samples_to_bytes(samples: &[i16]) -> (r: Vec<u8>)
    ensures
        r@ == le_bytes_of_pcm(samples@),
{
    audio_codec::samples_to_bytes(samples)
}

/// Relies on `audio_codec::bytes_to_samples`: little-endian reading, one
/// sample per byte pair, dropping a trailing odd byte.
#[verifier::external_body]
pub fn bytes_to_samples(data: &[u8]) -> (r: Vec<i16>)
    ensures
        r@ == pcm_of_le_bytes(data@),
{
    audio_codec::bytes_to_samples(data)
}

/// Serializing a PCM buffer to little-endian bytes and reading it back
/// reproduces the buffer exactly.
pub proof fn lemma_pcm_le_round_trip(s: Seq<i16>)
    ensures
        pcm_of_le_bytes(le_bytes_of_pcm(s)) =~= s,
{
    assert forall|i: int| 0 <= i < s.len() implies pcm_of_le_bytes(le_bytes_of_pcm(s))[i]
        == s[i] by {
        let b = le_bytes_of_pcm(s);
        assert(b[2 * i] == lo_byte(s[i]));
        assert(b[2 * i + 1] == hi_byte(s[i]));
        lemma_le_bytes_identity(s[i]);
    }
}

/// One sample survives the little-endian split and rejoin.
proof fn lemma_le_bytes_identity(s: i16)
    ensures
        i16_of_le_bytes(lo_byte(s), hi_byte(s)) == s,
{
    let u = u16_of_i16(s);
    assert(0 <= u < 0x10000);
    vstd::arithmetic::div_mod::lemma_fundamental_div_mod(u, 256);
    assert(lo_byte(s) + 256 * (hi_byte(s) as int) == u);
}

} // verus!
