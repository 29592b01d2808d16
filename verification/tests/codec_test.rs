use active_call::media::codecs::{bytes_to_samples, samples_to_bytes};
use active_call::media::track::track_codec::TrackCodec;
use active_call::media::track::CodecType;
use active_call::media::{AudioFrame, Samples};

fn pcm_frame(rate: u32, samples: Vec<i16>) -> AudioFrame {
    AudioFrame {
        track_id: "t".to_string(),
        timestamp: 0,
        sample_rate: rate,
        channels: 1,
        samples: Samples::PCM { samples },
    }
}

/// A short test tone covering a range of amplitudes.
fn tone(len: usize) -> Vec<i16> {
    (0..len)
        .map(|i| (((i as i64 * 997) % 20000) - 10000) as i16)
        .collect()
}

#[test]
fn test_pcmu_round_trip_within_tolerance() {
    let mut codec = TrackCodec::new();
    let original = tone(320);
    let (pt, payload) = codec.encode(0, pcm_frame(8000, original.clone()));
    assert_eq!(pt, 0);
    assert_eq!(payload.len(), original.len());
    let (rate, channels, decoded) = codec.decode(0, &payload, 8000);
    assert_eq!(rate, 8000);
    assert_eq!(channels, 1);
    assert_eq!(decoded.len(), original.len());
    for (a, b) in original.iter().zip(decoded.iter()) {
        // mu-law quantization error stays well under one segment step.
        assert!((*a as i32 - *b as i32).abs() <= 1024);
    }
}

#[test]
fn test_pcma_round_trip_within_tolerance() {
    let mut codec = TrackCodec::new();
    let original = tone(160);
    let (pt, payload) = codec.encode(8, pcm_frame(8000, original.clone()));
    assert_eq!(pt, 8);
    let (rate, _, decoded) = codec.decode(8, &payload, 8000);
    assert_eq!(rate, 8000);
    assert_eq!(decoded.len(), original.len());
    for (a, b) in original.iter().zip(decoded.iter()) {
        assert!((*a as i32 - *b as i32).abs() <= 1024);
    }
}

#[test]
fn test_g722_round_trip_lengths() {
    let mut codec = TrackCodec::new();
    let original = tone(320);
    let (pt, payload) = codec.encode(9, pcm_frame(16000, original.clone()));
    assert_eq!(pt, 9);
    // One byte per sample pair at 16 kHz.
    assert_eq!(payload.len(), original.len() / 2);
    let (rate, channels, decoded) = codec.decode(9, &payload, 16000);
    assert_eq!(rate, 16000);
    assert_eq!(channels, 1);
    // Two samples per byte again.
    assert_eq!(decoded.len(), original.len());
}

#[test]
fn test_g729_round_trip_lengths() {
    let mut codec = TrackCodec::new();
    // Two complete 80-sample frames.
    let original = tone(160);
    let (pt, payload) = codec.encode(18, pcm_frame(8000, original.clone()));
    assert_eq!(pt, 18);
    // At most ten bytes per complete frame.
    assert!(payload.len() <= 20);
    let (rate, channels, decoded) = codec.decode(18, &payload, 8000);
    assert_eq!(rate, 8000);
    assert_eq!(channels, 1);
    // Eighty samples per complete ten-byte frame.
    assert_eq!(decoded.len(), (payload.len() / 10) * 80);
}

#[test]
fn test_opus_transcode_keeps_pipeline_alive() {
    let mut codec = TrackCodec::new();
    // One 20 ms frame at 48 kHz.
    let original = tone(960);
    let (pt, payload) = codec.encode(111, pcm_frame(48000, original));
    assert_eq!(pt, 111);
    let (rate, channels, _decoded) = codec.decode(111, &payload, 48000);
    assert_eq!(rate, 48000);
    assert!(channels == 1 || channels == 2);
}

#[test]
fn test_raw_pcm_byte_round_trip_is_exact() {
    let original = tone(100);
    let bytes = samples_to_bytes(&original);
    assert_eq!(bytes.len(), 2 * original.len());
    let back = bytes_to_samples(&bytes);
    assert_eq!(back, original);
}

#[test]
fn test_unknown_payload_type_falls_back_to_raw_pcm() {
    let mut codec = TrackCodec::new();
    // 96 is not in the table: encode falls back to raw 16-bit bytes.
    let original = vec![256, -2, 3];
    let (pt, payload) = codec.encode(96, pcm_frame(8000, original.clone()));
    assert_eq!(pt, 96);
    assert_eq!(payload, vec![0, 1, 254, 255, 3, 0]);
    // Unmapped decode of 96 falls back to the PCMU decoder, one sample
    // per byte: the pipeline stays alive rather than failing.
    let (rate, channels, decoded) = codec.decode(96, &payload, 8000);
    assert_eq!(rate, 8000);
    assert_eq!(channels, 1);
    assert_eq!(decoded.len(), payload.len());
}

#[test]
fn test_set_payload_type_overrides_table() {
    let mut codec = TrackCodec::new();
    // Remap 96 to the raw-fallback TelephoneEvent entry: decode then
    // reinterprets the bytes as little-endian 16-bit PCM.
    codec.set_payload_type(96, CodecType::TelephoneEvent);
    let payload = vec![0, 1, 254, 255];
    let (_, _, decoded) = codec.decode(96, &payload, 8000);
    assert_eq!(decoded, vec![256, -2]);
}

#[test]
fn test_is_audio_classification() {
    assert!(TrackCodec::is_audio(0));
    assert!(TrackCodec::is_audio(8));
    assert!(TrackCodec::is_audio(9));
    assert!(TrackCodec::is_audio(18));
    assert!(TrackCodec::is_audio(111));
    assert!(TrackCodec::is_audio(96));
    assert!(TrackCodec::is_audio(127));
    assert!(!TrackCodec::is_audio(1));
    assert!(!TrackCodec::is_audio(95));
    assert!(!TrackCodec::is_audio(128));
}

#[test]
fn test_encode_rtp_passes_payload_through() {
    let mut codec = TrackCodec::new();
    let mut frame = pcm_frame(8000, vec![]);
    frame.samples = Samples::RTP {
        payload_type: 8,
        payload: vec![1, 2, 3],
        sequence_number: 42,
    };
    let (pt, payload) = codec.encode(0, frame);
    // The payload keeps its own payload type, not the requested one.
    assert_eq!(pt, 8);
    assert_eq!(payload, vec![1, 2, 3]);
}

#[test]
fn test_encode_empty_yields_empty_payload() {
    let mut codec = TrackCodec::new();
    let mut frame = pcm_frame(8000, vec![]);
    frame.samples = Samples::Empty;
    let (pt, payload) = codec.encode(0, frame);
    assert_eq!(pt, 0);
    assert!(payload.is_empty());
}

#[test]
fn test_resample_reuses_and_rebuilds() {
    let mut codec = TrackCodec::new();
    let pcm = tone(160);
    // Equal rates pass through untouched.
    let out = codec.resample(pcm.clone(), 8000, 8000);
    assert_eq!(out, pcm);
    // A real conversion roughly doubles the length.
    let out = codec.resample(pcm.clone(), 8000, 16000);
    assert!(out.len() > 280 && out.len() <= 321);
    assert_eq!(codec.resampler_in_rate, 8000);
    assert_eq!(codec.resampler_out_rate, 16000);
    // The cached pair is replaced when the rates change.
    let _ = codec.resample(pcm.clone(), 16000, 8000);
    assert_eq!(codec.resampler_in_rate, 16000);
    assert_eq!(codec.resampler_out_rate, 8000);
}

#[test]
fn test_decode_resamples_to_target_rate() {
    let mut codec = TrackCodec::new();
    let original = tone(160);
    let (_, payload) = codec.encode(0, pcm_frame(8000, original.clone()));
    // Decode at 16 kHz: roughly twice as many samples come out.
    let (rate, _, decoded) = codec.decode(0, &payload, 16000);
    assert_eq!(rate, 16000);
    assert!(decoded.len() > 280 && decoded.len() <= 321);
}
