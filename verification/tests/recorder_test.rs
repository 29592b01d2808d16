use active_call::media::recorder::{
    build_wav_header, Recorder, RecorderFormat, RecorderOption,
};
use active_call::media::{AudioFrame, Samples};

fn pcm_frame(track_id: &str, samples: Vec<i16>) -> AudioFrame {
    AudioFrame {
        track_id: track_id.to_string(),
        timestamp: 0,
        sample_rate: 16000,
        channels: 1,
        samples: Samples::PCM { samples },
    }
}

fn new_recorder() -> Recorder {
    Recorder::new("session".to_string(), RecorderOption::default())
}

#[test]
fn test_channel_assignment_first_seen_order() {
    let mut rec = new_recorder();
    let a = "track-a".to_string();
    let b = "track-b".to_string();
    let c = "track-c".to_string();
    assert_eq!(rec.get_channel_index(&a), 0);
    assert_eq!(rec.get_channel_index(&b), 1);
    // A third distinct id wraps to channel 2 mod 2 = 0.
    assert_eq!(rec.get_channel_index(&c), 0);
    // Lookups stay stable.
    assert_eq!(rec.get_channel_index(&a), 0);
    assert_eq!(rec.get_channel_index(&b), 1);
    assert_eq!(rec.get_channel_index(&c), 0);
}

#[test]
fn test_append_frame_routes_to_channel_buffers() {
    let mut rec = new_recorder();
    rec.append_frame(pcm_frame("one", vec![1, 2, 3])).unwrap();
    rec.append_frame(pcm_frame("two", vec![4, 5])).unwrap();
    rec.append_frame(pcm_frame("one", vec![6])).unwrap();
    assert_eq!(rec.mono_buf, vec![1, 2, 3, 6]);
    assert_eq!(rec.stereo_buf, vec![4, 5]);
    // Non-PCM and empty frames are ignored.
    let mut rtp = pcm_frame("three", vec![]);
    rtp.samples = Samples::RTP {
        payload_type: 0,
        payload: vec![9, 9],
        sequence_number: 1,
    };
    rec.append_frame(rtp).unwrap();
    rec.append_frame(pcm_frame("four", vec![])).unwrap();
    assert_eq!(rec.mono_buf, vec![1, 2, 3, 6]);
    assert_eq!(rec.stereo_buf, vec![4, 5]);
}

#[test]
fn test_pop_pads_both_buffers_to_chunk_size() {
    let mut rec = new_recorder();
    rec.append_frame(pcm_frame("one", vec![1, 2, 3])).unwrap();
    rec.append_frame(pcm_frame("two", vec![4])).unwrap();
    let (mono, stereo) = rec.pop(5);
    assert_eq!(mono.len(), stereo.len());
    assert_eq!(mono, vec![1, 2, 3, 0, 0]);
    assert_eq!(stereo, vec![4, 0, 0, 0, 0]);
    // Starved on both sides: pure silence, still aligned.
    let (mono, stereo) = rec.pop(4);
    assert_eq!(mono, vec![0, 0, 0, 0]);
    assert_eq!(stereo, vec![0, 0, 0, 0]);
}

#[test]
fn test_pop_unbounded_flush_keeps_lengths_equal() {
    let mut rec = new_recorder();
    rec.append_frame(pcm_frame("one", vec![1, 2, 3, 4, 5])).unwrap();
    rec.append_frame(pcm_frame("two", vec![6])).unwrap();
    let (mono, stereo) = rec.pop(usize::MAX);
    assert_eq!(mono.len(), stereo.len());
    assert_eq!(mono, vec![1, 2, 3, 4, 5]);
    assert_eq!(stereo, vec![6, 0, 0, 0, 0]);
    // Both drained now.
    let (mono, stereo) = rec.pop(usize::MAX);
    assert!(mono.is_empty() && stereo.is_empty());
}

#[test]
fn test_mix_buffers_interleaves() {
    let mono = vec![1, 3, 5];
    let stereo = vec![2, 4, 6];
    assert_eq!(Recorder::mix_buffers(&mono, &stereo), vec![1, 2, 3, 4, 5, 6]);
}

#[test]
fn test_wav_header_exactness() {
    let data_size: u32 = 1000;
    let header = build_wav_header(None, 16000, data_size);
    assert_eq!(header.len(), 44);
    assert_eq!(&header[0..4], b"RIFF");
    assert_eq!(&header[8..12], b"WAVE");
    assert_eq!(&header[12..16], b"fmt ");
    assert_eq!(&header[36..40], b"data");
    // RIFF chunk size == data_size + 36, little endian.
    assert_eq!(&header[4..8], &(data_size + 36).to_le_bytes());
    // data chunk size == data_size.
    assert_eq!(&header[40..44], &data_size.to_le_bytes());
    // PCM stereo 16-bit at the configured rate.
    assert_eq!(&header[20..22], &1u16.to_le_bytes());
    assert_eq!(&header[22..24], &2u16.to_le_bytes());
    assert_eq!(&header[24..28], &16000u32.to_le_bytes());
    assert_eq!(&header[28..32], &(16000u32 * 2 * 2).to_le_bytes());
    assert_eq!(&header[34..36], &16u16.to_le_bytes());
}

#[test]
fn test_wav_header_rtp_passthrough_params() {
    // PCMU: mu-law companded mono 8 kHz, 8-bit.
    let header = build_wav_header(Some(0), 16000, 10);
    assert_eq!(&header[20..22], &7u16.to_le_bytes());
    assert_eq!(&header[24..28], &8000u32.to_le_bytes());
    assert_eq!(&header[34..36], &8u16.to_le_bytes());
    // G722: fixed 64 kbit/s byte rate and 4 nominal bits.
    let header = build_wav_header(Some(9), 16000, 10);
    assert_eq!(&header[20..22], &0x64u16.to_le_bytes());
    assert_eq!(&header[24..28], &16000u32.to_le_bytes());
    assert_eq!(&header[28..32], &8000u32.to_le_bytes());
    assert_eq!(&header[34..36], &4u16.to_le_bytes());
    // Unknown payload type: 16-bit 16 kHz mono PCM.
    let header = build_wav_header(Some(96), 44100, 10);
    assert_eq!(&header[20..22], &1u16.to_le_bytes());
    assert_eq!(&header[24..28], &16000u32.to_le_bytes());
    assert_eq!(&header[34..36], &16u16.to_le_bytes());
}

#[test]
fn test_recorder_format_basics() {
    assert_eq!(RecorderFormat::Pcmu.extension(), "wav");
    assert!(RecorderFormat::G722.is_supported());
    assert_eq!(RecorderFormat::Pcm.effective(), RecorderFormat::Pcm);
    assert_eq!(RecorderFormat::default(), RecorderFormat::Wav);
    let opt = RecorderOption::new("x".to_string());
    assert_eq!(opt.resolved_format(RecorderFormat::G722), RecorderFormat::G722);
    let mut opt = RecorderOption::new("x".to_string());
    opt.format = Some(RecorderFormat::Pcma);
    assert_eq!(opt.resolved_format(RecorderFormat::G722), RecorderFormat::Pcma);
}

#[test]
fn test_ensure_path_extension() {
    let mut opt = RecorderOption::new("rec/call".to_string());
    opt.ensure_path_extension(RecorderFormat::Wav);
    assert_eq!(opt.recorder_file, "rec/call.wav");
    assert_eq!(opt.format, Some(RecorderFormat::Wav));

    let mut opt = RecorderOption::new("CALL.WAV".to_string());
    opt.ensure_path_extension(RecorderFormat::Wav);
    assert_eq!(opt.recorder_file, "CALL.WAV");

    let mut opt = RecorderOption::new(String::new());
    opt.ensure_path_extension(RecorderFormat::Pcmu);
    assert_eq!(opt.recorder_file, "");
    assert_eq!(opt.format, Some(RecorderFormat::Pcmu));
}

#[test]
fn test_stop_recording_sets_cancel_flag() {
    let mut rec = new_recorder();
    assert!(!rec.cancelled);
    rec.stop_recording().unwrap();
    assert!(rec.cancelled);
}
