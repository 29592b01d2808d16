//! End-to-end: two tracks feed the processor chain and the recorder for
//! one second of audio; the drained, interleaved output and the final
//! header must describe exactly that much stereo audio.

use active_call::media::ambiance::{AmbianceOption, AmbianceProcessor};
use active_call::media::processor::{Processor, ProcessorChain};
use active_call::media::recorder::{build_wav_header, Recorder, RecorderOption};
use active_call::media::{AudioFrame, Samples};

fn pcm_frame(track_id: &str, ts: u64, samples: Vec<i16>) -> AudioFrame {
    AudioFrame {
        track_id: track_id.to_string(),
        timestamp: ts,
        sample_rate: 16000,
        channels: 1,
        samples: Samples::PCM { samples },
    }
}

#[test]
fn test_end_to_end_two_tracks_one_second() {
    // Ambiance on the first track: duck 0.2, normal 0.8, transition
    // 0.05 — in per-mille gains.
    let opt = AmbianceOption {
        path: Some("bed.wav".to_string()),
        duck_level: Some(200),
        normal_level: Some(800),
        transition_speed: Some(50),
        enabled: Some(true),
    };
    let bed: Vec<i16> = (0..800).map(|i| ((i % 200) - 100) as i16).collect();
    let ambiance = AmbianceProcessor::new(&opt, bed).unwrap();
    let mut chain = ProcessorChain::new();
    chain.append_processor(Processor::Ambiance(ambiance));

    let mut recorder = Recorder::new("session".to_string(), RecorderOption::default());
    let chunk = recorder.chunk_size();
    assert_eq!(chunk, 3200);

    // 50 frames of 20 ms 16 kHz PCM silence on track one (through the
    // ambiance chain), alternating speech/silence every 10 frames on
    // track two.
    for i in 0..50u64 {
        let mut frame = pcm_frame("caller", i, vec![0i16; 320]);
        chain.process_frame(&mut frame).unwrap();
        match &frame.samples {
            Samples::PCM { samples } => assert_eq!(samples.len(), 320),
            _ => panic!("the chain must keep PCM frames PCM"),
        }
        recorder.append_frame(frame).unwrap();

        let speaking = (i / 10) % 2 == 0;
        let payload = if speaking { vec![900i16; 320] } else { vec![0i16; 320] };
        recorder.append_frame(pcm_frame("callee", i, payload)).unwrap();
    }

    // Five drain ticks of 200 ms each, then a cancellation flush.
    let mut data: Vec<u8> = Vec::new();
    let mut interleaved_total = 0usize;
    for _ in 0..5 {
        let (mono, stereo) = recorder.pop(chunk);
        assert_eq!(mono.len(), stereo.len());
        let mixed = Recorder::mix_buffers(&mono, &stereo);
        interleaved_total += mixed.len();
        for s in &mixed {
            data.extend_from_slice(&s.to_le_bytes());
        }
        recorder.note_interleaved_written(mono.len());
    }
    recorder.stop_recording().unwrap();
    loop {
        let (mono, stereo) = recorder.pop(usize::MAX);
        if mono.is_empty() && stereo.is_empty() {
            break;
        }
        let mixed = Recorder::mix_buffers(&mono, &stereo);
        interleaved_total += mixed.len();
        for s in &mixed {
            data.extend_from_slice(&s.to_le_bytes());
        }
        recorder.note_interleaved_written(mono.len());
    }

    // Exactly 50 * 320 stereo sample pairs were recorded.
    assert_eq!(interleaved_total, 2 * 50 * 320);
    assert_eq!(recorder.samples_written, 4 * 50 * 320);
    assert_eq!(data.len(), recorder.samples_written);

    // And the final header patch describes exactly that data.
    let header = build_wav_header(None, 16000, recorder.samples_written as u32);
    assert_eq!(header.len(), 44);
    assert_eq!(&header[0..4], b"RIFF");
    assert_eq!(&header[4..8], &((data.len() as u32) + 36).to_le_bytes());
    assert_eq!(&header[8..12], b"WAVE");
    assert_eq!(&header[22..24], &2u16.to_le_bytes());
    assert_eq!(&header[24..28], &16000u32.to_le_bytes());
    assert_eq!(&header[40..44], &(data.len() as u32).to_le_bytes());
}
