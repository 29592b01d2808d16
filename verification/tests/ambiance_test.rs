use active_call::media::ambiance::{AmbianceOption, AmbianceProcessor};
use active_call::media::{AudioFrame, MediaError, Samples};

fn option_with(path: Option<&str>, duck: u32, normal: u32, speed: u32) -> AmbianceOption {
    AmbianceOption {
        path: path.map(|p| p.to_string()),
        duck_level: Some(duck),
        normal_level: Some(normal),
        transition_speed: Some(speed),
        enabled: Some(true),
    }
}

fn pcm_frame(samples: Vec<i16>) -> AudioFrame {
    AudioFrame {
        track_id: "t".to_string(),
        timestamp: 0,
        sample_rate: 16000,
        channels: 1,
        samples: Samples::PCM { samples },
    }
}

fn empty_frame() -> AudioFrame {
    AudioFrame {
        track_id: "t".to_string(),
        timestamp: 0,
        sample_rate: 16000,
        channels: 1,
        samples: Samples::Empty,
    }
}

#[test]
fn test_new_requires_path() {
    let opt = option_with(None, 200, 800, 50);
    match AmbianceProcessor::new(&opt, vec![1, 2, 3]) {
        Err(MediaError::Configuration) => {}
        _ => panic!("a missing path must be a configuration error"),
    }
}

#[test]
fn test_defaults() {
    let opt = AmbianceOption {
        path: Some("bed.wav".to_string()),
        duck_level: None,
        normal_level: None,
        transition_speed: None,
        enabled: None,
    };
    let p = AmbianceProcessor::new(&opt, vec![0]).unwrap();
    assert_eq!(p.duck_level, 200);
    assert_eq!(p.normal_level, 800);
    assert_eq!(p.transition_speed, 50);
    assert!(p.enabled);
    assert_eq!(p.current_level, 800);
}

#[test]
fn test_merge_fills_only_unset_fields() {
    let mut a = AmbianceOption {
        path: None,
        duck_level: Some(100),
        normal_level: None,
        transition_speed: None,
        enabled: Some(false),
    };
    let b = option_with(Some("bed.mp3"), 300, 900, 25);
    a.merge(&b);
    assert_eq!(a.path.as_deref(), Some("bed.mp3"));
    assert_eq!(a.duck_level, Some(100));
    assert_eq!(a.normal_level, Some(900));
    assert_eq!(a.transition_speed, Some(25));
    assert_eq!(a.enabled, Some(false));
}

#[test]
fn test_ambient_cycling_restarts_sequence() {
    let opt = option_with(Some("bed.wav"), 200, 800, 50);
    let bed = vec![10, 20, 30];
    let mut p = AmbianceProcessor::new(&opt, bed.clone()).unwrap();
    // Read one whole cycle, then k more.
    let mut first_pass = Vec::new();
    for _ in 0..bed.len() {
        first_pass.push(p.get_next_ambient_sample());
    }
    assert_eq!(first_pass, bed);
    let mut second_pass = Vec::new();
    for _ in 0..5 {
        second_pass.push(p.get_next_ambient_sample());
    }
    // The sequence after len(buffer) reads equals the sequence from the
    // start: cyclic and restartable.
    assert_eq!(second_pass, vec![10, 20, 30, 10, 20]);
}

#[test]
fn test_ducking_monotonic_bounds_and_step() {
    let opt = option_with(Some("bed.wav"), 200, 800, 50);
    let mut p = AmbianceProcessor::new(&opt, vec![0; 16]).unwrap();
    let mut prev = p.current_level;
    for i in 0..50 {
        let speaking = (i / 10) % 2 == 0;
        let mut frame = if speaking {
            pcm_frame(vec![1000; 320])
        } else {
            empty_frame()
        };
        p.process_frame(&mut frame).unwrap();
        let cur = p.current_level;
        // Never outside [duck, normal], never more than one step away.
        assert!((200..=800).contains(&cur));
        assert!(cur.abs_diff(prev) <= 50);
        prev = cur;
    }
    // Twelve consecutive speaking frames fully duck the level.
    let mut p = AmbianceProcessor::new(&opt, vec![0; 16]).unwrap();
    for _ in 0..12 {
        let mut frame = pcm_frame(vec![1000; 320]);
        p.process_frame(&mut frame).unwrap();
    }
    assert_eq!(p.current_level, 200);
}

#[test]
fn test_process_frame_mixes_scaled_ambient() {
    // Equal duck and normal keep the level pinned at 500 per-mille.
    let opt = option_with(Some("bed.wav"), 500, 500, 1000);
    let mut p = AmbianceProcessor::new(&opt, vec![1000, -1000]).unwrap();
    let mut frame = pcm_frame(vec![0, 0, 100, 32767]);
    p.process_frame(&mut frame).unwrap();
    match frame.samples {
        Samples::PCM { samples } => {
            // 1000 * 500 / 1000 = 500, cycling through the bed; the last
            // sample clamps at the 16-bit ceiling.
            assert_eq!(samples, vec![500, -500, 600, 32267]);
        }
        _ => panic!("frame must stay PCM"),
    }
}

#[test]
fn test_empty_frame_synthesizes_ambient_bed() {
    let opt = option_with(Some("bed.wav"), 500, 500, 1000);
    let mut p = AmbianceProcessor::new(&opt, vec![100, -100]).unwrap();
    let mut frame = empty_frame();
    p.process_frame(&mut frame).unwrap();
    assert_eq!(frame.sample_rate, 16000);
    assert_eq!(frame.channels, 1);
    match frame.samples {
        Samples::PCM { samples } => {
            // 20 ms at 16 kHz.
            assert_eq!(samples.len(), 320);
            assert_eq!(samples[0], 50);
            assert_eq!(samples[1], -50);
            assert_eq!(samples[2], 50);
        }
        _ => panic!("an empty frame must become synthesized PCM"),
    }
}

#[test]
fn test_rtp_frames_pass_through() {
    let opt = option_with(Some("bed.wav"), 200, 800, 50);
    let mut p = AmbianceProcessor::new(&opt, vec![1, 2, 3]).unwrap();
    let mut frame = pcm_frame(vec![]);
    frame.samples = Samples::RTP {
        payload_type: 0,
        payload: vec![1, 2, 3],
        sequence_number: 7,
    };
    p.process_frame(&mut frame).unwrap();
    match frame.samples {
        Samples::RTP { payload, .. } => assert_eq!(payload, vec![1, 2, 3]),
        _ => panic!("RTP frames must pass through unmodified"),
    }
    // But the level still ducked: RTP counts as speaking.
    assert_eq!(p.current_level, 750);
}

#[test]
fn test_disabled_processor_is_identity() {
    let mut opt = option_with(Some("bed.wav"), 200, 800, 50);
    opt.enabled = Some(false);
    let mut p = AmbianceProcessor::new(&opt, vec![1, 2, 3]).unwrap();
    let mut frame = pcm_frame(vec![7, 8]);
    p.process_frame(&mut frame).unwrap();
    match frame.samples {
        Samples::PCM { samples } => assert_eq!(samples, vec![7, 8]),
        _ => panic!("disabled processing must not touch the frame"),
    }
    assert_eq!(p.current_level, 800);
}
