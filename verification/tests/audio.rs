use godot_livekit::audio::{
    upmix_to_stereo, FrameAssembler, FrameFormat, SampleRate, AUTO_GAIN_CONTROL, DECODE_CHANNELS,
    DECODE_SAMPLE_RATE, ECHO_CANCELLATION, LOCAL_TRACK_NAME, MIN_SAMPLE_RATE, NOISE_SUPPRESSION,
    PUBLISH_CHANNELS, SOURCE_QUEUE_MS,
};

fn ramp(from: i16, count: usize) -> Vec<i16> {
    (0..count).map(|i| from.wrapping_add(i as i16)).collect()
}

#[test]
fn one_frame_and_a_remainder_at_48_khz() {
    let mut assembler = FrameAssembler::new(48000).expect("48 kHz is a usable rate");
    assert_eq!(assembler.frame_len(), 480);
    let samples = ramp(0, 512);
    let frames = assembler.push(&samples);
    assert_eq!(frames.len(), 1);
    assert_eq!(frames[0], samples[..480].to_vec());
    assert_eq!(assembler.buffered(), 32);
}

#[test]
fn frame_length_is_a_hundredth_of_the_rate() {
    assert_eq!(FrameAssembler::new(48000).unwrap().frame_len(), 480);
    assert_eq!(FrameAssembler::new(44100).unwrap().frame_len(), 441);
    assert_eq!(FrameAssembler::new(16000).unwrap().frame_len(), 160);
    assert_eq!(FrameAssembler::new(8000).unwrap().frame_len(), 80);
    assert_eq!(FrameAssembler::new(199).unwrap().frame_len(), 1);
    assert_eq!(FrameAssembler::new(100).unwrap().frame_len(), 1);
    assert_eq!(FrameAssembler::new(i32::MAX).unwrap().frame_len(), 21_474_836);
}

#[test]
fn rates_without_a_frame_are_refused() {
    assert!(FrameAssembler::new(99).is_none());
    assert!(FrameAssembler::new(1).is_none());
    assert!(FrameAssembler::new(0).is_none());
    assert!(FrameAssembler::new(-48000).is_none());
    assert!(FrameAssembler::new(i32::MIN).is_none());
    assert_eq!(MIN_SAMPLE_RATE, 100);
}

#[test]
fn sample_rate_is_validated() {
    assert_eq!(SampleRate::new(48000).unwrap().hz(), 48000);
    assert_eq!(SampleRate::new(100).unwrap().hz(), 100);
    assert!(SampleRate::new(99).is_none());
    assert!(SampleRate::new(-1).is_none());
}

#[test]
fn a_fresh_assembler_holds_nothing() {
    let assembler = FrameAssembler::new(16000).unwrap();
    assert_eq!(assembler.buffered(), 0);
    assert_eq!(assembler.sample_rate(), 16000);
}

#[test]
fn an_empty_push_releases_nothing() {
    let mut assembler = FrameAssembler::new(48000).unwrap();
    assert!(assembler.push(&[]).is_empty());
    assert_eq!(assembler.buffered(), 0);
    assembler.push(&ramp(5, 7));
    assert!(assembler.push(&[]).is_empty());
    assert_eq!(assembler.buffered(), 7);
}

#[test]
fn a_short_push_is_held_back() {
    let mut assembler = FrameAssembler::new(48000).unwrap();
    assert!(assembler.push(&ramp(0, 479)).is_empty());
    assert_eq!(assembler.buffered(), 479);
    let frames = assembler.push(&[479]);
    assert_eq!(frames, vec![ramp(0, 480)]);
    assert_eq!(assembler.buffered(), 0);
}

#[test]
fn an_exact_multiple_leaves_nothing_behind() {
    let mut assembler = FrameAssembler::new(1000).unwrap();
    let samples = ramp(0, 30);
    let frames = assembler.push(&samples);
    assert_eq!(frames.len(), 3);
    assert_eq!(frames[0], ramp(0, 10));
    assert_eq!(frames[1], ramp(10, 10));
    assert_eq!(frames[2], ramp(20, 10));
    assert_eq!(assembler.buffered(), 0);
}

#[test]
fn pushes_accumulate_across_calls() {
    let mut assembler = FrameAssembler::new(48000).unwrap();
    let stream = ramp(-300, 1700);
    let mut released: Vec<Vec<i16>> = Vec::new();
    let mut at = 0;
    for size in [100usize, 200, 300, 1, 0, 999, 100] {
        released.extend(assembler.push(&stream[at..at + size]));
        at += size;
    }
    assert_eq!(at, 1700);
    // 1700 = 3 * 480 + 260
    assert_eq!(released.len(), 3);
    assert_eq!(assembler.buffered(), 260);
    for (k, frame) in released.iter().enumerate() {
        assert_eq!(frame.as_slice(), &stream[k * 480..(k + 1) * 480]);
    }
    // what was held comes out first on the next push
    let frames = assembler.push(&ramp(7000, 220));
    assert_eq!(frames.len(), 1);
    assert_eq!(&frames[0][..260], &stream[1440..1700]);
    assert_eq!(&frames[0][260..], ramp(7000, 220).as_slice());
    assert_eq!(assembler.buffered(), 0);
}

#[test]
fn splitting_a_stream_does_not_change_its_frames() {
    let stream = ramp(1, 1234);
    let mut whole = FrameAssembler::new(4400).unwrap();
    let at_once = whole.push(&stream);
    let mut split = FrameAssembler::new(4400).unwrap();
    let mut in_parts = split.push(&stream[..600]);
    in_parts.extend(split.push(&stream[600..]));
    assert_eq!(at_once, in_parts);
    assert_eq!(at_once.len(), 1234 / 44);
    assert_eq!(whole.buffered(), 1234 % 44);
    assert_eq!(split.buffered(), 1234 % 44);
    let mut rejoined: Vec<i16> = at_once.concat();
    assert_eq!(rejoined.len(), 28 * 44);
    rejoined.extend_from_slice(&stream[28 * 44..]);
    assert_eq!(rejoined, stream);
}

#[test]
fn extreme_samples_pass_unchanged() {
    let mut assembler = FrameAssembler::new(200).unwrap();
    let frames = assembler.push(&[i16::MIN, i16::MAX, 0, -1]);
    assert_eq!(frames, vec![vec![i16::MIN, i16::MAX], vec![0, -1]]);
}

#[test]
fn format_describes_mono_frames_of_ten_milliseconds() {
    let assembler = FrameAssembler::new(48000).unwrap();
    assert_eq!(
        assembler.format(),
        FrameFormat { sample_rate: 48000, num_channels: 1, samples_per_channel: 480 }
    );
    let assembler = FrameAssembler::new(44100).unwrap();
    assert_eq!(
        assembler.format(),
        FrameFormat { sample_rate: 44100, num_channels: 1, samples_per_channel: 441 }
    );
}

#[test]
fn transport_constants() {
    assert_eq!(PUBLISH_CHANNELS, 1);
    assert_eq!(SOURCE_QUEUE_MS, 1000);
    assert_eq!(DECODE_SAMPLE_RATE, 48000);
    assert_eq!(DECODE_CHANNELS, 1);
    assert_eq!(LOCAL_TRACK_NAME, "mic");
    assert!(ECHO_CANCELLATION && NOISE_SUPPRESSION && AUTO_GAIN_CONTROL);
    assert_eq!(SOURCE_QUEUE_MS % 10, 0);
}

#[test]
fn upmix_duplicates_each_sample() {
    assert_eq!(upmix_to_stereo(&[1i16, -2, 3]), vec![(1, 1), (-2, -2), (3, 3)]);
    assert_eq!(upmix_to_stereo(&[i16::MIN, i16::MAX]), vec![(i16::MIN, i16::MIN), (i16::MAX, i16::MAX)]);
}

#[test]
fn upmix_of_nothing_is_nothing() {
    assert_eq!(upmix_to_stereo::<i16>(&[]), vec![]);
}

#[test]
fn upmix_carries_any_sample_type() {
    assert_eq!(upmix_to_stereo(&[0.5f32, -1.0]), vec![(0.5, 0.5), (-1.0, -1.0)]);
    assert_eq!(upmix_to_stereo(&[7u8]), vec![(7, 7)]);
}

fn average(stereo: &[(f32, f32)]) -> Vec<f32> {
    stereo.iter().map(|&(left, right)| (left + right) / 2.0).collect()
}

#[test]
fn upmix_restores_a_mixdown_of_equal_channels() {
    let stereo = vec![(0.0f32, 0.0), (0.25, 0.25), (-1.0, -1.0), (1.0, 1.0), (0.3, 0.3)];
    assert_eq!(upmix_to_stereo(&average(&stereo)), stereo);
}

#[test]
fn upmix_does_not_restore_a_mixdown_of_unequal_channels() {
    let stereo = vec![(1.0f32, 0.0), (-0.5, 0.5)];
    assert_eq!(upmix_to_stereo(&average(&stereo)), vec![(0.5, 0.5), (0.0, 0.0)]);
    assert_ne!(upmix_to_stereo(&average(&stereo)), stereo);
}
