use vis_core::buffer::SampleBuffer;
use vis_core::{Error, StereoSample};

fn frame(v: f32) -> StereoSample {
    StereoSample { left: v.to_bits(), right: v.to_bits() }
}

fn silence() -> StereoSample {
    StereoSample { left: 0, right: 0 }
}

#[test]
fn test_capacity_zero_is_configuration_error() {
    assert_eq!(SampleBuffer::new(0, 8000).err(), Some(Error::ConfigurationError));
}

#[test]
fn test_construction_reports_capacity_and_rate() {
    let buf = SampleBuffer::new(16000, 8000).unwrap();
    assert_eq!(buf.capacity(), 16000);
    assert_eq!(buf.sample_rate(), 8000);
}

#[test]
fn test_cold_buffer_reads_as_silence() {
    let buf = SampleBuffer::new(5, 8000).unwrap();
    let window = buf.iter(3, 2);
    assert_eq!(window, vec![silence(); 3]);
    let window = buf.iter(7, 1);
    assert_eq!(window, vec![silence(); 7]);
}

#[test]
fn test_wraparound_keeps_most_recent_frames() {
    let mut buf = SampleBuffer::new(4, 8000).unwrap();
    let frames: Vec<StereoSample> = (1..=7).map(|i| frame(i as f32)).collect();
    buf.push(&frames);
    let window = buf.iter(4, 1);
    let expected: Vec<StereoSample> = (4..=7).map(|i| frame(i as f32)).collect();
    assert_eq!(window, expected);
}

#[test]
fn test_partial_fill_pads_with_silence() {
    let mut buf = SampleBuffer::new(8, 8000).unwrap();
    let frames: Vec<StereoSample> = (1..=3).map(|i| frame(i as f32)).collect();
    buf.push(&frames);
    let window = buf.iter(5, 1);
    assert_eq!(
        window,
        vec![silence(), silence(), frame(1.0), frame(2.0), frame(3.0)]
    );
}

#[test]
fn test_decimation_selects_every_dth_frame_backward() {
    let mut buf = SampleBuffer::new(16, 8000).unwrap();
    let frames: Vec<StereoSample> = (1..=10).map(|i| frame(i as f32)).collect();
    buf.push(&frames);
    // every 2nd frame walking back from the newest: 10, 8, 6; oldest first
    let window = buf.iter(3, 2);
    assert_eq!(window, vec![frame(6.0), frame(8.0), frame(10.0)]);
}

#[test]
fn test_torn_free_frames_carry_both_channels_together() {
    let mut buf = SampleBuffer::new(4, 8000).unwrap();
    let frames = vec![
        StereoSample { left: 1.0f32.to_bits(), right: 2.0f32.to_bits() },
        StereoSample { left: 3.0f32.to_bits(), right: 4.0f32.to_bits() },
    ];
    buf.push(&frames);
    let window = buf.iter(2, 1);
    assert_eq!(window[0].left, 1.0f32.to_bits());
    assert_eq!(window[0].right, 2.0f32.to_bits());
    assert_eq!(window[1].left, 3.0f32.to_bits());
    assert_eq!(window[1].right, 4.0f32.to_bits());
}
