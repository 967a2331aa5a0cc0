use vis_core::fourier::FourierBuilder;
use vis_core::handle::BufferHandle;
use vis_core::windows::WindowKind;
use vis_core::{Error, StereoSample};

fn frame(v: f32) -> StereoSample {
    StereoSample { left: v.to_bits(), right: v.to_bits() }
}

#[test]
fn test_handle_capacity_zero_is_configuration_error() {
    assert_eq!(BufferHandle::new(0, 8000).err(), Some(Error::ConfigurationError));
}

#[test]
fn test_clone_handle_shares_the_storage() {
    let reader = BufferHandle::new(8, 8000).unwrap();
    let writer = reader.clone_handle();
    assert_eq!(reader.capacity(), 8);
    assert_eq!(reader.sample_rate(), 8000);

    let frames: Vec<StereoSample> = (1..=3).map(|i| frame(i as f32)).collect();
    writer.push(&frames);

    // a push through one handle is visible through the other
    let window = reader.window(3, 1);
    assert_eq!(window, frames);
}

#[test]
fn test_cold_handle_reads_as_silence() {
    let handle = BufferHandle::new(16, 8000).unwrap();
    let window = handle.window(5, 2);
    assert!(window.iter().all(|f| f.left == 0 && f.right == 0));
}

#[test]
fn test_analyze_through_a_shared_handle() {
    let handle = BufferHandle::new(1024, 8000).unwrap();
    handle.clone_handle().push(&vec![frame(0.5); 600]);

    let analyzer = FourierBuilder::new()
        .length(256)
        .window(WindowKind::Hanning)
        .downsample(2)
        .plan()
        .unwrap();
    let out = analyzer.analyze_shared(&handle);
    assert_eq!(out.len(), 256);
    assert_eq!(out[255].left, 0.5f32.to_bits());
}
