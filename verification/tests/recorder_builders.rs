use vis_core::recorder::{CPalBuilder, PulseBuilder, Recorder};
use vis_core::Error;

#[test]
fn test_cpal_builder_defaults() {
    let rec = CPalBuilder::new().create().unwrap();
    assert_eq!(rec.buffer().capacity(), 16000);
    assert_eq!(rec.buffer().sample_rate(), 8000);
    assert_eq!(CPalBuilder::new().resolved_read_size(), 256);
}

#[test]
fn test_cpal_builder_explicit_values() {
    let builder = CPalBuilder::new().rate(44100).buffer_size(8192).read_size(128);
    let rec = builder.create().unwrap();
    assert_eq!(rec.buffer().capacity(), 8192);
    assert_eq!(rec.buffer().sample_rate(), 44100);
    // the read batch falls back to the configured buffer size
    assert_eq!(builder.resolved_read_size(), 8192);
}

#[test]
fn test_cpal_zero_capacity_fails() {
    assert_eq!(
        CPalBuilder::new().buffer_size(0).create().err(),
        Some(Error::ConfigurationError)
    );
}

#[test]
fn test_pulse_builder_defaults() {
    let rec = PulseBuilder::new().create().unwrap();
    assert_eq!(rec.buffer().capacity(), 16000);
    assert_eq!(rec.buffer().sample_rate(), 8000);
    assert_eq!(PulseBuilder::new().resolved_read_size(), 32);
}

#[test]
fn test_pulse_builder_explicit_values() {
    let builder = PulseBuilder::new().rate(48000).buffer_size(512);
    let rec = builder.create().unwrap();
    assert_eq!(rec.buffer().capacity(), 512);
    assert_eq!(rec.buffer().sample_rate(), 48000);
    assert_eq!(builder.resolved_read_size(), 512);
}

#[test]
fn test_pulse_zero_capacity_fails() {
    assert_eq!(
        PulseBuilder::new().buffer_size(0).build().err(),
        Some(Error::ConfigurationError)
    );
}

#[test]
fn test_recorders_expose_their_buffer_through_the_trait() {
    let rec = PulseBuilder::new().buffer_size(64).build().unwrap();
    assert_eq!(rec.sample_buffer().capacity(), 64);
    let rec = CPalBuilder::new().buffer_size(64).build().unwrap();
    assert_eq!(rec.sample_buffer().capacity(), 64);
    // a cold recorder buffer reads as silence
    let window = rec.sample_buffer().iter(4, 1);
    assert!(window.iter().all(|f| f.left == 0 && f.right == 0));
}
