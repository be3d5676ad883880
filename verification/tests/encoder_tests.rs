use capture_core::encoder::{StreamEncoder, CHANNEL_COUNT, SAMPLE_RATE};

#[test]
fn a_fresh_encoder_has_written_nothing() {
    let e = StreamEncoder::new();
    assert_eq!(e.samples_written(), 0);
    assert!(!e.is_finalized());
}

#[test]
fn written_blocks_are_counted_sample_by_sample() {
    let mut e = StreamEncoder::new();
    e.write_block(&vec![1, 2, 3]);
    e.write_block(&vec![]);
    e.write_block(&vec![4]);
    assert_eq!(e.samples_written(), 4);
    assert!(!e.is_finalized());
}

#[test]
fn finalize_closes_the_stream_and_keeps_the_count() {
    let mut e = StreamEncoder::new();
    e.write_block(&vec![5, 6]);
    e.finalize();
    assert!(e.is_finalized());
    assert_eq!(e.samples_written(), 2);
}

#[test]
fn the_output_format_is_fixed() {
    assert_eq!(SAMPLE_RATE, 48_000);
    assert_eq!(CHANNEL_COUNT, 2);
}
