use atomic_spinners::{SpinnerBuilder, SpinnerVariant, Stream};

#[test]
fn builder_defaults() {
    let b = SpinnerBuilder::new();
    assert_eq!(b.message, "");
    assert!(!b.timed);
    assert!(b.stream.is_none());
    assert_eq!(b.variant.frame_count(), 4);
    assert_eq!(b.variant.frame_at(0), "|");
    assert_eq!(b.variant.frame_at(1), "/");
    assert_eq!(b.variant.frame_at(2), "-");
    assert_eq!(b.variant.frame_at(3), "\\");
    assert_eq!(b.variant.interval_ms(), 80);
}

#[test]
fn builder_setters_compose() {
    let dots = SpinnerVariant::new(vec![".".to_string(), "o".to_string()], 50).unwrap();
    let b = SpinnerBuilder::new()
        .variant(dots)
        .message("Loading things into memory...".to_string())
        .stream(Stream::Stderr)
        .timer();
    assert_eq!(b.message, "Loading things into memory...");
    assert!(b.timed);
    assert_eq!(b.stream, Some(Stream::Stderr));
    assert_eq!(b.variant.frame_count(), 2);
    assert_eq!(b.variant.frame_at(1), "o");
    assert_eq!(b.variant.interval_ms(), 50);
}

#[test]
fn default_stream_is_the_primary_one() {
    assert_eq!(Stream::default(), Stream::Stdout);
}
