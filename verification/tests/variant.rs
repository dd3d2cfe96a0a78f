use atomic_spinners::{SpinnerVariant, VariantError};

#[test]
fn variant_rejects_empty_frames() {
    let r = SpinnerVariant::new(Vec::new(), 100);
    assert!(matches!(r, Err(VariantError::EmptyFrames)));
}

#[test]
fn variant_rejects_zero_interval() {
    let r = SpinnerVariant::new(vec!["a".to_string()], 0);
    assert!(matches!(r, Err(VariantError::NonPositiveInterval)));
}

#[test]
fn variant_rejects_negative_interval() {
    let r = SpinnerVariant::new(vec!["a".to_string()], -5);
    assert!(matches!(r, Err(VariantError::NonPositiveInterval)));
}

#[test]
fn variant_empty_frames_reported_before_interval() {
    let r = SpinnerVariant::new(Vec::new(), -1);
    assert!(matches!(r, Err(VariantError::EmptyFrames)));
}

#[test]
fn variant_keeps_frames_and_interval() {
    let v = SpinnerVariant::new(vec!["a".to_string(), "b".to_string()], 120).unwrap();
    assert_eq!(v.frame_count(), 2);
    assert_eq!(v.frame_at(0), "a");
    assert_eq!(v.frame_at(1), "b");
    assert_eq!(v.interval_ms(), 120);
}
