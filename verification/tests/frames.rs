use astrora_core::frames::FrameType;

#[test]
fn test_frame_type_display() {
    assert_eq!(FrameType::ICRS.name(), "ICRS");
    assert_eq!(FrameType::GCRS.name(), "GCRS");
    assert_eq!(FrameType::J2000.name(), "J2000");
    assert_eq!(FrameType::ITRS.name(), "ITRS");
    assert_eq!(FrameType::TEME.name(), "TEME");
}

#[test]
fn frame_tags_compare_by_variant() {
    assert_eq!(FrameType::ICRS, FrameType::ICRS);
    assert_ne!(FrameType::ICRS, FrameType::TEME);
}
