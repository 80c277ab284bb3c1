use portal_screencast::{CursorMode, SourceType};

#[test]
pub fn check_source_types() {
    assert_eq!(1, SourceType::MONITOR().bits());
    assert_eq!(2, SourceType::WINDOW().bits());
    assert_eq!(3, (SourceType::WINDOW().union(SourceType::MONITOR())).bits());
}

#[test]
fn source_type_round_trip() {
    let combined = SourceType::MONITOR().union(SourceType::WINDOW());
    assert_eq!(0b011, combined.bits());
    assert_eq!(combined, SourceType::from_bits_truncate(combined.bits()));
}

#[test]
fn cursor_mode_bits() {
    assert_eq!(0b001, CursorMode::HIDDEN().bits());
    assert_eq!(0b010, CursorMode::EMBEDDED().bits());
    assert_eq!(0b100, CursorMode::METADATA().bits());
    let all = CursorMode::HIDDEN().union(CursorMode::EMBEDDED()).union(CursorMode::METADATA());
    assert_eq!(all, CursorMode::from_bits_truncate(all.bits()));
}

#[test]
fn from_bits_truncate_drops_unknown_bits() {
    assert_eq!(0b011, SourceType::from_bits_truncate(0xFF).bits());
    assert_eq!(0b111, CursorMode::from_bits_truncate(0xFF).bits());
    assert_eq!(SourceType::all().bits(), SourceType::from_bits_truncate(u32::MAX).bits());
}
