use robrix_core::shared::position::{Direction, Position, Position4};
use robrix_core::shared::text::{decimal_string, join};

#[test]
fn drawer_positions() {
    assert_eq!(Position::Left.to_drawer(), Position::Left);
    assert_eq!(Position::LeftTop.to_drawer(), Position::Left);
    assert_eq!(Position::LeftBottom.to_drawer(), Position::Left);
    assert_eq!(Position::Right.to_drawer(), Position::Right);
    assert_eq!(Position::RightTop.to_drawer(), Position::Right);
    assert_eq!(Position::RightBottom.to_drawer(), Position::Right);
    assert_eq!(Position::Top.to_drawer(), Position::Top);
    assert_eq!(Position::TopLeft.to_drawer(), Position::Top);
    assert_eq!(Position::TopRight.to_drawer(), Position::Top);
    assert_eq!(Position::Bottom.to_drawer(), Position::Bottom);
    assert_eq!(Position::BottomLeft.to_drawer(), Position::Bottom);
    assert_eq!(Position::BottomRight.to_drawer(), Position::Bottom);
}

#[test]
fn drawer_position_is_idempotent() {
    for position in [Position::LeftTop, Position::TopRight, Position::Bottom] {
        assert_eq!(position.to_drawer().to_drawer(), position.to_drawer());
    }
    assert_ne!(Direction::Horizontal, Direction::Vertical);
    assert_ne!(Position4::Left, Position4::Right);
}

#[test]
fn decimal_strings() {
    assert_eq!(decimal_string(0), "0");
    assert_eq!(decimal_string(7), "7");
    assert_eq!(decimal_string(10), "10");
    assert_eq!(decimal_string(1234567890), "1234567890");
    assert_eq!(decimal_string(usize::MAX), usize::MAX.to_string());
}

#[test]
fn joined_texts() {
    assert_eq!(join(&vec![], ", "), "");
    assert_eq!(join(&vec!["a".to_string()], ", "), "a");
    assert_eq!(join(&vec!["a".to_string(), "".to_string(), "c".to_string()], ", "), "a, , c");
}
