use snake::dimensions::{wrap, Pos, Size};
use snake::error::SnakeError;
use snake::layout::{field_size_for, MINIMUM_HEIGHT, MINIMUM_WIDTH};

#[test]
fn test_pos_add() {
    let pos = Pos::from((0, 0));
    assert_eq!(pos.add_x(10).x, 10);
    assert_eq!(pos.add_y(10).y, 10);
}

#[test]
fn test_pos_overlap() {
    let origin = Pos::from((5, 5));
    assert_eq!(origin.is_overlaps(&Pos::from((5, 5))), true);
    assert_eq!(origin.is_overlaps(&Pos::from((5, 6))), true);
    assert_eq!(origin.is_overlaps(&Pos::from((5, 4))), true);
    assert_eq!(origin.is_overlaps(&Pos::from((6, 5))), true);
    assert_eq!(origin.is_overlaps(&Pos::from((4, 5))), true);
    assert_eq!(origin.is_overlaps(&Pos::from((6, 54))), false);
}

#[test]
fn test_size_add() {
    let size = Size::from((0, 0));
    assert_eq!(size.add_width(10).width, 10);
    assert_eq!(size.add_height(10).height, 10);
}

#[test]
fn wrap_teleports_each_border_to_the_opposite_edge() {
    let size = Size::from((10, 8));
    assert_eq!(wrap(Pos::from((1, 4)), size), Pos::from((11, 4)));
    assert_eq!(wrap(Pos::from((12, 4)), size), Pos::from((2, 4)));
    assert_eq!(wrap(Pos::from((5, 0)), size), Pos::from((5, 8)));
    assert_eq!(wrap(Pos::from((5, 9)), size), Pos::from((5, 1)));
    assert_eq!(wrap(Pos::from((1, 0)), size), Pos::from((11, 8)));
}

#[test]
fn wrap_keeps_interior_positions() {
    let size = Size::from((10, 8));
    assert_eq!(wrap(Pos::from((2, 1)), size), Pos::from((2, 1)));
    assert_eq!(wrap(Pos::from((11, 8)), size), Pos::from((11, 8)));
    assert_eq!(wrap(Pos::from((6, 4)), size), Pos::from((6, 4)));
}

#[test]
fn field_size_at_the_minimum_terminal() {
    let r = field_size_for(Size::from((MINIMUM_WIDTH, MINIMUM_HEIGHT)));
    assert!(matches!(r, Ok(s) if s == Size::from((27, 12))));
}

#[test]
fn field_size_grows_with_the_terminal() {
    let r = field_size_for(Size::from((100, 30)));
    assert!(matches!(r, Ok(s) if s == Size::from((47, 28))));
}

#[test]
fn field_size_rejects_a_narrow_terminal() {
    let r = field_size_for(Size::from((79, 30)));
    assert!(matches!(r, Err(SnakeError::Dimension(80, 14))));
}

#[test]
fn field_size_rejects_a_low_terminal() {
    let r = field_size_for(Size::from((120, 13)));
    assert!(matches!(r, Err(SnakeError::Dimension(80, 14))));
}

#[test]
fn io_error_converts_to_parse() {
    let e = std::io::Error::new(std::io::ErrorKind::Other, "closed");
    assert!(matches!(SnakeError::from(e), SnakeError::Parse(_)));
}
