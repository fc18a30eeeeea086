use pluely_window::errors::WindowError;
use pluely_window::geometry::Position;
use pluely_window::movement::{apply_move, parse_direction, plan_move, Direction};

fn pos(x: i32, y: i32) -> Position {
    Position { x, y }
}

#[test]
fn parse_recognizes_the_four_literals() {
    assert_eq!(parse_direction("up"), Some(Direction::Up));
    assert_eq!(parse_direction("down"), Some(Direction::Down));
    assert_eq!(parse_direction("left"), Some(Direction::Left));
    assert_eq!(parse_direction("right"), Some(Direction::Right));
}

#[test]
fn parse_rejects_anything_else() {
    assert_eq!(parse_direction("sideways"), None);
    assert_eq!(parse_direction(""), None);
    assert_eq!(parse_direction("Up"), None);
    assert_eq!(parse_direction("up "), None);
}

#[test]
fn moving_up_decreases_y() {
    assert_eq!(apply_move(pos(100, 100), Direction::Up, 10), pos(100, 90));
}

#[test]
fn moving_down_increases_y() {
    assert_eq!(apply_move(pos(100, 100), Direction::Down, 10), pos(100, 110));
}

#[test]
fn moving_left_decreases_x() {
    assert_eq!(apply_move(pos(100, 100), Direction::Left, 7), pos(93, 100));
}

#[test]
fn moving_right_increases_x() {
    assert_eq!(apply_move(pos(100, 100), Direction::Right, 5), pos(105, 100));
}

#[test]
fn plan_move_up_ten_from_a_hundred() {
    assert_eq!(plan_move(pos(100, 100), "up", 10), Ok(pos(100, 90)));
}

#[test]
fn plan_move_right_five_from_a_hundred() {
    assert_eq!(plan_move(pos(100, 100), "right", 5), Ok(pos(105, 100)));
}

#[test]
fn plan_move_rejects_an_unknown_direction() {
    assert_eq!(plan_move(pos(100, 100), "sideways", 10), Err(WindowError::InvalidDirection));
}

#[test]
fn plan_move_with_a_zero_step_stays_put() {
    assert_eq!(plan_move(pos(3, -4), "down", 0), Ok(pos(3, -4)));
}

#[test]
fn invalid_direction_has_a_message() {
    assert_eq!(WindowError::InvalidDirection.message(), "Invalid direction");
}
