//! Moving the main window by a step along one axis: parsing the direction
//! literal and computing the new absolute position.

use vstd::prelude::*;
use crate::errors::WindowError;
use crate::geometry::Position;

verus! {

/// One of the four recognized movement directions.
#[derive(Clone, Copy, PartialEq, Eq, Structural, Debug)]
pub enum Direction {
    Up,
    Down,
    Left,
    Right,
}

/// Which direction, if any, a request literal names.
pub open spec fn direction_of_label(s: Seq<char>) -> Option<Direction> {
    if s == "up"@ {
        Some(Direction::Up)
    } else if s == "down"@ {
        Some(Direction::Down)
    } else if s == "left"@ {
        Some(Direction::Left)
    } else if s == "right"@ {
        Some(Direction::Right)
    } else {
        None
    }
}

/// Parses a direction request: exactly the four literals "up", "down",
/// "left" and "right" are recognized; anything else is rejected.
pub fn parse_direction(direction: &str) -> (r: Option<Direction>)
    ensures
        r == direction_of_label(direction@),
{
    let d = direction.to_owned();
    if d == "up".to_owned() {
        Some(Direction::Up)
    } else if d == "down".to_owned() {
        Some(Direction::Down)
    } else if d == "left".to_owned() {
        Some(Direction::Left)
    } else if d == "right".to_owned() {
        Some(Direction::Right)
    } else {
        None
    }
}

/// The position `step` pixels away from `pos` along `dir`: up and down move
/// along the y axis, left and right along the x axis.
pub open spec fn moved_position(pos: Position, dir: Direction, step: int) -> Position {
    match dir {
        Direction::Up => Position { x: pos.x, y: (pos.y - step) as i32 },
        Direction::Down => Position { x: pos.x, y: (pos.y + step) as i32 },
        Direction::Left => Position { x: (pos.x - step) as i32, y: pos.y },
        Direction::Right => Position { x: (pos.x + step) as i32, y: pos.y },
    }
}

/// Whether a step is admissible for `pos`: steps are non-negative pixel
/// counts, and every position one step away from `pos` must still fit in the
/// machine's coordinate range.
pub open spec fn step_fits(pos: Position, step: int) -> bool {
    &&& 0 <= step
    &&& i32::MIN <= pos.x - step
    &&& pos.x + step <= i32::MAX
    &&& i32::MIN <= pos.y - step
    &&& pos.y + step <= i32::MAX
}

/// Moves a position one step along a direction.
pub fn apply_move(pos: Position, dir: Direction, step: i32) -> (r: Position)
    requires
        step_fits(pos, step as int),
    ensures
        r == moved_position(pos, dir, step as int),
{
    match dir {
        Direction::Up => Position { x: pos.x, y: pos.y - step },
        Direction::Down => Position { x: pos.x, y: pos.y + step },
        Direction::Left => Position { x: pos.x - step, y: pos.y },
        Direction::Right => Position { x: pos.x + step, y: pos.y },
    }
}

/// Decides a move request against the main window's current position: an
/// unrecognized direction is an error and the position is left alone; a
/// recognized one yields the new absolute position.
pub fn plan_move(pos: Position, direction: &str, step: i32) -> (r: Result<Position, WindowError>)
    requires
        step_fits(pos, step as int),
    ensures
        direction_of_label(direction@) is None <==> r == Err::<Position, WindowError>(
            WindowError::InvalidDirection,
        ),
        direction_of_label(direction@) matches Some(d) ==> r == Ok::<Position, WindowError>(
            moved_position(pos, d, step as int),
        ),
{
    match parse_direction(direction) {
        Some(dir) => Ok(apply_move(pos, dir, step)),
        None => Err(WindowError::InvalidDirection),
    }
}

} // verus!
