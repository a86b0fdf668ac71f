//! The per-turn decision: compose the safety filter and the food seeker.
//!
//! The safety filter and the food seeker run independently; the decision
//! then reconciles them. The food seeker's answer is taken when it is
//! safety-approved. When it is not (or the seeker found nothing), the
//! decision falls back to a safe direction, preferring one with food on
//! its target cell, in the priority order right, left, up, down. Only
//! when no direction at all is safe is an unsafe move emitted as a last
//! resort: the seeker's answer if it gave one, else up.

use vstd::prelude::*;

use crate::board::Battlesnake;
use crate::board::Board;
use crate::board::Coord;
use crate::board::Direction;
use crate::board::food_at;
use crate::board::has_food_at;
use crate::safety::SafeMoves;
use crate::safety::compute_safe_moves;
use crate::safety::dir_safe;
use crate::seeker::get_closest_food;
use crate::seeker::seek;

verus! {

/// The flag of `s` that belongs to direction `d`.
pub open spec fn safe_in_dir(s: SafeMoves, d: Direction) -> bool {
    match d {
        Direction::Up => s.up,
        Direction::Down => s.down,
        Direction::Left => s.left,
        Direction::Right => s.right,
    }
}

/// The fallback move for head `(hx, hy)`: the first safe direction, in
/// the priority order right, left, up, down, whose target cell holds a
/// food item; failing that, the first safe direction in the same order;
/// `None` when no direction is safe.
pub open spec fn spec_fallback(s: SafeMoves, hx: int, hy: int, food: Seq<Coord>) -> Option<
    Direction,
> {
    if s.right && food_at(food, hx + 1, hy) {
        Some(Direction::Right)
    } else if s.left && food_at(food, hx - 1, hy) {
        Some(Direction::Left)
    } else if s.up && food_at(food, hx, hy + 1) {
        Some(Direction::Up)
    } else if s.down && food_at(food, hx, hy - 1) {
        Some(Direction::Down)
    } else if s.right {
        Some(Direction::Right)
    } else if s.left {
        Some(Direction::Left)
    } else if s.up {
        Some(Direction::Up)
    } else if s.down {
        Some(Direction::Down)
    } else {
        None
    }
}

/// The move `get_move` emits for the given board and snake: the food
/// seeker's answer when it is safe, else the fallback move, and an unsafe
/// last resort only when no direction is safe.
pub open spec fn spec_decide(board: Board, you: Battlesnake) -> Direction {
    let head = you.body@[0];
    let w = board.width as int;
    let h = board.height as int;
    let s = SafeMoves {
        up: dir_safe(you, board.snakes@, w, h, Direction::Up),
        down: dir_safe(you, board.snakes@, w, h, Direction::Down),
        left: dir_safe(you, board.snakes@, w, h, Direction::Left),
        right: dir_safe(you, board.snakes@, w, h, Direction::Right),
    };
    match seek(head.x as int, head.y as int, board.food@, Direction::Up, w, h) {
        Some(d) => if safe_in_dir(s, d) {
            d
        } else {
            match spec_fallback(s, head.x as int, head.y as int, board.food@) {
                Some(f) => f,
                None => d,
            }
        },
        None => match spec_fallback(s, head.x as int, head.y as int, board.food@) {
            Some(f) => f,
            None => Direction::Up,
        },
    }
}

/// The fallback move, computed flag by flag in the priority order right,
/// left, up, down.
fn fallback_move(s: SafeMoves, head: Coord, food: &Vec<Coord>) -> (r: Option<Direction>)
    requires
        head.x < u32::MAX,
        head.y < u32::MAX,
    ensures
        r == spec_fallback(s, head.x as int, head.y as int, food@),
{
    let right_food = has_food_at(food, head.x + 1, head.y);
    let left_food = if head.x > 0 {
        has_food_at(food, head.x - 1, head.y)
    } else {
        false
    };
    proof {
        if head.x == 0 {
            assert(!food_at(food@, head.x - 1, head.y as int));
        }
    }
    let up_food = has_food_at(food, head.x, head.y + 1);
    let down_food = if head.y > 0 {
        has_food_at(food, head.x, head.y - 1)
    } else {
        false
    };
    proof {
        if head.y == 0 {
            assert(!food_at(food@, head.x as int, head.y - 1));
        }
    }
    if s.right && right_food {
        Some(Direction::Right)
    } else if s.left && left_food {
        Some(Direction::Left)
    } else if s.up && up_food {
        Some(Direction::Up)
    } else if s.down && down_food {
        Some(Direction::Down)
    } else if s.right {
        Some(Direction::Right)
    } else if s.left {
        Some(Direction::Left)
    } else if s.up {
        Some(Direction::Up)
    } else if s.down {
        Some(Direction::Down)
    } else {
        None
    }
}

/// Decide the move for one turn.
///
/// The safety filter and the food seeker both run on the snapshot; the
/// seeker's answer is emitted when safe, a safe fallback otherwise, and
/// an unsafe move only when no direction is safe at all.
pub fn get_move(board: &Board, you: &Battlesnake) -> (r: Direction)
    requires
        you.body@.len() >= 1,
        you.body@[0].x < board.width,
        you.body@[0].y < board.height,
    ensures
        r == spec_decide(*board, *you),
{
    let head = you.body[0];
    let safe = compute_safe_moves(you, &board.snakes, board.width, board.height);
    let sought = get_closest_food(&head, &board.food, Direction::Up, board.width, board.height);
    match sought {
        Some(d) => {
            let d_is_safe = match d {
                Direction::Up => safe.up,
                Direction::Down => safe.down,
                Direction::Left => safe.left,
                Direction::Right => safe.right,
            };
            if d_is_safe {
                d
            } else {
                match fallback_move(safe, head, &board.food) {
                    Some(f) => f,
                    None => d,
                }
            }
        },
        None => {
            match fallback_move(safe, head, &board.food) {
                Some(f) => f,
                None => Direction::Up,
            }
        },
    }
}

/// Hook called once when a game begins. The decision core is a pure
/// function of each turn's snapshot and keeps no state between turns, so
/// there is nothing to set up; the surrounding application may log here.
pub fn start(_turn: u32, _board: &Board, _you: &Battlesnake) {
}

/// Hook called once when a game ends; the counterpart of [`start`], with
/// nothing to tear down.
pub fn end(_turn: u32, _board: &Board, _you: &Battlesnake) {
}

/// The decision respects the safety filter: whenever any direction is
/// safe the emitted move is safe, and whenever the food seeker's answer
/// is itself safe it is exactly the emitted move.
pub proof fn lemma_decide_respects_safety(board: Board, you: Battlesnake)
    requires
        you.body@.len() >= 1,
    ensures
        (exists|d: Direction|
            dir_safe(you, board.snakes@, board.width as int, board.height as int, d)) ==> dir_safe(
            you,
            board.snakes@,
            board.width as int,
            board.height as int,
            spec_decide(board, you),
        ),
        match seek(
            you.body@[0].x as int,
            you.body@[0].y as int,
            board.food@,
            Direction::Up,
            board.width as int,
            board.height as int,
        ) {
            Some(d) => dir_safe(you, board.snakes@, board.width as int, board.height as int, d)
                ==> spec_decide(board, you) == d,
            None => true,
        },
{
    let w = board.width as int;
    let h = board.height as int;
    let s = SafeMoves {
        up: dir_safe(you, board.snakes@, w, h, Direction::Up),
        down: dir_safe(you, board.snakes@, w, h, Direction::Down),
        left: dir_safe(you, board.snakes@, w, h, Direction::Left),
        right: dir_safe(you, board.snakes@, w, h, Direction::Right),
    };
    if exists|d: Direction| dir_safe(you, board.snakes@, w, h, d) {
        let d0 = choose|d: Direction| dir_safe(you, board.snakes@, w, h, d);
        match d0 {
            Direction::Up => assert(s.up),
            Direction::Down => assert(s.down),
            Direction::Left => assert(s.left),
            Direction::Right => assert(s.right),
        }
        assert(s.up || s.down || s.left || s.right);
    }
    match seek(you.body@[0].x as int, you.body@[0].y as int, board.food@, Direction::Up, w, h) {
        Some(d) => {
            assert(safe_in_dir(s, d) == dir_safe(you, board.snakes@, w, h, d)) by {
                match d {
                    Direction::Up => {},
                    Direction::Down => {},
                    Direction::Left => {},
                    Direction::Right => {},
                }
            }
        },
        None => {},
    }
}

} // verus!
