//! The safety filter: which of the four directions are immediately safe to
//! occupy next turn.
//!
//! Starting from all four directions, each rule narrows the set: the move
//! back onto the neck, moves off the board, and moves onto any cell
//! occupied by the agent's own body or by any snake on the board are
//! removed. The surviving set may be empty (no safe move exists).

use vstd::prelude::*;

use crate::board::Battlesnake;
use crate::board::Coord;
use crate::board::Direction;
use crate::board::body_occupies;
use crate::board::snakes_occupy;
use crate::board::step_x;
use crate::board::step_y;

verus! {

/// The result of the safety filter: one flag per direction, `true` when
/// the direction survived every exclusion rule.
#[derive(Clone, Copy, Debug, PartialEq, Eq, Structural)]
pub struct SafeMoves {
    pub up: bool,
    pub down: bool,
    pub left: bool,
    pub right: bool,
}

/// Backward-move rule: `d` points from the head back toward the neck.
///
/// Exactly one comparison fires for a valid neck (one unit from the head
/// along one axis); a neck coincident with the head excludes nothing.
pub open spec fn neck_excludes(head: Coord, neck: Coord, d: Direction) -> bool {
    match d {
        Direction::Left => neck.x < head.x,
        Direction::Right => neck.x > head.x,
        Direction::Down => neck.x == head.x && neck.y < head.y,
        Direction::Up => neck.x == head.x && neck.y > head.y,
    }
}

/// Boundary rule: the cell one step in direction `d` leaves the
/// `width x height` board. The four checks are independent of each other.
pub open spec fn boundary_excludes(head: Coord, width: int, height: int, d: Direction) -> bool {
    match d {
        Direction::Right => head.x == width - 1,
        Direction::Left => head.x == 0,
        Direction::Up => head.y == height - 1,
        Direction::Down => head.y == 0,
    }
}

/// Direction `d` survives every exclusion rule: it does not reverse onto
/// the neck (skipped for a body shorter than two cells), it stays on the
/// board, and its target cell is occupied neither by the agent's own body
/// nor by any snake in `snakes`.
pub open spec fn dir_safe(
    you: Battlesnake,
    snakes: Seq<Battlesnake>,
    width: int,
    height: int,
    d: Direction,
) -> bool {
    let head = you.body@[0];
    let tx = step_x(head.x as int, head.y as int, d);
    let ty = step_y(head.x as int, head.y as int, d);
    &&& !(you.body@.len() >= 2 && neck_excludes(head, you.body@[1], d))
    &&& !boundary_excludes(head, width, height, d)
    &&& !body_occupies(you.body@, tx, ty)
    &&& !snakes_occupy(snakes, tx, ty)
}

/// Whether some segment of `body` occupies cell `(x, y)`, checked segment
/// by segment.
pub fn body_hits(body: &Vec<Coord>, x: u32, y: u32) -> (r: bool)
    ensures
        r == body_occupies(body@, x as int, y as int),
{
    let mut i: usize = 0;
    while i < body.len()
        invariant
            0 <= i <= body@.len(),
            forall|j: int| 0 <= j < i ==> !((#[trigger] body@[j]).x == x && body@[j].y == y),
        decreases body@.len() - i,
    {
        if body[i].x == x && body[i].y == y {
            return true;
        }
        i = i + 1;
    }
    false
}

/// Whether some segment of some snake in `snakes` occupies cell `(x, y)`.
pub fn any_snake_hits(snakes: &Vec<Battlesnake>, x: u32, y: u32) -> (r: bool)
    ensures
        r == snakes_occupy(snakes@, x as int, y as int),
{
    let mut i: usize = 0;
    while i < snakes.len()
        invariant
            0 <= i <= snakes@.len(),
            forall|j: int|
                0 <= j < i ==> !body_occupies((#[trigger] snakes@[j]).body@, x as int, y as int),
        decreases snakes@.len() - i,
    {
        if body_hits(&snakes[i].body, x, y) {
            return true;
        }
        i = i + 1;
    }
    false
}

/// Whether moving one step in direction `d` is safe for `you`, applying
/// the backward-move, boundary, and collision rules in turn.
pub fn dir_is_safe(
    you: &Battlesnake,
    snakes: &Vec<Battlesnake>,
    width: u32,
    height: u32,
    d: Direction,
) -> (r: bool)
    requires
        you.body@.len() >= 1,
        you.body@[0].x < width,
        you.body@[0].y < height,
    ensures
        r == dir_safe(*you, snakes@, width as int, height as int, d),
{
    let head = you.body[0];
    if you.body.len() >= 2 {
        let neck = you.body[1];
        let backward = match d {
            Direction::Left => neck.x < head.x,
            Direction::Right => neck.x > head.x,
            Direction::Down => neck.x == head.x && neck.y < head.y,
            Direction::Up => neck.x == head.x && neck.y > head.y,
        };
        if backward {
            return false;
        }
    }
    let off_board = match d {
        Direction::Right => head.x == width - 1,
        Direction::Left => head.x == 0,
        Direction::Up => head.y == height - 1,
        Direction::Down => head.y == 0,
    };
    if off_board {
        return false;
    }
    let tx = match d {
        Direction::Left => head.x - 1,
        Direction::Right => head.x + 1,
        _ => head.x,
    };
    let ty = match d {
        Direction::Down => head.y - 1,
        Direction::Up => head.y + 1,
        _ => head.y,
    };
    if body_hits(&you.body, tx, ty) {
        return false;
    }
    if any_snake_hits(snakes, tx, ty) {
        return false;
    }
    true
}

/// The safety filter: the subset of the four directions that survives
/// every exclusion rule for `you` on a `width x height` board populated by
/// `snakes`.
pub fn compute_safe_moves(
    you: &Battlesnake,
    snakes: &Vec<Battlesnake>,
    width: u32,
    height: u32,
) -> (r: SafeMoves)
    requires
        you.body@.len() >= 1,
        you.body@[0].x < width,
        you.body@[0].y < height,
    ensures
        r.up == dir_safe(*you, snakes@, width as int, height as int, Direction::Up),
        r.down == dir_safe(*you, snakes@, width as int, height as int, Direction::Down),
        r.left == dir_safe(*you, snakes@, width as int, height as int, Direction::Left),
        r.right == dir_safe(*you, snakes@, width as int, height as int, Direction::Right),
{
    SafeMoves {
        up: dir_is_safe(you, snakes, width, height, Direction::Up),
        down: dir_is_safe(you, snakes, width, height, Direction::Down),
        left: dir_is_safe(you, snakes, width, height, Direction::Left),
        right: dir_is_safe(you, snakes, width, height, Direction::Right),
    }
}

/// Backward-move exclusion is exact: for a neck one unit from the head
/// along one axis, the rule excludes precisely the direction whose step
/// from the head lands on the neck, and no other.
pub proof fn lemma_backward_exclusion_exact(head: Coord, neck: Coord, d: Direction)
    requires
        (neck.x + 1 == head.x && neck.y == head.y) || (head.x + 1 == neck.x && neck.y == head.y)
            || (neck.x == head.x && neck.y + 1 == head.y) || (neck.x == head.x && head.y + 1
            == neck.y),
    ensures
        neck_excludes(head, neck, d) <==> (step_x(head.x as int, head.y as int, d) == neck.x
            && step_y(head.x as int, head.y as int, d) == neck.y),
{
}

/// Boundary exclusion is exact: left is excluded precisely at `x == 0`,
/// right precisely at `x == width - 1`, down precisely at `y == 0`, up
/// precisely at `y == height - 1`. At a corner exactly the two touching
/// walls exclude their directions.
pub proof fn lemma_boundary_exclusion_exact(head: Coord, width: int, height: int)
    ensures
        boundary_excludes(head, width, height, Direction::Left) <==> head.x == 0,
        boundary_excludes(head, width, height, Direction::Right) <==> head.x == width - 1,
        boundary_excludes(head, width, height, Direction::Down) <==> head.y == 0,
        boundary_excludes(head, width, height, Direction::Up) <==> head.y == height - 1,
{
}

/// Collision exclusion ignores ownership: a body segment on the cell right
/// of the head removes `Right`, whether the segment belongs to the agent's
/// own body or to any snake on the board.
pub proof fn lemma_collision_exclusion(
    you: Battlesnake,
    snakes: Seq<Battlesnake>,
    width: int,
    height: int,
)
    requires
        you.body@.len() >= 1,
    ensures
        body_occupies(you.body@, you.body@[0].x + 1, you.body@[0].y as int) ==> !dir_safe(
            you,
            snakes,
            width,
            height,
            Direction::Right,
        ),
        forall|i: int|
            0 <= i < snakes.len() && body_occupies(
                (#[trigger] snakes[i]).body@,
                you.body@[0].x + 1,
                you.body@[0].y as int,
            ) ==> !dir_safe(you, snakes, width, height, Direction::Right),
{
    let head = you.body@[0];
    assert forall|i: int|
        0 <= i < snakes.len() && body_occupies(
            (#[trigger] snakes[i]).body@,
            head.x + 1,
            head.y as int,
        ) implies !dir_safe(you, snakes, width, height, Direction::Right) by {
        assert(snakes_occupy(snakes, head.x + 1, head.y as int));
    }
}

} // verus!
