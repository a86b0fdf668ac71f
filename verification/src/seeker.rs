//! The food seeker: a direction-biased probe walk with revisit avoidance.
//!
//! Starting at the agent's head, the walk examines probe positions one at
//! a time. At each probe it checks, in the fixed priority order right,
//! left, up, down, whether a food item sits one step away in that
//! direction with the stepped-to cell strictly inside the board; the first
//! match is the direction returned for this turn. Otherwise the probe
//! position is recorded as visited and the walk steps to a new probe
//! position, rotating the step direction a quarter turn each time
//! (up -> right -> down -> left -> up). Revisiting a recorded position
//! ends the walk with no answer.
//!
//! Because the step direction rotates a quarter turn every move, four
//! moves have zero net displacement: the walk traces the four corners of a
//! unit square and returns to its start, where the revisit check fires.
//! The walk therefore examines at most four probe positions.

use vstd::prelude::*;

use crate::board::Coord;
use crate::board::Direction;
use crate::board::food_at;
use crate::board::step_x;
use crate::board::step_y;

verus! {

/// A probe position of the walk. Probes may step one cell off the board
/// (at the board's bottom or left edge, to coordinate -1), so they carry
/// signed coordinates.
#[derive(Clone, Copy, Debug, PartialEq, Eq, Structural)]
struct Probe {
    pub x: i64,
    pub y: i64,
}

/// The quarter-turn rotation that picks each probe step from the one
/// before it.
pub open spec fn rotate(d: Direction) -> Direction {
    match d {
        Direction::Up => Direction::Right,
        Direction::Right => Direction::Down,
        Direction::Down => Direction::Left,
        Direction::Left => Direction::Up,
    }
}

/// `rotate` applied `k` times to `d`.
pub open spec fn rotate_n(d: Direction, k: nat) -> Direction
    decreases k,
{
    if k == 0 {
        d
    } else {
        rotate(rotate_n(d, (k - 1) as nat))
    }
}

/// The x coordinate of the `k`-th probe position of a walk that starts at
/// `(hx, hy)` with incoming direction `last`.
pub open spec fn walk_x(hx: int, hy: int, last: Direction, k: nat) -> int
    decreases k,
{
    if k == 0 {
        hx
    } else {
        step_x(
            walk_x(hx, hy, last, (k - 1) as nat),
            walk_y(hx, hy, last, (k - 1) as nat),
            rotate_n(last, k),
        )
    }
}

/// The y coordinate of the `k`-th probe position of a walk that starts at
/// `(hx, hy)` with incoming direction `last`.
pub open spec fn walk_y(hx: int, hy: int, last: Direction, k: nat) -> int
    decreases k,
{
    if k == 0 {
        hy
    } else {
        step_y(
            walk_x(hx, hy, last, (k - 1) as nat),
            walk_y(hx, hy, last, (k - 1) as nat),
            rotate_n(last, k),
        )
    }
}

/// The adjacency check at one probe position `(px, py)`: the first
/// direction, in the priority order right, left, up, down, whose
/// neighbouring cell both holds a food item and lies strictly inside the
/// board on the axis moved along (`< width` to the right, `> 0` to the
/// left, `< height` upward, `> 0` downward).
pub open spec fn adjacent_food(
    px: int,
    py: int,
    food: Seq<Coord>,
    width: int,
    height: int,
) -> Option<Direction> {
    if food_at(food, px + 1, py) && px + 1 < width {
        Some(Direction::Right)
    } else if food_at(food, px - 1, py) && px - 1 > 0 {
        Some(Direction::Left)
    } else if food_at(food, px, py + 1) && py + 1 < height {
        Some(Direction::Up)
    } else if food_at(food, px, py - 1) && py - 1 > 0 {
        Some(Direction::Down)
    } else {
        None
    }
}

/// The answer of the walk's remaining steps, from the `k`-th probe
/// position on. The walk revisits its starting position on its fourth
/// move, so steps from the fifth on never run.
pub open spec fn seek_from_step(
    hx: int,
    hy: int,
    food: Seq<Coord>,
    last: Direction,
    width: int,
    height: int,
    k: nat,
) -> Option<Direction>
    decreases 4 - k,
{
    if k >= 4 {
        None
    } else {
        let a = adjacent_food(
            walk_x(hx, hy, last, k),
            walk_y(hx, hy, last, k),
            food,
            width,
            height,
        );
        if a is Some {
            a
        } else {
            seek_from_step(hx, hy, food, last, width, height, k + 1)
        }
    }
}

/// The answer of the whole walk from head `(hx, hy)` with incoming
/// direction `last`: the first probe position with adjacent food decides,
/// and a walk that finds none fails when it returns to its start.
pub open spec fn seek(
    hx: int,
    hy: int,
    food: Seq<Coord>,
    last: Direction,
    width: int,
    height: int,
) -> Option<Direction> {
    seek_from_step(hx, hy, food, last, width, height, 0)
}

/// The walk traces the corners of a unit square: its first four probe
/// positions are pairwise distinct, and its fourth move returns to the
/// start.
pub proof fn lemma_walk_square(hx: int, hy: int, last: Direction)
    ensures
        walk_x(hx, hy, last, 4) == hx,
        walk_y(hx, hy, last, 4) == hy,
        forall|i: nat, j: nat|
            #![trigger walk_x(hx, hy, last, i), walk_x(hx, hy, last, j)]
            i < j <= 3 ==> !(walk_x(hx, hy, last, i) == walk_x(hx, hy, last, j) && walk_y(
                hx,
                hy,
                last,
                i,
            ) == walk_y(hx, hy, last, j)),
{
    reveal_with_fuel(rotate_n, 5);
    reveal_with_fuel(walk_x, 5);
    reveal_with_fuel(walk_y, 5);
    assert(walk_x(hx, hy, last, 0) == hx);
    assert(walk_y(hx, hy, last, 0) == hy);
    match last {
        Direction::Up => {
            assert(walk_x(hx, hy, last, 1) == hx + 1 && walk_y(hx, hy, last, 1) == hy);
            assert(walk_x(hx, hy, last, 2) == hx + 1 && walk_y(hx, hy, last, 2) == hy - 1);
            assert(walk_x(hx, hy, last, 3) == hx && walk_y(hx, hy, last, 3) == hy - 1);
            assert(walk_x(hx, hy, last, 4) == hx && walk_y(hx, hy, last, 4) == hy);
        },
        Direction::Right => {
            assert(walk_x(hx, hy, last, 1) == hx && walk_y(hx, hy, last, 1) == hy - 1);
            assert(walk_x(hx, hy, last, 2) == hx - 1 && walk_y(hx, hy, last, 2) == hy - 1);
            assert(walk_x(hx, hy, last, 3) == hx - 1 && walk_y(hx, hy, last, 3) == hy);
            assert(walk_x(hx, hy, last, 4) == hx && walk_y(hx, hy, last, 4) == hy);
        },
        Direction::Down => {
            assert(walk_x(hx, hy, last, 1) == hx - 1 && walk_y(hx, hy, last, 1) == hy);
            assert(walk_x(hx, hy, last, 2) == hx - 1 && walk_y(hx, hy, last, 2) == hy + 1);
            assert(walk_x(hx, hy, last, 3) == hx && walk_y(hx, hy, last, 3) == hy + 1);
            assert(walk_x(hx, hy, last, 4) == hx && walk_y(hx, hy, last, 4) == hy);
        },
        Direction::Left => {
            assert(walk_x(hx, hy, last, 1) == hx && walk_y(hx, hy, last, 1) == hy + 1);
            assert(walk_x(hx, hy, last, 2) == hx + 1 && walk_y(hx, hy, last, 2) == hy + 1);
            assert(walk_x(hx, hy, last, 3) == hx + 1 && walk_y(hx, hy, last, 3) == hy);
            assert(walk_x(hx, hy, last, 4) == hx && walk_y(hx, hy, last, 4) == hy);
        },
    }
}

/// Whether some recorded probe position equals `(x, y)`.
spec fn visited_has(visited: Seq<Probe>, x: int, y: int) -> bool {
    exists|i: int| 0 <= i < visited.len() && visited[i].x == x && visited[i].y == y
}

/// Whether some recorded probe position equals `(x, y)`, checked one by
/// one.
fn visited_contains(visited: &Vec<Probe>, x: i64, y: i64) -> (r: bool)
    ensures
        r == visited_has(visited@, x as int, y as int),
{
    let mut i: usize = 0;
    while i < visited.len()
        invariant
            0 <= i <= visited@.len(),
            forall|j: int| 0 <= j < i ==> !((#[trigger] visited@[j]).x == x && visited@[j].y == y),
        decreases visited@.len() - i,
    {
        if visited[i].x == x && visited[i].y == y {
            return true;
        }
        i = i + 1;
    }
    false
}

/// Whether some food item sits exactly at the (possibly off-board) cell
/// `(x, y)`.
fn food_at_probe(food: &Vec<Coord>, x: i64, y: i64) -> (r: bool)
    ensures
        r == food_at(food@, x as int, y as int),
{
    let mut i: usize = 0;
    while i < food.len()
        invariant
            0 <= i <= food@.len(),
            forall|j: int| 0 <= j < i ==> !((#[trigger] food@[j]).x == x && food@[j].y == y),
        decreases food@.len() - i,
    {
        if food[i].x as i64 == x && food[i].y as i64 == y {
            return true;
        }
        i = i + 1;
    }
    false
}

/// The adjacency check at probe `(px, py)`, in the priority order right,
/// left, up, down.
fn check_adjacent_food(px: i64, py: i64, food: &Vec<Coord>, width: u32, height: u32) -> (r: Option<
    Direction,
>)
    requires
        -4 <= px <= u32::MAX + 4,
        -4 <= py <= u32::MAX + 4,
    ensures
        r == adjacent_food(px as int, py as int, food@, width as int, height as int),
{
    if px + 1 < width as i64 && food_at_probe(food, px + 1, py) {
        Some(Direction::Right)
    } else if px - 1 > 0 && food_at_probe(food, px - 1, py) {
        Some(Direction::Left)
    } else if py + 1 < height as i64 && food_at_probe(food, px, py + 1) {
        Some(Direction::Up)
    } else if py - 1 > 0 && food_at_probe(food, px, py - 1) {
        Some(Direction::Down)
    } else {
        None
    }
}

/// The food seeker: walk probe positions from the head, rotating the step
/// direction a quarter turn each move, until a probe has food one step
/// away (that direction is the answer) or the walk revisits a recorded
/// probe position (no answer; the walk is back at its start after four
/// moves at the latest).
pub fn get_closest_food(
    head: &Coord,
    food: &Vec<Coord>,
    last_direction: Direction,
    width: u32,
    height: u32,
) -> (r: Option<Direction>)
    ensures
        r == seek(
            head.x as int,
            head.y as int,
            food@,
            last_direction,
            width as int,
            height as int,
        ),
{
    let ghost hx: int = head.x as int;
    let ghost hy: int = head.y as int;
    let mut px: i64 = head.x as i64;
    let mut py: i64 = head.y as i64;
    let mut last: Direction = last_direction;
    let mut visited: Vec<Probe> = Vec::new();
    let ghost mut k: nat = 0;
    loop
        invariant
            0 <= hx <= u32::MAX,
            0 <= hy <= u32::MAX,
            hx == head.x as int,
            hy == head.y as int,
            k <= 4,
            px == walk_x(hx, hy, last_direction, k),
            py == walk_y(hx, hy, last_direction, k),
            hx - k <= px <= hx + k,
            hy - k <= py <= hy + k,
            last == rotate_n(last_direction, k),
            visited@.len() == k,
            forall|i: int|
                0 <= i < k ==> (#[trigger] visited@[i]).x == walk_x(
                    hx,
                    hy,
                    last_direction,
                    i as nat,
                ) && visited@[i].y == walk_y(hx, hy, last_direction, i as nat),
            seek(hx, hy, food@, last_direction, width as int, height as int) == seek_from_step(
                hx,
                hy,
                food@,
                last_direction,
                width as int,
                height as int,
                k,
            ),
        decreases 4 - k,
    {
        if visited_contains(&visited, px, py) {
            proof {
                lemma_walk_square(hx, hy, last_direction);
                if k < 4 {
                    let i = choose|i: int|
                        0 <= i < visited@.len() && visited@[i].x == px && visited@[i].y == py;
                    assert(visited@[i].x == walk_x(hx, hy, last_direction, i as nat));
                    assert(visited@[i].y == walk_y(hx, hy, last_direction, i as nat));
                    assert(!(walk_x(hx, hy, last_direction, i as nat) == walk_x(
                        hx,
                        hy,
                        last_direction,
                        k,
                    ) && walk_y(hx, hy, last_direction, i as nat) == walk_y(
                        hx,
                        hy,
                        last_direction,
                        k,
                    )));
                    assert(false);
                }
            }
            return None;
        }
        proof {
            lemma_walk_square(hx, hy, last_direction);
            if k == 4 {
                assert(visited@[0].x == walk_x(hx, hy, last_direction, 0) && visited@[0].y
                    == walk_y(hx, hy, last_direction, 0));
                assert(visited@[0].x == px && visited@[0].y == py);
                assert(visited_has(visited@, px as int, py as int));
                assert(false);
            }
        }
        let found = check_adjacent_food(px, py, food, width, height);
        if found.is_some() {
            return found;
        }
        visited.push(Probe { x: px, y: py });
        let step = match last {
            Direction::Up => Direction::Right,
            Direction::Right => Direction::Down,
            Direction::Down => Direction::Left,
            Direction::Left => Direction::Up,
        };
        match step {
            Direction::Right => {
                px = px + 1;
            },
            Direction::Down => {
                py = py - 1;
            },
            Direction::Left => {
                px = px - 1;
            },
            Direction::Up => {
                py = py + 1;
            },
        }
        proof {
            assert(rotate_n(last_direction, (k + 1) as nat) == rotate(
                rotate_n(last_direction, k),
            ));
            assert(walk_x(hx, hy, last_direction, (k + 1) as nat) == step_x(
                walk_x(hx, hy, last_direction, k),
                walk_y(hx, hy, last_direction, k),
                rotate_n(last_direction, (k + 1) as nat),
            ));
            assert(walk_y(hx, hy, last_direction, (k + 1) as nat) == step_y(
                walk_x(hx, hy, last_direction, k),
                walk_y(hx, hy, last_direction, k),
                rotate_n(last_direction, (k + 1) as nat),
            ));
            k = k + 1;
        }
        last = step;
    }
}

/// Food-adjacency priority: food one step to the right (with the stepped
/// cell inside the board) decides the probe, whatever sits in the other
/// three directions.
pub proof fn lemma_food_priority(px: int, py: int, food: Seq<Coord>, width: int, height: int)
    requires
        food_at(food, px + 1, py),
        px + 1 < width,
    ensures
        adjacent_food(px, py, food, width, height) == Some(Direction::Right),
{
}

/// Food-seeker determinism: the walk's answer is a function of the head,
/// the food set, the incoming direction, and the board dimensions alone,
/// so two results obtained for identical inputs are identical; there is
/// no hidden source of variation.
pub proof fn lemma_seek_deterministic(
    hx: int,
    hy: int,
    food: Seq<Coord>,
    last: Direction,
    width: int,
    height: int,
    r1: Option<Direction>,
    r2: Option<Direction>,
)
    requires
        r1 == seek(hx, hy, food, last, width, height),
        r2 == seek(hx, hy, food, last, width, height),
    ensures
        r1 == r2,
{
}

/// Cycle termination: when no probe position of the walk has reportable
/// food one step away (a food-free, fully enclosed probe region), the
/// walk finds nothing, returns to its start on its fourth move, and
/// fails there by the revisit check.
pub proof fn lemma_enclosed_walk_fails(
    hx: int,
    hy: int,
    food: Seq<Coord>,
    last: Direction,
    width: int,
    height: int,
)
    requires
        forall|k: nat|
            k <= 3 ==> adjacent_food(
                #[trigger] walk_x(hx, hy, last, k),
                walk_y(hx, hy, last, k),
                food,
                width,
                height,
            ) is None,
    ensures
        seek(hx, hy, food, last, width, height) is None,
{
    reveal_with_fuel(seek_from_step, 6);
}

/// Cycle termination on a board without food: no probe position can have
/// food adjacent, so the walk fails.
pub proof fn lemma_no_food_fails(
    hx: int,
    hy: int,
    food: Seq<Coord>,
    last: Direction,
    width: int,
    height: int,
)
    requires
        food.len() == 0,
    ensures
        seek(hx, hy, food, last, width, height) is None,
{
    reveal_with_fuel(seek_from_step, 6);
}

} // verus!
