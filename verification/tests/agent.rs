use snake_logic::agent::get_move;
use snake_logic::agent::start;
use snake_logic::agent::end;
use snake_logic::board::Battlesnake;
use snake_logic::board::Board;
use snake_logic::board::Coord;
use snake_logic::board::Direction;
use snake_logic::safety::compute_safe_moves;

fn snake(cells: &[(u32, u32)]) -> Battlesnake {
    let mut body = Vec::new();
    for &(x, y) in cells {
        body.push(Coord { x, y });
    }
    Battlesnake { body }
}

fn board(width: u32, height: u32, food: &[(u32, u32)], snakes: Vec<Battlesnake>) -> Board {
    let mut f = Vec::new();
    for &(x, y) in food {
        f.push(Coord { x, y });
    }
    Board { width, height, food: f, snakes }
}

#[test]
fn facing_up_with_food_on_the_right_moves_right() {
    // 11x11 board, head (5,5), neck (5,4), food at (6,5): the first
    // adjacency check of the seeker already answers "right", and right is
    // safe.
    let you = snake(&[(5, 5), (5, 4)]);
    let b = board(11, 11, &[(6, 5)], vec![snake(&[(5, 5), (5, 4)])]);
    assert_eq!(get_move(&b, &you), Direction::Right);
}

#[test]
fn right_wall_keeps_right_out_of_the_safe_set() {
    // Head at x == width - 1: whatever the seeker answers, right is not
    // among the safe moves.
    let you = snake(&[(10, 5), (10, 4)]);
    let b = board(11, 11, &[], vec![snake(&[(10, 5), (10, 4)])]);
    let safe = compute_safe_moves(&you, &b.snakes, b.width, b.height);
    assert!(!safe.right);
    assert_ne!(get_move(&b, &you), Direction::Right);
}

#[test]
fn unsafe_seeker_answer_falls_back_to_a_safe_direction() {
    // Food on the right, but an opponent occupies that cell: the seeker
    // answers "right", the filter forbids it, and the fallback picks the
    // first safe direction (right, left, up, down order skips to left).
    let you = snake(&[(5, 5), (5, 4)]);
    let b = board(
        11,
        11,
        &[(6, 5)],
        vec![snake(&[(5, 5), (5, 4)]), snake(&[(6, 5), (6, 4)])],
    );
    assert_eq!(get_move(&b, &you), Direction::Left);
}

#[test]
fn fallback_prefers_a_safe_direction_with_food() {
    // The seeker answers "right" (food at (6,5)) but right is blocked;
    // among the safe directions, up has food on its target cell and is
    // preferred over left.
    let you = snake(&[(5, 5), (5, 4)]);
    let b = board(
        11,
        11,
        &[(6, 5), (5, 6)],
        vec![snake(&[(5, 5), (5, 4)]), snake(&[(6, 5), (6, 4)])],
    );
    assert_eq!(get_move(&b, &you), Direction::Up);
}

#[test]
fn seeker_failure_falls_back_to_a_safe_direction() {
    // No food anywhere: the seeker fails, and the move is the first safe
    // direction in the order right, left, up, down.
    let you = snake(&[(5, 5), (5, 4)]);
    let b = board(11, 11, &[], vec![snake(&[(5, 5), (5, 4)])]);
    assert_eq!(get_move(&b, &you), Direction::Right);
}

#[test]
fn no_safe_move_emits_the_seeker_answer_as_last_resort() {
    // The head is boxed in on all four sides but food sits to the right:
    // with nothing safe, the seeker's answer is emitted regardless.
    let you = snake(&[(5, 5), (5, 4), (6, 4), (6, 5), (6, 6), (5, 6), (4, 6), (4, 5), (4, 4)]);
    let b = board(11, 11, &[(6, 5)], Vec::new());
    let safe = compute_safe_moves(&you, &b.snakes, b.width, b.height);
    assert!(!safe.up && !safe.down && !safe.left && !safe.right);
    assert_eq!(get_move(&b, &you), Direction::Right);
}

#[test]
fn no_safe_move_and_no_food_emits_up() {
    let you = snake(&[(5, 5), (5, 4), (6, 4), (6, 5), (6, 6), (5, 6), (4, 6), (4, 5), (4, 4)]);
    let b = board(11, 11, &[], Vec::new());
    assert_eq!(get_move(&b, &you), Direction::Up);
}

#[test]
fn decision_is_deterministic() {
    let you = snake(&[(2, 2), (2, 1)]);
    let b = board(11, 11, &[(9, 9), (2, 3)], vec![snake(&[(2, 2), (2, 1)])]);
    let first = get_move(&b, &you);
    for _ in 0..10 {
        assert_eq!(get_move(&b, &you), first);
    }
}

#[test]
fn lifecycle_hooks_run() {
    let you = snake(&[(5, 5), (5, 4)]);
    let b = board(11, 11, &[], vec![snake(&[(5, 5), (5, 4)])]);
    start(0, &b, &you);
    end(3, &b, &you);
}
