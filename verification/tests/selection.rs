use snake_logic::logic::{get_move, safe_moves};
use snake_logic::model::{Battlesnake, Board, Coord, Game, Move};

fn agent(head: (u32, u32), rest: &[(u32, u32)]) -> Battlesnake {
    let mut body = vec![Coord { x: head.0, y: head.1 }];
    for &(x, y) in rest {
        body.push(Coord { x, y });
    }
    Battlesnake { head: Coord { x: head.0, y: head.1 }, body }
}

fn clone_snake(s: &Battlesnake) -> Battlesnake {
    Battlesnake { head: s.head, body: s.body.clone() }
}

fn tokens(moves: &[Move]) -> Vec<&'static str> {
    let mut t: Vec<&'static str> = moves.iter().map(|m| m.as_str()).collect();
    t.sort();
    t
}

fn game() -> Game {
    Game { id: "test".to_string() }
}

#[test]
fn reversal_left_excluded() {
    // Head (1,1) with the neck one cell to its left on an otherwise empty
    // 10-by-10 board: only the reversal is excluded.
    let you = agent((1, 1), &[(0, 1)]);
    let board = Board { width: 10, height: 10, snakes: vec![clone_snake(&you)] };
    let safe = safe_moves(&board, &you);
    assert_eq!(tokens(&safe), vec!["down", "right", "up"]);
}

#[test]
fn edge_and_reversal_combined() {
    // Head on the x == 0 edge after a Left move: Right is a reversal and
    // Left steps off the board, so only Up and Down can survive.
    let you = agent((0, 5), &[(1, 5)]);
    let board = Board { width: 10, height: 10, snakes: vec![clone_snake(&you)] };
    let safe = safe_moves(&board, &you);
    assert_eq!(tokens(&safe), vec!["down", "up"]);
}

#[test]
fn trapped_agent_has_no_safe_move() {
    // An opponent covers all four neighbors of the head: nothing survives
    // and the selector reports the trap instead of a colliding move.
    let you = agent((5, 5), &[(5, 5)]);
    let opponent = agent((5, 6), &[(5, 4), (4, 5), (6, 5)]);
    let board = Board {
        width: 10,
        height: 10,
        snakes: vec![clone_snake(&you), clone_snake(&opponent)],
    };
    assert!(safe_moves(&board, &you).is_empty());
    assert_eq!(get_move(&game(), &1, &board, &you), None);
}

#[test]
fn three_survivors_off_the_neck() {
    // Head (5,5), neck (5,4): Down is the reversal; the rest are free.
    let you = agent((5, 5), &[(5, 4)]);
    let board = Board { width: 10, height: 10, snakes: vec![clone_snake(&you)] };
    let safe = safe_moves(&board, &you);
    assert_eq!(tokens(&safe), vec!["left", "right", "up"]);
}

#[test]
fn filtering_is_deterministic() {
    // The surviving set is a function of the snapshot alone: repeated
    // calls agree even though the final pick varies.
    let you = agent((5, 5), &[(5, 4)]);
    let board = Board { width: 10, height: 10, snakes: vec![clone_snake(&you)] };
    let first = tokens(&safe_moves(&board, &you));
    for _ in 0..50 {
        assert_eq!(tokens(&safe_moves(&board, &you)), first);
    }
}

#[test]
fn boundary_rule_axis_pairing() {
    // The boundary rule checks head.x against height and head.y against
    // width.  On a 10-wide, 5-high board a head at (5,3) sits on
    // x == height, so Up is excluded even though Up moves along y.
    let you = agent((5, 3), &[(5, 3)]);
    let board = Board { width: 10, height: 5, snakes: vec![clone_snake(&you)] };
    let safe = safe_moves(&board, &you);
    assert_eq!(tokens(&safe), vec!["down", "left", "right"]);
}

#[test]
fn corner_exclusions() {
    // Head on the (0,0) corner with a coinciding neck: Left and Down are
    // boundary-excluded, nothing else is.
    let you = agent((0, 0), &[(0, 0)]);
    let board = Board { width: 10, height: 10, snakes: vec![clone_snake(&you)] };
    let safe = safe_moves(&board, &you);
    assert_eq!(tokens(&safe), vec!["right", "up"]);
}

#[test]
fn chosen_move_is_a_survivor() {
    // Whatever the random pick, the returned token always names one of
    // the surviving directions.
    let you = agent((0, 5), &[(1, 5)]);
    let board = Board { width: 10, height: 10, snakes: vec![clone_snake(&you)] };
    for _ in 0..200 {
        let token = get_move(&game(), &1, &board, &you).unwrap();
        assert!(token == "up" || token == "down");
    }
}

#[test]
fn single_survivor_is_forced() {
    // Blocking Down leaves Up as the only survivor, so the pick cannot
    // vary: the selector must return it every time.
    let you = agent((0, 5), &[(1, 5)]);
    let opponent = agent((0, 4), &[(1, 4)]);
    let board = Board {
        width: 10,
        height: 10,
        snakes: vec![clone_snake(&you), clone_snake(&opponent)],
    };
    for _ in 0..100 {
        assert_eq!(get_move(&game(), &1, &board, &you), Some("up"));
    }
}

#[test]
fn occupied_destinations_are_excluded() {
    // Opponents on (4,5) and (6,5) leave only Up free next to the head.
    let you = agent((5, 5), &[(5, 4)]);
    let opponent = agent((4, 5), &[(4, 4)]);
    let other = agent((6, 5), &[(6, 4)]);
    let board = Board {
        width: 10,
        height: 10,
        snakes: vec![clone_snake(&you), clone_snake(&opponent), clone_snake(&other)],
    };
    let safe = safe_moves(&board, &you);
    assert_eq!(tokens(&safe), vec!["up"]);
}

#[test]
fn pick_is_roughly_uniform() {
    // Scenario with three survivors: over many trials each should be
    // chosen about a third of the time.
    let you = agent((5, 5), &[(5, 4)]);
    let board = Board { width: 10, height: 10, snakes: vec![clone_snake(&you)] };
    let trials = 3000;
    let mut left = 0;
    let mut up = 0;
    let mut right = 0;
    for _ in 0..trials {
        match get_move(&game(), &1, &board, &you).unwrap() {
            "left" => left += 1,
            "up" => up += 1,
            "right" => right += 1,
            other => panic!("unexpected token {other}"),
        }
    }
    for count in [left, up, right] {
        assert!(count > 700, "count {count} far below a third of {trials}");
        assert!(count < 1300, "count {count} far above a third of {trials}");
    }
}
