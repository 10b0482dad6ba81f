//! Per-turn move selection: candidate filtering and the final pick.

use crate::model::{AgentInfo, Battlesnake, Board, Coord, Game, Move};
use std::collections::HashSet;
use vstd::prelude::*;

verus! {

broadcast use vstd::std_specs::hash::group_hash_axioms, vstd::seq_lib::group_seq_properties;

/// The cells one snake covers: its whole body together with its head.
pub open spec fn snake_cells(s: Battlesnake) -> Set<Coord> {
    s.body@.to_set().insert(s.head)
}

/// The occupancy set of a snapshot: every cell covered by any snake on
/// the board or by the acting agent itself.
pub open spec fn occupied(board: Board, you: Battlesnake) -> Set<Coord> {
    Set::new(
        |c: Coord|
            (exists|i: int|
                0 <= i < board.snakes@.len() && snake_cells(#[trigger] board.snakes@[i]).contains(
                    c,
                )) || snake_cells(you).contains(c),
    )
}

/// The no-reversal rule: the one direction that would step back onto the
/// neck (the second body cell) is excluded.  Exactly one relation of neck
/// to head picks the excluded direction; a neck that coincides with the
/// head excludes nothing.
pub open spec fn neck_excludes(head: Coord, neck: Coord, m: Move) -> bool {
    if neck.x < head.x {
        m == Move::Left
    } else if neck.x > head.x {
        m == Move::Right
    } else if neck.y < head.y {
        m == Move::Down
    } else if neck.y > head.y {
        m == Move::Up
    } else {
        false
    }
}

/// The boundary rule: `Left` is illegal on `head.x == 0`, `Up` on
/// `head.x == height`, `Down` on `head.y == 0`, and `Right` on
/// `head.y == width`.  Exactly these four checks make up the rule — it
/// deliberately pairs `x` with `height` and `y` with `width`, and adds
/// no further bound checks.
pub open spec fn boundary_excludes(board: Board, head: Coord, m: Move) -> bool {
    ||| m == Move::Left && head.x == 0
    ||| m == Move::Up && head.x == board.height
    ||| m == Move::Down && head.y == 0
    ||| m == Move::Right && head.y == board.width
}

/// A direction survives filtering when the no-reversal rule keeps it, the
/// boundary rule keeps it, its destination exists under checked
/// arithmetic, and that destination is unoccupied.
pub open spec fn survives(board: Board, you: Battlesnake, m: Move) -> bool {
    &&& !neck_excludes(you.head, you.body@[1], m)
    &&& !boundary_excludes(board, you.head, m)
    &&& match you.head.advance_spec(m) {
        Some(n) => !occupied(board, you).contains(n),
        None => false,
    }
}

/// Packs a cell into one integer so the occupancy set can be keyed by a
/// primitive type.
spec fn key_of(c: Coord) -> u64 {
    (c.x * 0x1_0000_0000 + c.y) as u64
}

/// Distinct cells pack to distinct keys.
broadcast proof fn lemma_key_of_injective(a: Coord, b: Coord)
    ensures
        #[trigger] key_of(a) == #[trigger] key_of(b) ==> a == b,
{
    assert(a.x * 0x1_0000_0000 + a.y == b.x * 0x1_0000_0000 + b.y ==> a.x == b.x && a.y == b.y)
        by (nonlinear_arith);
}

fn coord_key(c: Coord) -> (k: u64)
    ensures
        k == key_of(c),
{
    (c.x as u64) * 0x1_0000_0000 + (c.y as u64)
}

/// Collects the occupancy set of the snapshot, keyed by packed cells, so
/// that membership tests cost O(1).
fn build_occupied(board: &Board, you: &Battlesnake) -> (occ: HashSet<u64>)
    ensures
        forall|c: Coord| occ@.contains(#[trigger] key_of(c)) <==> occupied(*board, *you).contains(
            c,
        ),
{
    broadcast use lemma_key_of_injective;

    let mut occ: HashSet<u64> = HashSet::new();
    let n = board.snakes.len();
    let mut i: usize = 0;
    while i < n
        invariant
            n == board.snakes@.len(),
            i <= n,
            forall|c: Coord| occ@.contains(#[trigger] key_of(c)) <==> exists|j: int|
                0 <= j < i && snake_cells(#[trigger] board.snakes@[j]).contains(c),
        decreases n - i,
    {
        let snake = &board.snakes[i];
        let mut b: usize = 0;
        while b < snake.body.len()
            invariant
                b <= snake.body@.len(),
                snake == board.snakes@[i as int],
                forall|c: Coord| occ@.contains(#[trigger] key_of(c)) <==> (exists|j: int|
                    0 <= j < i && snake_cells(#[trigger] board.snakes@[j]).contains(c))
                    || snake.body@.take(b as int).contains(c),
            decreases snake.body@.len() - b,
        {
            let ghost prev = occ@;
            let cell = snake.body[b];
            occ.insert(coord_key(cell));
            proof {
                assert(snake.body@.take(b + 1) =~= snake.body@.take(b as int).push(
                    snake.body@[b as int],
                ));
                assert forall|c: Coord| occ@.contains(#[trigger] key_of(c)) <==> (exists|j: int|
                    0 <= j < i && snake_cells(#[trigger] board.snakes@[j]).contains(c))
                    || snake.body@.take(b + 1).contains(c) by {
                    if key_of(c) == key_of(cell) {
                        assert(c == cell);
                        assert(snake.body@.take(b + 1)[b as int] == cell);
                        assert(snake.body@.take(b + 1).contains(c));
                    } else {
                        assert(occ@.contains(key_of(c)) == prev.contains(key_of(c)));
                    }
                }
            }
            b += 1;
        }
        proof {
            assert(snake.body@.take(snake.body@.len() as int) =~= snake.body@);
        }
        occ.insert(coord_key(snake.head));
        proof {
            assert forall|c: Coord| occ@.contains(#[trigger] key_of(c)) <==> exists|j: int|
                0 <= j < i + 1 && snake_cells(#[trigger] board.snakes@[j]).contains(c) by {
                if occ@.contains(key_of(c)) {
                    if snake_cells(board.snakes@[i as int]).contains(c) {
                        assert(0 <= i < i + 1 && snake_cells(board.snakes@[i as int]).contains(c));
                    }
                }
            }
        }
        i += 1;
    }
    occ.insert(coord_key(you.head));
    let mut b: usize = 0;
    while b < you.body.len()
        invariant
            n == board.snakes@.len(),
            forall|c: Coord| occ@.contains(#[trigger] key_of(c)) <==> (exists|j: int|
                0 <= j < n && snake_cells(#[trigger] board.snakes@[j]).contains(c)) || c == you.head
                || you.body@.take(b as int).contains(c),
            b <= you.body@.len(),
        decreases you.body@.len() - b,
    {
        let ghost prev = occ@;
        let cell = you.body[b];
        occ.insert(coord_key(cell));
        proof {
            assert(you.body@.take(b + 1) =~= you.body@.take(b as int).push(you.body@[b as int]));
            assert forall|c: Coord| occ@.contains(#[trigger] key_of(c)) <==> (exists|j: int|
                0 <= j < n && snake_cells(#[trigger] board.snakes@[j]).contains(c)) || c == you.head
                || you.body@.take(b + 1).contains(c) by {
                if key_of(c) == key_of(cell) {
                    assert(c == cell);
                    assert(you.body@.take(b + 1)[b as int] == cell);
                    assert(you.body@.take(b + 1).contains(c));
                } else {
                    assert(occ@.contains(key_of(c)) == prev.contains(key_of(c)));
                }
            }
        }
        b += 1;
    }
    proof {
        assert(you.body@.take(you.body@.len() as int) =~= you.body@);
        assert forall|c: Coord| occ@.contains(#[trigger] key_of(c)) <==> occupied(
            *board,
            *you,
        ).contains(c) by {
            assert(snake_cells(*you).contains(c) <==> you.body@.contains(c) || c == you.head);
        }
    }
    occ
}

/// Decides whether one candidate direction survives all three rules:
/// no-reversal, boundary, and occupancy of the destination cell.
fn move_is_safe(board: &Board, you: &Battlesnake, occ: &HashSet<u64>, m: Move) -> (b: bool)
    requires
        you.body@.len() >= 2,
        forall|c: Coord| occ@.contains(#[trigger] key_of(c)) <==> occupied(*board, *you).contains(
            c,
        ),
    ensures
        b == survives(*board, *you, m),
{
    let head = you.head;
    let neck = you.body[1];
    if neck.x < head.x {
        if m == Move::Left {
            return false;
        }
    } else if neck.x > head.x {
        if m == Move::Right {
            return false;
        }
    } else if neck.y < head.y {
        if m == Move::Down {
            return false;
        }
    } else if neck.y > head.y {
        if m == Move::Up {
            return false;
        }
    }
    match m {
        Move::Left => if head.x == 0 {
            return false;
        },
        Move::Up => if head.x == board.height {
            return false;
        },
        Move::Down => if head.y == 0 {
            return false;
        },
        Move::Right => if head.y == board.width {
            return false;
        },
    }
    match head.advance(m) {
        Some(n) => !occ.contains(&coord_key(n)),
        None => false,
    }
}

/// Computes the set of directions that survive filtering on this
/// snapshot.  The result is a function of the snapshot alone: it holds a
/// direction exactly when `survives` holds of it, each at most once, so
/// repeated calls on one snapshot yield the same set.
pub fn safe_moves(board: &Board, you: &Battlesnake) -> (r: Vec<Move>)
    requires
        you.body@.len() >= 2,
    ensures
        forall|m: Move| r@.contains(m) <==> survives(*board, *you, m),
        r@.no_duplicates(),
{
    let occ = build_occupied(board, you);
    let mut r: Vec<Move> = Vec::new();
    if move_is_safe(board, you, &occ, Move::Left) {
        r.push(Move::Left);
    }
    if move_is_safe(board, you, &occ, Move::Up) {
        r.push(Move::Up);
    }
    if move_is_safe(board, you, &occ, Move::Down) {
        r.push(Move::Down);
    }
    if move_is_safe(board, you, &occ, Move::Right) {
        r.push(Move::Right);
    }
    proof {
        assert forall|m: Move| r@.contains(m) <==> survives(*board, *you, m) by {
            if survives(*board, *you, m) {
                match m {
                    Move::Left => assert(r@.contains(m)),
                    Move::Up => assert(r@.contains(m)),
                    Move::Down => assert(r@.contains(m)),
                    Move::Right => assert(r@.contains(m)),
                }
            }
        }
    }
    r
}

/// Relies on `rand::seq::SliceRandom::choose`: it returns `None` exactly
/// when the slice is empty, and otherwise one element of the slice,
/// drawn uniformly from `rand::thread_rng`.  Which element comes back is
/// not promised: two calls on one input may differ.
#[verifier::external_body]
fn pick_move(moves: &Vec<Move>) -> (r: Option<Move>)
    ensures
        match r {
            Some(m) => moves@.contains(m),
            None => moves@.len() == 0,
        },
{
    rand::seq::SliceRandom::choose(moves.as_slice(), &mut rand::thread_rng()).copied()
}

/// Selects this turn's move: filters the four candidates, then picks one
/// of the survivors uniformly at random and returns its wire token.
/// Returns `None` exactly when no direction survives (the agent is
/// trapped), so the caller can choose a last-resort policy.
pub fn get_move(_game: &Game, _turn: &u32, board: &Board, you: &Battlesnake) -> (r: Option<
    &'static str,
>)
    requires
        you.body@.len() >= 2,
    ensures
        match r {
            Some(s) => exists|m: Move| survives(*board, *you, m) && s@ == m.as_str_spec(),
            None => forall|m: Move| !survives(*board, *you, m),
        },
{
    let moves = safe_moves(board, you);
    match pick_move(&moves) {
        Some(m) => Some(m.as_str()),
        None => None,
    }
}

/// Law: a surviving move never reverses onto the neck.  In each of the
/// four neck-relative-to-head configurations the direction that steps
/// back is excluded, and the destination of a surviving move is never
/// the neck cell itself.
pub proof fn lemma_no_reversal(board: Board, you: Battlesnake, m: Move)
    requires
        you.body@.len() >= 2,
        survives(board, you, m),
    ensures
        you.body@[1].x < you.head.x ==> m != Move::Left,
        you.body@[1].x > you.head.x ==> m != Move::Right,
        you.body@[1].x == you.head.x && you.body@[1].y < you.head.y ==> m != Move::Down,
        you.body@[1].x == you.head.x && you.body@[1].y > you.head.y ==> m != Move::Up,
        you.head.advance_spec(m) matches Some(n) ==> n != you.body@[1],
{
    let neck = you.body@[1];
    assert(you.body@.contains(neck));
    assert(snake_cells(you).contains(neck));
    assert(occupied(board, you).contains(neck));
}

/// Law: the destination of a surviving move stays within `[0, height]`
/// on the x axis and `[0, width]` on the y axis, in the axis pairing the
/// boundary rule uses.  The lower bounds hold of every snapshot, because
/// coordinates are unsigned and a surviving move's destination exists
/// under checked arithmetic.  The upper bounds need two exceptions: the
/// boundary rule guards each far edge with a move on the other axis, so
/// a `Right` step from `head.x == height`, or an `Up` step from
/// `head.y == width`, is the one way past the stated range.
pub proof fn lemma_destination_in_bounds(board: Board, you: Battlesnake, m: Move)
    requires
        survives(board, you, m),
        you.head.x <= board.height,
        you.head.y <= board.width,
        you.head.x == board.height ==> m != Move::Right,
        you.head.y == board.width ==> m != Move::Up,
    ensures
        you.head.advance_spec(m) is Some,
        you.head.advance_spec(m) matches Some(n) ==> n.x <= board.height && n.y <= board.width,
{
}

/// Law: the destination of a surviving move is not a member of the
/// occupancy set of the snapshot.
pub proof fn lemma_destination_unoccupied(board: Board, you: Battlesnake, m: Move)
    requires
        survives(board, you, m),
    ensures
        you.head.advance_spec(m) is Some,
        you.head.advance_spec(m) matches Some(n) ==> !occupied(board, you).contains(n),
{
}

/// Law: filtering is deterministic.  Any two direction sequences that
/// each hold exactly the surviving directions of one snapshot — as every
/// `safe_moves` result does — hold the same set of directions; only the
/// final random pick among them varies.
pub proof fn lemma_filtering_deterministic(
    board: Board,
    you: Battlesnake,
    r1: Seq<Move>,
    r2: Seq<Move>,
)
    requires
        forall|m: Move| r1.contains(m) <==> survives(board, you, m),
        forall|m: Move| r2.contains(m) <==> survives(board, you, m),
    ensures
        r1.to_set() == r2.to_set(),
{
    assert(r1.to_set() =~= r2.to_set());
}

/// The static personalization record of this agent.
pub fn get_info() -> (r: AgentInfo)
    ensures
        r.apiversion@ == "1"@,
        r.author@ == ""@,
        r.color@ == "#888888"@,
        r.head@ == "all-seeing"@,
        r.tail@ == "mystic-moon"@,
{
    AgentInfo {
        apiversion: "1".to_owned(),
        author: "".to_owned(),
        color: "#888888".to_owned(),
        head: "all-seeing".to_owned(),
        tail: "mystic-moon".to_owned(),
    }
}

/// The message that reports the start of a game.
pub fn start(game: &Game, _turn: &u32, _board: &Board, _you: &Battlesnake) -> (r: String)
    ensures
        r@ == game.id@ + " START"@,
{
    vstd::string::StringExecFns::concat(game.id.clone(), " START")
}

/// The message that reports the end of a game.
pub fn end(game: &Game, _turn: &u32, _board: &Board, _you: &Battlesnake) -> (r: String)
    ensures
        r@ == game.id@ + " END"@,
{
    vstd::string::StringExecFns::concat(game.id.clone(), " END")
}

} // verus!
