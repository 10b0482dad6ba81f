//! Data model of a board snapshot: cells, moves, snakes, and the board.

use vstd::prelude::*;

verus! {

/// One grid cell: a pair of non-negative coordinates.
#[derive(Clone, Copy, Debug, PartialEq, Eq, Structural)]
pub struct Coord {
    pub x: u32,
    pub y: u32,
}

/// One of the four cardinal moves, each a unit step on one axis.
#[derive(Clone, Copy, Debug, PartialEq, Eq, Structural)]
pub enum Move {
    Left,
    Up,
    Down,
    Right,
}

impl Move {
    /// The lowercase wire token that names this move.
    pub open spec fn as_str_spec(self) -> Seq<char> {
        match self {
            Move::Left => "left"@,
            Move::Up => "up"@,
            Move::Down => "down"@,
            Move::Right => "right"@,
        }
    }

    pub fn as_str(&self) -> (r: &'static str)
        ensures
            r@ == self.as_str_spec(),
    {
        match self {
            Move::Left => "left",
            Move::Up => "up",
            Move::Down => "down",
            Move::Right => "right",
        }
    }
}

impl Coord {
    /// The cell one step in direction `m`, or `None` where that step
    /// leaves the non-negative coordinate range.
    pub open spec fn advance_spec(self, m: Move) -> Option<Coord> {
        match m {
            Move::Left => if self.x == 0 {
                None
            } else {
                Some(Coord { x: (self.x - 1) as u32, y: self.y })
            },
            Move::Up => if self.y == u32::MAX {
                None
            } else {
                Some(Coord { x: self.x, y: (self.y + 1) as u32 })
            },
            Move::Down => if self.y == 0 {
                None
            } else {
                Some(Coord { x: self.x, y: (self.y - 1) as u32 })
            },
            Move::Right => if self.x == u32::MAX {
                None
            } else {
                Some(Coord { x: (self.x + 1) as u32, y: self.y })
            },
        }
    }

    /// Steps one cell in direction `m` with checked (non-wrapping)
    /// arithmetic.
    pub fn advance(self, m: Move) -> (r: Option<Coord>)
        ensures
            r == self.advance_spec(m),
    {
        Some(
            match m {
                Move::Left => Coord { x: self.x.checked_sub(1)?, y: self.y },
                Move::Up => Coord { y: self.y.checked_add(1)?, x: self.x },
                Move::Down => Coord { x: self.x, y: self.y.checked_sub(1)? },
                Move::Right => Coord { x: self.x.checked_add(1)?, y: self.y },
            },
        )
    }
}

/// One game, as far as the core sees it: its identifier.
pub struct Game {
    pub id: String,
}

/// One snake on the board: its current position (`head`) and the ordered
/// sequence of cells it covers, head first.
pub struct Battlesnake {
    pub head: Coord,
    pub body: Vec<Coord>,
}

/// A snapshot of the whole board for one turn.  `width` and `height` are
/// the declared grid extents used by the boundary rule, and `snakes`
/// holds every entity present this turn.
pub struct Board {
    pub width: u32,
    pub height: u32,
    pub snakes: Vec<Battlesnake>,
}

/// The static personalization record the agent reports about itself.
pub struct AgentInfo {
    pub apiversion: String,
    pub author: String,
    pub color: String,
    pub head: String,
    pub tail: String,
}

} // verus!
