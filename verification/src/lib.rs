//! Decision core of a turn-based grid-movement game agent.
//!
//! Given a board snapshot (the agent's own head and body, every other
//! snake on the board, and the grid dimensions), the core picks one of
//! four cardinal moves: it discards the move that would reverse onto the
//! agent's neck, moves that step over the declared grid edge, and moves
//! whose destination cell is already occupied, then chooses uniformly at
//! random among the survivors.  All filtering logic is verified; only the
//! final random draw relies on an outside generator.

pub mod logic;
pub mod model;
