//! Decision core of a turn-based, grid-based survival-game agent.
//!
//! Each turn the agent receives the full board state (its own body, the
//! other snakes, the food, the board dimensions) and must emit exactly one
//! of four cardinal moves. The core is split in two collaborating parts,
//! both pure functions of the current board snapshot:
//!
//! * the safety filter ([`safety`]): which of the four directions are
//!   immediately safe to occupy next turn, and
//! * the food seeker ([`seeker`]): a bounded, direction-biased probe walk
//!   that picks a direction toward adjacent food, avoiding revisits.
//!
//! [`agent`] composes the two into the per-turn decision: the final move is
//! both safety-approved and food-seeking whenever possible, and an unsafe
//! move is emitted only as a last resort when no direction is safe.

pub mod agent;
pub mod board;
pub mod safety;
pub mod seeker;

pub use board::Battlesnake;
pub use board::Board;
pub use board::Coord;
pub use board::Direction;
