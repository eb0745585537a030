//! A turn-based economic board-game core: dice movement, tile-triggered
//! effects, a ticket and loan economy, jail and hospital mechanics, and
//! randomized chance cards, driven by externally supplied rule scripts.
//! The state machine and all bookkeeping are verified; the script
//! evaluation, the JSON reading and the random source sit behind a small
//! trusted bridge.
use vstd::prelude::*;

pub mod actions;
pub mod board;
pub mod bridge;
pub mod construct;
pub mod engine;
pub mod model;
pub mod num;
pub mod resolve;
pub mod state;
pub mod text;
pub mod tickets;

pub use engine::GameEngine;
pub use model::ChanceCard;
pub use model::DicePair;
pub use model::EducationStatus;
pub use model::GameSituation;
pub use model::Player;
pub use model::Tile;
pub use state::GameState;
pub use state::Ownership;
pub use tickets::TicketCount;

verus! {

} // verus!
