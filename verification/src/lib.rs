//! A verified rules engine for a two-player tic-tac-toe match.
//!
//! The engine is a pure, synchronous state machine: a [`game::Game`] is
//! created by [`game::setup_game`] and mutated exclusively through
//! [`game::Game::play`], which validates a move, places the mover's sign,
//! and evaluates the win and tie conditions. Identity checks, storage and
//! transport belong to the hosting layer, which hands the engine plain
//! player identifiers and board coordinates.

pub mod game;
pub mod laws;

pub use game::Game;
pub use game::GameState;
pub use game::Player;
pub use game::Sign;
pub use game::TicTactoeError;
pub use game::Tile;
pub use game::play;
pub use game::setup_game;
