//! A verified tic-tac-toe core: a board model, a rule engine that derives the
//! game status from a board, and a turn controller that drives one game.

pub mod game;
pub mod player;
pub mod session;

pub use game::Board;
pub use game::GameLogic;
pub use game::GameState;
pub use game::InvalidMove;
pub use player::Player;
pub use session::Game;
