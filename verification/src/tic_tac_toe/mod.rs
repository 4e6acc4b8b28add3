//! A two-player tic-tac-toe match: whose turn it is, which moves are legal,
//! and when the match is won or tied.

pub mod board;
pub mod game;
pub mod model;
pub mod pubkey;
pub mod theorems;

pub use self::board::{Sign, Tile};
pub use self::game::{play, setup_game, Game};
pub use self::model::{GameState, GameView, TicTacToeError};
pub use self::pubkey::Pubkey;
