//! Ultimate tic-tac-toe: the nested board state machine, the in-memory game
//! table, and the local/remote reconciliation of move histories.
//!
//! The rules are stated as spec functions over a board's move list in
//! [`rules`] and [`matrix`]; the board's functions are proved against them,
//! and [`laws`] proves what follows for every game.

pub mod board;
mod field;
mod game_data;
mod game_move;
mod game_state;
pub mod grid;
pub mod ids;
pub mod laws;
pub mod matrix;
mod player;
pub mod remote;
pub mod rules;
mod store;
pub mod stream;
mod sub_board;
pub mod sync;

pub use board::Board;
pub use field::Field;
pub use game_data::GameData;
pub use game_move::{Coordinates, Move};
pub use game_state::GameState;
pub use grid::Grid;
pub use matrix::{check_matrix, get_winner_in_row, WinnerRegisterer};
pub use player::Player;
pub use remote::RedisProviderArgs;
pub use rules::InvalidMove;
pub use store::{CacheProviderArgs, CacheProviderErrorKind, GameTable};
pub use sub_board::SubBoard;
