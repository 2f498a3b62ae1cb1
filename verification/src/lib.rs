//! A Connect Four game server's core: the board and its rules, the
//! storage format of a board, the error table of the API, and the
//! decisions of the room, player, session and game services.
pub mod error;
pub mod models;
pub mod services;
pub mod utils;
