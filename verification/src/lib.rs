//! Verified decision logic of a two-player chess board front end: the
//! click-driven move selection, the pieces drawn on the board, and the move
//! messages exchanged with a remote opponent.

pub mod board;
pub mod network;
pub mod selection;
pub mod sprites;
