//! The chess board.
//!
//! The board contains the physical location of the pieces on the board:
//! [`square`] names the 64 locations, and a [`BitBoard`] holds a set of them.
//! [`laws`] states what holds of every square and every board, and [`bits`]
//! what holds of the 64-bit words that the boards are made of.
pub mod bitboard;
pub mod bits;
pub mod laws;
pub mod square;

pub use bitboard::BitBoard;
