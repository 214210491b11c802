//! A rules engine for chess move legality and board mutation.
//!
//! Given a position and a proposed move, the engine decides whether the move
//! is allowed by piece geometry, path obstruction, capture rules and the
//! special moves (pawn double step, en passant, castling, promotion), and
//! applies it. It validates and applies moves; it does not detect check,
//! checkmate or draws, and it does not choose moves.

pub mod board;
pub mod error;
pub mod laws;
pub mod material;
pub mod notation;
pub mod path;
pub mod piece;
pub mod position;
