//! A chessboard rules engine: piece placement on an 8x8 grid, legal-move
//! generation per piece kind, and validated move application.
//!
//! The engine is purely functional over in-memory state. Rendering and input
//! belong to the surrounding application; the engine only exposes the board
//! contents, the legal destinations of a piece, and a selection state machine
//! that turns pointer events into move applications.

pub mod apply;
pub mod board;
pub mod laws;
pub mod moves;
pub mod piece;
pub mod pos;
pub mod session;
