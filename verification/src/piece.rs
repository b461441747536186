//! Sides, piece kinds, pieces, and generated moves.

use vstd::prelude::*;

verus! {

/// One of the two players.
#[derive(Debug, Copy, Clone, PartialEq, Eq, Structural)]
pub enum Side {
    White,
    Black,
}

/// The opponent of a side.
pub open spec fn flip(s: Side) -> Side {
    match s {
        Side::White => Side::Black,
        Side::Black => Side::White,
    }
}

impl Side {
    /// The opponent of `self`. Flipping is involutive: flipping the result
    /// gives `self` back.
    pub fn flipped(self: &Side) -> (r: Side)
        ensures
            r == flip(*self),
            flip(r) == *self,
    {
        match self {
            Side::White => Side::Black,
            Side::Black => Side::White,
        }
    }
}

/// The role of a piece, determining its movement rule.
#[derive(Debug, Copy, Clone, PartialEq, Eq, Structural)]
pub enum PieceType {
    Pawn,
    Knight,
    Bishop,
    Rook,
    Queen,
    King,
}

/// A piece: a kind together with the side that owns it.
#[derive(Debug, Copy, Clone, PartialEq, Eq, Structural)]
pub struct Piece {
    pub piece_type: PieceType,
    pub side: Side,
}

impl Piece {
    pub fn new(piece_type: PieceType, side: Side) -> (r: Piece)
        ensures
            r.piece_type == piece_type,
            r.side == side,
    {
        Piece { piece_type, side }
    }

    /// Index of this piece in a side-major table of piece images:
    /// the side picks the row (White 0, Black 1) and the kind the column
    /// (Pawn 0 through King 5).
    pub fn texture_index(self: &Piece) -> (r: (usize, usize))
        ensures
            r.0 == side_index(self.side),
            r.1 == kind_index(self.piece_type),
    {
        let row: usize = match self.side {
            Side::White => 0,
            Side::Black => 1,
        };
        let col: usize = match self.piece_type {
            PieceType::Pawn => 0,
            PieceType::Knight => 1,
            PieceType::Bishop => 2,
            PieceType::Rook => 3,
            PieceType::Queen => 4,
            PieceType::King => 5,
        };
        (row, col)
    }
}

/// Row of a side in the piece-image table.
pub open spec fn side_index(s: Side) -> int {
    match s {
        Side::White => 0,
        Side::Black => 1,
    }
}

/// Column of a piece kind in the piece-image table.
pub open spec fn kind_index(t: PieceType) -> int {
    match t {
        PieceType::Pawn => 0,
        PieceType::Knight => 1,
        PieceType::Bishop => 2,
        PieceType::Rook => 3,
        PieceType::Queen => 4,
        PieceType::King => 5,
    }
}

} // verus!
