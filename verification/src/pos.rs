//! Board coordinates: in-range positions and the signed scratch variant used
//! while scanning for moves.

use vstd::prelude::*;

verus! {

/// A square of the board: `(file, rank)`, each in `[0, 7]`.
///
/// A `Pos` is always in range; coordinates that may lie off the board are
/// held in a [`SignedPos`] until validated.
#[derive(Debug, Copy, Clone, PartialEq, Eq, Structural)]
pub struct Pos {
    pub file: usize,
    pub rank: usize,
}

impl Pos {
    /// Both coordinates are on the board.
    pub open spec fn wf(self) -> bool {
        self.file < 8 && self.rank < 8
    }

    pub fn new(file: usize, rank: usize) -> (r: Pos)
        requires
            file < 8,
            rank < 8,
        ensures
            r.file == file,
            r.rank == rank,
            r.wf(),
    {
        Pos { file, rank }
    }

    /// Builds a position from 1-indexed file and rank ordinals, as used in
    /// chess notation (file 1 is the a-file, rank 1 is White's back rank).
    pub fn from_ordinals(file: usize, rank: usize) -> (r: Pos)
        requires
            1 <= file <= 8,
            1 <= rank <= 8,
        ensures
            r.file == file - 1,
            r.rank == rank - 1,
            r.wf(),
    {
        Pos { file: file - 1, rank: rank - 1 }
    }
}

/// A coordinate pair that may lie off the board, used as scratch state during
/// move scanning so that off-board steps can be detected and rejected.
#[derive(Debug, Copy, Clone, PartialEq, Eq, Structural)]
pub struct SignedPos {
    pub file: i32,
    pub rank: i32,
}

/// Whether a coordinate pair lies on the board.
pub open spec fn on_board(file: int, rank: int) -> bool {
    0 <= file < 8 && 0 <= rank < 8
}

impl SignedPos {
    pub fn new(file: i32, rank: i32) -> (r: SignedPos)
        ensures
            r.file == file,
            r.rank == rank,
    {
        SignedPos { file, rank }
    }

    pub fn from_pos(pos: Pos) -> (r: SignedPos)
        requires
            pos.wf(),
        ensures
            r.file == pos.file as int,
            r.rank == pos.rank as int,
    {
        SignedPos { file: pos.file as i32, rank: pos.rank as i32 }
    }

    /// Converts back to an in-range position. Converting an off-board
    /// `SignedPos` is a programming error, so validity is demanded of the
    /// caller rather than checked at run time.
    pub fn to_pos(self: &SignedPos) -> (r: Pos)
        requires
            on_board(self.file as int, self.rank as int),
        ensures
            r.file as int == self.file as int,
            r.rank as int == self.rank as int,
            r.wf(),
    {
        Pos { file: self.file as usize, rank: self.rank as usize }
    }

    pub fn valid(self: &SignedPos) -> (r: bool)
        ensures
            r == on_board(self.file as int, self.rank as int),
    {
        self.rank >= 0 && self.rank < 8 && self.file >= 0 && self.file < 8
    }
}

} // verus!
