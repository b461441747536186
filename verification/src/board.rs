//! The 8x8 board: a grid of optional pieces with placement and query
//! operations and the standard starting setup.

use vstd::prelude::*;

use crate::piece::{Piece, PieceType, Side};
use crate::pos::{on_board, Pos};

verus! {

/// Index of square `(file, rank)` in the flattened file-major grid.
pub open spec fn grid_idx(f: int, r: int) -> int {
    f * 8 + r
}

/// Contents of square `(file, rank)` of a flattened grid.
pub open spec fn grid_at(g: Seq<Option<Piece>>, f: int, r: int) -> Option<Piece> {
    g[grid_idx(f, r)]
}

/// The piece at the start of rank 0 or 7 in the standard setup, by file:
/// rooks in the corners, then knights, then bishops, queen on file 3,
/// king on file 4.
pub open spec fn back_rank_kind(f: int) -> PieceType {
    if f == 0 || f == 7 {
        PieceType::Rook
    } else if f == 1 || f == 6 {
        PieceType::Knight
    } else if f == 2 || f == 5 {
        PieceType::Bishop
    } else if f == 3 {
        PieceType::Queen
    } else {
        PieceType::King
    }
}

/// Contents of square `(file, rank)` in the standard starting position:
/// White's back rank on rank 0 and pawns on rank 1, Black's pawns on rank 6
/// and back rank on rank 7.
pub open spec fn starting_piece(f: int, r: int) -> Option<Piece> {
    if r == 0 {
        Some(Piece { piece_type: back_rank_kind(f), side: Side::White })
    } else if r == 1 {
        Some(Piece { piece_type: PieceType::Pawn, side: Side::White })
    } else if r == 6 {
        Some(Piece { piece_type: PieceType::Pawn, side: Side::Black })
    } else if r == 7 {
        Some(Piece { piece_type: back_rank_kind(f), side: Side::Black })
    } else {
        None
    }
}

/// The 8x8 grid of optional pieces, flattened file-major: square
/// `(file, rank)` lives at index `file * 8 + rank`. Each square holds at
/// most one piece by construction.
pub struct Board {
    pub squares: Vec<Option<Piece>>,
}

impl Board {
    /// The flattened grid contents.
    pub open spec fn grid(self) -> Seq<Option<Piece>> {
        self.squares@
    }

    /// Well-formedness: one cell for each of the 64 squares.
    pub open spec fn wf(self) -> bool {
        self.squares@.len() == 64
    }

    /// Contents of the square at `pos`.
    pub open spec fn spec_at(self, pos: Pos) -> Option<Piece> {
        grid_at(self.grid(), pos.file as int, pos.rank as int)
    }

    /// A board with no pieces.
    pub fn empty() -> (r: Board)
        ensures
            r.wf(),
            forall|f: int, r2: int|
                on_board(f, r2) ==> #[trigger] grid_at(r.grid(), f, r2) is None,
            forall|i: int| 0 <= i < 64 ==> #[trigger] r.grid()[i] is None,
    {
        let mut squares: Vec<Option<Piece>> = Vec::new();
        let mut i: usize = 0;
        while i < 64
            invariant
                i <= 64,
                squares@.len() == i,
                forall|j: int| 0 <= j < i ==> squares@[j] is None,
            decreases 64 - i,
        {
            squares.push(None);
            i += 1;
        }
        Board { squares }
    }

    /// The standard initial chess setup.
    pub fn starting() -> (r: Board)
        ensures
            r.wf(),
            forall|f: int, r2: int|
                on_board(f, r2) ==> #[trigger] grid_at(r.grid(), f, r2) == starting_piece(f, r2),
    {
        let mut board = Board::empty();
        let mut f: usize = 0;
        while f < 8
            invariant
                board.wf(),
                f <= 8,
                forall|f2: int, r2: int|
                    on_board(f2, r2) ==> grid_at(board.grid(), f2, r2) == (if f2 < f {
                        #[trigger] starting_piece(f2, r2)
                    } else {
                        None
                    }),
            decreases 8 - f,
        {
            let mut r: usize = 0;
            while r < 8
                invariant
                    board.wf(),
                    f < 8,
                    r <= 8,
                    forall|f2: int, r2: int|
                        on_board(f2, r2) ==> grid_at(board.grid(), f2, r2) == (if f2 < f || (
                        f2 == f && r2 < r) {
                            #[trigger] starting_piece(f2, r2)
                        } else {
                            None
                        }),
                decreases 8 - r,
            {
                match Board::starting_square(f, r) {
                    Some(piece) => board.place(piece, Pos::new(f, r)),
                    None => (),
                }
                r += 1;
            }
            f += 1;
        }
        board
    }

    /// The piece that the standard setup puts on `(file, rank)`.
    fn starting_square(file: usize, rank: usize) -> (r: Option<Piece>)
        requires
            file < 8,
            rank < 8,
        ensures
            r == starting_piece(file as int, rank as int),
    {
        let kind: PieceType = if file == 0 || file == 7 {
            PieceType::Rook
        } else if file == 1 || file == 6 {
            PieceType::Knight
        } else if file == 2 || file == 5 {
            PieceType::Bishop
        } else if file == 3 {
            PieceType::Queen
        } else {
            PieceType::King
        };
        if rank == 0 {
            Some(Piece::new(kind, Side::White))
        } else if rank == 1 {
            Some(Piece::new(PieceType::Pawn, Side::White))
        } else if rank == 6 {
            Some(Piece::new(PieceType::Pawn, Side::Black))
        } else if rank == 7 {
            Some(Piece::new(kind, Side::Black))
        } else {
            None
        }
    }

    /// Sets the square at `pos` to `piece`, overwriting any existing piece.
    /// No capture bookkeeping happens at this level.
    pub fn place(self: &mut Board, piece: Piece, pos: Pos)
        requires
            old(self).wf(),
            pos.wf(),
        ensures
            final(self).wf(),
            final(self).grid() == old(self).grid().update(
                grid_idx(pos.file as int, pos.rank as int),
                Some(piece),
            ),
    {
        self.squares.set(pos.file * 8 + pos.rank, Some(piece));
    }

    /// The piece at `pos`, if any.
    pub fn at(self: &Board, pos: Pos) -> (r: Option<Piece>)
        requires
            self.wf(),
            pos.wf(),
        ensures
            r == self.spec_at(pos),
    {
        self.squares[pos.file * 8 + pos.rank]
    }

    /// Clears the square at `pos`.
    pub fn remove(self: &mut Board, pos: Pos)
        requires
            old(self).wf(),
            pos.wf(),
        ensures
            final(self).wf(),
            final(self).grid() == old(self).grid().update(
                grid_idx(pos.file as int, pos.rank as int),
                None,
            ),
    {
        self.squares.set(pos.file * 8 + pos.rank, None);
    }
}

} // verus!
