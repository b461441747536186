//! Move application: validate a requested destination against the move
//! generator and, if legal, mutate the board.

use vstd::prelude::*;

use crate::board::{grid_at, grid_idx, Board};
use crate::moves::{piece_moves, Move};
use crate::piece::Piece;
use crate::pos::Pos;

verus! {

/// Whether some move in `s` has `end` as its destination.
pub open spec fn has_dest(s: Seq<Move>, end: Pos) -> bool {
    exists|i: int| 0 <= i < s.len() && #[trigger] s[i].pos == end
}

/// The grid after asking to move the piece at `start` to `end`: unchanged if
/// `start == end` (a same-square drop cancels the move), unchanged if `end`
/// is not among the legal destinations of the piece at `start` (a silent
/// rejection), and otherwise the piece leaves `start` and replaces whatever
/// held `end`.
pub open spec fn apply_moved(g: Seq<Option<Piece>>, start: Pos, end: Pos) -> Seq<Option<Piece>> {
    if start == end {
        g
    } else {
        match grid_at(g, start.file as int, start.rank as int) {
            None => g,
            Some(p) => if has_dest(
                piece_moves(g, p.piece_type, start.file as int, start.rank as int),
                end,
            ) {
                g.update(grid_idx(end.file as int, end.rank as int), Some(p)).update(
                    grid_idx(start.file as int, start.rank as int),
                    None,
                )
            } else {
                g
            },
        }
    }
}

impl Board {
    /// Moves the piece at `start` to `end` if `end` is among its legal
    /// destinations, capturing by overwrite; a same-square drop or an
    /// illegal destination leaves the board unchanged. Asking to move from
    /// an empty square (other than onto itself) means the game state is
    /// invalid, so a piece is demanded of the caller.
    pub fn mov(self: &mut Board, start: Pos, end: Pos)
        requires
            old(self).wf(),
            start.wf(),
            end.wf(),
            start != end ==> old(self).spec_at(start) is Some,
        ensures
            final(self).wf(),
            final(self).grid() == apply_moved(old(self).grid(), start, end),
    {
        if start == end {
            return ;
        }
        let start_piece = self.at(start).unwrap();
        let move_squares = self.move_squares(start_piece, start);
        let mut i: usize = 0;
        let mut found = false;
        while i < move_squares.len()
            invariant
                i <= move_squares@.len(),
                found == exists|j: int|
                    0 <= j < i && #[trigger] move_squares@[j].pos == end,
            decreases move_squares@.len() - i,
        {
            if move_squares[i].pos == end {
                found = true;
            }
            i += 1;
        }
        if found {
            self.place(start_piece, end);
            self.remove(start);
        }
    }
}

} // verus!
