//! The selection state machine: tracks which square, if any, the player has
//! picked up, and turns pointer events into move applications.
//!
//! The driving loop reports, once per iteration, either the square the
//! pointer is pressed over or that the pointer is released, together with
//! the square currently under the pointer. Pressing over a piece of the
//! side to move picks it up; releasing drops it, asking the move applier to
//! move it to the square under the pointer.

use vstd::prelude::*;

use crate::apply::apply_moved;
use crate::board::{grid_at, Board};
use crate::piece::{Piece, Side};
use crate::pos::Pos;

verus! {

/// The player-visible control state: the square currently picked up, if
/// any, and the side to move.
///
/// The side to move gates which pieces can be picked up, but it is never
/// advanced after a move: the same side may move again. This is a known
/// limitation, kept deliberately.
#[derive(Debug, Copy, Clone)]
pub struct ControlState {
    pub active_piece: Option<Pos>,
    pub turn: Side,
}

/// Whether pressing over `pos` picks a piece up: nothing is picked up yet,
/// and `pos` holds a piece of the side to move.
pub open spec fn picks_up(g: Seq<Option<Piece>>, state: ControlState, pos: Pos) -> bool {
    &&& state.active_piece is None
    &&& grid_at(g, pos.file as int, pos.rank as int) matches Some(p) && p.side == state.turn
}

/// Advances the session by one pointer event.
///
/// While the pointer is pressed over a square, `click` is that square;
/// `pointer` is the square under the pointer, which is the drop target when
/// the pointer is released. A press over a piece of the side to move picks
/// it up (if nothing is picked up yet); a release with a piece picked up
/// asks the move applier to move it to `pointer` and returns to idle; any
/// other event changes nothing. The board changes only on a release, and
/// then exactly as the move applier says.
pub fn update(board: &mut Board, state: &mut ControlState, click: Option<Pos>, pointer: Pos)
    requires
        old(board).wf(),
        pointer.wf(),
        click matches Some(pos) ==> pos.wf(),
        old(state).active_piece matches Some(a) ==> a.wf() && (a != pointer
            ==> old(board).spec_at(a) is Some),
    ensures
        final(board).wf(),
        final(state).turn == old(state).turn,
        match click {
            Some(pos) => {
                &&& final(board).grid() == old(board).grid()
                &&& final(state).active_piece == (if picks_up(old(board).grid(), *old(state), pos) {
                    Some(pos)
                } else {
                    old(state).active_piece
                })
            },
            None => {
                &&& final(state).active_piece is None
                &&& final(board).grid() == (match old(state).active_piece {
                    Some(a) => apply_moved(old(board).grid(), a, pointer),
                    None => old(board).grid(),
                })
            },
        },
{
    match click {
        Some(pos) => {
            let piece = board.at(pos);
            if piece.is_some() && piece.unwrap().side == state.turn
                && state.active_piece.is_none() {
                state.active_piece = Some(pos);
            }
        },
        None => {
            if state.active_piece.is_some() {
                let active = state.active_piece.unwrap();
                board.mov(active, pointer);
                state.active_piece = None;
            }
        },
    }
}

} // verus!
