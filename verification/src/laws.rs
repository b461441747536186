//! The engine's general laws, stated and proved once for all boards:
//! generated moves never land on an own piece and faithfully record
//! captures, ray scans never jump over an occupied square, the knight's
//! reach is a fixed set of at most eight squares independent of everything
//! but edge clipping and own-side occupancy, a same-square drop is a no-op,
//! and a move between two mutually reachable squares can be played back,
//! restoring the board.

use vstd::prelude::*;

use crate::apply::{apply_moved, has_dest};
use crate::board::{grid_at, grid_idx};
use crate::moves::{
    diagonal_moves, knight_moves, knight_probe_move, lateral_moves, line_moves, pawn_capture_move,
    pawn_forward_move, pawn_moves, piece_moves, pos_at, ray_moves, Move,
};
use crate::piece::{Piece, PieceType, Side};
use crate::pos::{on_board, Pos};

verus! {

/// A generated move is sound for a piece of `side` on grid `g`: its
/// destination is on the board, its capture field records exactly what the
/// board holds at the destination, and what it captures is never of `side`.
/// In particular a destination held by an own piece never appears.
pub open spec fn move_ok(g: Seq<Option<Piece>>, side: Side, m: Move) -> bool {
    &&& m.pos.wf()
    &&& m.capture == grid_at(g, m.pos.file as int, m.pos.rank as int)
    &&& (m.capture matches Some(q) ==> q.side != side)
}

/// Every move of `s` is sound for a piece of `side` on grid `g`.
pub open spec fn moves_ok(g: Seq<Option<Piece>>, side: Side, s: Seq<Move>) -> bool {
    forall|i: int| 0 <= i < s.len() ==> move_ok(g, side, #[trigger] s[i])
}

/// Soundness is preserved by concatenation.
proof fn lemma_moves_ok_concat(g: Seq<Option<Piece>>, side: Side, a: Seq<Move>, b: Seq<Move>)
    requires
        moves_ok(g, side, a),
        moves_ok(g, side, b),
    ensures
        moves_ok(g, side, a + b),
{
    assert forall|i: int| 0 <= i < (a + b).len() implies move_ok(g, side, (a + b)[i]) by {
        if i < a.len() {
            assert((a + b)[i] == a[i]);
        } else {
            assert((a + b)[i] == b[i - a.len()]);
        }
    }
}

/// Every move found by a ray scan is sound.
proof fn lemma_ray_moves_ok(
    g: Seq<Option<Piece>>,
    side: Side,
    f: int,
    r: int,
    df: int,
    dr: int,
    fuel: nat,
)
    ensures
        moves_ok(g, side, ray_moves(g, side, f, r, df, dr, fuel)),
    decreases fuel,
{
    if fuel > 0 {
        let nf = f + df;
        let nr = r + dr;
        if on_board(nf, nr) && grid_at(g, nf, nr) is None {
            lemma_ray_moves_ok(g, side, nf, nr, df, dr, (fuel - 1) as nat);
            let m = Move { pos: pos_at(nf, nr), capture: None };
            let rest = ray_moves(g, side, nf, nr, df, dr, (fuel - 1) as nat);
            assert forall|i: int|
                0 <= i < (seq![m] + rest).len() implies move_ok(g, side, (seq![m] + rest)[i]) by {
                if i == 0 {
                    assert((seq![m] + rest)[0] == m);
                } else {
                    assert((seq![m] + rest)[i] == rest[i - 1]);
                }
            }
        }
    }
}

/// Every move of a single line scan is sound for the side of the scanning
/// piece.
proof fn lemma_line_moves_ok(
    g: Seq<Option<Piece>>,
    side: Side,
    f: int,
    r: int,
    df: int,
    dr: int,
    extents: Option<usize>,
)
    requires
        grid_at(g, f, r) matches Some(p) && p.side == side,
    ensures
        moves_ok(g, side, line_moves(g, f, r, df, dr, extents)),
{
    lemma_ray_moves_ok(g, side, f, r, df, dr, crate::moves::scan_fuel(extents));
}

/// Every move generated for the piece at `(f, r)` is sound: the destination
/// is on the board, the capture field records exactly the board contents at
/// the destination, and no destination holds a piece of the mover's own
/// side.
///
/// This holds for every kind and every placement of the other pieces.
pub proof fn lemma_piece_moves_ok(g: Seq<Option<Piece>>, kind: PieceType, f: int, r: int)
    requires
        grid_at(g, f, r) is Some,
    ensures
        moves_ok(
            g,
            grid_at(g, f, r).unwrap().side,
            piece_moves(g, kind, f, r),
        ),
{
    let side = grid_at(g, f, r).unwrap().side;
    match kind {
        PieceType::Pawn => {
            lemma_pawn_moves_ok(g, f, r);
        },
        PieceType::Knight => {
            lemma_knight_moves_ok(g, f, r);
        },
        PieceType::Bishop => {
            lemma_diagonal_moves_ok(g, side, f, r, None);
        },
        PieceType::Rook => {
            lemma_lateral_moves_ok(g, side, f, r, None);
        },
        PieceType::Queen => {
            lemma_lateral_moves_ok(g, side, f, r, None);
            lemma_diagonal_moves_ok(g, side, f, r, None);
            lemma_moves_ok_concat(
                g,
                side,
                lateral_moves(g, f, r, None),
                diagonal_moves(g, f, r, None),
            );
        },
        PieceType::King => {
            lemma_lateral_moves_ok(g, side, f, r, Some(1));
            lemma_diagonal_moves_ok(g, side, f, r, Some(1));
            lemma_moves_ok_concat(
                g,
                side,
                lateral_moves(g, f, r, Some(1)),
                diagonal_moves(g, f, r, Some(1)),
            );
        },
    }
}

/// Every lateral (rook-direction) move is sound.
proof fn lemma_lateral_moves_ok(
    g: Seq<Option<Piece>>,
    side: Side,
    f: int,
    r: int,
    extents: Option<usize>,
)
    requires
        grid_at(g, f, r) matches Some(p) && p.side == side,
    ensures
        moves_ok(g, side, lateral_moves(g, f, r, extents)),
{
    lemma_line_moves_ok(g, side, f, r, 0, 1, extents);
    lemma_line_moves_ok(g, side, f, r, 0, -1, extents);
    lemma_line_moves_ok(g, side, f, r, 1, 0, extents);
    lemma_line_moves_ok(g, side, f, r, -1, 0, extents);
    lemma_moves_ok_concat(
        g,
        side,
        line_moves(g, f, r, 0, 1, extents),
        line_moves(g, f, r, 0, -1, extents),
    );
    lemma_moves_ok_concat(
        g,
        side,
        line_moves(g, f, r, 0, 1, extents) + line_moves(g, f, r, 0, -1, extents),
        line_moves(g, f, r, 1, 0, extents),
    );
    lemma_moves_ok_concat(
        g,
        side,
        line_moves(g, f, r, 0, 1, extents) + line_moves(g, f, r, 0, -1, extents) + line_moves(
            g,
            f,
            r,
            1,
            0,
            extents,
        ),
        line_moves(g, f, r, -1, 0, extents),
    );
}

/// Every diagonal (bishop-direction) move is sound.
proof fn lemma_diagonal_moves_ok(
    g: Seq<Option<Piece>>,
    side: Side,
    f: int,
    r: int,
    extents: Option<usize>,
)
    requires
        grid_at(g, f, r) matches Some(p) && p.side == side,
    ensures
        moves_ok(g, side, diagonal_moves(g, f, r, extents)),
{
    lemma_line_moves_ok(g, side, f, r, 1, 1, extents);
    lemma_line_moves_ok(g, side, f, r, 1, -1, extents);
    lemma_line_moves_ok(g, side, f, r, -1, -1, extents);
    lemma_line_moves_ok(g, side, f, r, -1, 1, extents);
    lemma_moves_ok_concat(
        g,
        side,
        line_moves(g, f, r, 1, 1, extents),
        line_moves(g, f, r, 1, -1, extents),
    );
    lemma_moves_ok_concat(
        g,
        side,
        line_moves(g, f, r, 1, 1, extents) + line_moves(g, f, r, 1, -1, extents),
        line_moves(g, f, r, -1, -1, extents),
    );
    lemma_moves_ok_concat(
        g,
        side,
        line_moves(g, f, r, 1, 1, extents) + line_moves(g, f, r, 1, -1, extents) + line_moves(
            g,
            f,
            r,
            -1,
            -1,
            extents,
        ),
        line_moves(g, f, r, -1, 1, extents),
    );
}

/// Every move of a single knight probe is sound.
proof fn lemma_knight_probe_ok(g: Seq<Option<Piece>>, side: Side, tf: int, tr: int)
    ensures
        moves_ok(g, side, knight_probe_move(g, side, tf, tr)),
{
    let probe = knight_probe_move(g, side, tf, tr);
    assert forall|i: int| 0 <= i < probe.len() implies move_ok(g, side, probe[i]) by {
        assert(probe[0] == probe[i]);
    }
}

/// Every knight move is sound.
proof fn lemma_knight_moves_ok(g: Seq<Option<Piece>>, f: int, r: int)
    requires
        grid_at(g, f, r) is Some,
    ensures
        moves_ok(g, grid_at(g, f, r).unwrap().side, knight_moves(g, f, r)),
{
    let side = grid_at(g, f, r).unwrap().side;
    lemma_knight_probe_ok(g, side, f - 1, r - 2);
    lemma_knight_probe_ok(g, side, f - 2, r - 1);
    lemma_knight_probe_ok(g, side, f - 2, r + 1);
    lemma_knight_probe_ok(g, side, f - 1, r + 2);
    lemma_knight_probe_ok(g, side, f + 1, r + 2);
    lemma_knight_probe_ok(g, side, f + 2, r + 1);
    lemma_knight_probe_ok(g, side, f + 2, r - 1);
    lemma_knight_probe_ok(g, side, f + 1, r - 2);
    let p1 = knight_probe_move(g, side, f - 1, r - 2);
    let p2 = knight_probe_move(g, side, f - 2, r - 1);
    let p3 = knight_probe_move(g, side, f - 2, r + 1);
    let p4 = knight_probe_move(g, side, f - 1, r + 2);
    let p5 = knight_probe_move(g, side, f + 1, r + 2);
    let p6 = knight_probe_move(g, side, f + 2, r + 1);
    let p7 = knight_probe_move(g, side, f + 2, r - 1);
    let p8 = knight_probe_move(g, side, f + 1, r - 2);
    lemma_moves_ok_concat(g, side, p1, p2);
    lemma_moves_ok_concat(g, side, p1 + p2, p3);
    lemma_moves_ok_concat(g, side, p1 + p2 + p3, p4);
    lemma_moves_ok_concat(g, side, p1 + p2 + p3 + p4, p5);
    lemma_moves_ok_concat(g, side, p1 + p2 + p3 + p4 + p5, p6);
    lemma_moves_ok_concat(g, side, p1 + p2 + p3 + p4 + p5 + p6, p7);
    lemma_moves_ok_concat(g, side, p1 + p2 + p3 + p4 + p5 + p6 + p7, p8);
}

/// Every pawn move is sound.
proof fn lemma_pawn_moves_ok(g: Seq<Option<Piece>>, f: int, r: int)
    requires
        grid_at(g, f, r) is Some,
    ensures
        moves_ok(g, grid_at(g, f, r).unwrap().side, pawn_moves(g, f, r)),
{
    let side = grid_at(g, f, r).unwrap().side;
    let r2 = crate::moves::pawn_forward_rank(side, r);
    let fwd = pawn_forward_move(g, f, r2);
    let c1 = pawn_capture_move(g, side, f - 1, r2);
    let c2 = pawn_capture_move(g, side, f + 1, r2);
    lemma_moves_ok_concat(g, side, fwd, c1);
    lemma_moves_ok_concat(g, side, fwd + c1, c2);
}

/// The shape of a ray scan's result: the moves are the consecutive steps
/// `1, 2, ...` along the direction, each on the board, each recording
/// exactly what the board holds there, and only the last move of the scan
/// can be a capture — every earlier step crossed an empty square.
pub proof fn lemma_ray_structure(
    g: Seq<Option<Piece>>,
    side: Side,
    f: int,
    r: int,
    df: int,
    dr: int,
    fuel: nat,
)
    ensures
        forall|i: int|
            0 <= i < ray_moves(g, side, f, r, df, dr, fuel).len() ==> {
                let m = #[trigger] ray_moves(g, side, f, r, df, dr, fuel)[i];
                &&& m.pos.wf()
                &&& m.pos.file as int == f + (i + 1) * df
                &&& m.pos.rank as int == r + (i + 1) * dr
                &&& m.capture == grid_at(g, m.pos.file as int, m.pos.rank as int)
                &&& (i < ray_moves(g, side, f, r, df, dr, fuel).len() - 1 ==> m.capture is None)
            },
    decreases fuel,
{
    if fuel > 0 {
        let nf = f + df;
        let nr = r + dr;
        let s = ray_moves(g, side, f, r, df, dr, fuel);
        if on_board(nf, nr) {
            match grid_at(g, nf, nr) {
                None => {
                    lemma_ray_structure(g, side, nf, nr, df, dr, (fuel - 1) as nat);
                    let m0 = Move { pos: pos_at(nf, nr), capture: None };
                    let rest = ray_moves(g, side, nf, nr, df, dr, (fuel - 1) as nat);
                    assert(s == seq![m0] + rest);
                    assert forall|i: int|
                        0 <= i < s.len() implies {
                        let m = #[trigger] s[i];
                        &&& m.pos.wf()
                        &&& m.pos.file as int == f + (i + 1) * df
                        &&& m.pos.rank as int == r + (i + 1) * dr
                        &&& m.capture == grid_at(g, m.pos.file as int, m.pos.rank as int)
                        &&& (i < s.len() - 1 ==> m.capture is None)
                    } by {
                        if i == 0 {
                            assert(s[0] == m0);
                            assert((0 + 1) * df == df) by (nonlinear_arith);
                            assert((0 + 1) * dr == dr) by (nonlinear_arith);
                        } else {
                            assert(s[i] == rest[i - 1]);
                            assert(((i - 1) + 1) * df == i * df);
                            assert(df + i * df == (i + 1) * df) by (nonlinear_arith);
                            assert(dr + i * dr == (i + 1) * dr) by (nonlinear_arith);
                        }
                    }
                },
                Some(p) => {
                    if p.side != side {
                        assert(s == seq![Move { pos: pos_at(nf, nr), capture: Some(p) }]);
                        assert((0 + 1) * df == df) by (nonlinear_arith);
                        assert((0 + 1) * dr == dr) by (nonlinear_arith);
                    }
                },
            }
        }
    }
}

/// A ray scan never jumps over a blocked square: if step `j` along the
/// direction is off the board or occupied, the scan stops at or before step
/// `j`, so no destination beyond it appears — the moves are exactly steps
/// `1` through the result's length.
pub proof fn lemma_ray_no_jump(
    g: Seq<Option<Piece>>,
    side: Side,
    f: int,
    r: int,
    df: int,
    dr: int,
    fuel: nat,
    j: int,
)
    requires
        1 <= j,
        !on_board(f + j * df, r + j * dr) || grid_at(g, f + j * df, r + j * dr) is Some,
    ensures
        ray_moves(g, side, f, r, df, dr, fuel).len() <= j,
{
    lemma_ray_structure(g, side, f, r, df, dr, fuel);
    let s = ray_moves(g, side, f, r, df, dr, fuel);
    if s.len() > j {
        let m = s[j - 1];
        assert(((j - 1) + 1) * df == j * df);
        assert(((j - 1) + 1) * dr == j * dr);
        assert(m.pos.file as int == f + j * df);
        assert(m.pos.rank as int == r + j * dr);
        assert(on_board(f + j * df, r + j * dr));
        assert(m.capture is None);
        assert(grid_at(g, f + j * df, r + j * dr) is None);
    }
}

/// Whether `(tf, tr)` is one knight jump away from `(f, r)`.
pub open spec fn knight_offset(f: int, r: int, tf: int, tr: int) -> bool {
    ||| (tf == f - 1 && tr == r - 2)
    ||| (tf == f - 2 && tr == r - 1)
    ||| (tf == f - 2 && tr == r + 1)
    ||| (tf == f - 1 && tr == r + 2)
    ||| (tf == f + 1 && tr == r + 2)
    ||| (tf == f + 2 && tr == r + 1)
    ||| (tf == f + 2 && tr == r - 1)
    ||| (tf == f + 1 && tr == r - 2)
}

/// A destination appears in a concatenation exactly when it appears in one
/// of the parts.
proof fn lemma_has_dest_concat(a: Seq<Move>, b: Seq<Move>, t: Pos)
    ensures
        has_dest(a + b, t) <==> (has_dest(a, t) || has_dest(b, t)),
{
    if has_dest(a + b, t) {
        let i = choose|i: int| 0 <= i < (a + b).len() && #[trigger] (a + b)[i].pos == t;
        if i < a.len() {
            assert(a[i].pos == t);
        } else {
            assert(b[i - a.len()].pos == t);
        }
    }
    if has_dest(a, t) {
        let i = choose|i: int| 0 <= i < a.len() && #[trigger] a[i].pos == t;
        assert((a + b)[i].pos == t);
    }
    if has_dest(b, t) {
        let i = choose|i: int| 0 <= i < b.len() && #[trigger] b[i].pos == t;
        assert((a + b)[a.len() + i].pos == t);
    }
}

/// A knight probe of `(tf, tr)` yields `t` as a destination exactly when
/// `t` is that square, the square is on the board, and it does not hold a
/// piece of the probing side.
proof fn lemma_knight_probe_has_dest(
    g: Seq<Option<Piece>>,
    side: Side,
    tf: int,
    tr: int,
    t: Pos,
)
    ensures
        has_dest(knight_probe_move(g, side, tf, tr), t) <==> (on_board(tf, tr) && t.file as int
            == tf && t.rank as int == tr && !(grid_at(g, tf, tr) matches Some(q) && q.side
            == side)),
{
    let probe = knight_probe_move(g, side, tf, tr);
    if probe.len() > 0 {
        assert(probe[0].pos == pos_at(tf, tr));
        if has_dest(probe, t) {
            let i = choose|i: int| 0 <= i < probe.len() && #[trigger] probe[i].pos == t;
            assert(probe[i] == probe[0]);
        }
        if on_board(tf, tr) && t.file as int == tf && t.rank as int == tr {
            assert(t == pos_at(tf, tr));
            assert(probe[0].pos == t);
        }
    }
}

/// The knight's move set never has more than eight entries, however the
/// other pieces stand.
pub proof fn lemma_knight_moves_count(g: Seq<Option<Piece>>, f: int, r: int)
    ensures
        knight_moves(g, f, r).len() <= 8,
{
    if grid_at(g, f, r) is Some {
        let side = grid_at(g, f, r).unwrap().side;
        assert(knight_probe_move(g, side, f - 1, r - 2).len() <= 1);
        assert(knight_probe_move(g, side, f - 2, r - 1).len() <= 1);
        assert(knight_probe_move(g, side, f - 2, r + 1).len() <= 1);
        assert(knight_probe_move(g, side, f - 1, r + 2).len() <= 1);
        assert(knight_probe_move(g, side, f + 1, r + 2).len() <= 1);
        assert(knight_probe_move(g, side, f + 2, r + 1).len() <= 1);
        assert(knight_probe_move(g, side, f + 2, r - 1).len() <= 1);
        assert(knight_probe_move(g, side, f + 1, r - 2).len() <= 1);
    }
}

/// The knight's destinations, characterized: `t` is reachable exactly when
/// it lies a knight jump away, on the board, and not on a piece of the
/// knight's own side. The set is therefore independent of the other
/// pieces' positions except for board-edge clipping and same-side
/// occupancy of the jump squares themselves — in particular, pieces on
/// intervening squares never block a knight.
pub proof fn lemma_knight_moves_complete(g: Seq<Option<Piece>>, f: int, r: int, t: Pos)
    requires
        grid_at(g, f, r) is Some,
    ensures
        has_dest(knight_moves(g, f, r), t) <==> (t.wf() && knight_offset(
            f,
            r,
            t.file as int,
            t.rank as int,
        ) && !(grid_at(g, t.file as int, t.rank as int) matches Some(q) && q.side == grid_at(
            g,
            f,
            r,
        ).unwrap().side)),
{
    let side = grid_at(g, f, r).unwrap().side;
    let p1 = knight_probe_move(g, side, f - 1, r - 2);
    let p2 = knight_probe_move(g, side, f - 2, r - 1);
    let p3 = knight_probe_move(g, side, f - 2, r + 1);
    let p4 = knight_probe_move(g, side, f - 1, r + 2);
    let p5 = knight_probe_move(g, side, f + 1, r + 2);
    let p6 = knight_probe_move(g, side, f + 2, r + 1);
    let p7 = knight_probe_move(g, side, f + 2, r - 1);
    let p8 = knight_probe_move(g, side, f + 1, r - 2);
    lemma_has_dest_concat(p1, p2, t);
    lemma_has_dest_concat(p1 + p2, p3, t);
    lemma_has_dest_concat(p1 + p2 + p3, p4, t);
    lemma_has_dest_concat(p1 + p2 + p3 + p4, p5, t);
    lemma_has_dest_concat(p1 + p2 + p3 + p4 + p5, p6, t);
    lemma_has_dest_concat(p1 + p2 + p3 + p4 + p5 + p6, p7, t);
    lemma_has_dest_concat(p1 + p2 + p3 + p4 + p5 + p6 + p7, p8, t);
    lemma_knight_probe_has_dest(g, side, f - 1, r - 2, t);
    lemma_knight_probe_has_dest(g, side, f - 2, r - 1, t);
    lemma_knight_probe_has_dest(g, side, f - 2, r + 1, t);
    lemma_knight_probe_has_dest(g, side, f - 1, r + 2, t);
    lemma_knight_probe_has_dest(g, side, f + 1, r + 2, t);
    lemma_knight_probe_has_dest(g, side, f + 2, r + 1, t);
    lemma_knight_probe_has_dest(g, side, f + 2, r - 1, t);
    lemma_knight_probe_has_dest(g, side, f + 1, r - 2, t);
}

/// Dropping a piece on its own square is a no-op: the board is unchanged,
/// whatever stands at `p` and everywhere else.
pub proof fn lemma_same_square_drop(g: Seq<Option<Piece>>, p: Pos)
    ensures
        apply_moved(g, p, p) == g,
{
}

/// Distinct squares have distinct grid indices.
proof fn lemma_grid_idx_injective(a: Pos, b: Pos)
    requires
        a.wf(),
        b.wf(),
        a != b,
    ensures
        grid_idx(a.file as int, a.rank as int) != grid_idx(b.file as int, b.rank as int),
{
}

/// Moving a piece between two mutually reachable squares is legal both
/// ways, and playing the move back restores the original occupancy of both
/// squares — indeed of the whole board. A move is not generally replayable
/// (the positions have shifted), but a round trip between an occupied and
/// an empty square is, as long as each end lies in the other's move set.
pub proof fn lemma_move_there_and_back(g: Seq<Option<Piece>>, a: Pos, c: Pos)
    requires
        g.len() == 64,
        a.wf(),
        c.wf(),
        a != c,
        grid_at(g, a.file as int, a.rank as int) is Some,
        grid_at(g, c.file as int, c.rank as int) is None,
        has_dest(
            piece_moves(
                g,
                grid_at(g, a.file as int, a.rank as int).unwrap().piece_type,
                a.file as int,
                a.rank as int,
            ),
            c,
        ),
        has_dest(
            piece_moves(
                apply_moved(g, a, c),
                grid_at(g, a.file as int, a.rank as int).unwrap().piece_type,
                c.file as int,
                c.rank as int,
            ),
            a,
        ),
    ensures
        apply_moved(apply_moved(g, a, c), c, a) == g,
{
    let p = grid_at(g, a.file as int, a.rank as int).unwrap();
    let ia = grid_idx(a.file as int, a.rank as int);
    let ic = grid_idx(c.file as int, c.rank as int);
    lemma_grid_idx_injective(a, c);
    let g2 = apply_moved(g, a, c);
    assert(g2 == g.update(ic, Some(p)).update(ia, None));
    assert(grid_at(g2, c.file as int, c.rank as int) == Some(p));
    let g3 = apply_moved(g2, c, a);
    assert(g3 == g2.update(ia, Some(p)).update(ic, None));
    assert(g3 =~= g);
}

} // verus!
