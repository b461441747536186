//! Legal-move generation: for a piece at a square, the sequence of reachable
//! destinations, each tagged with the captured piece if the destination holds
//! an opposing piece.
//!
//! Sliding pieces (rook, bishop, queen) and the king share one primitive, the
//! ray scan: step repeatedly in a fixed direction, include empty squares as
//! quiet moves, include the first opposing piece as a capture and stop, stop
//! short of own pieces and the board edge, and optionally stop after a bound
//! on the number of steps. The knight probes its eight fixed offsets, and the
//! pawn steps forward onto an empty square or captures diagonally forward.

use vstd::prelude::*;

use crate::board::{grid_at, Board};
use crate::piece::{Piece, PieceType, Side};
use crate::pos::{on_board, Pos, SignedPos};

verus! {

/// A legal destination, tagged with the piece captured there, if any.
#[derive(Debug, Copy, Clone)]
pub struct Move {
    pub pos: Pos,
    pub capture: Option<Piece>,
}

impl Move {
    pub fn new(pos: Pos, capture: Option<Piece>) -> (r: Move)
        ensures
            r.pos == pos,
            r.capture == capture,
    {
        Move { pos, capture }
    }
}

/// The position with the given coordinates, which must be on the board.
pub open spec fn pos_at(f: int, r: int) -> Pos {
    Pos { file: f as usize, rank: r as usize }
}

/// How many steps a ray scan may take: `extents` steps when bounded, and
/// otherwise 8, which no scan ever exhausts, since at most 7 steps stay on
/// the board.
pub open spec fn scan_fuel(extents: Option<usize>) -> nat {
    match extents {
        Some(e) => if e < 8 {
            e as nat
        } else {
            8
        },
        None => 8,
    }
}

/// The moves found by a ray scan of at most `fuel` steps from `(f, r)` in
/// direction `(df, dr)`, for a piece of side `side`: one quiet move per empty
/// square until the scan leaves the board, reaches a piece of `side`
/// (excluded), or reaches an opposing piece (included as a capture).
pub open spec fn ray_moves(
    g: Seq<Option<Piece>>,
    side: Side,
    f: int,
    r: int,
    df: int,
    dr: int,
    fuel: nat,
) -> Seq<Move>
    decreases fuel,
{
    if fuel == 0 {
        Seq::empty()
    } else {
        let nf = f + df;
        let nr = r + dr;
        if !on_board(nf, nr) {
            Seq::empty()
        } else {
            match grid_at(g, nf, nr) {
                None => seq![Move { pos: pos_at(nf, nr), capture: None }] + ray_moves(
                    g,
                    side,
                    nf,
                    nr,
                    df,
                    dr,
                    (fuel - 1) as nat,
                ),
                Some(p) => if p.side == side {
                    Seq::empty()
                } else {
                    seq![Move { pos: pos_at(nf, nr), capture: Some(p) }]
                },
            }
        }
    }
}

/// The moves of a single ray scan from the square of the scanning piece:
/// the piece at `(f, r)` fixes the side, and `extents` optionally bounds the
/// number of steps.
pub open spec fn line_moves(
    g: Seq<Option<Piece>>,
    f: int,
    r: int,
    df: int,
    dr: int,
    extents: Option<usize>,
) -> Seq<Move> {
    match grid_at(g, f, r) {
        Some(p) => ray_moves(g, p.side, f, r, df, dr, scan_fuel(extents)),
        None => Seq::empty(),
    }
}

/// Ray scans in the four orthogonal directions: north, south, east, west.
pub open spec fn lateral_moves(
    g: Seq<Option<Piece>>,
    f: int,
    r: int,
    extents: Option<usize>,
) -> Seq<Move> {
    line_moves(g, f, r, 0, 1, extents) + line_moves(g, f, r, 0, -1, extents) + line_moves(
        g,
        f,
        r,
        1,
        0,
        extents,
    ) + line_moves(g, f, r, -1, 0, extents)
}

/// Ray scans in the four diagonal directions: NE, SE, SW, NW.
pub open spec fn diagonal_moves(
    g: Seq<Option<Piece>>,
    f: int,
    r: int,
    extents: Option<usize>,
) -> Seq<Move> {
    line_moves(g, f, r, 1, 1, extents) + line_moves(g, f, r, 1, -1, extents) + line_moves(
        g,
        f,
        r,
        -1,
        -1,
        extents,
    ) + line_moves(g, f, r, -1, 1, extents)
}

/// A knight probe of the single square `(tf, tr)`: a quiet move if the
/// square is on the board and empty, a capture if it holds an opposing
/// piece, and nothing otherwise. The knight ignores occupancy along the way
/// by construction.
pub open spec fn knight_probe_move(g: Seq<Option<Piece>>, side: Side, tf: int, tr: int) -> Seq<
    Move,
> {
    if !on_board(tf, tr) {
        Seq::empty()
    } else {
        match grid_at(g, tf, tr) {
            None => seq![Move { pos: pos_at(tf, tr), capture: None }],
            Some(p) => if p.side != side {
                seq![Move { pos: pos_at(tf, tr), capture: Some(p) }]
            } else {
                Seq::empty()
            },
        }
    }
}

/// The knight's moves from `(f, r)`: its eight fixed offsets, probed in a
/// fixed order, clipped to the board, and filtered of squares held by its
/// own side.
pub open spec fn knight_moves(g: Seq<Option<Piece>>, f: int, r: int) -> Seq<Move> {
    match grid_at(g, f, r) {
        None => Seq::empty(),
        Some(p) => knight_probe_move(g, p.side, f - 1, r - 2) + knight_probe_move(
            g,
            p.side,
            f - 2,
            r - 1,
        ) + knight_probe_move(g, p.side, f - 2, r + 1) + knight_probe_move(g, p.side, f - 1, r + 2)
            + knight_probe_move(g, p.side, f + 1, r + 2) + knight_probe_move(
            g,
            p.side,
            f + 2,
            r + 1,
        ) + knight_probe_move(g, p.side, f + 2, r - 1) + knight_probe_move(g, p.side, f + 1, r - 2),
    }
}

/// A pawn's forward step onto `(f, r2)`: a quiet move only if that square is
/// on the board and empty.
pub open spec fn pawn_forward_move(g: Seq<Option<Piece>>, f: int, r2: int) -> Seq<Move> {
    if on_board(f, r2) && grid_at(g, f, r2) is None {
        seq![Move { pos: pos_at(f, r2), capture: None }]
    } else {
        Seq::empty()
    }
}

/// A pawn's diagonal capture of `(tf, tr)`: a capture only if that square is
/// on the board and holds an opposing piece.
pub open spec fn pawn_capture_move(g: Seq<Option<Piece>>, side: Side, tf: int, tr: int) -> Seq<
    Move,
> {
    if on_board(tf, tr) && (grid_at(g, tf, tr) matches Some(p) && p.side != side) {
        seq![Move { pos: pos_at(tf, tr), capture: grid_at(g, tf, tr) }]
    } else {
        Seq::empty()
    }
}

/// The rank one step ahead of a pawn of `side` standing on rank `r`.
pub open spec fn pawn_forward_rank(side: Side, r: int) -> int {
    match side {
        Side::White => r + 1,
        Side::Black => r - 1,
    }
}

/// The pawn's moves from `(f, r)`: a single forward step onto an empty
/// square (no double step, no en passant), then the two diagonal-forward
/// captures.
pub open spec fn pawn_moves(g: Seq<Option<Piece>>, f: int, r: int) -> Seq<Move> {
    match grid_at(g, f, r) {
        None => Seq::empty(),
        Some(p) => {
            let r2 = pawn_forward_rank(p.side, r);
            pawn_forward_move(g, f, r2) + pawn_capture_move(g, p.side, f - 1, r2)
                + pawn_capture_move(g, p.side, f + 1, r2)
        },
    }
}

/// The moves of a piece of kind `kind` standing at `(f, r)`: the sliding
/// kinds scan rays, the king scans rays bounded to one step, and the knight
/// and pawn use their own rules. The side is that of the piece on the board
/// at `(f, r)`.
pub open spec fn piece_moves(g: Seq<Option<Piece>>, kind: PieceType, f: int, r: int) -> Seq<
    Move,
> {
    match kind {
        PieceType::Pawn => pawn_moves(g, f, r),
        PieceType::Knight => knight_moves(g, f, r),
        PieceType::Bishop => diagonal_moves(g, f, r, None),
        PieceType::Rook => lateral_moves(g, f, r, None),
        PieceType::Queen => lateral_moves(g, f, r, None) + diagonal_moves(g, f, r, None),
        PieceType::King => lateral_moves(g, f, r, Some(1)) + diagonal_moves(g, f, r, Some(1)),
    }
}

impl Board {
    /// Scans one ray from `pos` in direction `variant`, optionally bounded to
    /// `extents` steps, and returns the moves found, in step order.
    pub fn test_line(
        self: &Board,
        pos: Pos,
        variant: SignedPos,
        extents: Option<usize>,
    ) -> (r: Vec<Move>)
        requires
            self.wf(),
            pos.wf(),
            self.spec_at(pos) is Some,
            variant.file + 7 <= i32::MAX,
            variant.rank + 7 <= i32::MAX,
        ensures
            r@ == line_moves(
                self.grid(),
                pos.file as int,
                pos.rank as int,
                variant.file as int,
                variant.rank as int,
                extents,
            ),
    {
        let side = self.at(pos).unwrap().side;
        let mut mvec: Vec<Move> = Vec::new();
        let mut vpos = SignedPos::from_pos(pos);
        let fuel: usize = match extents {
            Some(e) => if e < 8 {
                e
            } else {
                8
            },
            None => 8,
        };
        let ghost lm = line_moves(
            self.grid(),
            pos.file as int,
            pos.rank as int,
            variant.file as int,
            variant.rank as int,
            extents,
        );
        proof {
            assert(Seq::<Move>::empty() + ray_moves(
                self.grid(),
                side,
                pos.file as int,
                pos.rank as int,
                variant.file as int,
                variant.rank as int,
                fuel as nat,
            ) =~= ray_moves(
                self.grid(),
                side,
                pos.file as int,
                pos.rank as int,
                variant.file as int,
                variant.rank as int,
                fuel as nat,
            ));
        }
        let mut len: usize = 0;
        while len < fuel
            invariant
                self.wf(),
                on_board(vpos.file as int, vpos.rank as int),
                len <= fuel,
                fuel == scan_fuel(extents),
                variant.file + 7 <= i32::MAX,
                variant.rank + 7 <= i32::MAX,
                line_moves(
                    self.grid(),
                    pos.file as int,
                    pos.rank as int,
                    variant.file as int,
                    variant.rank as int,
                    extents,
                ) == mvec@ + ray_moves(
                    self.grid(),
                    side,
                    vpos.file as int,
                    vpos.rank as int,
                    variant.file as int,
                    variant.rank as int,
                    (fuel - len) as nat,
                ),
            decreases fuel - len,
        {
            let ghost pre = mvec@;
            let ghost rem = (fuel - len) as nat;
            let ghost rest = ray_moves(
                self.grid(),
                side,
                vpos.file as int,
                vpos.rank as int,
                variant.file as int,
                variant.rank as int,
                rem,
            );
            let next = SignedPos::new(vpos.file + variant.file, vpos.rank + variant.rank);
            len += 1;
            if !next.valid() {
                proof {
                    assert(rest =~= Seq::<Move>::empty());
                    assert(pre + rest =~= mvec@);
                }
                return mvec;
            }
            let npos = next.to_pos();
            let piece = self.at(npos);
            if piece.is_some() {
                let piece = piece.unwrap();
                if piece.side != side {
                    mvec.push(Move::new(npos, Some(piece)));
                    proof {
                        assert(rest =~= seq![Move { pos: npos, capture: Some(piece) }]);
                        assert(pre + rest =~= mvec@);
                    }
                } else {
                    proof {
                        assert(rest =~= Seq::<Move>::empty());
                        assert(pre + rest =~= mvec@);
                    }
                }
                return mvec;
            }
            mvec.push(Move::new(npos, None));
            proof {
                let tail = ray_moves(
                    self.grid(),
                    side,
                    next.file as int,
                    next.rank as int,
                    variant.file as int,
                    variant.rank as int,
                    (rem - 1) as nat,
                );
                assert(rest =~= seq![Move { pos: npos, capture: None }] + tail);
                assert(mvec@ =~= pre + seq![Move { pos: npos, capture: None }]);
                assert(pre + rest =~= mvec@ + tail);
            }
            vpos = next;
        }
        proof {
            assert(mvec@ + ray_moves(
                self.grid(),
                side,
                vpos.file as int,
                vpos.rank as int,
                variant.file as int,
                variant.rank as int,
                0,
            ) =~= mvec@);
        }
        mvec
    }

    /// Ray scans in the four orthogonal directions, in the order north,
    /// south, east, west.
    pub fn move_squares_lateral(self: &Board, pos: Pos, extents: Option<usize>) -> (r: Vec<Move>)
        requires
            self.wf(),
            pos.wf(),
            self.spec_at(pos) is Some,
        ensures
            r@ == lateral_moves(self.grid(), pos.file as int, pos.rank as int, extents),
    {
        let mut mvec = self.test_line(pos, SignedPos::new(0, 1), extents);
        let mut south = self.test_line(pos, SignedPos::new(0, -1), extents);
        mvec.append(&mut south);
        let mut east = self.test_line(pos, SignedPos::new(1, 0), extents);
        mvec.append(&mut east);
        let mut west = self.test_line(pos, SignedPos::new(-1, 0), extents);
        mvec.append(&mut west);
        mvec
    }

    /// Ray scans in the four diagonal directions, in the order NE, SE, SW,
    /// NW.
    pub fn move_squares_diagonal(self: &Board, pos: Pos, extents: Option<usize>) -> (r: Vec<Move>)
        requires
            self.wf(),
            pos.wf(),
            self.spec_at(pos) is Some,
        ensures
            r@ == diagonal_moves(self.grid(), pos.file as int, pos.rank as int, extents),
    {
        let mut mvec = self.test_line(pos, SignedPos::new(1, 1), extents);
        let mut se = self.test_line(pos, SignedPos::new(1, -1), extents);
        mvec.append(&mut se);
        let mut sw = self.test_line(pos, SignedPos::new(-1, -1), extents);
        mvec.append(&mut sw);
        let mut nw = self.test_line(pos, SignedPos::new(-1, 1), extents);
        mvec.append(&mut nw);
        mvec
    }

    /// Probes one knight offset `(df, dr)` from `pos` and appends the move
    /// found there, if any.
    fn knight_probe(self: &Board, side: Side, pos: Pos, df: i32, dr: i32, mvec: &mut Vec<Move>)
        requires
            self.wf(),
            pos.wf(),
            -2 <= df <= 2,
            -2 <= dr <= 2,
        ensures
            final(mvec)@ == old(mvec)@ + knight_probe_move(
                self.grid(),
                side,
                pos.file as int + df,
                pos.rank as int + dr,
            ),
    {
        let npos = SignedPos::new(pos.file as i32 + df, pos.rank as i32 + dr);
        let ghost probe = knight_probe_move(
            self.grid(),
            side,
            pos.file as int + df,
            pos.rank as int + dr,
        );
        if npos.valid() {
            let target = npos.to_pos();
            let piece = self.at(target);
            if piece.is_some() {
                let piece = piece.unwrap();
                if piece.side != side {
                    mvec.push(Move::new(target, Some(piece)));
                    proof {
                        assert(old(mvec)@ + probe =~= mvec@);
                    }
                } else {
                    proof {
                        assert(old(mvec)@ + probe =~= mvec@);
                    }
                }
            } else {
                mvec.push(Move::new(target, None));
                proof {
                    assert(old(mvec)@ + probe =~= mvec@);
                }
            }
        } else {
            proof {
                assert(old(mvec)@ + probe =~= mvec@);
            }
        }
    }

    /// The knight's moves from `pos`: its eight jump squares, clipped to the
    /// board and filtered of squares held by its own side.
    pub fn move_squares_knight(self: &Board, pos: Pos) -> (r: Vec<Move>)
        requires
            self.wf(),
            pos.wf(),
            self.spec_at(pos) is Some,
        ensures
            r@ == knight_moves(self.grid(), pos.file as int, pos.rank as int),
    {
        let side = self.at(pos).unwrap().side;
        let mut mvec: Vec<Move> = Vec::new();
        self.knight_probe(side, pos, -1, -2, &mut mvec);
        self.knight_probe(side, pos, -2, -1, &mut mvec);
        self.knight_probe(side, pos, -2, 1, &mut mvec);
        self.knight_probe(side, pos, -1, 2, &mut mvec);
        self.knight_probe(side, pos, 1, 2, &mut mvec);
        self.knight_probe(side, pos, 2, 1, &mut mvec);
        self.knight_probe(side, pos, 2, -1, &mut mvec);
        self.knight_probe(side, pos, 1, -2, &mut mvec);
        proof {
            assert(mvec@ =~= knight_moves(self.grid(), pos.file as int, pos.rank as int));
        }
        mvec
    }

    /// Probes one diagonal-forward square for a pawn of `side` and appends
    /// the capture found there, if any.
    fn pawn_capture_probe(self: &Board, side: Side, target: SignedPos, mvec: &mut Vec<Move>)
        requires
            self.wf(),
        ensures
            final(mvec)@ == old(mvec)@ + pawn_capture_move(
                self.grid(),
                side,
                target.file as int,
                target.rank as int,
            ),
    {
        let ghost probe = pawn_capture_move(
            self.grid(),
            side,
            target.file as int,
            target.rank as int,
        );
        if target.valid() {
            let tpos = target.to_pos();
            let piece = self.at(tpos);
            if piece.is_some() {
                let piece = piece.unwrap();
                if piece.side != side {
                    mvec.push(Move::new(tpos, Some(piece)));
                    proof {
                        assert(old(mvec)@ + probe =~= mvec@);
                    }
                    return ;
                }
            }
        }
        proof {
            assert(old(mvec)@ + probe =~= mvec@);
        }
    }

    /// The pawn's moves from `pos`: a single forward step onto an empty
    /// square, then the two diagonal-forward captures.
    pub fn move_squares_pawn(self: &Board, pos: Pos) -> (r: Vec<Move>)
        requires
            self.wf(),
            pos.wf(),
            self.spec_at(pos) is Some,
        ensures
            r@ == pawn_moves(self.grid(), pos.file as int, pos.rank as int),
    {
        let side = self.at(pos).unwrap().side;
        let mut mvec: Vec<Move> = Vec::new();
        let fwd = match side {
            Side::White => SignedPos::new(pos.file as i32, pos.rank as i32 + 1),
            Side::Black => SignedPos::new(pos.file as i32, pos.rank as i32 - 1),
        };
        if fwd.valid() && self.at(fwd.to_pos()).is_none() {
            mvec.push(Move::new(fwd.to_pos(), None));
        }
        proof {
            assert(mvec@ =~= pawn_forward_move(
                self.grid(),
                pos.file as int,
                pawn_forward_rank(side, pos.rank as int),
            ));
        }
        self.pawn_capture_probe(side, SignedPos::new(fwd.file - 1, fwd.rank), &mut mvec);
        self.pawn_capture_probe(side, SignedPos::new(fwd.file + 1, fwd.rank), &mut mvec);
        proof {
            assert(mvec@ =~= pawn_moves(self.grid(), pos.file as int, pos.rank as int));
        }
        mvec
    }

    /// The legal destinations of `piece` standing at `pos`, dispatched on
    /// its kind.
    pub fn move_squares(self: &Board, piece: Piece, pos: Pos) -> (r: Vec<Move>)
        requires
            self.wf(),
            pos.wf(),
            self.spec_at(pos) is Some,
        ensures
            r@ == piece_moves(self.grid(), piece.piece_type, pos.file as int, pos.rank as int),
    {
        match piece.piece_type {
            PieceType::Pawn => self.move_squares_pawn(pos),
            PieceType::Knight => self.move_squares_knight(pos),
            PieceType::Bishop => self.move_squares_diagonal(pos, None),
            PieceType::Rook => self.move_squares_lateral(pos, None),
            PieceType::Queen => {
                let mut lateral = self.move_squares_lateral(pos, None);
                let mut diagonal = self.move_squares_diagonal(pos, None);
                lateral.append(&mut diagonal);
                lateral
            },
            PieceType::King => {
                let mut lateral = self.move_squares_lateral(pos, Some(1));
                let mut diagonal = self.move_squares_diagonal(pos, Some(1));
                lateral.append(&mut diagonal);
                lateral
            },
        }
    }
}

} // verus!
