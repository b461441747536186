use chess_engine::board::Board;
use chess_engine::piece::{Piece, PieceType, Side};
use chess_engine::pos::{Pos, SignedPos};

#[test]
fn empty_board_has_no_pieces() {
    let board = Board::empty();
    for file in 0..8 {
        for rank in 0..8 {
            assert!(board.at(Pos::new(file, rank)).is_none());
        }
    }
}

#[test]
fn starting_position_white_back_rank() {
    let board = Board::starting();
    let king = board.at(Pos::new(4, 0)).unwrap();
    assert_eq!(king.piece_type, PieceType::King);
    assert_eq!(king.side, Side::White);
    let rook = board.at(Pos::new(0, 0)).unwrap();
    assert_eq!(rook.piece_type, PieceType::Rook);
    assert_eq!(rook.side, Side::White);
    let queen = board.at(Pos::new(3, 0)).unwrap();
    assert_eq!(queen.piece_type, PieceType::Queen);
    assert_eq!(queen.side, Side::White);
}

#[test]
fn starting_position_full_setup() {
    let board = Board::starting();
    let back = [
        PieceType::Rook,
        PieceType::Knight,
        PieceType::Bishop,
        PieceType::Queen,
        PieceType::King,
        PieceType::Bishop,
        PieceType::Knight,
        PieceType::Rook,
    ];
    for file in 0..8 {
        assert_eq!(board.at(Pos::new(file, 0)), Some(Piece::new(back[file], Side::White)));
        assert_eq!(
            board.at(Pos::new(file, 1)),
            Some(Piece::new(PieceType::Pawn, Side::White))
        );
        for rank in 2..6 {
            assert!(board.at(Pos::new(file, rank)).is_none());
        }
        assert_eq!(
            board.at(Pos::new(file, 6)),
            Some(Piece::new(PieceType::Pawn, Side::Black))
        );
        assert_eq!(board.at(Pos::new(file, 7)), Some(Piece::new(back[file], Side::Black)));
    }
}

#[test]
fn place_sets_and_overwrites() {
    let mut board = Board::empty();
    let pos = Pos::new(2, 5);
    board.place(Piece::new(PieceType::Knight, Side::White), pos);
    assert_eq!(board.at(pos), Some(Piece::new(PieceType::Knight, Side::White)));
    board.place(Piece::new(PieceType::Queen, Side::Black), pos);
    assert_eq!(board.at(pos), Some(Piece::new(PieceType::Queen, Side::Black)));
}

#[test]
fn remove_clears_a_square() {
    let mut board = Board::starting();
    board.remove(Pos::new(4, 0));
    assert!(board.at(Pos::new(4, 0)).is_none());
}

#[test]
fn from_ordinals_is_one_indexed() {
    assert_eq!(Pos::from_ordinals(1, 1), Pos::new(0, 0));
    assert_eq!(Pos::from_ordinals(8, 8), Pos::new(7, 7));
    assert_eq!(Pos::from_ordinals(5, 1), Pos::new(4, 0));
}

#[test]
fn signed_pos_validity() {
    assert!(SignedPos::new(0, 0).valid());
    assert!(SignedPos::new(7, 7).valid());
    assert!(!SignedPos::new(-1, 0).valid());
    assert!(!SignedPos::new(0, 8).valid());
    assert!(!SignedPos::new(8, 3).valid());
    assert!(!SignedPos::new(3, -2).valid());
}

#[test]
fn signed_pos_round_trip() {
    let pos = Pos::new(6, 2);
    let signed = SignedPos::from_pos(pos);
    assert_eq!(signed, SignedPos::new(6, 2));
    assert_eq!(signed.to_pos(), pos);
}

#[test]
fn side_flipped_is_involutive() {
    assert_eq!(Side::White.flipped(), Side::Black);
    assert_eq!(Side::Black.flipped(), Side::White);
    assert_eq!(Side::White.flipped().flipped(), Side::White);
}

#[test]
fn texture_index_by_side_and_kind() {
    assert_eq!(Piece::new(PieceType::Pawn, Side::White).texture_index(), (0, 0));
    assert_eq!(Piece::new(PieceType::King, Side::Black).texture_index(), (1, 5));
    assert_eq!(Piece::new(PieceType::Rook, Side::White).texture_index(), (0, 3));
    assert_eq!(Piece::new(PieceType::Bishop, Side::Black).texture_index(), (1, 2));
}
