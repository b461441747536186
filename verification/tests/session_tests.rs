use chess_engine::board::Board;
use chess_engine::piece::{Piece, PieceType, Side};
use chess_engine::pos::Pos;
use chess_engine::session::{update, ControlState};

fn snapshot(board: &Board) -> Vec<Option<Piece>> {
    let mut cells = Vec::new();
    for file in 0..8 {
        for rank in 0..8 {
            cells.push(board.at(Pos::new(file, rank)));
        }
    }
    cells
}

#[test]
fn press_on_own_piece_picks_it_up() {
    let mut board = Board::empty();
    board.place(Piece::new(PieceType::Rook, Side::White), Pos::new(3, 3));
    let mut state = ControlState { active_piece: None, turn: Side::White };
    update(&mut board, &mut state, Some(Pos::new(3, 3)), Pos::new(3, 3));
    assert_eq!(state.active_piece, Some(Pos::new(3, 3)));
    assert_eq!(state.turn, Side::White);
}

#[test]
fn press_on_empty_square_does_nothing() {
    let mut board = Board::empty();
    board.place(Piece::new(PieceType::Rook, Side::White), Pos::new(3, 3));
    let mut state = ControlState { active_piece: None, turn: Side::White };
    update(&mut board, &mut state, Some(Pos::new(5, 5)), Pos::new(5, 5));
    assert_eq!(state.active_piece, None);
}

#[test]
fn press_on_opponent_piece_does_nothing() {
    let mut board = Board::empty();
    board.place(Piece::new(PieceType::Rook, Side::Black), Pos::new(3, 3));
    let mut state = ControlState { active_piece: None, turn: Side::White };
    update(&mut board, &mut state, Some(Pos::new(3, 3)), Pos::new(3, 3));
    assert_eq!(state.active_piece, None);
}

#[test]
fn press_while_holding_keeps_the_selection() {
    let mut board = Board::empty();
    board.place(Piece::new(PieceType::Rook, Side::White), Pos::new(3, 3));
    board.place(Piece::new(PieceType::Knight, Side::White), Pos::new(6, 6));
    let mut state = ControlState { active_piece: None, turn: Side::White };
    update(&mut board, &mut state, Some(Pos::new(3, 3)), Pos::new(3, 3));
    update(&mut board, &mut state, Some(Pos::new(6, 6)), Pos::new(6, 6));
    assert_eq!(state.active_piece, Some(Pos::new(3, 3)));
}

#[test]
fn release_applies_the_move_and_returns_to_idle() {
    let mut board = Board::empty();
    let rook = Piece::new(PieceType::Rook, Side::White);
    board.place(rook, Pos::new(3, 3));
    let mut state = ControlState { active_piece: None, turn: Side::White };
    update(&mut board, &mut state, Some(Pos::new(3, 3)), Pos::new(3, 3));
    update(&mut board, &mut state, None, Pos::new(3, 6));
    assert_eq!(state.active_piece, None);
    assert!(board.at(Pos::new(3, 3)).is_none());
    assert_eq!(board.at(Pos::new(3, 6)), Some(rook));
}

#[test]
fn release_on_illegal_square_leaves_board_unchanged() {
    let mut board = Board::empty();
    board.place(Piece::new(PieceType::Rook, Side::White), Pos::new(3, 3));
    let before = snapshot(&board);
    let mut state = ControlState { active_piece: None, turn: Side::White };
    update(&mut board, &mut state, Some(Pos::new(3, 3)), Pos::new(3, 3));
    update(&mut board, &mut state, None, Pos::new(4, 6));
    assert_eq!(state.active_piece, None);
    assert_eq!(snapshot(&board), before);
}

#[test]
fn release_on_the_same_square_cancels() {
    let mut board = Board::starting();
    let before = snapshot(&board);
    let mut state = ControlState { active_piece: None, turn: Side::White };
    update(&mut board, &mut state, Some(Pos::new(4, 1)), Pos::new(4, 1));
    update(&mut board, &mut state, None, Pos::new(4, 1));
    assert_eq!(state.active_piece, None);
    assert_eq!(snapshot(&board), before);
}

#[test]
fn release_while_idle_does_nothing() {
    let mut board = Board::starting();
    let before = snapshot(&board);
    let mut state = ControlState { active_piece: None, turn: Side::White };
    update(&mut board, &mut state, None, Pos::new(0, 0));
    assert_eq!(state.active_piece, None);
    assert_eq!(snapshot(&board), before);
}

#[test]
fn turn_is_not_advanced_after_a_move() {
    // Known limitation, kept deliberately: the side to move never changes.
    let mut board = Board::empty();
    board.place(Piece::new(PieceType::Rook, Side::White), Pos::new(3, 3));
    board.place(Piece::new(PieceType::Knight, Side::White), Pos::new(6, 6));
    let mut state = ControlState { active_piece: None, turn: Side::White };
    update(&mut board, &mut state, Some(Pos::new(3, 3)), Pos::new(3, 3));
    update(&mut board, &mut state, None, Pos::new(3, 6));
    assert_eq!(state.turn, Side::White);
    update(&mut board, &mut state, Some(Pos::new(6, 6)), Pos::new(6, 6));
    assert_eq!(state.active_piece, Some(Pos::new(6, 6)));
}

#[test]
fn capture_through_the_session() {
    let mut board = Board::empty();
    let queen = Piece::new(PieceType::Queen, Side::White);
    board.place(queen, Pos::new(0, 0));
    board.place(Piece::new(PieceType::Pawn, Side::Black), Pos::new(5, 5));
    let mut state = ControlState { active_piece: None, turn: Side::White };
    update(&mut board, &mut state, Some(Pos::new(0, 0)), Pos::new(0, 0));
    update(&mut board, &mut state, None, Pos::new(5, 5));
    assert_eq!(board.at(Pos::new(5, 5)), Some(queen));
    assert!(board.at(Pos::new(0, 0)).is_none());
}
