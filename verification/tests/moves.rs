use rust_chess::board::{build_starting_board, Board};
use rust_chess::error::{ChessError, MoveOutcome};
use rust_chess::notation::chess_notation_to_array_notation;
use rust_chess::piece::{Color, Piece, PieceType};
use rust_chess::position::MoveClass;

fn empty_board() -> Board {
    Board {
        board: [[None; 8]; 8],
        turn: Color::White,
        turn_number: 0,
        can_en_pessant: [None, None],
        strict_turns: false,
        reset_en_passant_on_reject: false,
    }
}

fn put(board: &mut Board, name: &str, kind: PieceType, color: Color) {
    let (rank, file) = chess_notation_to_array_notation(name).unwrap();
    board.board[rank][file] = Some(Piece { piece_type: kind, color });
}

fn at(board: &Board, name: &str) -> Option<Piece> {
    let (rank, file) = chess_notation_to_array_notation(name).unwrap();
    board.board[rank][file]
}

fn piece(kind: PieceType, color: Color) -> Option<Piece> {
    Some(Piece { piece_type: kind, color })
}

fn count(board: &Board) -> usize {
    board.board.iter().flatten().filter(|cell| cell.is_some()).count()
}

#[test]
fn new_game_is_the_starting_position() {
    let board = Board::default();
    assert_eq!(board.turn, Color::White);
    assert_eq!(board.turn_number, 0);
    assert_eq!(board.can_en_pessant, [None, None]);
    assert!(!board.strict_turns);
    assert!(!board.reset_en_passant_on_reject);
    assert_eq!(board.board, build_starting_board());
    assert_eq!(count(&board), 32);
}

#[test]
fn starting_board_has_every_piece_in_place() {
    let grid = build_starting_board();
    let back = [
        PieceType::Rook(false),
        PieceType::Knight,
        PieceType::Bishop,
        PieceType::Queen,
        PieceType::King(false),
        PieceType::Bishop,
        PieceType::Knight,
        PieceType::Rook(false),
    ];
    for file in 0..8 {
        assert_eq!(grid[0][file], piece(back[file], Color::Black));
        assert_eq!(grid[1][file], piece(PieceType::Pawn(false), Color::Black));
        for rank in 2..6 {
            assert_eq!(grid[rank][file], None);
        }
        assert_eq!(grid[6][file], piece(PieceType::Pawn(false), Color::White));
        assert_eq!(grid[7][file], piece(back[file], Color::White));
    }
}

#[test]
fn starting_grid_can_be_put_back() {
    let mut board = Board::default();
    assert_eq!(board.select_move_chess_notation("e2", "e4", None), Ok(MoveOutcome::Accepted));
    board.turn_number = 9;
    board.build_starting_board();
    assert_eq!(board.board, build_starting_board());
    assert_eq!(board.turn_number, 9);
}

#[test]
fn pawn_double_step_is_legal_once() {
    let mut board = Board::default();
    assert_eq!(board.check_legal_move_chess_notation("e2", "e4"), Ok(true));
    assert_eq!(board.select_move_chess_notation("e2", "e4", None), Ok(MoveOutcome::Accepted));
    assert_eq!(at(&board, "e4"), piece(PieceType::Pawn(true), Color::White));
    assert_eq!(at(&board, "e2"), None);
    // The pawn has moved: two ranks are out of reach, one rank is not.
    assert_eq!(board.check_legal_move_chess_notation("e4", "e6"), Ok(false));
    assert_eq!(board.check_legal_move_chess_notation("e4", "e5"), Ok(true));
    assert_eq!(board.select_move_chess_notation("e4", "e6", None), Ok(MoveOutcome::Rejected));
    assert_eq!(at(&board, "e4"), piece(PieceType::Pawn(true), Color::White));
}

#[test]
fn legality_needs_a_piece_on_the_origin() {
    let board = Board::default();
    assert_eq!(board.check_legal_move_chess_notation("e4", "e5"), Ok(false));
    assert!(!board.check_legal_move((3, 3), (3, 4)));
}

#[test]
fn legality_needs_reach() {
    let board = Board::default();
    assert_eq!(board.check_legal_move_chess_notation("b1", "b3"), Ok(false));
    assert_eq!(board.check_legal_move_chess_notation("b1", "c3"), Ok(true));
    assert_eq!(board.check_legal_move_chess_notation("b1", "a3"), Ok(true));
    assert_eq!(board.check_legal_move_chess_notation("e2", "e5"), Ok(false));
}

#[test]
fn own_piece_on_the_destination_is_illegal() {
    let board = Board::default();
    assert_eq!(board.check_legal_move_chess_notation("a1", "a2"), Ok(false));
    assert_eq!(board.check_legal_move_chess_notation("b1", "d2"), Ok(false));
    assert_eq!(board.check_legal_move_chess_notation("e1", "e2"), Ok(false));
    assert_eq!(board.check_legal_move_chess_notation("e2", "e2"), Ok(false));
}

#[test]
fn enemy_piece_on_the_destination_is_legal() {
    let mut board = empty_board();
    put(&mut board, "d3", PieceType::Rook(true), Color::White);
    put(&mut board, "d7", PieceType::Pawn(false), Color::Black);
    assert_eq!(board.check_legal_move_chess_notation("d3", "d7"), Ok(true));
    put(&mut board, "d5", PieceType::Knight, Color::Black);
    assert_eq!(board.check_legal_move_chess_notation("d3", "d7"), Ok(false));
    assert_eq!(board.check_legal_move_chess_notation("d3", "d5"), Ok(true));
}

#[test]
fn legality_by_name_rejects_bad_names() {
    let board = Board::default();
    assert_eq!(board.check_legal_move_chess_notation("e9", "e4"), Err(ChessError::InvalidNotation));
    assert_eq!(board.check_legal_move_chess_notation("e2", "j4"), Err(ChessError::InvalidNotation));
    assert_eq!(board.check_legal_move_chess_notation("e", "e4"), Err(ChessError::InvalidNotation));
}

#[test]
fn capture_removes_the_enemy_piece() {
    let mut board = empty_board();
    put(&mut board, "d3", PieceType::Rook(false), Color::White);
    put(&mut board, "d7", PieceType::Pawn(false), Color::Black);
    assert_eq!(board.make_move_chess_notation("d3", "d7", None), Ok(MoveOutcome::Accepted));
    assert_eq!(at(&board, "d7"), piece(PieceType::Rook(true), Color::White));
    assert_eq!(at(&board, "d3"), None);
    assert_eq!(count(&board), 1);
}

#[test]
fn rejected_move_changes_nothing() {
    let mut board = Board::default();
    assert_eq!(board.select_move_chess_notation("e2", "e4", None), Ok(MoveOutcome::Accepted));
    assert_eq!(board.select_move_chess_notation("e4", "e5", None), Ok(MoveOutcome::Accepted));
    assert_eq!(board.select_move_chess_notation("d7", "d5", None), Ok(MoveOutcome::Accepted));
    let grid = board.board;
    let memory = board.can_en_pessant;
    assert_eq!(memory, [None, Some((3, 4))]);
    assert_eq!(board.select_move_chess_notation("a1", "a5", None), Ok(MoveOutcome::Rejected));
    assert_eq!(board.make_move_chess_notation("a1", "a5", None), Ok(MoveOutcome::Rejected));
    assert_eq!(board.select_move_chess_notation("c4", "c5", None), Ok(MoveOutcome::Rejected));
    assert_eq!(board.move_piece_with_chess_notation("c4", "c5", None), Ok(MoveOutcome::Rejected));
    assert_eq!(board.board, grid);
    assert_eq!(board.can_en_pessant, memory);
    assert_eq!(board.turn, Color::White);
    assert_eq!(board.turn_number, 0);
}

#[test]
fn rejected_move_forgets_en_passant_where_asked_to() {
    let mut board = Board::default();
    board.reset_en_passant_on_reject = true;
    assert_eq!(board.select_move_chess_notation("e2", "e4", None), Ok(MoveOutcome::Accepted));
    assert_eq!(board.select_move_chess_notation("e4", "e5", None), Ok(MoveOutcome::Accepted));
    assert_eq!(board.select_move_chess_notation("d7", "d5", None), Ok(MoveOutcome::Accepted));
    assert_eq!(board.can_en_pessant, [None, Some((3, 4))]);
    let grid = board.board;
    assert_eq!(board.select_move_chess_notation("a1", "a5", None), Ok(MoveOutcome::Rejected));
    assert_eq!(board.board, grid);
    assert_eq!(board.can_en_pessant, [None, None]);
    // The capture that was open is now an ordinary, and illegal, pawn move.
    assert_eq!(board.select_move_chess_notation("e5", "d6", None), Ok(MoveOutcome::Rejected));
}

#[test]
fn bad_name_changes_nothing() {
    let mut board = Board::default();
    board.reset_en_passant_on_reject = true;
    board.can_en_pessant = [Some((3, 4)), None];
    let grid = board.board;
    assert_eq!(
        board.select_move_chess_notation("e2", "e0", None),
        Err(ChessError::InvalidNotation)
    );
    assert_eq!(board.make_move_chess_notation("x2", "e4", None), Err(ChessError::InvalidNotation));
    assert_eq!(
        board.move_piece_with_chess_notation("e2", "", None),
        Err(ChessError::InvalidNotation)
    );
    assert_eq!(board.board, grid);
    assert_eq!(board.can_en_pessant, [Some((3, 4)), None]);
}

#[test]
fn move_piece_asks_no_questions() {
    let mut board = Board::default();
    // A rook jumps over its own pawn onto an enemy pawn.
    assert_eq!(board.move_piece_with_chess_notation("a1", "a7", None), Ok(MoveOutcome::Accepted));
    assert_eq!(at(&board, "a7"), piece(PieceType::Rook(true), Color::White));
    assert_eq!(at(&board, "a1"), None);
    assert_eq!(count(&board), 31);
    assert_eq!(board.move_piece((0, 4), (4, 4), None), Ok(MoveOutcome::Accepted));
    assert_eq!(at(&board, "e4"), piece(PieceType::King(true), Color::Black));
    assert_eq!(at(&board, "e8"), None);
}

#[test]
fn moving_sets_the_flag_and_keeps_it() {
    let mut board = Board::default();
    assert_eq!(board.select_move_chess_notation("a2", "a4", None), Ok(MoveOutcome::Accepted));
    assert_eq!(board.select_move_chess_notation("a1", "a3", None), Ok(MoveOutcome::Accepted));
    assert_eq!(at(&board, "a3"), piece(PieceType::Rook(true), Color::White));
    assert_eq!(board.select_move_chess_notation("a3", "a1", None), Ok(MoveOutcome::Accepted));
    assert_eq!(at(&board, "a1"), piece(PieceType::Rook(true), Color::White));
    assert_eq!(board.select_move_chess_notation("b1", "c3", None), Ok(MoveOutcome::Accepted));
    assert_eq!(at(&board, "c3"), piece(PieceType::Knight, Color::White));
}

#[test]
fn pawn_captures_one_file_aside_and_one_rank_ahead() {
    let mut board = empty_board();
    put(&mut board, "e4", PieceType::Pawn(true), Color::White);
    put(&mut board, "d5", PieceType::Pawn(true), Color::Black);
    put(&mut board, "f5", PieceType::Knight, Color::White);
    put(&mut board, "d3", PieceType::Knight, Color::Black);
    assert_eq!(board.classify_move((4, 4), (3, 3)), MoveClass::Plain);
    // Own piece, empty square, backwards, two files aside.
    assert_eq!(board.classify_move((4, 4), (3, 5)), MoveClass::Illegal);
    assert_eq!(board.classify_move((4, 4), (5, 5)), MoveClass::Illegal);
    assert_eq!(board.classify_move((4, 4), (5, 3)), MoveClass::Illegal);
    assert_eq!(board.classify_move((4, 4), (3, 6)), MoveClass::Illegal);
    assert_eq!(board.select_move_chess_notation("e4", "d5", None), Ok(MoveOutcome::Accepted));
    assert_eq!(at(&board, "d5"), piece(PieceType::Pawn(true), Color::White));
    assert_eq!(at(&board, "e4"), None);
}

#[test]
fn black_pawn_captures_down_the_board() {
    let mut board = empty_board();
    put(&mut board, "d5", PieceType::Pawn(true), Color::Black);
    put(&mut board, "e4", PieceType::Pawn(true), Color::White);
    put(&mut board, "e6", PieceType::Pawn(true), Color::White);
    assert_eq!(board.select_move_chess_notation("d5", "e6", None), Ok(MoveOutcome::Rejected));
    assert_eq!(board.select_move_chess_notation("d5", "c4", None), Ok(MoveOutcome::Rejected));
    assert_eq!(board.select_move_chess_notation("d5", "e4", None), Ok(MoveOutcome::Accepted));
    assert_eq!(at(&board, "e4"), piece(PieceType::Pawn(true), Color::Black));
}

#[test]
fn pawn_push_is_blocked_by_a_piece_in_between() {
    let mut board = Board::default();
    put(&mut board, "e3", PieceType::Knight, Color::Black);
    assert_eq!(board.select_move_chess_notation("e2", "e4", None), Ok(MoveOutcome::Rejected));
    assert_eq!(board.classify_move((6, 4), (4, 4)), MoveClass::Illegal);
}

#[test]
fn other_pieces_move_by_ordinary_legality() {
    let mut board = Board::default();
    assert_eq!(board.select_move_chess_notation("g1", "f3", None), Ok(MoveOutcome::Accepted));
    assert_eq!(at(&board, "f3"), piece(PieceType::Knight, Color::White));
    assert_eq!(board.select_move_chess_notation("f1", "c4", None), Ok(MoveOutcome::Rejected));
    assert_eq!(board.select_move_chess_notation("e2", "e3", None), Ok(MoveOutcome::Accepted));
    assert_eq!(board.select_move_chess_notation("f1", "c4", None), Ok(MoveOutcome::Accepted));
    assert_eq!(at(&board, "c4"), piece(PieceType::Bishop, Color::White));
    assert_eq!(board.select_move_chess_notation("d1", "e2", None), Ok(MoveOutcome::Accepted));
    assert_eq!(board.select_move_chess_notation("e2", "e1", None), Ok(MoveOutcome::Rejected));
    assert_eq!(count(&board), 32);
}

#[test]
fn free_turns_let_either_side_move() {
    let mut board = Board::default();
    assert_eq!(board.select_move_chess_notation("e7", "e5", None), Ok(MoveOutcome::Accepted));
    assert_eq!(board.select_move_chess_notation("d7", "d5", None), Ok(MoveOutcome::Accepted));
    assert_eq!(board.turn, Color::White);
    assert_eq!(board.turn_number, 0);
}

#[test]
fn strict_turns_alternate_and_count() {
    let mut board = Board::default();
    board.strict_turns = true;
    assert_eq!(board.select_move_chess_notation("e7", "e5", None), Ok(MoveOutcome::Rejected));
    assert_eq!(board.make_move_chess_notation("e7", "e5", None), Ok(MoveOutcome::Rejected));
    assert_eq!(board.turn, Color::White);
    assert_eq!(board.turn_number, 0);
    assert_eq!(board.select_move_chess_notation("e2", "e4", None), Ok(MoveOutcome::Accepted));
    assert_eq!(board.turn, Color::Black);
    assert_eq!(board.turn_number, 1);
    assert_eq!(board.select_move_chess_notation("d2", "d4", None), Ok(MoveOutcome::Rejected));
    assert_eq!(board.turn, Color::Black);
    assert_eq!(board.turn_number, 1);
    assert_eq!(board.make_move_chess_notation("e7", "e5", None), Ok(MoveOutcome::Accepted));
    assert_eq!(board.turn, Color::White);
    assert_eq!(board.turn_number, 2);
}

#[test]
fn strict_turns_do_not_bind_move_piece() {
    let mut board = Board::default();
    board.strict_turns = true;
    assert_eq!(board.move_piece((1, 4), (3, 4), None), Ok(MoveOutcome::Accepted));
    assert_eq!(board.turn, Color::White);
    assert_eq!(board.turn_number, 0);
}

#[test]
fn ply_count_stops_at_its_largest_value() {
    let mut board = Board::default();
    board.strict_turns = true;
    board.turn_number = u64::MAX;
    assert_eq!(board.select_move_chess_notation("e2", "e4", None), Ok(MoveOutcome::Accepted));
    assert_eq!(board.turn_number, u64::MAX);
    assert_eq!(board.turn, Color::Black);
}

fn kings(board: &Board, color: Color) -> usize {
    board
        .board
        .iter()
        .flatten()
        .filter(|cell| match cell {
            Some(p) => p.color == color && matches!(p.piece_type, PieceType::King(_)),
            None => false,
        })
        .count()
}

#[test]
fn no_move_adds_a_piece_or_a_king() {
    let mut board = Board::default();
    let plies = [
        ("e2", "e4", None, MoveOutcome::Accepted),
        ("d7", "d5", None, MoveOutcome::Accepted),
        ("e4", "d5", None, MoveOutcome::Accepted),
        ("d8", "d5", None, MoveOutcome::Accepted),
        ("g1", "f3", None, MoveOutcome::Accepted),
        ("f1", "c4", None, MoveOutcome::Accepted),
        ("e1", "h1", None, MoveOutcome::Accepted),
        ("d5", "c4", None, MoveOutcome::Accepted),
        ("a1", "a8", None, MoveOutcome::Rejected),
        ("h7", "h5", None, MoveOutcome::Accepted),
        ("h5", "h4", None, MoveOutcome::Accepted),
        ("g2", "g4", None, MoveOutcome::Accepted),
        ("h4", "g3", None, MoveOutcome::Accepted),
        ("g3", "h2", None, MoveOutcome::Accepted),
        ("h2", "h1", None, MoveOutcome::PromotionRequired),
        ("h2", "h1", Some('k'), MoveOutcome::PromotionRequired),
        ("h2", "h1", Some('n'), MoveOutcome::Accepted),
    ];
    let mut pieces = count(&board);
    assert_eq!(pieces, 32);
    for (start, end, choice, expected) in plies {
        let res = board.select_move_chess_notation(start, end, choice);
        if choice == Some('k') {
            assert_eq!(res, Err(ChessError::InvalidPromotionChoice));
        } else {
            assert_eq!(res, Ok(expected), "{} {}", start, end);
        }
        assert!(count(&board) <= pieces);
        pieces = count(&board);
        assert_eq!(kings(&board, Color::White), 1);
        assert_eq!(kings(&board, Color::Black), 1);
    }
    assert_eq!(pieces, 27);
    assert_eq!(at(&board, "h1"), piece(PieceType::Knight, Color::Black));
    assert_eq!(at(&board, "g1"), piece(PieceType::King(true), Color::White));
}

#[test]
fn a_move_to_the_same_square_is_no_move() {
    let mut board = Board::default();
    let grid = board.board;
    assert_eq!(board.move_piece((7, 0), (7, 0), None), Ok(MoveOutcome::Rejected));
    assert_eq!(board.make_move((7, 0), (7, 0), None), Ok(MoveOutcome::Rejected));
    assert_eq!(board.select_move((7, 0), (7, 0), None), Ok(MoveOutcome::Rejected));
    assert_eq!(
        board.move_piece_with_chess_notation("e2", "e2", Some('q')),
        Ok(MoveOutcome::Rejected)
    );
    assert_eq!(board.board, grid);
    let mut board = empty_board();
    put(&mut board, "a8", PieceType::Pawn(true), Color::White);
    assert_eq!(board.move_piece((0, 0), (0, 0), None), Ok(MoveOutcome::Rejected));
    assert_eq!(at(&board, "a8"), piece(PieceType::Pawn(true), Color::White));
}
