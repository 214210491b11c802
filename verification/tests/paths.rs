use rust_chess::board::Board;
use rust_chess::error::ChessError;
use rust_chess::path::ret_range;
use rust_chess::piece::{Color, Piece, PieceType};

fn empty_board() -> Board {
    Board {
        board: [[None; 8]; 8],
        turn: Color::White,
        turn_number: 0,
        can_en_pessant: [None, None],
        strict_turns: false,
        reset_en_passant_on_reject: false,
    }
}

fn put(board: &mut Board, name: &str, kind: PieceType, color: Color) {
    let (rank, file) = rust_chess::notation::chess_notation_to_array_notation(name).unwrap();
    board.board[rank][file] = Some(Piece { piece_type: kind, color });
}

#[test]
fn range_runs_upwards_between_its_ends() {
    assert_eq!(ret_range(2, 6), vec![3, 4, 5]);
    assert_eq!(ret_range(0, 7), vec![1, 2, 3, 4, 5, 6]);
}

#[test]
fn range_runs_downwards_from_the_larger_end() {
    assert_eq!(ret_range(6, 2), vec![5, 4, 3]);
    assert_eq!(ret_range(7, 0), vec![6, 5, 4, 3, 2, 1]);
}

#[test]
fn range_between_neighbours_is_empty() {
    assert_eq!(ret_range(3, 4), Vec::<usize>::new());
    assert_eq!(ret_range(4, 3), Vec::<usize>::new());
    assert_eq!(ret_range(5, 5), Vec::<usize>::new());
    assert_eq!(ret_range(0, 0), Vec::<usize>::new());
    assert_eq!(ret_range(usize::MAX, usize::MAX), Vec::<usize>::new());
    assert_eq!(ret_range(usize::MAX - 1, usize::MAX), Vec::<usize>::new());
}

#[test]
fn range_is_the_same_walk_in_both_directions() {
    for a in 0..8usize {
        for b in 0..8usize {
            let mut back = ret_range(b, a);
            back.reverse();
            assert_eq!(ret_range(a, b), back);
        }
    }
}

#[test]
fn rook_is_obstructed_by_a_piece_in_between() {
    let mut board = empty_board();
    put(&mut board, "d3", PieceType::Rook(true), Color::White);
    put(&mut board, "d5", PieceType::Pawn(true), Color::Black);
    assert_eq!(board.check_collison_chess_notation("d3", "d7"), Ok(true));
    assert_eq!(board.check_collison_chess_notation("d3", "d6"), Ok(true));
    // The piece on the destination itself does not obstruct.
    assert_eq!(board.check_collison_chess_notation("d3", "d5"), Ok(false));
    assert_eq!(board.check_collison_chess_notation("d3", "d4"), Ok(false));
}

#[test]
fn rook_on_an_empty_path_is_not_obstructed() {
    let mut board = empty_board();
    put(&mut board, "d3", PieceType::Rook(true), Color::White);
    assert_eq!(board.check_collison_chess_notation("d3", "d6"), Ok(false));
    assert_eq!(board.check_collison_chess_notation("d3", "d7"), Ok(false));
    assert_eq!(board.check_collison_chess_notation("d3", "d8"), Ok(false));
    assert_eq!(board.check_collison_chess_notation("d3", "h3"), Ok(false));
}

#[test]
fn rook_is_obstructed_in_all_four_directions() {
    let mut board = empty_board();
    put(&mut board, "d4", PieceType::Rook(true), Color::White);
    put(&mut board, "d6", PieceType::Knight, Color::White);
    put(&mut board, "d2", PieceType::Knight, Color::Black);
    put(&mut board, "b4", PieceType::Knight, Color::White);
    put(&mut board, "f4", PieceType::Knight, Color::Black);
    assert!(board.check_collison((4, 3), (0, 3)));
    assert!(board.check_collison((4, 3), (7, 3)));
    assert!(board.check_collison((4, 3), (4, 0)));
    assert!(board.check_collison((4, 3), (4, 7)));
    assert!(!board.check_collison((4, 3), (2, 3)));
    assert!(!board.check_collison((4, 3), (6, 3)));
    assert!(!board.check_collison((4, 3), (4, 1)));
    assert!(!board.check_collison((4, 3), (4, 5)));
}

#[test]
fn bishop_is_obstructed_on_its_diagonal() {
    let mut board = empty_board();
    put(&mut board, "c1", PieceType::Bishop, Color::White);
    put(&mut board, "e3", PieceType::Pawn(true), Color::White);
    assert!(board.check_collison((7, 2), (3, 6)));
    assert!(board.check_collison((7, 2), (4, 5)));
    assert!(!board.check_collison((7, 2), (5, 4)));
    assert!(!board.check_collison((7, 2), (6, 3)));
    assert!(!board.check_collison((7, 2), (5, 0)));
}

#[test]
fn queen_walks_the_diagonal_or_the_line() {
    let mut board = empty_board();
    put(&mut board, "c4", PieceType::Queen, Color::White);
    put(&mut board, "c2", PieceType::Pawn(false), Color::White);
    put(&mut board, "d3", PieceType::Pawn(true), Color::White);
    put(&mut board, "f4", PieceType::Pawn(true), Color::Black);
    assert_eq!(board.check_collison_chess_notation("c4", "c2"), Ok(false));
    assert_eq!(board.check_collison_chess_notation("c4", "c1"), Ok(true));
    assert_eq!(board.check_collison_chess_notation("c4", "e2"), Ok(true));
    assert_eq!(board.check_collison_chess_notation("c4", "d3"), Ok(false));
    assert_eq!(board.check_collison_chess_notation("c4", "c3"), Ok(false));
    assert_eq!(board.check_collison_chess_notation("c4", "b5"), Ok(false));
    assert_eq!(board.check_collison_chess_notation("c4", "h4"), Ok(true));
    assert_eq!(board.check_collison_chess_notation("c4", "f4"), Ok(false));
    assert_eq!(board.check_collison_chess_notation("c4", "a6"), Ok(false));
}

#[test]
fn pawn_path_runs_along_its_file() {
    let board = Board::default();
    assert_eq!(board.check_collison_chess_notation("c2", "c3"), Ok(false));
    assert_eq!(board.check_collison_chess_notation("c2", "c4"), Ok(false));
    let mut board = Board::default();
    put(&mut board, "d3", PieceType::Knight, Color::Black);
    assert_eq!(board.check_collison_chess_notation("d2", "d3"), Ok(false));
    assert_eq!(board.check_collison_chess_notation("d2", "d4"), Ok(true));
    assert_eq!(board.check_collison_chess_notation("d2", "d5"), Ok(true));
}

#[test]
fn knights_and_kings_are_never_obstructed() {
    let board = Board::default();
    assert_eq!(board.check_collison_chess_notation("b1", "d2"), Ok(false));
    assert_eq!(board.check_collison_chess_notation("b1", "a3"), Ok(false));
    assert_eq!(board.check_collison_chess_notation("b1", "b8"), Ok(false));
    assert_eq!(board.check_collison_chess_notation("e1", "d2"), Ok(false));
    assert_eq!(board.check_collison_chess_notation("e1", "e2"), Ok(false));
    assert_eq!(board.check_collison_chess_notation("e1", "e8"), Ok(false));
}

#[test]
fn empty_origin_is_not_obstructed() {
    let board = Board::default();
    assert_eq!(board.check_collison_chess_notation("d4", "d8"), Ok(false));
    assert!(!board.check_collison((4, 0), (4, 7)));
}

#[test]
fn back_row_pieces_are_hemmed_in_at_the_start() {
    let board = Board::default();
    assert_eq!(board.check_collison_chess_notation("a1", "a4"), Ok(true));
    assert_eq!(board.check_collison_chess_notation("a1", "d1"), Ok(true));
    assert_eq!(board.check_collison_chess_notation("c1", "e3"), Ok(true));
    assert_eq!(board.check_collison_chess_notation("d8", "d5"), Ok(true));
    assert_eq!(board.check_collison_chess_notation("d8", "a5"), Ok(true));
}

#[test]
fn obstruction_by_name_rejects_bad_names() {
    let board = Board::default();
    assert_eq!(board.check_collison_chess_notation("z1", "a4"), Err(ChessError::InvalidNotation));
    assert_eq!(board.check_collison_chess_notation("a1", "a9"), Err(ChessError::InvalidNotation));
    assert_eq!(board.check_collison_chess_notation("", ""), Err(ChessError::InvalidNotation));
}
