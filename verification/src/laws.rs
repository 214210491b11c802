//! Laws of the rules, proved over the model.

use vstd::prelude::*;
use crate::error::{ChessError, MoveOutcome};
use crate::notation::on_board;
use crate::path::{path, toward};
use crate::piece::{span, Color, Piece, PieceType};
use crate::position::{chosen_kind, king_goal, promotion_kind, rook_goal, Position};

verus! {

/// Carrying a piece to another square changes two squares only: the
/// origin is empty afterwards, the destination holds the arriving piece,
/// and every other square keeps its content.
pub proof fn lemma_relocation_touches_two_squares(
    p: Position,
    beg: (int, int),
    end: (int, int),
    promo: Option<PieceType>,
    sq: (int, int),
)
    requires
        p.wf(),
        on_board(beg),
        on_board(end),
        beg != end,
        p.at(beg).is_some(),
    ensures
        p.relocated(beg, end, promo).wf(),
        p.relocated(beg, end, promo).at(beg).is_none(),
        p.relocated(beg, end, promo).at(end) == Some(p.arriving(beg, end, promo)),
        sq != beg && sq != end ==> p.relocated(beg, end, promo).at(sq) == p.at(sq),
{
}

/// A piece that has been carried never counts as unmoved: the arriving
/// pawn, rook or king has its flag set, a replacement named by a promotion
/// letter is a knight, queen, bishop or moved rook, and the colour stays.
pub proof fn lemma_arriving_piece_has_moved(
    p: Position,
    beg: (int, int),
    end: (int, int),
    choice: Option<char>,
)
    requires
        p.at(beg).is_some(),
    ensures
        p.arriving(beg, end, chosen_kind(choice)).color == p.at(beg).unwrap().color,
        p.arriving(beg, end, chosen_kind(choice)).piece_type != PieceType::Pawn(false),
        p.arriving(beg, end, chosen_kind(choice)).piece_type != PieceType::Rook(false),
        p.arriving(beg, end, chosen_kind(choice)).piece_type != PieceType::King(false),
        !(p.arriving(beg, end, chosen_kind(choice)).piece_type is King) || p.at(
            beg,
        ).unwrap().piece_type is King,
{
}

/// Once a pawn has been carried without promotion it reaches exactly the
/// squares one rank away: the two-rank step is open to an unmoved pawn
/// only.
pub proof fn lemma_moved_pawn_steps_one_rank(
    p: Position,
    beg: (int, int),
    end: (int, int),
    next: (int, int),
)
    requires
        p.wf(),
        on_board(beg),
        on_board(end),
        beg != end,
        p.at(beg).is_some(),
        p.at(beg).unwrap().piece_type is Pawn,
        !p.needs_promotion(beg, end),
    ensures
        p.relocated(beg, end, None).reachable(end, next) <==> span(end.0, next.0) == 1,
        p.relocated(beg, end, None).legal(end, next) ==> span(end.0, next.0) == 1,
{
}

/// Knights and kings are never obstructed, and neither is an empty square.
pub proof fn lemma_leapers_unobstructed(p: Position, beg: (int, int), end: (int, int))
    requires
        match p.at(beg) {
            Some(piece) => piece.piece_type is Knight || piece.piece_type is King,
            None => true,
        },
    ensures
        !p.obstructed(beg, end),
{
}

/// A piece on a square strictly between origin and destination, on the
/// path of the piece that stands on the origin, obstructs the move and
/// makes it illegal.
pub proof fn lemma_piece_on_path_obstructs(p: Position, beg: (int, int), end: (int, int), i: int)
    requires
        p.at(beg).is_some(),
        0 <= i < path(p.at(beg).unwrap().piece_type, beg, end).len(),
        p.at(path(p.at(beg).unwrap().piece_type, beg, end)[i]).is_some(),
    ensures
        p.obstructed(beg, end),
        !p.legal(beg, end),
{
}

/// A move onto a piece of the mover's own colour is never legal, and
/// neither is a move from an empty square.
pub proof fn lemma_own_piece_blocks_landing(p: Position, beg: (int, int), end: (int, int))
    requires
        match (p.at(beg), p.at(end)) {
            (Some(a), Some(b)) => a.color == b.color,
            (None, _) => true,
            _ => false,
        },
    ensures
        !p.legal(beg, end),
{
}

/// The en passant memory after a carrying. After the double step of an
/// unmoved pawn the first slot names the square to the left of the landing
/// square where that holds an enemy pawn, and the second slot the square
/// to its right likewise; a slot whose square holds no enemy pawn, or lies
/// off the board, is empty, so at an edge of the board at most one slot
/// names a square. After any other carrying both slots are empty.
pub proof fn lemma_memory_after_carrying(
    p: Position,
    beg: (int, int),
    end: (int, int),
    promo: Option<PieceType>,
)
    requires
        p.wf(),
        on_board(beg),
        on_board(end),
        beg != end,
        p.at(beg).is_some(),
    ensures
        ({
            let q = p.relocated(beg, end, promo);
            let enemy = p.at(beg).unwrap().color.opponent();
            let left = (end.0, end.1 - 1);
            let right = (end.0, end.1 + 1);
            &&& !p.is_double_step(beg, end) ==> q.en_passant == (
                None::<(int, int)>,
                None::<(int, int)>,
            )
            &&& p.is_double_step(beg, end) ==> {
                &&& q.en_passant.0 == if end.1 > 0 && p.holds_pawn_of(left, enemy) {
                    Some(left)
                } else {
                    None
                }
                &&& q.en_passant.1 == if end.1 < 7 && p.holds_pawn_of(right, enemy) {
                    Some(right)
                } else {
                    None
                }
            }
            &&& (end.1 == 0 || end.1 == 7) ==> q.en_passant.0.is_none() || q.en_passant.1.is_none()
            &&& q.en_passant.0.is_none() || q.en_passant.0 != q.en_passant.1
            &&& forall|sq: (int, int)| #[trigger]
                q.remembers(sq) ==> on_board(sq) && sq.0 == end.0 && span(sq.1, end.1) == 1
                    && p.holds_pawn_of(sq, enemy)
        }),
{
}

/// En passant from the double step to the capture. An unmoved pawn makes a
/// legal two-rank step ahead in its file and lands beside a moved enemy
/// pawn on `side`. Then the memory names `side`, the enemy pawn's
/// step onto the square that was passed over is an en passant capture, and
/// the capture empties the square on which the first pawn landed, not the
/// square on which the capturing pawn arrives.
pub proof fn lemma_double_step_then_en_passant(
    p: Position,
    beg: (int, int),
    end: (int, int),
    side: (int, int),
    promo: Option<PieceType>,
)
    requires
        p.wf(),
        on_board(beg),
        on_board(end),
        on_board(side),
        p.legal(beg, end),
        p.is_double_step(beg, end),
        beg.1 == end.1,
        match p.at(beg).unwrap().color {
            Color::White => end.0 == beg.0 - 2,
            Color::Black => end.0 == beg.0 + 2,
        },
        side.0 == end.0,
        span(side.1, end.1) == 1,
        p.at(side) == Some(
            Piece {
                piece_type: PieceType::Pawn(true),
                color: p.at(beg).unwrap().color.opponent(),
            },
        ),
    ensures
        ({
            let passed = ((beg.0 + end.0) / 2, end.1);
            let q = p.relocated(beg, end, None);
            let r = q.captured_en_passant(side, passed, promo);
            &&& q.remembers(side)
            &&& q.classify(side, passed) is EnPassant
            &&& r.at(end).is_none()
            &&& r.at(side).is_none()
            &&& r.at(passed) == Some(q.arriving(side, passed, promo))
            &&& r.at(passed).unwrap().color == p.at(side).unwrap().color
            &&& r.en_passant == (None::<(int, int)>, None::<(int, int)>)
        }),
{
    let passed = ((beg.0 + end.0) / 2, end.1);
    let kind = p.at(beg).unwrap().piece_type;
    assert(p.at(passed).is_none()) by {
        let squares = path(kind, beg, end);
        assert(squares.len() == 1);
        assert(squares[0] == passed);
        if p.at(passed).is_some() {
            assert(p.at(squares[0]).is_some());
            assert(p.blocked(squares));
        }
    }
}

/// An en passant capture changes three squares only: the square beside the
/// origin, in the destination's file, is emptied; the origin is emptied;
/// the destination holds the capturing pawn, or its replacement where the
/// capture promotes.
pub proof fn lemma_en_passant_capture(
    p: Position,
    beg: (int, int),
    end: (int, int),
    promo: Option<PieceType>,
    sq: (int, int),
)
    requires
        p.wf(),
        on_board(beg),
        on_board(end),
        p.is_en_passant(beg, end),
    ensures
        p.classify(beg, end) is EnPassant,
        p.captured_en_passant(beg, end, promo).at((beg.0, end.1)).is_none(),
        p.captured_en_passant(beg, end, promo).at(beg).is_none(),
        p.captured_en_passant(beg, end, promo).at(end) == Some(p.arriving(beg, end, promo)),
        sq != beg && sq != end && sq != (beg.0, end.1) ==> p.captured_en_passant(
            beg,
            end,
            promo,
        ).at(sq) == p.at(sq),
{
}

/// Castling. The king ends two files towards the rook, on its own rank,
/// and the rook ends next to it, on the square that the king passed over;
/// both count as moved and keep their colour. The squares they left are
/// empty unless the other piece has landed there. No other square
/// changes, and the en passant memory is empty.
pub proof fn lemma_castling_places_king_and_rook(
    p: Position,
    beg: (int, int),
    end: (int, int),
    sq: (int, int),
)
    requires
        p.wf(),
        on_board(beg),
        on_board(end),
        p.is_castle(beg, end),
    ensures
        p.classify(beg, end) is Castle,
        p.castled(beg, end).wf(),
        p.castled(beg, end).at(king_goal(beg, end)) == Some(
            Piece { piece_type: PieceType::King(true), color: p.at(beg).unwrap().color },
        ),
        p.castled(beg, end).at(rook_goal(beg, end)) == Some(
            Piece { piece_type: PieceType::Rook(true), color: p.at(beg).unwrap().color },
        ),
        p.castled(beg, end).at(beg).is_none(),
        end != king_goal(beg, end) && end != rook_goal(beg, end) ==> p.castled(beg, end).at(
            end,
        ).is_none(),
        sq != beg && sq != end && sq != king_goal(beg, end) && sq != rook_goal(beg, end)
            ==> p.castled(beg, end).at(sq) == p.at(sq),
        p.castled(beg, end).en_passant == (None::<(int, int)>, None::<(int, int)>),
        on_board(king_goal(beg, end)),
        on_board(rook_goal(beg, end)),
        king_goal(beg, end).0 == beg.0,
        rook_goal(beg, end).0 == beg.0,
        king_goal(beg, end).1 == beg.1 + 2 * toward(beg.1, end.1),
        rook_goal(beg, end).1 == beg.1 + toward(beg.1, end.1),
        toward(beg.1, end.1) != 0,
{
}

/// A move from a square to itself is never accepted, by any of the three
/// ways of moving.
pub proof fn lemma_no_move_to_the_same_square(p: Position, sq: (int, int), choice: Option<char>)
    ensures
        p.move_piece_outcome(sq, sq, choice) == Ok::<MoveOutcome, ChessError>(
            MoveOutcome::Rejected,
        ),
        p.make_move_outcome(sq, sq, choice) == Ok::<MoveOutcome, ChessError>(
            MoveOutcome::Rejected,
        ),
        p.select_move_outcome(sq, sq, choice) == Ok::<MoveOutcome, ChessError>(
            MoveOutcome::Rejected,
        ),
{
}

/// Promotion. A move that carries a moved pawn to its last rank is
/// accepted only with a letter that names a replacement; the replacement,
/// in the pawn's colour, then stands on the destination. Without a letter
/// the attempt asks for one, with any other letter it fails, and the
/// position is unchanged both times.
pub proof fn lemma_promotion_replaces_pawn(
    p: Position,
    beg: (int, int),
    end: (int, int),
    choice: Option<char>,
)
    requires
        p.wf(),
        on_board(beg),
        on_board(end),
        p.needs_promotion(beg, end),
        p.in_turn(beg),
        !(p.classify(beg, end) is Illegal),
    ensures
        match choice {
            None => p.select_move_outcome(beg, end, choice) == Ok::<MoveOutcome, ChessError>(
                MoveOutcome::PromotionRequired,
            ) && p.select_move_state(beg, end, choice) == p,
            Some(c) => match promotion_kind(c) {
                None => p.select_move_outcome(beg, end, choice) == Err::<MoveOutcome, ChessError>(
                    ChessError::InvalidPromotionChoice,
                ) && p.select_move_state(beg, end, choice) == p,
                Some(kind) => p.select_move_outcome(beg, end, choice) == Ok::<
                    MoveOutcome,
                    ChessError,
                >(MoveOutcome::Accepted) && p.select_move_state(beg, end, choice).at(end)
                    == Some(Piece { piece_type: kind, color: p.at(beg).unwrap().color })
                    && !(kind is Pawn) && !(kind is King),
            },
        },
{
}

/// A rejected attempt leaves the position as it was, except that it
/// empties the en passant memory where `reset_on_reject` is set. An
/// attempt that asks for a promotion choice, or fails on one, changes
/// nothing at all.
pub proof fn lemma_unaccepted_attempt_keeps_position(
    p: Position,
    beg: (int, int),
    end: (int, int),
    choice: Option<char>,
)
    ensures
        p.select_move_outcome(beg, end, choice) != Ok::<MoveOutcome, ChessError>(
            MoveOutcome::Accepted,
        ) ==> p.select_move_state(beg, end, choice).squares == p.squares && p.select_move_state(
            beg,
            end,
            choice,
        ).turn == p.turn && p.select_move_state(beg, end, choice).turn_number == p.turn_number,
        p.select_move_outcome(beg, end, choice) == Ok::<MoveOutcome, ChessError>(
            MoveOutcome::Rejected,
        ) && !p.reset_on_reject ==> p.select_move_state(beg, end, choice) == p,
        p.select_move_outcome(beg, end, choice) == Ok::<MoveOutcome, ChessError>(
            MoveOutcome::Rejected,
        ) && p.reset_on_reject ==> p.select_move_state(beg, end, choice).en_passant == (
            None::<(int, int)>,
            None::<(int, int)>,
        ),
        p.select_move_outcome(beg, end, choice) == Ok::<MoveOutcome, ChessError>(
            MoveOutcome::PromotionRequired,
        ) || p.select_move_outcome(beg, end, choice).is_err() ==> p.select_move_state(
            beg,
            end,
            choice,
        ) == p,
{
}

/// Turns. Where turns are free, an accepted move leaves the side to move
/// and the ply count alone, and any occupied square may start a move.
/// Where they are strict, a piece of the side that is not to move is
/// rejected, and an accepted move hands the turn to the other side and
/// counts one ply more, up to the largest 64-bit number.
pub proof fn lemma_turns(p: Position, beg: (int, int), end: (int, int), choice: Option<char>)
    ensures
        p.strict_turns && p.at(beg).is_some() && p.at(beg).unwrap().color != p.turn
            ==> p.select_move_outcome(beg, end, choice) == Ok::<MoveOutcome, ChessError>(
            MoveOutcome::Rejected,
        ),
        p.select_move_outcome(beg, end, choice) == Ok::<MoveOutcome, ChessError>(
            MoveOutcome::Accepted,
        ) ==> ({
            let q = p.select_move_state(beg, end, choice);
            &&& q.strict_turns == p.strict_turns
            &&& q.reset_on_reject == p.reset_on_reject
            &&& !p.strict_turns ==> q.turn == p.turn && q.turn_number == p.turn_number
            &&& p.strict_turns ==> q.turn == p.turn.opponent() && p.at(beg).unwrap().color
                == p.turn
            &&& p.strict_turns && p.turn_number < u64::MAX ==> q.turn_number == p.turn_number + 1
            &&& p.strict_turns && p.turn_number >= u64::MAX ==> q.turn_number == p.turn_number
        }),
{
}

/// The en passant memory lasts one ply: carrying a piece leads to the same
/// position whatever the memory held before, and leaves it empty unless
/// the carrying is a pawn's double step.
pub proof fn lemma_en_passant_memory_lasts_one_ply(
    p: Position,
    remembered: (Option<(int, int)>, Option<(int, int)>),
    beg: (int, int),
    end: (int, int),
    promo: Option<PieceType>,
)
    requires
        p.wf(),
        on_board(beg),
        on_board(end),
        beg != end,
        p.at(beg).is_some(),
    ensures
        (Position { en_passant: remembered, ..p }).relocated(beg, end, promo) == p.relocated(
            beg,
            end,
            promo,
        ),
        !p.is_double_step(beg, end) ==> p.relocated(beg, end, promo).en_passant == (
            None::<(int, int)>,
            None::<(int, int)>,
        ),
{
    let other = Position { en_passant: remembered, ..p };
    assert(other.at(beg) == p.at(beg));
    assert(forall|sq: (int, int)| other.at(sq) == p.at(sq));
    assert(other.relocated(beg, end, promo).squares =~= p.relocated(beg, end, promo).squares);
}

} // verus!
