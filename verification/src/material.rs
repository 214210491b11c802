//! Counting the pieces of a position.
//!
//! A game starts with thirty-two pieces and one king on each side. No move
//! of the engine adds a piece or makes a king: pieces are carried, captured
//! or replaced by promotion, and a promotion never names a king.

use vstd::prelude::*;
use vstd::relations::injective_on;
use vstd::set_lib::{lemma_int_range, lemma_len_subset, lemma_map_size, set_int_range};
use crate::board::starting_position;
use crate::notation::on_board;
use crate::piece::Color;
use crate::position::{chosen_kind, king_goal, rook_goal, MoveClass, Position};

verus! {

/// The squares of the board.
pub open spec fn board_squares() -> Set<(int, int)> {
    Set::new(|sq: (int, int)| on_board(sq))
}

impl Position {
    /// The occupied squares of the board.
    pub open spec fn pieces(self) -> Set<(int, int)> {
        Set::new(|sq: (int, int)| on_board(sq) && self.at(sq).is_some())
    }

    /// Whether `sq` holds a king of the colour given.
    pub open spec fn holds_king_of(self, sq: (int, int), color: Color) -> bool {
        match self.at(sq) {
            Some(k) => k.piece_type is King && k.color == color,
            None => false,
        }
    }

    /// The squares of the board that hold a king of the colour given.
    pub open spec fn kings(self, color: Color) -> Set<(int, int)> {
        Set::new(|sq: (int, int)| on_board(sq) && self.holds_king_of(sq, color))
    }

    /// Whether the position could have come from the start of a game: every
    /// square of the board has a content, at most thirty-two of them hold a
    /// piece, and each side has at most one king.
    pub open spec fn within_material(self) -> bool {
        &&& self.wf()
        &&& self.pieces().len() <= 32
        &&& self.kings(Color::White).len() <= 1
        &&& self.kings(Color::Black).len() <= 1
    }
}

/// The board has sixty-four squares.
pub proof fn lemma_board_has_64_squares()
    ensures
        board_squares().finite(),
        board_squares().len() == 64,
{
    let numbers = set_int_range(0, 64);
    let square_of = |n: int| (n / 8, n % 8);
    lemma_int_range(0, 64);
    assert(injective_on(square_of, numbers));
    assert forall|sq: (int, int)| board_squares().contains(sq) implies numbers.map(
        square_of,
    ).contains(sq) by {
        let n = sq.0 * 8 + sq.1;
        assert(numbers.contains(n) && square_of(n) == sq);
    }
    assert(numbers.map(square_of) =~= board_squares());
    lemma_map_size(numbers, board_squares(), square_of);
}

/// The occupied squares and the kings' squares of a position are finite
/// sets of squares of the board, and a side's kings are among the pieces.
pub proof fn lemma_material_is_finite(p: Position, color: Color)
    ensures
        p.pieces().finite(),
        p.pieces().len() <= 64,
        p.kings(color).finite(),
        p.kings(color).len() <= p.pieces().len(),
{
    lemma_board_has_64_squares();
    assert(p.pieces().subset_of(board_squares()));
    lemma_len_subset(p.pieces(), board_squares());
    assert(p.kings(color).subset_of(p.pieces()));
    lemma_len_subset(p.kings(color), p.pieces());
}

/// Carrying a piece to another square adds none: the number of pieces
/// stays the same where the destination was empty and falls by one where
/// a piece stood on it. No side gains a king.
pub proof fn lemma_carrying_adds_no_piece(
    p: Position,
    beg: (int, int),
    end: (int, int),
    choice: Option<char>,
    color: Color,
)
    requires
        p.wf(),
        on_board(beg),
        on_board(end),
        beg != end,
        p.at(beg).is_some(),
    ensures
        p.relocated(beg, end, chosen_kind(choice)).wf(),
        p.relocated(beg, end, chosen_kind(choice)).pieces().len() == if p.at(end).is_some() {
            p.pieces().len() - 1
        } else {
            p.pieces().len() as int
        },
        p.relocated(beg, end, chosen_kind(choice)).kings(color).len() <= p.kings(color).len(),
{
    let q = p.relocated(beg, end, chosen_kind(choice));
    lemma_material_is_finite(p, color);
    assert(q.pieces() =~= p.pieces().insert(end).remove(beg));
    if p.holds_king_of(beg, color) {
        assert(q.kings(color) =~= p.kings(color).insert(end).remove(beg));
    } else {
        assert(q.kings(color) =~= p.kings(color).remove(end).remove(beg));
    }
}

/// Castling takes no piece and adds none: the position holds as many
/// pieces, and each side as many kings, as before.
pub proof fn lemma_castling_keeps_material(
    p: Position,
    beg: (int, int),
    end: (int, int),
    color: Color,
)
    requires
        p.wf(),
        on_board(beg),
        on_board(end),
        p.is_castle(beg, end),
    ensures
        p.castled(beg, end).wf(),
        p.castled(beg, end).pieces().len() == p.pieces().len(),
        p.castled(beg, end).kings(color).len() == p.kings(color).len(),
{
    let q = p.castled(beg, end);
    let king_to = king_goal(beg, end);
    let rook_to = rook_goal(beg, end);
    lemma_material_is_finite(p, color);
    assert(q.pieces() =~= p.pieces().remove(beg).remove(end).insert(king_to).insert(rook_to));
    if p.at(beg).unwrap().color == color {
        assert(q.kings(color) =~= p.kings(color).remove(beg).insert(king_to));
    } else {
        assert(q.kings(color) =~= p.kings(color));
    }
}

/// Emptying a square adds no piece and no king.
pub proof fn lemma_clearing_adds_no_piece(p: Position, sq: (int, int), color: Color)
    requires
        p.wf(),
        on_board(sq),
    ensures
        p.cleared(sq).wf(),
        p.cleared(sq).pieces().len() <= p.pieces().len(),
        p.cleared(sq).kings(color).len() <= p.kings(color).len(),
{
    lemma_material_is_finite(p, color);
    assert(p.cleared(sq).pieces() =~= p.pieces().remove(sq));
    assert(p.cleared(sq).kings(color) =~= p.kings(color).remove(sq));
}

/// No play adds material. Whatever an attempt comes to, by any of the
/// three ways of moving, the position it leaves behind has at most as many
/// pieces as before and no side has more kings than before.
pub proof fn lemma_moves_add_no_piece(
    p: Position,
    beg: (int, int),
    end: (int, int),
    choice: Option<char>,
    color: Color,
)
    requires
        p.wf(),
        on_board(beg),
        on_board(end),
    ensures
        p.move_piece_state(beg, end, choice).wf(),
        p.move_piece_state(beg, end, choice).pieces().len() <= p.pieces().len(),
        p.move_piece_state(beg, end, choice).kings(color).len() <= p.kings(color).len(),
        p.make_move_state(beg, end, choice).wf(),
        p.make_move_state(beg, end, choice).pieces().len() <= p.pieces().len(),
        p.make_move_state(beg, end, choice).kings(color).len() <= p.kings(color).len(),
        p.select_move_state(beg, end, choice).wf(),
        p.select_move_state(beg, end, choice).pieces().len() <= p.pieces().len(),
        p.select_move_state(beg, end, choice).kings(color).len() <= p.kings(color).len(),
{
    let promo = chosen_kind(choice);
    lemma_squares_decide_material(p, p.rejected(), color);
    if p.at(beg).is_some() && beg != end {
        let carried = p.relocated(beg, end, promo);
        lemma_carrying_adds_no_piece(p, beg, end, choice, color);
        lemma_squares_decide_material(carried, carried.next_turn(), color);
        match p.classify(beg, end) {
            MoveClass::Castle => {
                lemma_castling_keeps_material(p, beg, end, color);
                let both = p.castled(beg, end);
                lemma_squares_decide_material(both, both.next_turn(), color);
            },
            MoveClass::EnPassant => {
                let beside = (beg.0, end.1);
                let emptied = p.cleared(beside);
                lemma_clearing_adds_no_piece(p, beside, color);
                assert(emptied.at(beg).is_some());
                lemma_carrying_adds_no_piece(emptied, beg, end, choice, color);
                let taken = p.captured_en_passant(beg, end, promo);
                lemma_squares_decide_material(taken, taken.next_turn(), color);
            },
            _ => {},
        }
    }
}

/// The material of a position is decided by its squares alone.
pub proof fn lemma_squares_decide_material(p: Position, q: Position, color: Color)
    requires
        p.squares == q.squares,
    ensures
        p.wf() == q.wf(),
        p.pieces() == q.pieces(),
        p.kings(color) == q.kings(color),
{
    assert(forall|sq: (int, int)| p.at(sq) == q.at(sq));
    assert(p.pieces() =~= q.pieces());
    assert(p.kings(color) =~= q.kings(color));
}

/// A position within the material of a game stays within it, whatever an
/// attempt by any of the three ways of moving comes to.
pub proof fn lemma_moves_stay_within_material(
    p: Position,
    beg: (int, int),
    end: (int, int),
    choice: Option<char>,
)
    requires
        p.within_material(),
        on_board(beg),
        on_board(end),
    ensures
        p.move_piece_state(beg, end, choice).within_material(),
        p.make_move_state(beg, end, choice).within_material(),
        p.select_move_state(beg, end, choice).within_material(),
{
    lemma_moves_add_no_piece(p, beg, end, choice, Color::White);
    lemma_moves_add_no_piece(p, beg, end, choice, Color::Black);
}

/// The starting position holds thirty-two pieces and one king of each
/// colour, on the E file of its own back row.
pub proof fn lemma_starting_material()
    ensures
        starting_position().wf(),
        starting_position().pieces().len() == 32,
        starting_position().kings(Color::White) == set![(7int, 4int)],
        starting_position().kings(Color::Black) == set![(0int, 4int)],
        starting_position().within_material(),
{
    let p = starting_position();
    let numbers = set_int_range(0, 32);
    let square_of = |n: int|
        (
            if n < 16 {
                n / 8
            } else {
                n / 8 + 4
            },
            n % 8,
        );
    lemma_int_range(0, 32);
    assert(injective_on(square_of, numbers));
    assert forall|sq: (int, int)| p.pieces().contains(sq) implies numbers.map(square_of).contains(
        sq,
    ) by {
        let n = if sq.0 < 2 {
            sq.0 * 8 + sq.1
        } else {
            (sq.0 - 4) * 8 + sq.1
        };
        assert(numbers.contains(n) && square_of(n) == sq);
    }
    assert(numbers.map(square_of) =~= p.pieces());
    lemma_map_size(numbers, p.pieces(), square_of);
    assert(p.kings(Color::White) =~= set![(7int, 4int)]);
    assert(p.kings(Color::Black) =~= set![(0int, 4int)]);
}

} // verus!
