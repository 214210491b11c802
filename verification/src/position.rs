//! The mathematical model of a game and the rules stated over it.
//!
//! A [`Position`] is what a [`crate::board::Board`] stands for: the content
//! of every square, whose turn it is, the squares from which an en passant
//! capture may start, and the two switches that select how turns and
//! rejected moves are treated. Every rule of the engine is a function of a
//! position; the executable code is proved to compute exactly these.

use vstd::prelude::*;
use crate::error::{ChessError, MoveOutcome};
use crate::notation::on_board;
use crate::path::path;
use crate::piece::{span, Color, Piece, PieceType};

verus! {

/// A game as a mathematical value.
pub struct Position {
    /// The content of each square of the board, by (rank, file).
    pub squares: Map<(int, int), Option<Piece>>,
    /// The side to move. Only looked at and advanced under `strict_turns`.
    pub turn: Color,
    /// The number of plies played under `strict_turns`.
    pub turn_number: nat,
    /// The two slots of the en passant memory. They name the squares whose
    /// pawn may capture en passant on this ply: the first the square to
    /// the left of the pawn that has just made its double step, the second
    /// the square to its right. They arise from the ply before and last
    /// one ply.
    pub en_passant: (Option<(int, int)>, Option<(int, int)>),
    /// Whether a side may only move its own pieces, in its own turn.
    pub strict_turns: bool,
    /// Whether a rejected attempt empties the en passant memory.
    pub reset_on_reject: bool,
}

/// How the special-move rules classify an attempt.
#[derive(Clone, Copy, Debug, PartialEq, Eq, Structural)]
pub enum MoveClass {
    /// Not allowed.
    Illegal,
    /// The king is moved onto its own rook.
    Castle,
    /// A pawn captures the pawn that has just passed it.
    EnPassant,
    /// One piece goes from origin to destination.
    Plain,
}

/// The kind that a promotion letter names, in either case. A rook made by
/// promotion counts as moved.
pub open spec fn promotion_kind(c: char) -> Option<PieceType> {
    if c == 'N' || c == 'n' {
        Some(PieceType::Knight)
    } else if c == 'Q' || c == 'q' {
        Some(PieceType::Queen)
    } else if c == 'B' || c == 'b' {
        Some(PieceType::Bishop)
    } else if c == 'R' || c == 'r' {
        Some(PieceType::Rook(true))
    } else {
        None
    }
}

/// The kind named by an optional promotion letter.
pub open spec fn chosen_kind(choice: Option<char>) -> Option<PieceType> {
    match choice {
        Some(c) => promotion_kind(c),
        None => None,
    }
}

/// Whether `end` lies one rank ahead of `beg` for a pawn of `color`: one
/// rank down the grid for Black, one rank up for White.
pub open spec fn one_rank_ahead(color: Color, beg: (int, int), end: (int, int)) -> bool {
    match color {
        Color::Black => end.0 == beg.0 + 1,
        Color::White => end.0 + 1 == beg.0,
    }
}

/// Where the king lands when it castles from `beg` with the rook on `end`:
/// two files towards the rook, on the king's rank.
pub open spec fn king_goal(beg: (int, int), end: (int, int)) -> (int, int) {
    if end.1 > beg.1 {
        (beg.0, beg.1 + 2)
    } else {
        (beg.0, beg.1 - 2)
    }
}

/// Where the rook lands in that castling: next to the king's first square,
/// on the side the rook came from.
pub open spec fn rook_goal(beg: (int, int), end: (int, int)) -> (int, int) {
    if end.1 > beg.1 {
        (beg.0, beg.1 + 1)
    } else {
        (beg.0, beg.1 - 1)
    }
}

impl Position {
    /// The content of a square; nothing outside the board.
    pub open spec fn at(self, sq: (int, int)) -> Option<Piece> {
        if self.squares.dom().contains(sq) {
            self.squares[sq]
        } else {
            None
        }
    }

    /// Whether every square of the board, and no other, has a content.
    pub open spec fn wf(self) -> bool {
        forall|sq: (int, int)| self.squares.dom().contains(sq) <==> on_board(sq)
    }

    /// Whether any of the given squares is occupied.
    pub open spec fn blocked(self, squares: Seq<(int, int)>) -> bool {
        exists|i: int| 0 <= i < squares.len() && (#[trigger] self.at(squares[i])).is_some()
    }

    /// Whether a piece stands strictly between `beg` and `end` on the path
    /// of the piece on `beg`. An empty origin has no path.
    pub open spec fn obstructed(self, beg: (int, int), end: (int, int)) -> bool {
        match self.at(beg) {
            Some(p) => self.blocked(path(p.piece_type, beg, end)),
            None => false,
        }
    }

    /// Whether the piece on `beg` can reach `end` by its geometry.
    pub open spec fn reachable(self, beg: (int, int), end: (int, int)) -> bool {
        match self.at(beg) {
            Some(p) => p.piece_type.can_reach(beg, end),
            None => false,
        }
    }

    /// Whether `end` is empty or holds a piece of the other colour than the
    /// piece on `beg`.
    pub open spec fn may_land(self, beg: (int, int), end: (int, int)) -> bool {
        match (self.at(beg), self.at(end)) {
            (Some(p), Some(q)) => p.color != q.color,
            (Some(_), None) => true,
            (None, _) => false,
        }
    }

    /// Ordinary legality: a piece stands on the origin, its geometry
    /// reaches the destination, the destination is empty or the enemy's,
    /// and nothing stands in between.
    pub open spec fn legal(self, beg: (int, int), end: (int, int)) -> bool {
        self.reachable(beg, end) && self.may_land(beg, end) && !self.obstructed(beg, end)
    }

    /// Whether `sq` holds a pawn of the colour given.
    pub open spec fn holds_pawn_of(self, sq: (int, int), color: Color) -> bool {
        match self.at(sq) {
            Some(q) => q.color == color && q.piece_type is Pawn,
            None => false,
        }
    }

    /// Whether the en passant memory names the square.
    pub open spec fn remembers(self, sq: (int, int)) -> bool {
        self.en_passant.0 == Some(sq) || self.en_passant.1 == Some(sq)
    }

    /// The squares that the en passant memory names, the first slot's
    /// first, each square once.
    pub open spec fn target_list(self) -> Seq<(int, int)> {
        match self.en_passant {
            (Some(a), Some(b)) => if a == b {
                seq![a]
            } else {
                seq![a, b]
            },
            (Some(a), None) => seq![a],
            (None, Some(b)) => seq![b],
            (None, None) => Seq::empty(),
        }
    }

    /// The content of one slot of the en passant memory after a double
    /// step by `mover`: the square `sq` where it lies on the board and
    /// holds a pawn of the mover's opponent, else nothing.
    pub open spec fn enemy_pawn_on(self, mover: Color, sq: (int, int)) -> Option<(int, int)> {
        if on_board(sq) && self.holds_pawn_of(sq, mover.opponent()) {
            Some(sq)
        } else {
            None
        }
    }

    /// The en passant memory after a double step by `mover` that ends on
    /// `end`: the first slot looks at the square to the left of `end`, the
    /// second at the square to its right. At an edge of the board the slot
    /// of the missing neighbour is empty.
    pub open spec fn pawns_beside(self, mover: Color, end: (int, int)) -> (
        Option<(int, int)>,
        Option<(int, int)>,
    ) {
        (
            self.enemy_pawn_on(mover, (end.0, end.1 - 1)),
            self.enemy_pawn_on(mover, (end.0, end.1 + 1)),
        )
    }

    /// Whether the piece on `beg` is an unmoved pawn and `end` lies two
    /// ranks away.
    pub open spec fn is_double_step(self, beg: (int, int), end: (int, int)) -> bool {
        match self.at(beg) {
            Some(p) => p.piece_type == PieceType::Pawn(false) && span(beg.0, end.0) == 2,
            None => false,
        }
    }

    /// The en passant memory once the piece on `beg` has gone to `end`:
    /// after a pawn's double step the enemy pawns beside its landing
    /// square, else two empty slots.
    pub open spec fn targets_after(self, beg: (int, int), end: (int, int)) -> (
        Option<(int, int)>,
        Option<(int, int)>,
    ) {
        match self.at(beg) {
            Some(p) => if self.is_double_step(beg, end) {
                self.pawns_beside(p.color, end)
            } else {
                (None, None)
            },
            None => (None, None),
        }
    }

    /// Whether going from `beg` to `end` carries a moved pawn to the last
    /// rank of its colour.
    pub open spec fn needs_promotion(self, beg: (int, int), end: (int, int)) -> bool {
        match self.at(beg) {
            Some(p) => p.piece_type == PieceType::Pawn(true) && end.0 == p.color.last_rank(),
            None => false,
        }
    }

    /// The piece that arrives on `end` when the piece on `beg` goes there:
    /// the named replacement where the move promotes, else the piece
    /// itself, marked as moved.
    pub open spec fn arriving(
        self,
        beg: (int, int),
        end: (int, int),
        promo: Option<PieceType>,
    ) -> Piece
        recommends
            self.at(beg).is_some(),
    {
        let p = self.at(beg).unwrap();
        if self.needs_promotion(beg, end) && promo.is_some() {
            Piece { piece_type: promo.unwrap(), color: p.color }
        } else {
            Piece { piece_type: p.piece_type.after_move(), color: p.color }
        }
    }

    /// The position after the piece on `beg` has been carried to another
    /// square `end` without regard to legality: the destination holds the
    /// arriving piece, whatever stood there is gone, the origin is empty,
    /// and the en passant memory is what this move gives rise to.
    pub open spec fn relocated(
        self,
        beg: (int, int),
        end: (int, int),
        promo: Option<PieceType>,
    ) -> Position
        recommends
            self.at(beg).is_some(),
            beg != end,
    {
        Position {
            squares: self.squares.insert(end, Some(self.arriving(beg, end, promo))).insert(
                beg,
                None,
            ),
            en_passant: self.targets_after(beg, end),
            ..self
        }
    }

    /// The position with one square emptied.
    pub open spec fn cleared(self, sq: (int, int)) -> Position {
        Position { squares: self.squares.insert(sq, None), ..self }
    }

    /// Whether a piece may land on `sq` in a castling from `beg` with the
    /// rook on `end`: the square is empty, or it is one of the two squares
    /// that the castling itself vacates.
    pub open spec fn free_to_castle_onto(
        self,
        beg: (int, int),
        end: (int, int),
        sq: (int, int),
    ) -> bool {
        self.at(sq).is_none() || sq == beg || sq == end
    }

    /// Whether the move is the king-onto-rook form of castling: an unmoved
    /// king on `beg`, an unmoved rook of its colour on `end` in another
    /// file, nothing between them on the rook's path, the king's landing
    /// square on the board, and both landing squares free.
    pub open spec fn is_castle(self, beg: (int, int), end: (int, int)) -> bool {
        match (self.at(beg), self.at(end)) {
            (Some(k), Some(r)) => k.piece_type == PieceType::King(false) && r.piece_type
                == PieceType::Rook(false) && r.color == k.color && beg.1 != end.1
                && !self.obstructed(end, beg) && on_board(king_goal(beg, end))
                && self.free_to_castle_onto(beg, end, king_goal(beg, end))
                && self.free_to_castle_onto(beg, end, rook_goal(beg, end)),
            _ => false,
        }
    }

    /// The position after castling: the squares that king and rook left
    /// are empty, the king stands two files towards the rook, the rook
    /// stands on the square that the king passed over, both count as
    /// moved, and the en passant memory is empty.
    pub open spec fn castled(self, beg: (int, int), end: (int, int)) -> Position
        recommends
            self.at(beg).is_some(),
    {
        let color = self.at(beg).unwrap().color;
        Position {
            squares: self.squares.insert(beg, None).insert(end, None).insert(
                king_goal(beg, end),
                Some(Piece { piece_type: PieceType::King(true), color: color }),
            ).insert(
                rook_goal(beg, end),
                Some(Piece { piece_type: PieceType::Rook(true), color: color }),
            ),
            en_passant: (None, None),
            ..self
        }
    }

    /// Whether the move is an en passant capture: a moved pawn on `beg`
    /// steps one rank ahead and one file aside onto an empty square, and
    /// the en passant memory names `beg`.
    pub open spec fn is_en_passant(self, beg: (int, int), end: (int, int)) -> bool {
        match self.at(beg) {
            Some(p) => p.piece_type == PieceType::Pawn(true) && one_rank_ahead(p.color, beg, end)
                && span(beg.1, end.1) == 1 && self.at(end).is_none() && self.remembers(beg),
            None => false,
        }
    }

    /// The position after an en passant capture: the square beside the
    /// origin, in the destination's file, is emptied, then the pawn is
    /// carried to the destination.
    pub open spec fn captured_en_passant(
        self,
        beg: (int, int),
        end: (int, int),
        promo: Option<PieceType>,
    ) -> Position {
        self.cleared((beg.0, end.1)).relocated(beg, end, promo)
    }

    /// Whether a pawn on `beg` may go to `end` as an ordinary move: in its
    /// own file by ordinary legality, or one rank ahead and one file aside
    /// onto an enemy piece.
    pub open spec fn pawn_may_go(self, beg: (int, int), end: (int, int)) -> bool {
        match self.at(beg) {
            Some(p) => if beg.1 == end.1 {
                self.legal(beg, end)
            } else {
                span(beg.1, end.1) == 1 && one_rank_ahead(p.color, beg, end) && self.at(
                    end,
                ).is_some() && self.may_land(beg, end)
            },
            None => false,
        }
    }

    /// The class of a move attempt. Castling is looked for first, then en
    /// passant, then the ordinary pawn moves; every other piece moves by
    /// ordinary legality.
    pub open spec fn classify(self, beg: (int, int), end: (int, int)) -> MoveClass {
        match self.at(beg) {
            None => MoveClass::Illegal,
            Some(p) => if self.is_castle(beg, end) {
                MoveClass::Castle
            } else if self.is_en_passant(beg, end) {
                MoveClass::EnPassant
            } else if p.piece_type is Pawn {
                if self.pawn_may_go(beg, end) {
                    MoveClass::Plain
                } else {
                    MoveClass::Illegal
                }
            } else if self.legal(beg, end) {
                MoveClass::Plain
            } else {
                MoveClass::Illegal
            },
        }
    }

    /// Whether the piece on `beg` may be moved now: always where turns are
    /// free, else only a piece of the side to move.
    pub open spec fn in_turn(self, beg: (int, int)) -> bool {
        !self.strict_turns || match self.at(beg) {
            Some(p) => p.color == self.turn,
            None => false,
        }
    }

    /// The position once a ply has been played: under strict turns the
    /// other side is to move and the ply count has grown by one, unless it
    /// already stands at the largest 64-bit number; else no change.
    pub open spec fn next_turn(self) -> Position {
        if self.strict_turns {
            Position {
                turn: self.turn.opponent(),
                turn_number: if self.turn_number < u64::MAX {
                    self.turn_number + 1
                } else {
                    self.turn_number
                },
                ..self
            }
        } else {
            self
        }
    }

    /// The position after a rejected attempt: unchanged, but for the en
    /// passant memory, which is emptied where `reset_on_reject` is set.
    pub open spec fn rejected(self) -> Position {
        if self.reset_on_reject {
            Position { en_passant: (None, None), ..self }
        } else {
            self
        }
    }

    /// What an attempt from `beg` to `end` comes to, given whether the
    /// rules allow it: a move that is not allowed is rejected; one that
    /// promotes asks for a choice where none is given and fails on a letter
    /// that names no replacement; every other is accepted.
    pub open spec fn outcome(
        self,
        allowed: bool,
        beg: (int, int),
        end: (int, int),
        choice: Option<char>,
    ) -> Result<MoveOutcome, ChessError> {
        if !allowed {
            Ok(MoveOutcome::Rejected)
        } else if !self.needs_promotion(beg, end) {
            Ok(MoveOutcome::Accepted)
        } else if choice.is_none() {
            Ok(MoveOutcome::PromotionRequired)
        } else if chosen_kind(choice).is_none() {
            Err(ChessError::InvalidPromotionChoice)
        } else {
            Ok(MoveOutcome::Accepted)
        }
    }

    /// The position that an attempt leaves behind, given what it came to
    /// and the position that the move, if accepted, leads to.
    pub open spec fn settle(
        self,
        res: Result<MoveOutcome, ChessError>,
        moved: Position,
    ) -> Position {
        match res {
            Ok(MoveOutcome::Accepted) => moved,
            Ok(MoveOutcome::Rejected) => self.rejected(),
            Ok(MoveOutcome::PromotionRequired) => self,
            Err(_) => self,
        }
    }

    /// What carrying the piece on `beg` to `end` comes to. Only an empty
    /// origin, or a destination that is the origin itself, is rejected.
    pub open spec fn move_piece_outcome(
        self,
        beg: (int, int),
        end: (int, int),
        choice: Option<char>,
    ) -> Result<MoveOutcome, ChessError> {
        self.outcome(self.at(beg).is_some() && beg != end, beg, end, choice)
    }

    /// The position after that attempt.
    pub open spec fn move_piece_state(
        self,
        beg: (int, int),
        end: (int, int),
        choice: Option<char>,
    ) -> Position {
        self.settle(
            self.move_piece_outcome(beg, end, choice),
            self.relocated(beg, end, chosen_kind(choice)),
        )
    }

    /// What an ordinary move from `beg` to `end` comes to: it must be in
    /// turn and legal.
    pub open spec fn make_move_outcome(
        self,
        beg: (int, int),
        end: (int, int),
        choice: Option<char>,
    ) -> Result<MoveOutcome, ChessError> {
        self.outcome(self.in_turn(beg) && self.legal(beg, end), beg, end, choice)
    }

    /// The position after that attempt.
    pub open spec fn make_move_state(
        self,
        beg: (int, int),
        end: (int, int),
        choice: Option<char>,
    ) -> Position {
        self.settle(
            self.make_move_outcome(beg, end, choice),
            self.relocated(beg, end, chosen_kind(choice)).next_turn(),
        )
    }

    /// The position that an accepted move of the given class leads to,
    /// before the turn passes.
    pub open spec fn played(
        self,
        beg: (int, int),
        end: (int, int),
        promo: Option<PieceType>,
    ) -> Position {
        match self.classify(beg, end) {
            MoveClass::Castle => self.castled(beg, end),
            MoveClass::EnPassant => self.captured_en_passant(beg, end, promo),
            MoveClass::Plain => self.relocated(beg, end, promo),
            MoveClass::Illegal => self,
        }
    }

    /// What a move from `beg` to `end` comes to under the full rules,
    /// special moves included: it must be in turn and of a class other
    /// than `Illegal`.
    pub open spec fn select_move_outcome(
        self,
        beg: (int, int),
        end: (int, int),
        choice: Option<char>,
    ) -> Result<MoveOutcome, ChessError> {
        self.outcome(
            self.in_turn(beg) && !(self.classify(beg, end) is Illegal),
            beg,
            end,
            choice,
        )
    }

    /// The position after that attempt.
    pub open spec fn select_move_state(
        self,
        beg: (int, int),
        end: (int, int),
        choice: Option<char>,
    ) -> Position {
        self.settle(
            self.select_move_outcome(beg, end, choice),
            self.played(beg, end, chosen_kind(choice)).next_turn(),
        )
    }
}

} // verus!
