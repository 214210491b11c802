//! The board and the moves made on it.

use vstd::prelude::*;
use crate::error::{ChessError, MoveOutcome};
use crate::material::{lemma_moves_stay_within_material, lemma_starting_material};
use crate::notation::{as_square, chess_notation_to_array_notation, on_board, parse_square};
use crate::path::{
    between, diagonal_path, horizontal_path, ret_range, straight_path, vertical_path,
};
use crate::piece::{build_piece, Color, Piece, PieceType};
use crate::position::{
    chosen_kind, king_goal, one_rank_ahead, promotion_kind, rook_goal, MoveClass, Position,
};

verus! {

/// A game: the grid, the side to move, the ply count, the en passant
/// memory, and two switches.
///
/// The grid is indexed by rank, then file. Rank 0 is the top row of the
/// diagram, on which Black's pieces start; file 0 is column A.
///
/// The en passant memory has two slots. After a pawn's double step the
/// first names the square to the left of the pawn where that holds an enemy
/// pawn, the second the square to its right likewise: the squares from
/// which an en passant capture may start on the next ply. After every
/// other accepted move both are empty.
///
/// With `strict_turns` off either side may move on any ply and `turn` and
/// `turn_number` stay as they are. With it on, only the side to move may
/// move, and each accepted ply passes the turn and counts.
///
/// With `reset_en_passant_on_reject` off a rejected move leaves the game
/// untouched. With it on, a rejected move still forgets the en passant
/// squares.
pub struct Board {
    pub board: [[Option<Piece>; 8]; 8],
    pub turn: Color,
    pub turn_number: u64,
    pub can_en_pessant: [Option<(usize, usize)>; 2],
    pub strict_turns: bool,
    pub reset_en_passant_on_reject: bool,
}

/// The square that a slot of the en passant memory names, if any.
pub open spec fn slot_square(slot: Option<(usize, usize)>) -> Option<(int, int)> {
    match slot {
        Some(t) => Some(as_square(t)),
        None => None,
    }
}

/// The kind that starts on a file of either back row.
pub open spec fn back_row_kind(file: int) -> PieceType {
    if file == 0 || file == 7 {
        PieceType::Rook(false)
    } else if file == 1 || file == 6 {
        PieceType::Knight
    } else if file == 2 || file == 5 {
        PieceType::Bishop
    } else if file == 3 {
        PieceType::Queen
    } else {
        PieceType::King(false)
    }
}

/// The content of a square at the start of a game: Black's pieces on rank
/// 0 and pawns on rank 1, White's pawns on rank 6 and pieces on rank 7,
/// each unmoved, and nothing in between.
pub open spec fn starting_piece(sq: (int, int)) -> Option<Piece> {
    if sq.0 == 0 {
        Some(Piece { piece_type: back_row_kind(sq.1), color: Color::Black })
    } else if sq.0 == 1 {
        Some(Piece { piece_type: PieceType::Pawn(false), color: Color::Black })
    } else if sq.0 == 6 {
        Some(Piece { piece_type: PieceType::Pawn(false), color: Color::White })
    } else if sq.0 == 7 {
        Some(Piece { piece_type: back_row_kind(sq.1), color: Color::White })
    } else {
        None
    }
}

/// The game at its start: the starting grid, White to move, no ply played,
/// an empty en passant memory, both switches off.
pub open spec fn starting_position() -> Position {
    Position {
        squares: Map::new(|sq: (int, int)| on_board(sq), |sq: (int, int)| starting_piece(sq)),
        turn: Color::White,
        turn_number: 0,
        en_passant: (None, None),
        strict_turns: false,
        reset_on_reject: false,
    }
}

impl View for Board {
    type V = Position;

    open spec fn view(&self) -> Position {
        Position {
            squares: Map::new(
                |sq: (int, int)| on_board(sq),
                |sq: (int, int)| self.board[sq.0][sq.1],
            ),
            turn: self.turn,
            turn_number: self.turn_number as nat,
            en_passant: (
                slot_square(self.can_en_pessant[0]),
                slot_square(self.can_en_pessant[1]),
            ),
            strict_turns: self.strict_turns,
            reset_on_reject: self.reset_en_passant_on_reject,
        }
    }
}

/// Every board stands for a position in which each square of the board,
/// and no other, has a content.
pub proof fn lemma_view_is_well_formed(b: Board)
    ensures
        b@.wf(),
{
}

/// Builds the grid of the starting position.
pub fn build_starting_board() -> (board: [[Option<Piece>; 8]; 8])
    ensures
        forall|r: int, f: int|
            0 <= r < 8 && 0 <= f < 8 ==> #[trigger] board[r][f] == starting_piece((r, f)),
{
    let mut board: [[Option<Piece>; 8]; 8] = [
        [None, None, None, None, None, None, None, None],
        [None, None, None, None, None, None, None, None],
        [None, None, None, None, None, None, None, None],
        [None, None, None, None, None, None, None, None],
        [None, None, None, None, None, None, None, None],
        [None, None, None, None, None, None, None, None],
        [None, None, None, None, None, None, None, None],
        [None, None, None, None, None, None, None, None],
    ];
    board[0][0] = build_piece(PieceType::Rook(false), Color::Black);
    board[0][1] = build_piece(PieceType::Knight, Color::Black);
    board[0][2] = build_piece(PieceType::Bishop, Color::Black);
    board[0][3] = build_piece(PieceType::Queen, Color::Black);
    board[0][4] = build_piece(PieceType::King(false), Color::Black);
    board[0][5] = build_piece(PieceType::Bishop, Color::Black);
    board[0][6] = build_piece(PieceType::Knight, Color::Black);
    board[0][7] = build_piece(PieceType::Rook(false), Color::Black);

    let mut i: usize = 0;
    while i < 8
        invariant
            i <= 8,
            forall|f: int| 0 <= f < 8 ==> #[trigger] board[0][f] == starting_piece((0, f)),
            forall|r: int, f: int| 2 <= r < 6 && 0 <= f < 8 ==> (#[trigger] board[r][f]).is_none(),
            forall|f: int| 0 <= f < 8 ==> (#[trigger] board[7][f]).is_none(),
            forall|f: int| 0 <= f < i ==> #[trigger] board[1][f] == starting_piece((1, f)),
            forall|f: int| 0 <= f < i ==> #[trigger] board[6][f] == starting_piece((6, f)),
        decreases 8 - i,
    {
        board[1][i] = build_piece(PieceType::Pawn(false), Color::Black);
        board[6][i] = build_piece(PieceType::Pawn(false), Color::White);
        i = i + 1;
    }

    board[7][0] = build_piece(PieceType::Rook(false), Color::White);
    board[7][1] = build_piece(PieceType::Knight, Color::White);
    board[7][2] = build_piece(PieceType::Bishop, Color::White);
    board[7][3] = build_piece(PieceType::Queen, Color::White);
    board[7][4] = build_piece(PieceType::King(false), Color::White);
    board[7][5] = build_piece(PieceType::Bishop, Color::White);
    board[7][6] = build_piece(PieceType::Knight, Color::White);
    board[7][7] = build_piece(PieceType::Rook(false), Color::White);
    board
}

impl Default for Board {
    /// A new game.
    fn default() -> (b: Board)
        ensures
            b@ == starting_position(),
            b@.within_material(),
    {
        proof {
            lemma_starting_material();
        }
        let b = Board {
            board: build_starting_board(),
            turn: Color::White,
            turn_number: 0,
            can_en_pessant: [None, None],
            strict_turns: false,
            reset_en_passant_on_reject: false,
        };
        assert(b@.squares =~= starting_position().squares);
        b
    }
}

/// Reads a promotion letter: `N`, `Q`, `B` or `R`, in either case.
pub fn promotion_from_char(c: char) -> (res: Result<PieceType, ChessError>)
    ensures
        match res {
            Ok(kind) => promotion_kind(c) == Some(kind),
            Err(e) => e == ChessError::InvalidPromotionChoice && promotion_kind(c).is_none(),
        },
{
    if c == 'N' || c == 'n' {
        Ok(PieceType::Knight)
    } else if c == 'Q' || c == 'q' {
        Ok(PieceType::Queen)
    } else if c == 'B' || c == 'b' {
        Ok(PieceType::Bishop)
    } else if c == 'R' || c == 'r' {
        Ok(PieceType::Rook(true))
    } else {
        Err(ChessError::InvalidPromotionChoice)
    }
}

/// The kind named by an optional promotion letter, if it names one.
fn chosen(choice: Option<char>) -> (kind: Option<PieceType>)
    ensures
        kind == chosen_kind(choice),
{
    match choice {
        Some(c) => match promotion_from_char(c) {
            Ok(kind) => Some(kind),
            Err(_) => None,
        },
        None => None,
    }
}

impl Board {
    /// Puts the starting grid back. Turn, ply count, en passant memory and
    /// switches stay as they are.
    pub fn build_starting_board(&mut self)
        ensures
            final(self)@ == (Position { squares: starting_position().squares, ..old(self)@ }),
    {
        self.board = build_starting_board();
        assert(self@.squares =~= starting_position().squares);
    }

    /// Names the square (`rank`, `to_check`) where it holds a pawn of the
    /// colour given.
    pub fn check_sides(
        &self,
        color: Color,
        rank: usize,
        to_check: usize,
    ) -> (side: Option<(usize, usize)>)
        requires
            rank < 8,
            to_check < 8,
        ensures
            side == if self@.holds_pawn_of((rank as int, to_check as int), color) {
                Some((rank, to_check))
            } else {
                None
            },
    {
        if let Some(side_piece) = self.board[rank][to_check] {
            if let PieceType::Pawn(_) = side_piece.piece_type {
                if color == side_piece.color {
                    return Some((rank, to_check));
                }
            }
        }
        None
    }

    /// Rebuilds the en passant memory after a pawn of `color` has made its
    /// double step to `ending_pos`. The first slot then names the square
    /// to the left of `ending_pos` where that holds an enemy pawn, the
    /// second slot the square to its right likewise. A slot whose square
    /// holds no enemy pawn, or lies off the board, is empty. Nothing else
    /// changes.
    pub fn check_en_pessant(&mut self, color: Color, ending_pos: (usize, usize))
        requires
            on_board(as_square(ending_pos)),
        ensures
            final(self)@ == (Position {
                en_passant: old(self)@.pawns_beside(color, as_square(ending_pos)),
                ..old(self)@
            }),
    {
        let (end_rank, end_file) = ending_pos;
        let enemy = color.other();
        let left = if end_file != 0 {
            self.check_sides(enemy, end_rank, end_file - 1)
        } else {
            None
        };
        let right = if end_file != 7 {
            self.check_sides(enemy, end_rank, end_file + 1)
        } else {
            None
        };
        self.can_en_pessant = [left, right];
    }

    /// Lists the squares from which an en passant capture may start on
    /// this ply: the first slot's square first, each square once, at most
    /// two.
    pub fn en_passant_targets(&self) -> (named: Vec<(usize, usize)>)
        ensures
            named@.len() == self@.target_list().len(),
            forall|i: int|
                0 <= i < named@.len() ==> as_square(#[trigger] named@[i]) == self@.target_list()[i],
            named@.len() <= 2,
            named@.no_duplicates(),
    {
        let mut named: Vec<(usize, usize)> = Vec::new();
        if let Some(first) = self.can_en_pessant[0] {
            named.push(first);
        }
        if let Some(second) = self.can_en_pessant[1] {
            let repeated = match self.can_en_pessant[0] {
                Some(first) => first.0 == second.0 && first.1 == second.1,
                None => false,
            };
            if !repeated {
                named.push(second);
            }
        }
        named
    }

    /// Whether going from `beg` to `end` carries a moved pawn to the last
    /// rank of its colour, so that a replacement has to be chosen.
    pub fn needs_promotion(&self, beg: (usize, usize), end: (usize, usize)) -> (needed: bool)
        requires
            on_board(as_square(beg)),
            on_board(as_square(end)),
        ensures
            needed == self@.needs_promotion(as_square(beg), as_square(end)),
    {
        match self.board[beg.0][beg.1] {
            Some(piece) => {
                if let PieceType::Pawn(true) = piece.piece_type {
                    match piece.color {
                        Color::Black => end.0 == 7,
                        Color::White => end.0 == 0,
                    }
                } else {
                    false
                }
            },
            None => false,
        }
    }

    /// What an attempt comes to, given whether the rules allow the move.
    fn verdict(
        &self,
        allowed: bool,
        beg: (usize, usize),
        end: (usize, usize),
        choice: Option<char>,
    ) -> (res: Result<MoveOutcome, ChessError>)
        requires
            on_board(as_square(beg)),
            on_board(as_square(end)),
        ensures
            res == self@.outcome(allowed, as_square(beg), as_square(end), choice),
    {
        if !allowed {
            Ok(MoveOutcome::Rejected)
        } else if !self.needs_promotion(beg, end) {
            Ok(MoveOutcome::Accepted)
        } else {
            match choice {
                None => Ok(MoveOutcome::PromotionRequired),
                Some(c) => match promotion_from_char(c) {
                    Ok(_) => Ok(MoveOutcome::Accepted),
                    Err(e) => Err(e),
                },
            }
        }
    }

    /// Leaves the game as a rejected attempt leaves it.
    fn reject(&mut self)
        ensures
            final(self)@ == old(self)@.rejected(),
    {
        if self.reset_en_passant_on_reject {
            self.can_en_pessant = [None, None];
        }
    }

    /// Passes the turn after an accepted ply.
    fn pass_turn(&mut self)
        ensures
            final(self)@ == old(self)@.next_turn(),
    {
        if self.strict_turns {
            self.turn = self.turn.other();
            if self.turn_number < u64::MAX {
                self.turn_number = self.turn_number + 1;
            }
        }
    }

    /// Carries the piece on `beg` to another square `end`.
    fn relocate(&mut self, beg: (usize, usize), end: (usize, usize), promo: Option<PieceType>)
        requires
            on_board(as_square(beg)),
            on_board(as_square(end)),
            beg != end,
            old(self)@.at(as_square(beg)).is_some(),
        ensures
            final(self)@ == old(self)@.relocated(as_square(beg), as_square(end), promo),
    {
        let (beg_rank, beg_file) = beg;
        let (end_rank, end_file) = end;
        let piece = self.board[beg_rank][beg_file].unwrap();
        self.can_en_pessant = [None, None];
        if let PieceType::Pawn(false) = piece.piece_type {
            if (beg_rank >= end_rank && beg_rank - end_rank == 2) || (end_rank >= beg_rank
                && end_rank - beg_rank == 2) {
                self.check_en_pessant(piece.color, end);
            }
        }
        let mut arriving = Piece { piece_type: piece.piece_type.mark_moved(), color: piece.color };
        if let PieceType::Pawn(true) = piece.piece_type {
            let last_rank: usize = match piece.color {
                Color::Black => 7,
                Color::White => 0,
            };
            if end_rank == last_rank {
                if let Some(kind) = promo {
                    arriving = Piece { piece_type: kind, color: piece.color };
                }
            }
        }
        self.board[end_rank][end_file] = Some(arriving);
        self.board[beg_rank][beg_file] = None;
        proof {
            let goal = old(self)@.relocated(as_square(beg), as_square(end), promo);
            assert(self@.squares =~= goal.squares);
        }
    }

    /// Whether a piece stands strictly between `beg` and `end` in the file
    /// of `beg`.
    fn blocked_vertical(&self, beg: (usize, usize), end: (usize, usize)) -> (hit: bool)
        requires
            on_board(as_square(beg)),
            on_board(as_square(end)),
        ensures
            hit == self@.blocked(vertical_path(as_square(beg), as_square(end))),
    {
        let ghost squares = vertical_path(as_square(beg), as_square(end));
        let ranks = ret_range(beg.0, end.0);
        let mut k: usize = 0;
        while k < ranks.len()
            invariant
                k <= ranks@.len(),
                on_board(as_square(beg)),
                on_board(as_square(end)),
                squares == vertical_path(as_square(beg), as_square(end)),
                ranks@.len() == between(beg.0 as int, end.0 as int).len(),
                forall|i: int|
                    0 <= i < ranks@.len() ==> ranks@[i] as int == between(
                        beg.0 as int,
                        end.0 as int,
                    )[i],
                forall|i: int| 0 <= i < k ==> (#[trigger] self@.at(squares[i])).is_none(),
            decreases ranks@.len() - k,
        {
            let rank = ranks[k];
            assert(squares[k as int] == (rank as int, beg.1 as int));
            if self.board[rank][beg.1].is_some() {
                assert(self@.at(squares[k as int]).is_some());
                return true;
            }
            k = k + 1;
        }
        false
    }

    /// Whether a piece stands strictly between `beg` and `end` in the rank
    /// of `beg`.
    fn blocked_horizontal(&self, beg: (usize, usize), end: (usize, usize)) -> (hit: bool)
        requires
            on_board(as_square(beg)),
            on_board(as_square(end)),
        ensures
            hit == self@.blocked(horizontal_path(as_square(beg), as_square(end))),
    {
        let ghost squares = horizontal_path(as_square(beg), as_square(end));
        let files = ret_range(beg.1, end.1);
        let mut k: usize = 0;
        while k < files.len()
            invariant
                k <= files@.len(),
                on_board(as_square(beg)),
                on_board(as_square(end)),
                squares == horizontal_path(as_square(beg), as_square(end)),
                files@.len() == between(beg.1 as int, end.1 as int).len(),
                forall|i: int|
                    0 <= i < files@.len() ==> files@[i] as int == between(
                        beg.1 as int,
                        end.1 as int,
                    )[i],
                forall|i: int| 0 <= i < k ==> (#[trigger] self@.at(squares[i])).is_none(),
            decreases files@.len() - k,
        {
            let file = files[k];
            assert(squares[k as int] == (beg.0 as int, file as int));
            if self.board[beg.0][file].is_some() {
                assert(self@.at(squares[k as int]).is_some());
                return true;
            }
            k = k + 1;
        }
        false
    }

    /// Whether a piece stands on the diagonal walk from `beg` towards
    /// `end`, both ends left out.
    fn blocked_diagonal(&self, beg: (usize, usize), end: (usize, usize)) -> (hit: bool)
        requires
            on_board(as_square(beg)),
            on_board(as_square(end)),
        ensures
            hit == self@.blocked(diagonal_path(as_square(beg), as_square(end))),
    {
        let ghost squares = diagonal_path(as_square(beg), as_square(end));
        let ranks = ret_range(beg.0, end.0);
        let files = ret_range(beg.1, end.1);
        let mut k: usize = 0;
        while k < ranks.len() && k < files.len()
            invariant
                k <= ranks@.len(),
                k <= files@.len(),
                on_board(as_square(beg)),
                on_board(as_square(end)),
                squares == diagonal_path(as_square(beg), as_square(end)),
                ranks@.len() == between(beg.0 as int, end.0 as int).len(),
                files@.len() == between(beg.1 as int, end.1 as int).len(),
                forall|i: int|
                    0 <= i < ranks@.len() ==> ranks@[i] as int == between(
                        beg.0 as int,
                        end.0 as int,
                    )[i],
                forall|i: int|
                    0 <= i < files@.len() ==> files@[i] as int == between(
                        beg.1 as int,
                        end.1 as int,
                    )[i],
                forall|i: int| 0 <= i < k ==> (#[trigger] self@.at(squares[i])).is_none(),
            decreases ranks@.len() - k,
        {
            let rank = ranks[k];
            let file = files[k];
            assert(squares[k as int] == (rank as int, file as int));
            if self.board[rank][file].is_some() {
                assert(self@.at(squares[k as int]).is_some());
                return true;
            }
            k = k + 1;
        }
        false
    }

    /// Whether a piece stands on the rook-like path from `beg` to `end`.
    fn blocked_straight(&self, beg: (usize, usize), end: (usize, usize)) -> (hit: bool)
        requires
            on_board(as_square(beg)),
            on_board(as_square(end)),
        ensures
            hit == self@.blocked(straight_path(as_square(beg), as_square(end))),
    {
        if beg.1 == end.1 {
            self.blocked_vertical(beg, end)
        } else {
            self.blocked_horizontal(beg, end)
        }
    }

    /// Reports whether a piece stands strictly between `beginning_pos` and
    /// `ending_pos` on the path of the piece on `beginning_pos`.
    ///
    /// A pawn's path runs along its file. A rook's runs along the file
    /// where the file stays the same, else along the rank. A bishop's is
    /// diagonal. A queen's is diagonal where rank and file distance are
    /// equal, else the rook's. Knights and kings are never obstructed, and
    /// neither is an empty origin.
    pub fn check_collison(
        &self,
        beginning_pos: (usize, usize),
        ending_pos: (usize, usize),
    ) -> (hit: bool)
        requires
            on_board(as_square(beginning_pos)),
            on_board(as_square(ending_pos)),
        ensures
            hit == self@.obstructed(as_square(beginning_pos), as_square(ending_pos)),
    {
        let (beg_rank, beg_file) = beginning_pos;
        let (end_rank, end_file) = ending_pos;
        match self.board[beg_rank][beg_file] {
            None => false,
            Some(piece) => match piece.piece_type {
                PieceType::Pawn(_) => self.blocked_vertical(beginning_pos, ending_pos),
                PieceType::Bishop => self.blocked_diagonal(beginning_pos, ending_pos),
                PieceType::Rook(_) => self.blocked_straight(beginning_pos, ending_pos),
                PieceType::Queen => {
                    let diff_rank: usize = if beg_rank >= end_rank {
                        beg_rank - end_rank
                    } else {
                        end_rank - beg_rank
                    };
                    let diff_file: usize = if beg_file >= end_file {
                        beg_file - end_file
                    } else {
                        end_file - beg_file
                    };
                    if diff_file == diff_rank {
                        self.blocked_diagonal(beginning_pos, ending_pos)
                    } else {
                        self.blocked_straight(beginning_pos, ending_pos)
                    }
                },
                PieceType::Knight => false,
                PieceType::King(_) => false,
            },
        }
    }

    /// Decides ordinary legality: a piece stands on `beginning_pos`, its
    /// geometry reaches `ending_pos`, the destination is empty or holds a
    /// piece of the other colour, and nothing stands in between.
    pub fn check_legal_move(
        &self,
        beginning_pos: (usize, usize),
        ending_pos: (usize, usize),
    ) -> (ok: bool)
        requires
            on_board(as_square(beginning_pos)),
            on_board(as_square(ending_pos)),
        ensures
            ok == self@.legal(as_square(beginning_pos), as_square(ending_pos)),
    {
        let (beg_rank, beg_file) = beginning_pos;
        let (end_rank, end_file) = ending_pos;
        match self.board[beg_rank][beg_file] {
            Some(piece) => {
                if !piece.piece_type.ret_can_make_move(beginning_pos, ending_pos) {
                    return false;
                }
                match self.board[end_rank][end_file] {
                    Some(end_piece) => {
                        if end_piece.color == piece.color {
                            return false;
                        }
                    },
                    None => (),
                }
                !self.check_collison(beginning_pos, ending_pos)
            },
            None => false,
        }
    }

    /// Whether the piece on `beg` may be moved now.
    fn in_turn(&self, beg: (usize, usize)) -> (ok: bool)
        requires
            on_board(as_square(beg)),
        ensures
            ok == self@.in_turn(as_square(beg)),
    {
        if !self.strict_turns {
            true
        } else {
            match self.board[beg.0][beg.1] {
                Some(piece) => piece.color == self.turn,
                None => false,
            }
        }
    }

    /// Makes an ordinary move: where the move is in turn and legal, the
    /// piece is carried to its destination as by `move_piece` and the turn
    /// passes. Special moves are not looked for.
    pub fn make_move(
        &mut self,
        beginning_pos: (usize, usize),
        ending_pos: (usize, usize),
        choice: Option<char>,
    ) -> (res: Result<MoveOutcome, ChessError>)
        requires
            on_board(as_square(beginning_pos)),
            on_board(as_square(ending_pos)),
        ensures
            res == old(self)@.make_move_outcome(
                as_square(beginning_pos),
                as_square(ending_pos),
                choice,
            ),
            final(self)@ == old(self)@.make_move_state(
                as_square(beginning_pos),
                as_square(ending_pos),
                choice,
            ),
            old(self)@.within_material() ==> final(self)@.within_material(),
    {
        proof {
            if self@.within_material() {
                lemma_moves_stay_within_material(
                    self@,
                    as_square(beginning_pos),
                    as_square(ending_pos),
                    choice,
                );
            }
        }
        let allowed = self.in_turn(beginning_pos) && self.check_legal_move(
            beginning_pos,
            ending_pos,
        );
        let res = self.verdict(allowed, beginning_pos, ending_pos, choice);
        match res {
            Ok(MoveOutcome::Accepted) => {
                self.relocate(beginning_pos, ending_pos, chosen(choice));
                self.pass_turn();
            },
            Ok(MoveOutcome::Rejected) => {
                self.reject();
            },
            _ => {},
        }
        res
    }

    /// Whether the move is the king-onto-rook form of castling.
    fn is_castle(&self, beg: (usize, usize), end: (usize, usize)) -> (ok: bool)
        requires
            on_board(as_square(beg)),
            on_board(as_square(end)),
        ensures
            ok == self@.is_castle(as_square(beg), as_square(end)),
    {
        let king = match self.board[beg.0][beg.1] {
            Some(piece) => piece,
            None => { return false; },
        };
        let rook = match self.board[end.0][end.1] {
            Some(piece) => piece,
            None => { return false; },
        };
        let unmoved_king = match king.piece_type {
            PieceType::King(moved) => !moved,
            _ => false,
        };
        let unmoved_rook = match rook.piece_type {
            PieceType::Rook(moved) => !moved,
            _ => false,
        };
        if !(unmoved_king && unmoved_rook && rook.color == king.color) || beg.1 == end.1 {
            return false;
        }
        let fits = if end.1 > beg.1 {
            beg.1 + 2 < 8
        } else {
            beg.1 >= 2
        };
        if !fits || self.check_collison(end, beg) {
            return false;
        }
        let (king_to, rook_to) = Self::castling_goals(beg, end);
        self.free_to_castle_onto(beg, end, king_to) && self.free_to_castle_onto(beg, end, rook_to)
    }

    /// The landing squares of king and rook in a castling from `beg` with
    /// the rook on `end`.
    fn castling_goals(beg: (usize, usize), end: (usize, usize)) -> (goals: (
        (usize, usize),
        (usize, usize),
    ))
        requires
            on_board(as_square(beg)),
            on_board(king_goal(as_square(beg), as_square(end))),
        ensures
            as_square(goals.0) == king_goal(as_square(beg), as_square(end)),
            as_square(goals.1) == rook_goal(as_square(beg), as_square(end)),
            on_board(as_square(goals.0)),
            on_board(as_square(goals.1)),
    {
        if end.1 > beg.1 {
            ((beg.0, beg.1 + 2), (beg.0, beg.1 + 1))
        } else {
            ((beg.0, beg.1 - 2), (beg.0, beg.1 - 1))
        }
    }

    /// Whether a piece may land on `sq` in a castling from `beg` with the
    /// rook on `end`.
    fn free_to_castle_onto(
        &self,
        beg: (usize, usize),
        end: (usize, usize),
        sq: (usize, usize),
    ) -> (ok: bool)
        requires
            on_board(as_square(sq)),
        ensures
            ok == self@.free_to_castle_onto(as_square(beg), as_square(end), as_square(sq)),
    {
        self.board[sq.0][sq.1].is_none() || (sq.0 == beg.0 && sq.1 == beg.1) || (sq.0 == end.0
            && sq.1 == end.1)
    }

    /// Whether `end` lies one rank ahead of `beg` for a pawn of `color`.
    fn one_rank_ahead(color: Color, beg: (usize, usize), end: (usize, usize)) -> (ok: bool)
        requires
            on_board(as_square(beg)),
            on_board(as_square(end)),
        ensures
            ok == one_rank_ahead(color, as_square(beg), as_square(end)),
    {
        match color {
            Color::Black => end.0 == beg.0 + 1,
            Color::White => end.0 + 1 == beg.0,
        }
    }

    /// Whether the en passant memory names the square.
    fn remembers(&self, sq: (usize, usize)) -> (ok: bool)
        ensures
            ok == self@.remembers(as_square(sq)),
    {
        let first = match self.can_en_pessant[0] {
            Some(t) => t.0 == sq.0 && t.1 == sq.1,
            None => false,
        };
        let second = match self.can_en_pessant[1] {
            Some(t) => t.0 == sq.0 && t.1 == sq.1,
            None => false,
        };
        first || second
    }

    /// Classifies a move attempt under the special-move rules, which are
    /// tried in this order: castling, en passant, the ordinary pawn moves,
    /// and ordinary legality for every other piece.
    pub fn classify_move(&self, beg: (usize, usize), end: (usize, usize)) -> (class: MoveClass)
        requires
            on_board(as_square(beg)),
            on_board(as_square(end)),
        ensures
            class == self@.classify(as_square(beg), as_square(end)),
    {
        let (beg_rank, beg_file) = beg;
        let (end_rank, end_file) = end;
        let starting_piece = match self.board[beg_rank][beg_file] {
            Some(piece) => piece,
            None => { return MoveClass::Illegal; },
        };
        let ending_piece = self.board[end_rank][end_file];
        let diff_file: usize = if beg_file >= end_file {
            beg_file - end_file
        } else {
            end_file - beg_file
        };

        if self.is_castle(beg, end) {
            return MoveClass::Castle;
        }
        if let PieceType::Pawn(moved) = starting_piece.piece_type {
            let ahead = Self::one_rank_ahead(starting_piece.color, beg, end);
            if moved && ahead && diff_file == 1 && ending_piece.is_none() && self.remembers(beg) {
                return MoveClass::EnPassant;
            }
            let may_go = if diff_file == 0 {
                self.check_legal_move(beg, end)
            } else if diff_file == 1 && ahead {
                match ending_piece {
                    Some(end_piece) => end_piece.color != starting_piece.color,
                    None => false,
                }
            } else {
                false
            };
            return if may_go {
                MoveClass::Plain
            } else {
                MoveClass::Illegal
            };
        }
        if self.check_legal_move(beg, end) {
            MoveClass::Plain
        } else {
            MoveClass::Illegal
        }
    }

    /// Makes a move under the full rules.
    ///
    /// The attempt is rejected where the move is out of turn or its class is
    /// `Illegal`. An accepted castling puts the king two files towards the
    /// rook and the rook on the square the king passed over, both marked
    /// as moved, and leaves the squares they came from empty. An
    /// accepted en passant capture empties the square beside the origin,
    /// in the destination's file, and carries the pawn to the destination.
    /// Every other accepted move carries one piece as `move_piece` does.
    /// Then the turn passes.
    ///
    /// A move that promotes needs a `choice`, as in `move_piece`.
    pub fn select_move(
        &mut self,
        beginning_pos: (usize, usize),
        ending_pos: (usize, usize),
        choice: Option<char>,
    ) -> (res: Result<MoveOutcome, ChessError>)
        requires
            on_board(as_square(beginning_pos)),
            on_board(as_square(ending_pos)),
        ensures
            res == old(self)@.select_move_outcome(
                as_square(beginning_pos),
                as_square(ending_pos),
                choice,
            ),
            final(self)@ == old(self)@.select_move_state(
                as_square(beginning_pos),
                as_square(ending_pos),
                choice,
            ),
            old(self)@.within_material() ==> final(self)@.within_material(),
    {
        proof {
            if self@.within_material() {
                lemma_moves_stay_within_material(
                    self@,
                    as_square(beginning_pos),
                    as_square(ending_pos),
                    choice,
                );
            }
        }
        let (beg_rank, beg_file) = beginning_pos;
        let (end_rank, end_file) = ending_pos;
        let class = self.classify_move(beginning_pos, ending_pos);
        let allowed = self.in_turn(beginning_pos) && class != MoveClass::Illegal;
        let res = self.verdict(allowed, beginning_pos, ending_pos, choice);
        match res {
            Ok(MoveOutcome::Accepted) => {
                match class {
                    MoveClass::Castle => {
                        let color = self.board[beg_rank][beg_file].unwrap().color;
                        let (king_to, rook_to) = Self::castling_goals(beginning_pos, ending_pos);
                        self.board[beg_rank][beg_file] = None;
                        self.board[end_rank][end_file] = None;
                        self.board[king_to.0][king_to.1] = build_piece(
                            PieceType::King(true),
                            color,
                        );
                        self.board[rook_to.0][rook_to.1] = build_piece(
                            PieceType::Rook(true),
                            color,
                        );
                        self.can_en_pessant = [None, None];
                        assert(self@.squares =~= old(self)@.castled(
                            as_square(beginning_pos),
                            as_square(ending_pos),
                        ).squares);
                    },
                    MoveClass::EnPassant => {
                        self.board[beg_rank][end_file] = None;
                        assert(self@ == old(self)@.cleared((beg_rank as int, end_file as int))) by {
                            assert(self@.squares =~= old(self)@.cleared(
                                (beg_rank as int, end_file as int),
                            ).squares);
                        }
                        self.relocate(beginning_pos, ending_pos, chosen(choice));
                    },
                    _ => {
                        self.relocate(beginning_pos, ending_pos, chosen(choice));
                    },
                }
                self.pass_turn();
            },
            Ok(MoveOutcome::Rejected) => {
                self.reject();
            },
            _ => {},
        }
        res
    }

    /// Carries the piece on `beginning_pos` to `ending_pos` without asking
    /// whether the rules allow the move.
    ///
    /// The piece is marked as moved, whatever stood on the destination is
    /// gone, and the en passant memory is rebuilt: after an unmoved pawn's
    /// step of two ranks it names the enemy pawns beside the destination,
    /// otherwise nothing. Turn and ply count are not touched.
    ///
    /// Where the move carries a moved pawn to its last rank, `choice` names
    /// the replacement. Without a choice the result is
    /// `PromotionRequired`, with an unknown letter it is the error
    /// `InvalidPromotionChoice`; the game is unchanged in both cases. An
    /// empty origin is `Rejected`, and so is a destination that is the
    /// origin itself.
    pub fn move_piece(
        &mut self,
        beginning_pos: (usize, usize),
        ending_pos: (usize, usize),
        choice: Option<char>,
    ) -> (res: Result<MoveOutcome, ChessError>)
        requires
            on_board(as_square(beginning_pos)),
            on_board(as_square(ending_pos)),
        ensures
            res == old(self)@.move_piece_outcome(
                as_square(beginning_pos),
                as_square(ending_pos),
                choice,
            ),
            final(self)@ == old(self)@.move_piece_state(
                as_square(beginning_pos),
                as_square(ending_pos),
                choice,
            ),
            old(self)@.within_material() ==> final(self)@.within_material(),
    {
        proof {
            if self@.within_material() {
                lemma_moves_stay_within_material(
                    self@,
                    as_square(beginning_pos),
                    as_square(ending_pos),
                    choice,
                );
            }
        }
        let same_square = beginning_pos.0 == ending_pos.0 && beginning_pos.1 == ending_pos.1;
        let allowed = self.board[beginning_pos.0][beginning_pos.1].is_some() && !same_square;
        let res = self.verdict(allowed, beginning_pos, ending_pos, choice);
        match res {
            Ok(MoveOutcome::Accepted) => {
                self.relocate(beginning_pos, ending_pos, chosen(choice));
            },
            Ok(MoveOutcome::Rejected) => {
                self.reject();
            },
            _ => {},
        }
        res
    }

    /// `move_piece` on squares given by name. A name that cannot be read is
    /// the error `InvalidNotation` and leaves the game unchanged.
    pub fn move_piece_with_chess_notation(
        &mut self,
        start: &str,
        end: &str,
        choice: Option<char>,
    ) -> (res: Result<MoveOutcome, ChessError>)
        ensures
            match (parse_square(start@), parse_square(end@)) {
                (Some(beg), Some(dest)) => res == old(self)@.move_piece_outcome(beg, dest, choice)
                    && final(self)@ == old(self)@.move_piece_state(beg, dest, choice),
                _ => res == Err::<MoveOutcome, ChessError>(ChessError::InvalidNotation)
                    && final(self)@ == old(self)@,
            },
            old(self)@.within_material() ==> final(self)@.within_material(),
    {
        let beginning_pos = match chess_notation_to_array_notation(start) {
            Ok(sq) => sq,
            Err(e) => { return Err(e); },
        };
        let ending_pos = match chess_notation_to_array_notation(end) {
            Ok(sq) => sq,
            Err(e) => { return Err(e); },
        };
        self.move_piece(beginning_pos, ending_pos, choice)
    }

    /// `check_legal_move` on squares given by name.
    pub fn check_legal_move_chess_notation(
        &self,
        beginning_pos: &str,
        ending_pos: &str,
    ) -> (res: Result<bool, ChessError>)
        ensures
            match (parse_square(beginning_pos@), parse_square(ending_pos@)) {
                (Some(beg), Some(dest)) => res == Ok::<bool, ChessError>(self@.legal(beg, dest)),
                _ => res == Err::<bool, ChessError>(ChessError::InvalidNotation),
            },
    {
        let beg = match chess_notation_to_array_notation(beginning_pos) {
            Ok(sq) => sq,
            Err(e) => { return Err(e); },
        };
        let dest = match chess_notation_to_array_notation(ending_pos) {
            Ok(sq) => sq,
            Err(e) => { return Err(e); },
        };
        Ok(self.check_legal_move(beg, dest))
    }

    /// `check_collison` on squares given by name.
    pub fn check_collison_chess_notation(
        &self,
        beginning_pos: &str,
        ending_pos: &str,
    ) -> (res: Result<bool, ChessError>)
        ensures
            match (parse_square(beginning_pos@), parse_square(ending_pos@)) {
                (Some(beg), Some(dest)) => res == Ok::<bool, ChessError>(
                    self@.obstructed(beg, dest),
                ),
                _ => res == Err::<bool, ChessError>(ChessError::InvalidNotation),
            },
    {
        let beg = match chess_notation_to_array_notation(beginning_pos) {
            Ok(sq) => sq,
            Err(e) => { return Err(e); },
        };
        let dest = match chess_notation_to_array_notation(ending_pos) {
            Ok(sq) => sq,
            Err(e) => { return Err(e); },
        };
        Ok(self.check_collison(beg, dest))
    }

    /// `make_move` on squares given by name. A name that cannot be read is
    /// the error `InvalidNotation` and leaves the game unchanged.
    pub fn make_move_chess_notation(
        &mut self,
        start: &str,
        end: &str,
        choice: Option<char>,
    ) -> (res: Result<MoveOutcome, ChessError>)
        ensures
            match (parse_square(start@), parse_square(end@)) {
                (Some(beg), Some(dest)) => res == old(self)@.make_move_outcome(beg, dest, choice)
                    && final(self)@ == old(self)@.make_move_state(beg, dest, choice),
                _ => res == Err::<MoveOutcome, ChessError>(ChessError::InvalidNotation)
                    && final(self)@ == old(self)@,
            },
            old(self)@.within_material() ==> final(self)@.within_material(),
    {
        let beginning_pos = match chess_notation_to_array_notation(start) {
            Ok(sq) => sq,
            Err(e) => { return Err(e); },
        };
        let ending_pos = match chess_notation_to_array_notation(end) {
            Ok(sq) => sq,
            Err(e) => { return Err(e); },
        };
        self.make_move(beginning_pos, ending_pos, choice)
    }

    /// `select_move` on squares given by name. A name that cannot be read
    /// is the error `InvalidNotation` and leaves the game unchanged.
    pub fn select_move_chess_notation(
        &mut self,
        start: &str,
        end: &str,
        choice: Option<char>,
    ) -> (res: Result<MoveOutcome, ChessError>)
        ensures
            match (parse_square(start@), parse_square(end@)) {
                (Some(beg), Some(dest)) => res == old(self)@.select_move_outcome(
                    beg,
                    dest,
                    choice,
                ) && final(self)@ == old(self)@.select_move_state(beg, dest, choice),
                _ => res == Err::<MoveOutcome, ChessError>(ChessError::InvalidNotation)
                    && final(self)@ == old(self)@,
            },
            old(self)@.within_material() ==> final(self)@.within_material(),
    {
        let beginning_pos = match chess_notation_to_array_notation(start) {
            Ok(sq) => sq,
            Err(e) => { return Err(e); },
        };
        let ending_pos = match chess_notation_to_array_notation(end) {
            Ok(sq) => sq,
            Err(e) => { return Err(e); },
        };
        self.select_move(beginning_pos, ending_pos, choice)
    }
}

} // verus!
