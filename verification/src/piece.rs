//! Piece identity, colour and movement geometry.

use vstd::prelude::*;
use crate::notation::as_square;

verus! {

/// The kind of a piece. Pawns, rooks and kings carry a flag that is `false`
/// until the piece has moved once and `true` ever after.
#[derive(Debug, Clone, Copy, PartialEq, Eq, Structural)]
pub enum PieceType {
    Pawn(bool),
    Rook(bool),
    Bishop,
    Knight,
    King(bool),
    Queen,
}

/// The side a piece belongs to.
#[derive(Debug, Clone, Copy, PartialEq, Eq, Structural)]
pub enum Color {
    Black,
    White,
}

/// A piece on the board. The value is replaced as a whole when its kind's
/// flag changes.
#[derive(Debug, Clone, Copy, PartialEq, Eq, Structural)]
pub struct Piece {
    pub piece_type: PieceType,
    pub color: Color,
}

/// The distance between two coordinates on one axis.
pub open spec fn span(a: int, b: int) -> int {
    if a >= b {
        a - b
    } else {
        b - a
    }
}

/// The lower-case form of an upper-case piece letter; other characters stay.
pub open spec fn lower_glyph(c: char) -> char {
    if c == 'P' {
        'p'
    } else if c == 'R' {
        'r'
    } else if c == 'B' {
        'b'
    } else if c == 'N' {
        'n'
    } else if c == 'K' {
        'k'
    } else if c == 'Q' {
        'q'
    } else {
        c
    }
}

impl PieceType {
    /// The upper-case letter that stands for this kind.
    pub open spec fn glyph(self) -> char {
        match self {
            PieceType::Pawn(_) => 'P',
            PieceType::Rook(_) => 'R',
            PieceType::Bishop => 'B',
            PieceType::Knight => 'N',
            PieceType::King(_) => 'K',
            PieceType::Queen => 'Q',
        }
    }

    /// Movement geometry by rank and file distance alone: occupancy,
    /// captures and, for pawns, direction are not looked at.
    pub open spec fn can_reach(self, beg: (int, int), end: (int, int)) -> bool {
        let dr = span(beg.0, end.0);
        let df = span(beg.1, end.1);
        match self {
            PieceType::Pawn(moved) => if moved {
                dr == 1
            } else {
                dr < 3
            },
            PieceType::Rook(_) => dr == 0 || df == 0,
            PieceType::Bishop => dr == df,
            PieceType::Knight => (df == 2 && dr == 1) || (dr == 2 && df == 1),
            PieceType::King(_) => df <= 1 && dr <= 1,
            PieceType::Queen => dr == df || dr == 0 || df == 0,
        }
    }

    /// Whether this is a pawn, moved or not.
    pub open spec fn is_pawn(self) -> bool {
        self is Pawn
    }

    /// This kind once the piece has moved: the flag of a pawn, rook or king
    /// is `true`; the other kinds are unchanged.
    pub open spec fn after_move(self) -> PieceType {
        match self {
            PieceType::Pawn(_) => PieceType::Pawn(true),
            PieceType::Rook(_) => PieceType::Rook(true),
            PieceType::King(_) => PieceType::King(true),
            other => other,
        }
    }

    /// The upper-case display letter of this kind.
    pub fn ret_type_as_char(&self) -> (c: char)
        ensures
            c == self.glyph(),
    {
        match self {
            PieceType::Pawn(_) => 'P',
            PieceType::Rook(_) => 'R',
            PieceType::Bishop => 'B',
            PieceType::Knight => 'N',
            PieceType::King(_) => 'K',
            PieceType::Queen => 'Q',
        }
    }

    /// Decides whether a piece of this kind can go from `beg_pos` to
    /// `end_pos`, both given as (rank, file), by geometry alone.
    pub fn ret_can_make_move(&self, beg_pos: (usize, usize), end_pos: (usize, usize)) -> (ok: bool)
        ensures
            ok == self.can_reach(as_square(beg_pos), as_square(end_pos)),
    {
        let (beg_rank, beg_file) = beg_pos;
        let (end_rank, end_file) = end_pos;
        let diff_file: usize = if beg_file >= end_file {
            beg_file - end_file
        } else {
            end_file - beg_file
        };
        let diff_rank: usize = if beg_rank >= end_rank {
            beg_rank - end_rank
        } else {
            end_rank - beg_rank
        };
        match self {
            PieceType::Pawn(moved) => {
                if !*moved {
                    diff_rank < 3
                } else {
                    diff_rank == 1
                }
            },
            PieceType::Rook(_) => diff_rank == 0 || diff_file == 0,
            PieceType::King(_) => diff_file <= 1 && diff_rank <= 1,
            PieceType::Bishop => diff_file == diff_rank,
            PieceType::Knight => (diff_file == 2 && diff_rank == 1) || (diff_rank == 2 && diff_file
                == 1),
            PieceType::Queen => diff_file == diff_rank || beg_file == end_file || beg_rank
                == end_rank,
        }
    }

    /// The kind this piece has after its first move.
    pub fn mark_moved(&self) -> (k: PieceType)
        ensures
            k == self.after_move(),
    {
        match self {
            PieceType::Pawn(_) => PieceType::Pawn(true),
            PieceType::Rook(_) => PieceType::Rook(true),
            PieceType::King(_) => PieceType::King(true),
            PieceType::Bishop => PieceType::Bishop,
            PieceType::Knight => PieceType::Knight,
            PieceType::Queen => PieceType::Queen,
        }
    }
}

impl Color {
    /// The other side.
    pub open spec fn opponent(self) -> Color {
        match self {
            Color::White => Color::Black,
            Color::Black => Color::White,
        }
    }

    /// The rank on which a pawn of this colour is promoted: the top row
    /// (rank 0) for White, the bottom row (rank 7) for Black.
    pub open spec fn last_rank(self) -> int {
        match self {
            Color::White => 0,
            Color::Black => 7,
        }
    }

    pub fn is_white(&self) -> (w: bool)
        ensures
            w == (*self == Color::White),
    {
        *self == Color::White
    }

    /// The other side.
    pub fn other(&self) -> (c: Color)
        ensures
            c == self.opponent(),
    {
        match self {
            Color::White => Color::Black,
            Color::Black => Color::White,
        }
    }
}

impl Piece {
    /// The display letter: upper case for White, lower case for Black.
    pub open spec fn glyph(self) -> char {
        if self.color == Color::White {
            self.piece_type.glyph()
        } else {
            lower_glyph(self.piece_type.glyph())
        }
    }

    /// The display letter of this piece.
    pub fn get_piece_as_char(&self) -> (c: char)
        ensures
            c == self.glyph(),
    {
        if self.color.is_white() {
            self.piece_type.ret_type_as_char()
        } else {
            match self.piece_type {
                PieceType::Pawn(_) => 'p',
                PieceType::Rook(_) => 'r',
                PieceType::Bishop => 'b',
                PieceType::Knight => 'n',
                PieceType::King(_) => 'k',
                PieceType::Queen => 'q',
            }
        }
    }
}

/// Makes the content of an occupied square.
pub fn build_piece(piece: PieceType, color: Color) -> (ret: Option<Piece>)
    ensures
        ret == Some(Piece { piece_type: piece, color: color }),
{
    let to_build = Piece { piece_type: piece, color: color };
    Some(to_build)
}

} // verus!
