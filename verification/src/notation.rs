//! Conversion between square names and grid coordinates.
//!
//! A square is a (rank, file) pair with both parts in `0..8`. Rank 0 is the
//! top row of the diagram, where Black's pieces start (chess rank 8); rank 7
//! is White's first row. File 0 is column A.

use vstd::prelude::*;
use vstd::string::*;
use crate::error::ChessError;

verus! {

/// Whether (rank, file) lies on the board.
pub open spec fn on_board(sq: (int, int)) -> bool {
    0 <= sq.0 < 8 && 0 <= sq.1 < 8
}

/// A square given by machine integers, as a mathematical square.
pub open spec fn as_square(pos: (usize, usize)) -> (int, int) {
    (pos.0 as int, pos.1 as int)
}

/// The file that a letter names, in either case.
pub open spec fn file_of_letter(c: char) -> Option<int> {
    if 'A' <= c && c <= 'H' {
        Some(c as u32 as int - 'A' as u32 as int)
    } else if 'a' <= c && c <= 'h' {
        Some(c as u32 as int - 'a' as u32 as int)
    } else {
        None
    }
}

/// The rank that a digit names: `'8'` is rank 0 and `'1'` is rank 7.
pub open spec fn rank_of_digit(c: char) -> Option<int> {
    if '1' <= c && c <= '8' {
        Some(7 - (c as u32 as int - '1' as u32 as int))
    } else {
        None
    }
}

/// The square that a text names. Only the first two characters are read:
/// a file letter, then a rank digit. Whatever follows is ignored.
pub open spec fn parse_square(s: Seq<char>) -> Option<(int, int)> {
    if s.len() < 2 {
        None
    } else {
        match (rank_of_digit(s[1]), file_of_letter(s[0])) {
            (Some(rank), Some(file)) => Some((rank, file)),
            _ => None,
        }
    }
}

/// The upper-case letter of a file.
pub open spec fn letter_of_file(file: int) -> char {
    if file == 0 {
        'A'
    } else if file == 1 {
        'B'
    } else if file == 2 {
        'C'
    } else if file == 3 {
        'D'
    } else if file == 4 {
        'E'
    } else if file == 5 {
        'F'
    } else if file == 6 {
        'G'
    } else {
        'H'
    }
}

/// The digit of a rank.
pub open spec fn digit_of_rank(rank: int) -> char {
    if rank == 0 {
        '8'
    } else if rank == 1 {
        '7'
    } else if rank == 2 {
        '6'
    } else if rank == 3 {
        '5'
    } else if rank == 4 {
        '4'
    } else if rank == 5 {
        '3'
    } else if rank == 6 {
        '2'
    } else {
        '1'
    }
}

/// The canonical name of a square: upper-case file letter, then rank digit.
pub open spec fn square_name(sq: (int, int)) -> Seq<char> {
    seq![letter_of_file(sq.1), digit_of_rank(sq.0)]
}

/// The upper-case form of a file letter; other characters stay.
pub open spec fn upper_letter(c: char) -> char {
    if 'a' <= c && c <= 'h' {
        letter_of_file(c as u32 as int - 'a' as u32 as int)
    } else {
        c
    }
}

/// Reads the square that `chess_not` names and returns it as (rank, file).
///
/// The text must start with a file letter `A`-`H` in either case and a rank
/// digit `1`-`8`; the rest of the text is not looked at.
pub fn chess_notation_to_array_notation(chess_not: &str) -> (res: Result<
    (usize, usize),
    ChessError,
>)
    ensures
        match res {
            Ok(sq) => parse_square(chess_not@) == Some(as_square(sq)),
            Err(e) => e == ChessError::InvalidNotation && parse_square(chess_not@).is_none(),
        },
{
    if chess_not.unicode_len() < 2 {
        return Err(ChessError::InvalidNotation);
    }
    let letter = chess_not.get_char(0);
    let digit = chess_not.get_char(1);
    let file: usize = if 'A' <= letter && letter <= 'H' {
        (letter as usize) - 65
    } else if 'a' <= letter && letter <= 'h' {
        (letter as usize) - 97
    } else {
        return Err(ChessError::InvalidNotation);
    };
    if !('1' <= digit && digit <= '8') {
        return Err(ChessError::InvalidNotation);
    }
    let rank: usize = 7 - ((digit as usize) - 49);
    Ok((rank, file))
}

/// The one-letter text of a file.
fn file_text(file: usize) -> (s: &'static str)
    requires
        file < 8,
    ensures
        s@ == seq![letter_of_file(file as int)],
{
    proof {
        reveal_strlit("A");
        reveal_strlit("B");
        reveal_strlit("C");
        reveal_strlit("D");
        reveal_strlit("E");
        reveal_strlit("F");
        reveal_strlit("G");
        reveal_strlit("H");
    }
    let s = if file == 0 {
        "A"
    } else if file == 1 {
        "B"
    } else if file == 2 {
        "C"
    } else if file == 3 {
        "D"
    } else if file == 4 {
        "E"
    } else if file == 5 {
        "F"
    } else if file == 6 {
        "G"
    } else {
        "H"
    };
    assert(s@ =~= seq![letter_of_file(file as int)]);
    s
}

/// The one-digit text of a rank.
fn rank_text(rank: usize) -> (s: &'static str)
    requires
        rank < 8,
    ensures
        s@ == seq![digit_of_rank(rank as int)],
{
    proof {
        reveal_strlit("1");
        reveal_strlit("2");
        reveal_strlit("3");
        reveal_strlit("4");
        reveal_strlit("5");
        reveal_strlit("6");
        reveal_strlit("7");
        reveal_strlit("8");
    }
    let s = if rank == 0 {
        "8"
    } else if rank == 1 {
        "7"
    } else if rank == 2 {
        "6"
    } else if rank == 3 {
        "5"
    } else if rank == 4 {
        "4"
    } else if rank == 5 {
        "3"
    } else if rank == 6 {
        "2"
    } else {
        "1"
    };
    assert(s@ =~= seq![digit_of_rank(rank as int)]);
    s
}

/// Writes the canonical two-character name of the square `pos`, given as
/// (rank, file).
pub fn array_notation_to_chess_notation(pos: (usize, usize)) -> (name: String)
    requires
        on_board(as_square(pos)),
    ensures
        name@ == square_name(as_square(pos)),
{
    let name = String::from_str(file_text(pos.1)).concat(rank_text(pos.0));
    assert(name@ =~= square_name(as_square(pos)));
    name
}

/// Naming a square of the board and reading the name back gives the square.
pub proof fn lemma_name_then_parse(sq: (int, int))
    requires
        on_board(sq),
    ensures
        parse_square(square_name(sq)) == Some(sq),
{
}

/// Reading a text that names a square and naming that square again gives
/// the canonical form of the text's first two characters: the file letter
/// in upper case, followed by the same digit. The canonical form reads back
/// as the same square.
pub proof fn lemma_parse_then_name(s: Seq<char>)
    requires
        parse_square(s).is_some(),
    ensures
        on_board(parse_square(s).unwrap()),
        square_name(parse_square(s).unwrap()) == seq![upper_letter(s[0]), s[1]],
        parse_square(square_name(parse_square(s).unwrap())) == parse_square(s),
{
    let sq = parse_square(s).unwrap();
    assert(square_name(sq) =~= seq![upper_letter(s[0]), s[1]]);
}

} // verus!
