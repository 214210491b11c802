//! The squares a sliding piece passes over.

use vstd::prelude::*;
use crate::piece::{span, PieceType};

verus! {

/// The coordinates strictly between `first` and `second`, walked from
/// `first` towards `second`. Both ends are left out, whichever is larger.
pub open spec fn between(first: int, second: int) -> Seq<int> {
    if first > second {
        Seq::new((first - second - 1) as nat, |i: int| first - 1 - i)
    } else if first < second {
        Seq::new((second - first - 1) as nat, |i: int| first + 1 + i)
    } else {
        Seq::empty()
    }
}

/// The squares strictly between `beg` and `end` in the file of `beg`.
pub open spec fn vertical_path(beg: (int, int), end: (int, int)) -> Seq<(int, int)> {
    let ranks = between(beg.0, end.0);
    Seq::new(ranks.len(), |i: int| (ranks[i], beg.1))
}

/// The squares strictly between `beg` and `end` in the rank of `beg`.
pub open spec fn horizontal_path(beg: (int, int), end: (int, int)) -> Seq<(int, int)> {
    let files = between(beg.1, end.1);
    Seq::new(files.len(), |i: int| (beg.0, files[i]))
}

/// The squares met when rank and file both step towards `end` together,
/// until either reaches its end.
pub open spec fn diagonal_path(beg: (int, int), end: (int, int)) -> Seq<(int, int)> {
    let ranks = between(beg.0, end.0);
    let files = between(beg.1, end.1);
    let len = if ranks.len() <= files.len() {
        ranks.len()
    } else {
        files.len()
    };
    Seq::new(len, |i: int| (ranks[i], files[i]))
}

/// The path of rook-like motion: along the file where the file stays the
/// same, along the rank otherwise.
pub open spec fn straight_path(beg: (int, int), end: (int, int)) -> Seq<(int, int)> {
    if beg.1 == end.1 {
        vertical_path(beg, end)
    } else {
        horizontal_path(beg, end)
    }
}

/// The squares that a piece of the given kind passes over on its way from
/// `beg` to `end`, both ends left out. A pawn's path runs along its file.
/// A queen's path is diagonal where rank and file distance are equal and
/// straight otherwise. Knights and kings pass over no square.
pub open spec fn path(kind: PieceType, beg: (int, int), end: (int, int)) -> Seq<(int, int)> {
    match kind {
        PieceType::Pawn(_) => vertical_path(beg, end),
        PieceType::Bishop => diagonal_path(beg, end),
        PieceType::Rook(_) => straight_path(beg, end),
        PieceType::Queen => if span(beg.0, end.0) == span(beg.1, end.1) {
            diagonal_path(beg, end)
        } else {
            straight_path(beg, end)
        },
        PieceType::Knight => Seq::empty(),
        PieceType::King(_) => Seq::empty(),
    }
}

/// Lists the numbers strictly between `first` and `second`, starting next
/// to `first`, whichever of the two is larger.
pub fn ret_range(first: usize, second: usize) -> (range: Vec<usize>)
    ensures
        range@.len() == between(first as int, second as int).len(),
        forall|i: int|
            0 <= i < range@.len() ==> range@[i] as int == between(first as int, second as int)[i],
{
    let mut range: Vec<usize> = Vec::new();
    if first > second {
        let mut next: usize = first - 1;
        while next > second
            invariant
                second <= next < first,
                range@.len() == first - 1 - next,
                forall|i: int| 0 <= i < range@.len() ==> range@[i] as int == first - 1 - i,
            decreases next,
        {
            range.push(next);
            next = next - 1;
        }
    } else if first < second {
        let mut next: usize = first + 1;
        while next < second
            invariant
                first < next <= second,
                range@.len() == next - first - 1,
                forall|i: int| 0 <= i < range@.len() ==> range@[i] as int == first + 1 + i,
            decreases second - next,
        {
            range.push(next);
            next = next + 1;
        }
    }
    range
}

/// Every coordinate between two others lies strictly inside them.
pub proof fn lemma_between_inside(first: int, second: int, i: int)
    requires
        0 <= i < between(first, second).len(),
    ensures
        first < between(first, second)[i] < second || second < between(first, second)[i] < first,
        between(first, second).len() == span(first, second) - 1,
{
}

/// Walking from `second` to `first` meets the same coordinates as walking
/// from `first` to `second`, in the opposite order.
pub proof fn lemma_between_reversed(first: int, second: int)
    ensures
        between(second, first) == between(first, second).reverse(),
{
    assert(between(second, first) =~= between(first, second).reverse());
}

/// Every square on a path between two squares of the board is on the board,
/// and is neither of the two.
pub proof fn lemma_path_on_board(kind: PieceType, beg: (int, int), end: (int, int), i: int)
    requires
        0 <= beg.0 < 8,
        0 <= beg.1 < 8,
        0 <= end.0 < 8,
        0 <= end.1 < 8,
        0 <= i < path(kind, beg, end).len(),
    ensures
        0 <= path(kind, beg, end)[i].0 < 8,
        0 <= path(kind, beg, end)[i].1 < 8,
        path(kind, beg, end)[i] != beg,
        path(kind, beg, end)[i] != end,
{
}

/// The direction from coordinate `a` to coordinate `b`: one step up, one
/// step down, or none.
pub open spec fn toward(a: int, b: int) -> int {
    if b > a {
        1
    } else if b < a {
        -1
    } else {
        0
    }
}

/// The coordinate reached from `a` by `n` steps towards `b`.
pub open spec fn stepped(a: int, b: int, n: int) -> int {
    if b > a {
        a + n
    } else if b < a {
        a - n
    } else {
        a
    }
}

/// For a rook, bishop or queen whose geometry reaches the destination, the
/// path is the straight line between the two squares: it has one square
/// for each step strictly between them, and its squares follow each other
/// from the origin towards the destination.
pub proof fn lemma_path_follows_the_line(
    kind: PieceType,
    beg: (int, int),
    end: (int, int),
    i: int,
)
    requires
        kind is Rook || kind is Bishop || kind is Queen,
        kind.can_reach(beg, end),
        beg != end,
    ensures
        path(kind, beg, end).len() == if span(beg.0, end.0) >= span(beg.1, end.1) {
            span(beg.0, end.0) - 1
        } else {
            span(beg.1, end.1) - 1
        },
        0 <= i < path(kind, beg, end).len() ==> path(kind, beg, end)[i] == (
            stepped(beg.0, end.0, i + 1),
            stepped(beg.1, end.1, i + 1),
        ),
{
}

} // verus!
