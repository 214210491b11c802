//! Outcomes and errors reported by the engine.

use vstd::prelude::*;

verus! {

/// A recoverable input error. Neither leaves the position changed.
#[derive(Clone, Copy, Debug, PartialEq, Eq, Structural)]
pub enum ChessError {
    /// A square name whose first two characters are not a file letter
    /// `A`-`H` (either case) followed by a rank digit `1`-`8`.
    InvalidNotation,
    /// A promotion letter other than `N`, `Q`, `B` or `R` (either case).
    InvalidPromotionChoice,
}

/// What became of a move attempt.
#[derive(Clone, Copy, Debug, PartialEq, Eq, Structural)]
pub enum MoveOutcome {
    /// The rules do not allow the move.
    Rejected,
    /// The move was applied to the position.
    Accepted,
    /// The move is allowed and carries a moved pawn to its last rank, but no
    /// replacement piece was named. The position is untouched; repeat the
    /// call with a choice.
    PromotionRequired,
}

} // verus!
