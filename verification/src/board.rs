//! The board as the front end sees it: 64 squares, each with a piece kind
//! and the side that owns it, and the side to move.

use vstd::prelude::*;

verus! {

/// The owner of a square's piece; `Empty` for a square without a piece.
#[derive(Clone, Copy, Debug, PartialEq, Eq, Structural)]
pub enum Side {
    White,
    Black,
    Empty,
}

/// The kind of piece on a square; `Empty` for a square without a piece.
#[derive(Clone, Copy, Debug, PartialEq, Eq, Structural)]
pub enum Piece {
    King,
    Queen,
    Bishop,
    Pawn,
    Rook,
    Knight,
    Empty,
}

/// A snapshot of the game position: piece kind and owner per square, and the
/// side whose turn it is. Squares are numbered `8 * rank + file`, 0 to 63.
pub struct Board {
    pub pieces: [Piece; 64],
    pub sides: [Side; 64],
    pub turn: Side,
}

/// Quotient of `x` by 8, rounded toward zero (Rust's `/` on integers).
pub open spec fn quot8(x: int) -> int {
    if x >= 0 {
        x / 8
    } else {
        -((-x) / 8)
    }
}

/// Remainder of `x` by 8 with the sign of `x` (Rust's `%` on integers).
pub open spec fn rem8(x: int) -> int {
    x - 8 * quot8(x)
}

/// The piece kind on square `sq` of `board`.
pub open spec fn piece_at(board: &Board, sq: int) -> Piece {
    board.pieces@[sq]
}

/// The owner of the piece on square `sq` of `board`.
pub open spec fn side_at(board: &Board, sq: int) -> Side {
    board.sides@[sq]
}

} // verus!
