//! What the board front end draws: one piece sprite per occupied square, and
//! the banner shown when a move ends the game by checkmate.

use vstd::prelude::*;
use crate::board::{Board, Piece, Side, piece_at, side_at};

verus! {

/// The texture of a piece of kind `piece` owned by `side`; `None` for a square
/// that no side owns. An owned square with no piece kind gets the texture
/// path "throw_error", which names no texture.
pub open spec fn texture_of(side: Side, piece: Piece) -> Option<Seq<char>> {
    match side {
        Side::White => Some(
            match piece {
                Piece::King => "pieces/king.png"@,
                Piece::Queen => "pieces/queen.png"@,
                Piece::Bishop => "pieces/bishop.png"@,
                Piece::Pawn => "pieces/pawn.png"@,
                Piece::Rook => "pieces/rook.png"@,
                Piece::Knight => "pieces/knight.png"@,
                Piece::Empty => "throw_error"@,
            },
        ),
        Side::Black => Some(
            match piece {
                Piece::King => "pieces/king1.png"@,
                Piece::Queen => "pieces/queen1.png"@,
                Piece::Bishop => "pieces/bishop1.png"@,
                Piece::Pawn => "pieces/pawn1.png"@,
                Piece::Rook => "pieces/rook1.png"@,
                Piece::Knight => "pieces/knight1.png"@,
                Piece::Empty => "throw_error"@,
            },
        ),
        Side::Empty => None,
    }
}

/// The texture of a piece of kind `piece` owned by `side`, if the square is
/// owned.
pub fn piece_texture(side: Side, piece: Piece) -> (t: Option<&'static str>)
    ensures
        t is Some <==> texture_of(side, piece) is Some,
        t matches Some(s) ==> s@ == texture_of(side, piece).unwrap(),
{
    match side {
        Side::White => Some(
            match piece {
                Piece::King => "pieces/king.png",
                Piece::Queen => "pieces/queen.png",
                Piece::Bishop => "pieces/bishop.png",
                Piece::Pawn => "pieces/pawn.png",
                Piece::Rook => "pieces/rook.png",
                Piece::Knight => "pieces/knight.png",
                Piece::Empty => "throw_error",
            },
        ),
        Side::Black => Some(
            match piece {
                Piece::King => "pieces/king1.png",
                Piece::Queen => "pieces/queen1.png",
                Piece::Bishop => "pieces/bishop1.png",
                Piece::Pawn => "pieces/pawn1.png",
                Piece::Rook => "pieces/rook1.png",
                Piece::Knight => "pieces/knight1.png",
                Piece::Empty => "throw_error",
            },
        ),
        Side::Empty => None,
    }
}

/// The sprites for the first `n` squares of `board`, in square order: a pair
/// of the square and its texture for every owned square.
pub open spec fn sprites_upto(board: &Board, n: int) -> Seq<(i64, Seq<char>)>
    decreases n,
{
    if n <= 0 {
        Seq::empty()
    } else {
        let rest = sprites_upto(board, n - 1);
        match texture_of(side_at(board, n - 1), piece_at(board, n - 1)) {
            Some(t) => rest.push(((n - 1) as i64, t)),
            None => rest,
        }
    }
}

/// The sprites of the whole board.
pub open spec fn board_sprites(board: &Board) -> Seq<(i64, Seq<char>)> {
    sprites_upto(board, 64)
}

/// The piece sprites to draw for `board`: for every square that a side owns,
/// in square order, the square and the texture of its piece.
pub fn spawn_pieces(board: &Board) -> (sprites: Vec<(i64, &'static str)>)
    ensures
        sprites@.len() == board_sprites(board).len(),
        forall|k: int|
            0 <= k < sprites@.len() ==> #[trigger] sprites@[k].0 == board_sprites(board)[k].0
                && sprites@[k].1@ == board_sprites(board)[k].1,
{
    let mut sprites: Vec<(i64, &'static str)> = Vec::new();
    for i in 0..64usize
        invariant
            sprites@.len() == sprites_upto(board, i as int).len(),
            forall|k: int|
                0 <= k < sprites@.len() ==> #[trigger] sprites@[k].0 == sprites_upto(
                    board,
                    i as int,
                )[k].0 && sprites@[k].1@ == sprites_upto(board, i as int)[k].1,
    {
        let side = board.sides[i];
        let piece = board.pieces[i];
        let ghost before = sprites@;
        assert(side == side_at(board, i as int) && piece == piece_at(board, i as int));
        if let Some(t) = piece_texture(side, piece) {
            sprites.push((i as i64, t));
            assert(sprites_upto(board, i + 1) == sprites_upto(board, i as int).push(
                (i as i64, t@),
            ));
            assert(forall|k: int| 0 <= k < before.len() ==> sprites@[k] == before[k]);
        } else {
            assert(sprites_upto(board, i + 1) == sprites_upto(board, i as int));
        }
    }
    sprites
}

/// The sprites of the first `n` squares: each names an owned square below
/// `n` with the texture of its piece, the squares strictly increase, and
/// every owned square below `n` has one.
proof fn lemma_sprites_upto(board: &Board, n: int)
    requires
        0 <= n <= 64,
    ensures
        forall|k: int|
            0 <= k < sprites_upto(board, n).len() ==> {
                let e = #[trigger] sprites_upto(board, n)[k];
                &&& 0 <= e.0 < n
                &&& side_at(board, e.0 as int) != Side::Empty
                &&& texture_of(side_at(board, e.0 as int), piece_at(board, e.0 as int)) == Some(
                    e.1,
                )
            },
        forall|k1: int, k2: int|
            0 <= k1 < k2 < sprites_upto(board, n).len() ==> #[trigger] sprites_upto(board, n)[k1].0
                < #[trigger] sprites_upto(board, n)[k2].0,
        forall|sq: int|
            0 <= sq < n && #[trigger] side_at(board, sq) != Side::Empty ==> exists|k: int|
                0 <= k < sprites_upto(board, n).len() && #[trigger] sprites_upto(board, n)[k].0
                    == sq,
    decreases n,
{
    if n > 0 {
        lemma_sprites_upto(board, n - 1);
        let rest = sprites_upto(board, n - 1);
        let cur = sprites_upto(board, n);
        if side_at(board, n - 1) != Side::Empty {
            assert(cur == rest.push(
                ((n - 1) as i64, texture_of(side_at(board, n - 1), piece_at(board, n - 1)).unwrap()),
            ));
            assert forall|sq: int| 0 <= sq < n && #[trigger] side_at(board, sq) != Side::Empty implies exists|k: int|
                0 <= k < cur.len() && #[trigger] cur[k].0 == sq by {
                if sq == n - 1 {
                    assert(cur[rest.len() as int].0 == sq);
                } else {
                    let k = choose|k: int| 0 <= k < rest.len() && #[trigger] rest[k].0 == sq;
                    assert(cur[k].0 == sq);
                }
            }
        } else {
            assert(cur == rest);
        }
    }
}

/// The piece sprites of a board: exactly the squares a side owns get a
/// sprite, each once, in increasing square order, each with the texture of
/// its piece and owner; empty squares get none.
pub proof fn lemma_board_sprites(board: &Board)
    ensures
        forall|k: int|
            0 <= k < board_sprites(board).len() ==> {
                let e = #[trigger] board_sprites(board)[k];
                &&& 0 <= e.0 < 64
                &&& side_at(board, e.0 as int) != Side::Empty
                &&& texture_of(side_at(board, e.0 as int), piece_at(board, e.0 as int)) == Some(
                    e.1,
                )
            },
        forall|k1: int, k2: int|
            0 <= k1 < k2 < board_sprites(board).len() ==> #[trigger] board_sprites(board)[k1].0
                < #[trigger] board_sprites(board)[k2].0,
        forall|sq: int|
            0 <= sq < 64 ==> (#[trigger] side_at(board, sq) != Side::Empty <==> exists|k: int|
                0 <= k < board_sprites(board).len() && #[trigger] board_sprites(board)[k].0 == sq),
{
    lemma_sprites_upto(board, 64);
}

/// The banner texture shown after a move that checkmates `mated`, if any.
pub open spec fn banner_of(mated: Option<Side>) -> Option<Seq<char>> {
    match mated {
        Some(Side::White) => Some("other/whitecheckmate.png"@),
        Some(Side::Black) => Some("other/blackcheckmate.png"@),
        _ => None,
    }
}

/// The banner to show after a move, given the side it left checkmated
/// (`None` when the game goes on).
pub fn checkmate_banner(mated: Option<Side>) -> (b: Option<&'static str>)
    ensures
        b is Some <==> banner_of(mated) is Some,
        b matches Some(s) ==> s@ == banner_of(mated).unwrap(),
{
    match mated {
        Some(Side::White) => Some("other/whitecheckmate.png"),
        Some(Side::Black) => Some("other/blackcheckmate.png"),
        _ => None,
    }
}

} // verus!
