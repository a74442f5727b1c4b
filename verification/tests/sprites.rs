use chess_gui::board::{Board, Piece, Side};
use chess_gui::sprites::{checkmate_banner, piece_texture, spawn_pieces};

#[test]
fn textures_of_white_pieces() {
    assert_eq!(piece_texture(Side::White, Piece::King), Some("pieces/king.png"));
    assert_eq!(piece_texture(Side::White, Piece::Queen), Some("pieces/queen.png"));
    assert_eq!(piece_texture(Side::White, Piece::Bishop), Some("pieces/bishop.png"));
    assert_eq!(piece_texture(Side::White, Piece::Pawn), Some("pieces/pawn.png"));
    assert_eq!(piece_texture(Side::White, Piece::Rook), Some("pieces/rook.png"));
    assert_eq!(piece_texture(Side::White, Piece::Knight), Some("pieces/knight.png"));
    assert_eq!(piece_texture(Side::White, Piece::Empty), Some("throw_error"));
}

#[test]
fn textures_of_black_pieces() {
    assert_eq!(piece_texture(Side::Black, Piece::King), Some("pieces/king1.png"));
    assert_eq!(piece_texture(Side::Black, Piece::Queen), Some("pieces/queen1.png"));
    assert_eq!(piece_texture(Side::Black, Piece::Bishop), Some("pieces/bishop1.png"));
    assert_eq!(piece_texture(Side::Black, Piece::Pawn), Some("pieces/pawn1.png"));
    assert_eq!(piece_texture(Side::Black, Piece::Rook), Some("pieces/rook1.png"));
    assert_eq!(piece_texture(Side::Black, Piece::Knight), Some("pieces/knight1.png"));
    assert_eq!(piece_texture(Side::Black, Piece::Empty), Some("throw_error"));
}

#[test]
fn unowned_square_has_no_texture() {
    assert_eq!(piece_texture(Side::Empty, Piece::King), None);
    assert_eq!(piece_texture(Side::Empty, Piece::Empty), None);
}

#[test]
fn sprites_follow_owned_squares_in_order() {
    let mut pieces = [Piece::Empty; 64];
    let mut sides = [Side::Empty; 64];
    pieces[4] = Piece::King;
    sides[4] = Side::White;
    pieces[60] = Piece::King;
    sides[60] = Side::Black;
    pieces[33] = Piece::Queen;
    sides[33] = Side::Black;
    pieces[20] = Piece::Rook;
    let board = Board { pieces, sides, turn: Side::White };
    assert_eq!(
        spawn_pieces(&board),
        vec![(4, "pieces/king.png"), (33, "pieces/queen1.png"), (60, "pieces/king1.png")]
    );
}

#[test]
fn empty_board_has_no_sprites() {
    let board = Board { pieces: [Piece::Empty; 64], sides: [Side::Empty; 64], turn: Side::White };
    assert!(spawn_pieces(&board).is_empty());
}

#[test]
fn full_board_has_one_sprite_per_square() {
    let board = Board { pieces: [Piece::Pawn; 64], sides: [Side::Black; 64], turn: Side::White };
    let sprites = spawn_pieces(&board);
    assert_eq!(sprites.len(), 64);
    for (k, (sq, tex)) in sprites.iter().enumerate() {
        assert_eq!(*sq, k as i64);
        assert_eq!(*tex, "pieces/pawn1.png");
    }
}

#[test]
fn banners() {
    assert_eq!(checkmate_banner(Some(Side::White)), Some("other/whitecheckmate.png"));
    assert_eq!(checkmate_banner(Some(Side::Black)), Some("other/blackcheckmate.png"));
    assert_eq!(checkmate_banner(Some(Side::Empty)), None);
    assert_eq!(checkmate_banner(None), None);
}
