use chess_gui::board::{Board, Piece, Side};
use chess_gui::network::{
    accepts_remote_move, outgoing_move, promotes_on_arrival, remote_move_squares, server_step,
    MoveMessage, NetAction, NetEvent, NetPhase, PromotionPiece,
};
use chess_gui::selection::Play;

fn board_with(square: usize, piece: Piece, side: Side) -> Board {
    let mut pieces = [Piece::Empty; 64];
    let mut sides = [Side::Empty; 64];
    pieces[square] = piece;
    sides[square] = side;
    Board { pieces, sides, turn: Side::White }
}

#[test]
fn outgoing_move_carries_rank_and_file() {
    let board = board_with(12, Piece::Pawn, Side::White);
    let m = outgoing_move(&board, 12, 28);
    assert_eq!(
        m,
        MoveMessage { from: (1, 4), to: (3, 4), promotion: None, forfeit: false, offer_draw: false }
    );
}

#[test]
fn outgoing_pawn_move_to_last_rank_promotes_to_queen() {
    let board = board_with(52, Piece::Pawn, Side::White);
    let m = outgoing_move(&board, 52, 60);
    assert_eq!(m.from, (6, 4));
    assert_eq!(m.to, (7, 4));
    assert_eq!(m.promotion, Some(PromotionPiece::Queen));
}

#[test]
fn outgoing_pawn_move_to_first_rank_promotes_to_queen() {
    let board = board_with(11, Piece::Pawn, Side::Black);
    let m = outgoing_move(&board, 11, 3);
    assert_eq!(m.to, (0, 3));
    assert_eq!(m.promotion, Some(PromotionPiece::Queen));
}

#[test]
fn outgoing_rook_move_to_last_rank_does_not_promote() {
    let board = board_with(48, Piece::Rook, Side::White);
    let m = outgoing_move(&board, 48, 56);
    assert_eq!(m.promotion, None);
}

#[test]
fn outgoing_move_to_negative_square_wraps_like_the_cast() {
    let board = board_with(8, Piece::Knight, Side::White);
    let m = outgoing_move(&board, 8, -3);
    // -3 / 8 == 0 and -3 % 8 == -3, and -3 as u8 == 253
    assert_eq!(m.to, (0, 253));
}

#[test]
fn promotion_rule() {
    assert!(promotes_on_arrival(Piece::Pawn, 0));
    assert!(promotes_on_arrival(Piece::Pawn, 7));
    assert!(promotes_on_arrival(Piece::Pawn, 56));
    assert!(promotes_on_arrival(Piece::Pawn, 63));
    assert!(!promotes_on_arrival(Piece::Pawn, 8));
    assert!(!promotes_on_arrival(Piece::Pawn, 55));
    assert!(!promotes_on_arrival(Piece::Queen, 63));
    assert!(!promotes_on_arrival(Piece::Empty, 0));
}

#[test]
fn remote_move_names_squares() {
    let m = MoveMessage { from: (6, 4), to: (4, 4), promotion: None, forfeit: false, offer_draw: false };
    assert_eq!(remote_move_squares(&m), (52, 36));
}

#[test]
fn remote_move_square_wraps_like_the_cast() {
    let m = MoveMessage { from: (16, 0), to: (31, 7), promotion: None, forfeit: false, offer_draw: false };
    // 128 as i8 == -128, 255 as i8 == -1
    assert_eq!(remote_move_squares(&m), (-128, -1));
}

#[test]
fn sent_move_reads_back_as_the_same_squares() {
    let board = board_with(1, Piece::Knight, Side::White);
    for from in 0..64i8 {
        for to in 0..64i8 {
            let m = outgoing_move(&board, from, to);
            assert_eq!(remote_move_squares(&m), (from, to));
        }
    }
}

#[test]
fn remote_move_accepted_only_when_waiting_for_it() {
    assert!(accepts_remote_move(12, Side::Black, Side::White));
    assert!(!accepts_remote_move(0, Side::Black, Side::White));
    assert!(!accepts_remote_move(12, Side::White, Side::White));
}

#[test]
fn received_move_is_acknowledged_then_applied() {
    let board = board_with(0, Piece::Empty, Side::Empty);
    let m = MoveMessage { from: (6, 4), to: (4, 4), promotion: None, forfeit: false, offer_draw: false };
    let (phase, actions) = server_step(NetPhase::Listening, NetEvent::Remote(m), &board);
    assert_eq!(phase, NetPhase::Listening);
    assert_eq!(actions, vec![NetAction::Acknowledge, NetAction::Apply(Play { from: 52, to: 36 })]);
}

#[test]
fn own_move_is_sent_acknowledged_applied_and_promoted() {
    let play = Play { from: 52, to: 60 };
    let before = board_with(52, Piece::Pawn, Side::White);
    let (phase, actions) = server_step(NetPhase::Listening, NetEvent::LocalPlay(play), &before);
    assert_eq!(phase, NetPhase::AwaitingAck { play });
    assert_eq!(
        actions,
        vec![
            NetAction::Send(MoveMessage {
                from: (6, 4),
                to: (7, 4),
                promotion: Some(PromotionPiece::Queen),
                forfeit: false,
                offer_draw: false,
            }),
            NetAction::AwaitAck,
        ]
    );
    let (phase, actions) = server_step(phase, NetEvent::Ack, &before);
    assert_eq!(phase, NetPhase::Settling { play });
    assert_eq!(actions, vec![NetAction::Apply(play)]);
    let after = board_with(60, Piece::Pawn, Side::White);
    let (phase, actions) = server_step(phase, NetEvent::Applied, &after);
    assert_eq!(phase, NetPhase::Listening);
    assert_eq!(actions, vec![NetAction::PromoteToQueen(60)]);
}

#[test]
fn applied_non_promoting_move_needs_nothing_more() {
    let play = Play { from: 12, to: 28 };
    let after = board_with(28, Piece::Pawn, Side::White);
    let (phase, actions) = server_step(NetPhase::Settling { play }, NetEvent::Applied, &after);
    assert_eq!(phase, NetPhase::Listening);
    assert!(actions.is_empty());
}

#[test]
fn event_out_of_turn_changes_nothing() {
    let board = board_with(0, Piece::Empty, Side::Empty);
    let (phase, actions) = server_step(NetPhase::Listening, NetEvent::Ack, &board);
    assert_eq!(phase, NetPhase::Listening);
    assert!(actions.is_empty());
    let play = Play { from: 1, to: 18 };
    let (phase, actions) =
        server_step(NetPhase::AwaitingAck { play }, NetEvent::LocalPlay(play), &board);
    assert_eq!(phase, NetPhase::AwaitingAck { play });
    assert!(actions.is_empty());
}

#[test]
fn sent_move_is_applied_alike_by_the_opponent() {
    let board = board_with(11, Piece::Knight, Side::White);
    let play = Play { from: 11, to: 28 };
    let (_, sent) = server_step(NetPhase::Listening, NetEvent::LocalPlay(play), &board);
    let msg = match sent[0] {
        NetAction::Send(m) => m,
        _ => panic!("first action must send the move"),
    };
    let (_, peer) = server_step(NetPhase::Listening, NetEvent::Remote(msg), &board);
    assert_eq!(peer, vec![NetAction::Acknowledge, NetAction::Apply(play)]);
}
