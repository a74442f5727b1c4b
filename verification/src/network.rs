//! The moves exchanged with a remote opponent: a square travels as a
//! `(rank, file)` pair, and a pawn that reaches the first or last rank is
//! promoted to a queen.

use vstd::prelude::*;
use crate::board::{Board, Piece, Side, piece_at, quot8, rem8};
use crate::selection::Play;

verus! {

/// The piece a pawn is promoted to.
#[derive(Clone, Copy, Debug, PartialEq, Eq, Structural)]
pub enum PromotionPiece {
    Queen,
    Rook,
    Bishop,
    Knight,
}

/// A move as it travels between the two players: the squares as
/// `(rank, file)` pairs, the promotion, and the forfeit and draw-offer flags.
#[derive(Clone, Copy, Debug, PartialEq, Eq)]
pub struct MoveMessage {
    pub from: (u8, u8),
    pub to: (u8, u8),
    pub promotion: Option<PromotionPiece>,
    pub forfeit: bool,
    pub offer_draw: bool,
}

/// The `(rank, file)` pair that carries square `sq`: `sq / 8` and `sq % 8`
/// as computed on an `i8`, each converted to a `u8`.
pub open spec fn square_coords(sq: i8) -> (u8, u8) {
    ((quot8(sq as int)) as u8, (rem8(sq as int)) as u8)
}

/// Does a piece of kind `piece` arriving on square `to` become a queen? A
/// pawn does on rank 0 or rank 7 (`to / 8` as computed on an `i8`).
pub open spec fn promotes(piece: Piece, to: i8) -> bool {
    piece == Piece::Pawn && (quot8(to as int) == 0 || quot8(to as int) == 7)
}

/// The message announcing the move `from -> to` played on `board`.
pub open spec fn move_message(board: &Board, from: i8, to: i8) -> MoveMessage {
    MoveMessage {
        from: square_coords(from),
        to: square_coords(to),
        promotion: if promotes(piece_at(board, from as int), to) {
            Some(PromotionPiece::Queen)
        } else {
            None
        },
        forfeit: false,
        offer_draw: false,
    }
}

/// The square that a `(rank, file)` pair names: `rank * 8 + file`, as
/// computed on `u8`s, converted to an `i8`.
pub open spec fn coords_square(c: (u8, u8)) -> i8 {
    (c.0 * 8 + c.1) as i8
}

/// Can the square of a `(rank, file)` pair be computed without overflow?
pub open spec fn coords_fit(c: (u8, u8)) -> bool {
    c.0 * 8 + c.1 <= u8::MAX
}

/// Does a piece of kind `piece` arriving on square `to` become a queen?
pub fn promotes_on_arrival(piece: Piece, to: i8) -> (p: bool)
    ensures
        p == promotes(piece, to),
        p <==> piece == Piece::Pawn && (-7 <= to <= 7 || 56 <= to <= 63),
{
    let rank: i8 = to / 8;
    piece == Piece::Pawn && (rank == 0 || rank == 7)
}

/// The message announcing the move `from -> to` played on `board`: a pawn
/// moving to the first or last rank is promoted to a queen.
pub fn outgoing_move(board: &Board, from: i8, to: i8) -> (m: MoveMessage)
    requires
        0 <= from < 64,
    ensures
        m == move_message(board, from, to),
        m.from.0 < 8 && m.from.1 < 8 && m.from.0 * 8 + m.from.1 == from,
        0 <= to < 64 ==> m.to.0 < 8 && m.to.1 < 8 && m.to.0 * 8 + m.to.1 == to,
        m.promotion is Some <==> piece_at(board, from as int) == Piece::Pawn && (-7 <= to <= 7
            || 56 <= to <= 63),
        m.promotion is Some ==> m.promotion == Some(PromotionPiece::Queen),
        !m.forfeit && !m.offer_draw,
{
    proof {
        lemma_promotes_only_pawns_on_end_ranks(board.pieces@[from as int], to);
        lemma_square_is_rank_and_file(from);
        if 0 <= to < 64 {
            lemma_square_is_rank_and_file(to);
        }
    }
    let piece = board.pieces[from as usize];
    let promotion = if promotes_on_arrival(piece, to) {
        Some(PromotionPiece::Queen)
    } else {
        None
    };
    MoveMessage {
        from: ((from / 8) as u8, (from % 8) as u8),
        to: ((to / 8) as u8, (to % 8) as u8),
        promotion,
        forfeit: false,
        offer_draw: false,
    }
}

/// The squares `(from, to)` of a move received from the opponent.
pub fn remote_move_squares(m: &MoveMessage) -> (sq: (i8, i8))
    requires
        coords_fit(m.from),
        coords_fit(m.to),
    ensures
        sq == (coords_square(m.from), coords_square(m.to)),
        m.from.0 < 8 && m.from.1 < 8 ==> sq.0 == m.from.0 * 8 + m.from.1,
        m.to.0 < 8 && m.to.1 < 8 ==> sq.1 == m.to.0 * 8 + m.to.1,
{
    let from: u8 = m.from.0 * 8 + m.from.1;
    let to: u8 = m.to.0 * 8 + m.to.1;
    (from as i8, to as i8)
}

/// Is a move received from the opponent to be played? Only when some bytes
/// arrived and it is not this player's (`colour`) turn.
pub fn accepts_remote_move(received: usize, turn: Side, colour: Side) -> (a: bool)
    ensures
        a == (received != 0 && turn != colour),
{
    received != 0 && turn != colour
}

/// Only a pawn is ever promoted, and only on arriving on rank 0 or rank 7
/// (squares 0 to 7 and 56 to 63; Rust's `to / 8` is also 0 for -7 to -1).
pub proof fn lemma_promotes_only_pawns_on_end_ranks(piece: Piece, to: i8)
    ensures
        promotes(piece, to) <==> piece == Piece::Pawn && (-7 <= to <= 7 || 56 <= to <= 63),
        piece != Piece::Pawn ==> !promotes(piece, to),
{
}

/// A square of the board travels as its rank and file: both below 8, and
/// rank times 8 plus file is the square.
pub proof fn lemma_square_is_rank_and_file(sq: i8)
    requires
        0 <= sq < 64,
    ensures
        square_coords(sq).0 < 8,
        square_coords(sq).1 < 8,
        square_coords(sq).0 * 8 + square_coords(sq).1 == sq,
{
}

/// Every `(rank, file)` pair with both below 8 is read as the square
/// `rank * 8 + file`, without overflow.
pub proof fn lemma_rank_and_file_read_as_square(rank: u8, file: u8)
    requires
        rank < 8,
        file < 8,
    ensures
        coords_fit((rank, file)),
        coords_square((rank, file)) as int == rank * 8 + file,
{
}

/// The message for a move on the board carries each square as its rank and
/// file, promotes to a queen exactly a pawn moving to rank 0 or 7, and
/// neither forfeits nor offers a draw.
pub proof fn lemma_message_carries_rank_file_and_promotion(board: &Board, from: i8, to: i8)
    requires
        0 <= from < 64,
        0 <= to < 64,
    ensures
        ({
            let m = move_message(board, from, to);
            &&& m.from.0 < 8 && m.from.1 < 8 && m.from.0 * 8 + m.from.1 == from
            &&& m.to.0 < 8 && m.to.1 < 8 && m.to.0 * 8 + m.to.1 == to
            &&& m.promotion == if piece_at(board, from as int) == Piece::Pawn && (to < 8 || to
                >= 56) {
                Some(PromotionPiece::Queen)
            } else {
                None
            }
            &&& !m.forfeit && !m.offer_draw
        }),
{
    lemma_square_is_rank_and_file(from);
    lemma_square_is_rank_and_file(to);
    lemma_promotes_only_pawns_on_end_ranks(piece_at(board, from as int), to);
}

/// A square of the board travels intact: the `(rank, file)` pair that
/// carries it names the same square again, without overflow.
pub proof fn lemma_square_coords_round_trip(sq: i8)
    requires
        0 <= sq < 64,
    ensures
        coords_fit(square_coords(sq)),
        coords_square(square_coords(sq)) == sq,
{
}

/// A move sent to the opponent is received as the same move: the squares
/// read back from the message are the squares played, and reading them
/// back never overflows.
pub proof fn lemma_move_message_round_trip(board: &Board, from: i8, to: i8)
    requires
        0 <= from < 64,
        0 <= to < 64,
    ensures
        coords_fit(move_message(board, from, to).from),
        coords_fit(move_message(board, from, to).to),
        (coords_square(move_message(board, from, to).from), coords_square(
            move_message(board, from, to).to,
        )) == (from, to),
{
    lemma_square_coords_round_trip(from);
    lemma_square_coords_round_trip(to);
}

/// Where the networked game stands in the exchange of moves.
#[derive(Clone, Copy, Debug, PartialEq, Eq, Structural)]
pub enum NetPhase {
    /// No own move is in flight; a move from the opponent may arrive.
    Listening,
    /// Own move `play` was sent; its acknowledgement has not arrived.
    AwaitingAck { play: Play },
    /// Own move `play` was acknowledged and is being applied.
    Settling { play: Play },
}

/// What happened in the networked game.
#[derive(Clone, Copy, Debug, PartialEq, Eq)]
pub enum NetEvent {
    /// A move from the opponent arrived and was accepted
    /// (see `accepts_remote_move`).
    Remote(MoveMessage),
    /// This player chose the move `play` on the board.
    LocalPlay(Play),
    /// The opponent's acknowledgement arrived.
    Ack,
    /// The engine applied the own move; the board is the position after it.
    Applied,
}

/// What the front end is to do next, in order.
#[derive(Clone, Copy, Debug, PartialEq, Eq)]
pub enum NetAction {
    /// Send the opponent an acknowledgement of its move.
    Acknowledge,
    /// Play the move on the engine's board.
    Apply(Play),
    /// Send the opponent this move.
    Send(MoveMessage),
    /// Wait until the opponent's acknowledgement arrives.
    AwaitAck,
    /// Turn the piece on this square into a queen.
    PromoteToQueen(i8),
}

/// The squares of a received move.
pub open spec fn received_play(m: MoveMessage) -> Play {
    Play { from: coords_square(m.from), to: coords_square(m.to) }
}

/// May `event` be handled in `phase`? A received move must name
/// its squares without overflow, an own move must start on the board, and
/// the arrival square of an applied own move must be on the board.
pub open spec fn net_event_allowed(phase: NetPhase, event: NetEvent) -> bool {
    match event {
        NetEvent::Remote(m) => coords_fit(m.from) && coords_fit(m.to),
        NetEvent::LocalPlay(play) => 0 <= play.from < 64,
        NetEvent::Ack => true,
        NetEvent::Applied => phase matches NetPhase::Settling { play } ==> 0 <= play.to < 64,
    }
}

/// The next phase and the actions, in order, for `event` in `phase`.
/// A received move is acknowledged, then applied. An own move is sent, then
/// its acknowledgement awaited; the acknowledgement has it applied, and once
/// applied a pawn that arrived on rank 0 or 7 becomes a queen. An event that
/// does not fit the phase changes nothing.
pub open spec fn net_step(phase: NetPhase, event: NetEvent, board: &Board) -> (
    NetPhase,
    Seq<NetAction>,
) {
    match (phase, event) {
        (NetPhase::Listening, NetEvent::Remote(m)) => (
            NetPhase::Listening,
            seq![NetAction::Acknowledge, NetAction::Apply(received_play(m))],
        ),
        (NetPhase::Listening, NetEvent::LocalPlay(play)) => (
            NetPhase::AwaitingAck { play },
            seq![NetAction::Send(move_message(board, play.from, play.to)), NetAction::AwaitAck],
        ),
        (NetPhase::AwaitingAck { play }, NetEvent::Ack) => (
            NetPhase::Settling { play },
            seq![NetAction::Apply(play)],
        ),
        (NetPhase::Settling { play }, NetEvent::Applied) => (
            NetPhase::Listening,
            if promotes(piece_at(board, play.to as int), play.to) {
                seq![NetAction::PromoteToQueen(play.to)]
            } else {
                Seq::empty()
            },
        ),
        _ => (phase, Seq::empty()),
    }
}

/// One step of the networked game: the next phase and the actions to take,
/// in order, for `event` in `phase`, on the position `board` (the position
/// after the move for `Applied`).
pub fn server_step(phase: NetPhase, event: NetEvent, board: &Board) -> (r: (NetPhase, Vec<NetAction>))
    requires
        net_event_allowed(phase, event),
    ensures
        r.0 == net_step(phase, event, board).0,
        r.1@ == net_step(phase, event, board).1,
{
    match (phase, event) {
        (NetPhase::Listening, NetEvent::Remote(m)) => {
            let (from, to) = remote_move_squares(&m);
            (NetPhase::Listening, vec![NetAction::Acknowledge, NetAction::Apply(Play { from, to })])
        },
        (NetPhase::Listening, NetEvent::LocalPlay(play)) => {
            let m = outgoing_move(board, play.from, play.to);
            (NetPhase::AwaitingAck { play }, vec![NetAction::Send(m), NetAction::AwaitAck])
        },
        (NetPhase::AwaitingAck { play }, NetEvent::Ack) => {
            (NetPhase::Settling { play }, vec![NetAction::Apply(play)])
        },
        (NetPhase::Settling { play }, NetEvent::Applied) => {
            let piece = board.pieces[play.to as usize];
            if promotes_on_arrival(piece, play.to) {
                (NetPhase::Listening, vec![NetAction::PromoteToQueen(play.to)])
            } else {
                (NetPhase::Listening, Vec::new())
            }
        },
        _ => (phase, Vec::new()),
    }
}

/// A received move whose ranks and files are all below 8 is acknowledged,
/// then applied from square `rank * 8 + file` to square `rank * 8 + file`.
pub proof fn lemma_received_move_applied_at_its_squares(m: MoveMessage, board: &Board)
    requires
        m.from.0 < 8 && m.from.1 < 8,
        m.to.0 < 8 && m.to.1 < 8,
    ensures
        net_event_allowed(NetPhase::Listening, NetEvent::Remote(m)),
        net_step(NetPhase::Listening, NetEvent::Remote(m), board).0 == NetPhase::Listening,
        net_step(NetPhase::Listening, NetEvent::Remote(m), board).1.len() == 2,
        net_step(NetPhase::Listening, NetEvent::Remote(m), board).1[0] == NetAction::Acknowledge,
        net_step(NetPhase::Listening, NetEvent::Remote(m), board).1[1] matches NetAction::Apply(p)
            && p.from as int == m.from.0 * 8 + m.from.1 && p.to as int == m.to.0 * 8 + m.to.1,
{
    lemma_rank_and_file_read_as_square(m.from.0, m.from.1);
    lemma_rank_and_file_read_as_square(m.to.0, m.to.1);
}

/// Once an own move is applied, the only further action is turning the
/// piece on the arrival square into a queen, and only when it is a pawn on
/// rank 0 or 7; for any other piece nothing more is done.
pub proof fn lemma_applied_move_promotes_only_pawns(play: Play, after: &Board)
    requires
        0 <= play.to < 64,
    ensures
        net_event_allowed(NetPhase::Settling { play }, NetEvent::Applied),
        net_step(NetPhase::Settling { play }, NetEvent::Applied, after).0 == NetPhase::Listening,
        net_step(NetPhase::Settling { play }, NetEvent::Applied, after).1 == if piece_at(
            after,
            play.to as int,
        ) == Piece::Pawn && (play.to < 8 || play.to >= 56) {
            seq![NetAction::PromoteToQueen(play.to)]
        } else {
            Seq::<NetAction>::empty()
        },
        piece_at(after, play.to as int) != Piece::Pawn ==> net_step(
            NetPhase::Settling { play },
            NetEvent::Applied,
            after,
        ).1.len() == 0,
{
    lemma_promotes_only_pawns_on_end_ranks(piece_at(after, play.to as int), play.to);
}

/// An own move travels whole: from listening, choosing a move sends its
/// message and awaits the acknowledgement; the acknowledgement has the same
/// move applied; and the message, received by the opponent's front end,
/// has it acknowledge and apply the very same squares.
pub proof fn lemma_exchanged_move_applied_alike(board: &Board, after: &Board, play: Play)
    requires
        0 <= play.from < 64,
        0 <= play.to < 64,
    ensures
        ({
            let sent = net_step(NetPhase::Listening, NetEvent::LocalPlay(play), board);
            let msg = move_message(board, play.from, play.to);
            let acked = net_step(sent.0, NetEvent::Ack, board);
            let applied = net_step(acked.0, NetEvent::Applied, after);
            let peer = net_step(NetPhase::Listening, NetEvent::Remote(msg), after);
            &&& sent.1 == seq![NetAction::Send(msg), NetAction::AwaitAck]
            &&& acked.1 == seq![NetAction::Apply(play)]
            &&& net_event_allowed(acked.0, NetEvent::Applied)
            &&& applied.0 == NetPhase::Listening
            &&& net_event_allowed(NetPhase::Listening, NetEvent::Remote(msg))
            &&& peer.1 == seq![NetAction::Acknowledge, NetAction::Apply(play)]
        }),
{
    lemma_move_message_round_trip(board, play.from, play.to);
}

} // verus!
