//! The click-driven move selection: a first click picks a piece of the side
//! to move, a second click picks its destination, and the next frame plays
//! the move if the destination is one of the piece's legal targets.

use vstd::prelude::*;
use crate::board::{Board, side_at};

verus! {

/// Selection state of the board front end.
///
/// `move_state` is 0 while nothing is selected, 1 after the first click
/// picked a piece on `move_from`, and 2 after the second click picked the
/// destination `move_to`. An unset square is -1.
pub struct GAME {
    pub move_state: i64,
    pub move_from: i8,
    pub move_to: i8,
}

/// A move chosen on the board: from square `from` to square `to`.
#[derive(Clone, Copy, Debug, PartialEq, Eq, Structural)]
pub struct Play {
    pub from: i8,
    pub to: i8,
}

/// What the frame update decided.
#[derive(Clone, Copy, Debug, PartialEq, Eq, Structural)]
pub enum CheckerStep {
    /// No destination has been chosen: nothing to do this frame.
    Wait,
    /// A destination had been chosen: the selection is cleared and the board
    /// is to be redrawn; the move `play` is played `times` times, once for
    /// every entry of the legal targets equal to its destination (so not at
    /// all when the destination is not a legal target).
    Settle { play: Play, times: usize },
}

/// Is `sq` a square of the board?
pub open spec fn on_board(sq: int) -> bool {
    0 <= sq < 64
}

/// The state with nothing selected.
pub open spec fn idle() -> GAME {
    GAME { move_state: 0, move_from: -1i8, move_to: -1i8 }
}

impl GAME {
    /// Well-formedness of the selection state.
    pub open spec fn wf(&self) -> bool {
        &&& 0 <= self.move_state <= 2
        &&& self.move_state == 0 ==> self.move_from == -1 && self.move_to == -1
        &&& self.move_state == 1 ==> on_board(self.move_from as int) && self.move_to == -1
        &&& self.move_state == 2 ==> on_board(self.move_from as int)
    }

    /// The state at start: nothing selected.
    pub fn new() -> (g: GAME)
        ensures
            g == idle(),
            g.wf(),
    {
        GAME { move_state: 0, move_from: -1, move_to: -1 }
    }
}

/// The square a click lands on, as the front end stores it.
pub open spec fn click_square(raw: i64) -> i8 {
    raw as i8
}

/// May a press with the cursor at `clicked` be handled in state `g`?
/// A first click must land on a square of the board.
pub open spec fn press_allowed(g: GAME, clicked: Option<i64>) -> bool {
    g.move_state == 0 ==> (clicked matches Some(raw) && on_board(click_square(raw) as int))
}

/// The state after a press: the first click selects a piece of the side to
/// move (or is ignored on any other square), the second click records the
/// destination, and a third click clears the selection.
pub open spec fn after_press(g: GAME, clicked: Option<i64>, board: &Board) -> GAME {
    if g.move_state == 0 {
        let from = click_square(clicked.unwrap());
        if side_at(board, from as int) == board.turn {
            GAME { move_state: 1, move_from: from, move_to: g.move_to }
        } else {
            GAME { move_state: 0, move_from: -1i8, move_to: g.move_to }
        }
    } else if g.move_state == 1 {
        GAME {
            move_state: 2,
            move_from: g.move_from,
            move_to: match clicked {
                Some(raw) => click_square(raw),
                None => g.move_to,
            },
        }
    } else {
        idle()
    }
}

/// Handles a left-button press with the cursor over square `clicked`
/// (`None` when the cursor is outside the window). Returns the square whose
/// legal targets are to be marked, when the press selected a piece.
pub fn button_presser(game: &mut GAME, clicked: Option<i64>, board: &Board) -> (shown: Option<i8>)
    requires
        old(game).wf(),
        press_allowed(*old(game), clicked),
    ensures
        final(game).wf(),
        *final(game) == after_press(*old(game), clicked, board),
        shown == (if final(game).move_state == 1 {
            Some(final(game).move_from)
        } else {
            None::<i8>
        }),
{
    let state = (game.move_state + 1) % 3;
    if state == 0 {
        *game = GAME { move_state: 0, move_from: -1, move_to: -1 };
        None
    } else if state == 1 {
        let raw = match clicked {
            Some(raw) => raw,
            None => game.move_from as i64,
        };
        let from: i8 = raw as i8;
        let idx: usize = from as usize;
        if board.sides[idx] != board.turn {
            *game = GAME { move_state: 0, move_from: -1, move_to: game.move_to };
            None
        } else {
            *game = GAME { move_state: 1, move_from: from, move_to: game.move_to };
            Some(from)
        }
    } else {
        let to = match clicked {
            Some(raw) => raw as i8,
            None => game.move_to,
        };
        *game = GAME { move_state: 2, move_from: game.move_from, move_to: to };
        None
    }
}

/// The square whose legal targets are marked while a piece is selected:
/// the selected square in state 1, and none otherwise.
pub fn selected_square(game: &GAME) -> (sq: Option<i8>)
    requires
        game.wf(),
    ensures
        sq == (if game.move_state == 1 {
            Some(game.move_from)
        } else {
            None::<i8>
        }),
        sq matches Some(f) ==> on_board(f as int),
{
    if game.move_state != 1 {
        return None;
    }
    Some(game.move_from)
}

/// The number of entries of `s` equal to `x`.
pub open spec fn occurrences(s: Seq<i8>, x: i8) -> nat
    decreases s.len(),
{
    if s.len() == 0 {
        0
    } else {
        occurrences(s.drop_last(), x) + if s.last() == x {
            1nat
        } else {
            0nat
        }
    }
}

/// The step a frame update takes in state `g`, given the legal targets of
/// the selected piece.
pub open spec fn checker_step(g: GAME, targets: Seq<i8>) -> CheckerStep {
    if g.move_state == 2 {
        CheckerStep::Settle {
            play: Play { from: g.move_from, to: g.move_to },
            times: occurrences(targets, g.move_to) as usize,
        }
    } else {
        CheckerStep::Wait
    }
}

/// The frame update. Once a destination has been chosen, the move to it is
/// played once for every entry of `targets` (the legal targets of the
/// selected piece) equal to the destination, the board is redrawn and the
/// selection is cleared.
pub fn checker(game: &mut GAME, targets: &Vec<i8>) -> (step: CheckerStep)
    requires
        old(game).wf(),
    ensures
        final(game).wf(),
        step == checker_step(*old(game), targets@),
        *final(game) == (if old(game).move_state == 2 { idle() } else { *old(game) }),
{
    if game.move_state != 2 {
        return CheckerStep::Wait;
    }
    let to = game.move_to;
    let mut times: usize = 0;
    let n = targets.len();
    for i in 0..n
        invariant
            n == targets@.len(),
            times == occurrences(targets@.take(i as int), to),
            times <= i,
    {
        assert(targets@.take(i + 1).drop_last() == targets@.take(i as int));
        if targets[i] == to {
            times = times + 1;
        }
    }
    assert(targets@.take(n as int) == targets@);
    let play = Play { from: game.move_from, to };
    *game = GAME { move_state: 0, move_from: -1, move_to: -1 };
    CheckerStep::Settle { play, times }
}

/// Counting entries: an empty list has none equal to `x`, and appending an
/// entry adds one exactly when that entry is `x`; the count never exceeds
/// the length.
pub proof fn lemma_occurrences_count(s: Seq<i8>, x: i8, y: i8)
    ensures
        occurrences(Seq::<i8>::empty(), x) == 0,
        occurrences(s.push(y), x) == occurrences(s, x) + (if y == x {
            1int
        } else {
            0int
        }),
        occurrences(s, x) <= s.len(),
{
    assert(s.push(y).drop_last() == s);
    lemma_occurrences_at_most_len(s, x);
}

proof fn lemma_occurrences_at_most_len(s: Seq<i8>, x: i8)
    ensures
        occurrences(s, x) <= s.len(),
    decreases s.len(),
{
    if s.len() > 0 {
        lemma_occurrences_at_most_len(s.drop_last(), x);
    }
}

/// The frame update after a destination was chosen settles the clicked move
/// and plays it once per legal-target entry equal to the destination: with
/// no targets it is played no time, and each further target adds one play
/// exactly when it is the destination.
pub proof fn lemma_checker_plays_once_per_matching_target(g: GAME, targets: Seq<i8>, y: i8)
    requires
        g.wf(),
        g.move_state == 2,
        targets.len() + 1 <= usize::MAX,
    ensures
        checker_step(g, Seq::<i8>::empty()) == (CheckerStep::Settle {
            play: Play { from: g.move_from, to: g.move_to },
            times: 0,
        }),
        checker_step(g, targets) matches CheckerStep::Settle { play: p, times: t }
            && checker_step(g, targets.push(y)) matches CheckerStep::Settle { play: q, times: u }
            && p == (Play { from: g.move_from, to: g.move_to })
            && q == p
            && u as int == t as int + (if y == g.move_to {
            1int
        } else {
            0int
        }),
{
    lemma_occurrences_count(targets, g.move_to, y);
    lemma_occurrences_at_most_len(targets.push(y), g.move_to);
}

/// The move is played at all exactly when its destination is a legal
/// target.
pub proof fn lemma_played_iff_legal(targets: Seq<i8>, to: i8)
    ensures
        occurrences(targets, to) > 0 <==> targets.contains(to),
    decreases targets.len(),
{
    if targets.len() > 0 {
        let rest = targets.drop_last();
        lemma_played_iff_legal(rest, to);
        if rest.contains(to) {
            let j = choose|j: int| 0 <= j < rest.len() && rest[j] == to;
            assert(targets[j] == to);
        }
        if targets.contains(to) && targets.last() != to {
            let j = choose|j: int| 0 <= j < targets.len() && targets[j] == to;
            assert(rest[j] == to);
        }
    }
}

/// A click over a square of the board is stored as that very square.
pub proof fn lemma_click_on_board_is_its_square(raw: i64)
    requires
        0 <= raw < 64,
    ensures
        click_square(raw) as int == raw,
        on_board(click_square(raw) as int),
{
}

/// A piece is selected only if it belongs to the side to move: a first
/// click on a square of the side to move selects that square, and a first
/// click on any other square leaves nothing selected.
pub proof fn lemma_selection_belongs_to_mover(g: GAME, clicked: Option<i64>, board: &Board)
    requires
        g.wf(),
        g.move_state == 0,
        press_allowed(g, clicked),
    ensures
        after_press(g, clicked, board).wf(),
        after_press(g, clicked, board).move_state == 1 <==> side_at(
            board,
            click_square(clicked.unwrap()) as int,
        ) == board.turn,
        after_press(g, clicked, board).move_state == 1 ==> after_press(
            g,
            clicked,
            board,
        ).move_from == click_square(clicked.unwrap()),
        after_press(g, clicked, board).move_state == 0 ==> after_press(g, clicked, board)
            == idle(),
{
}

/// Every press moves the selection one phase on (0, 1, 2, then back to 0),
/// except a first click that does not land on a piece of the side to move,
/// which leaves nothing selected.
pub proof fn lemma_press_advances_phase(g: GAME, clicked: Option<i64>, board: &Board)
    requires
        g.wf(),
        press_allowed(g, clicked),
    ensures
        after_press(g, clicked, board).wf(),
        after_press(g, clicked, board).move_state == (g.move_state + 1) % 3
            || (g.move_state == 0 && after_press(g, clicked, board) == idle()),
        g.move_state == 2 ==> after_press(g, clicked, board) == idle(),
{
}

/// The move played is the one clicked: from nothing selected, a first click
/// on a piece of the side to move and a second click on a square, followed
/// by a frame update, play the move from the first square to the second
/// once per legal-target entry equal to the second square (not at all when
/// it is not a legal target).
pub proof fn lemma_clicks_play_clicked_move(
    first: i64,
    second: i64,
    before_first: &Board,
    before_second: &Board,
    targets: Seq<i8>,
)
    requires
        on_board(click_square(first) as int),
        side_at(before_first, click_square(first) as int) == before_first.turn,
    ensures
        ({
            let g1 = after_press(idle(), Some(first), before_first);
            let g2 = after_press(g1, Some(second), before_second);
            &&& g1.wf()
            &&& g2.wf()
            &&& checker_step(g2, targets) == CheckerStep::Settle {
                play: Play { from: click_square(first), to: click_square(second) },
                times: occurrences(targets, click_square(second)) as usize,
            }
        }),
{
}

} // verus!
