//! The selection engine, run against a terminal model.
//!
//! The model terminal records exactly the state the real device would
//! carry: whether raw input mode is on, whether the cursor is visible, and
//! which lines the menu region currently shows. Key input arrives as a
//! scripted sequence; running out of keys stands for a failed read. The
//! engine acquires the terminal, redraws after every key press, and
//! restores the terminal on every exit path.

use vstd::prelude::*;

use crate::key::{is_accept, is_cancel, KeyPress};
use crate::menu::{index_after_key, MenuState, StepResult};
use crate::render::{is_render_of, render_lines, renders, views_of};

verus! {

/// A model of the one process-global resource: the terminal.
pub struct TerminalModel {
    /// Keys are delivered one press at a time, without echo.
    pub raw_mode: bool,
    /// The text cursor is shown.
    pub cursor_visible: bool,
    /// The lines the menu region currently displays; empty once cleared.
    pub region: Vec<String>,
}

impl TerminalModel {
    /// A terminal as a selection call expects to find it: line-buffered,
    /// cursor shown, menu region absent.
    pub fn at_rest() -> (t: TerminalModel)
        ensures
            !t.raw_mode,
            t.cursor_visible,
            t.region@.len() == 0,
    {
        TerminalModel { raw_mode: false, cursor_visible: true, region: Vec::new() }
    }
}

/// How one selection call ends.
#[derive(Debug, PartialEq, Eq)]
pub enum SelectionOutcome {
    /// The user accepted this option.
    Selected(String),
    /// The user cancelled, or there was nothing to choose from.
    Cancelled,
}

/// Why a selection call failed.
#[derive(Clone, Copy, Debug, PartialEq, Eq)]
pub enum SelectError {
    /// The terminal could not be switched to raw mode or probed.
    TerminalUnavailable,
    /// Reading the next key event failed.
    InputReadFailure,
}

/// What a key sequence makes of a menu over `n` options, starting with
/// index `i` highlighted: the index accepted, a cancellation, or a failed
/// read once the sequence is exhausted.
pub enum DriveOutcome {
    Selected { index: int },
    Cancelled,
    InputFailure,
}

/// Run the transition table over `keys` until a press accepts or cancels.
pub open spec fn drive(i: int, n: int, keys: Seq<KeyPress>) -> DriveOutcome
    decreases keys.len(),
{
    if keys.len() == 0 {
        DriveOutcome::InputFailure
    } else if is_accept(keys[0]) {
        DriveOutcome::Selected { index: i }
    } else if is_cancel(keys[0]) {
        DriveOutcome::Cancelled
    } else {
        drive(index_after_key(keys[0], i, n), n, keys.drop_first())
    }
}

/// The highlighted index after every key of `keys` has been applied.
pub open spec fn index_after_all(i: int, n: int, keys: Seq<KeyPress>) -> int
    decreases keys.len(),
{
    if keys.len() == 0 {
        i
    } else {
        index_after_all(index_after_key(keys[0], i, n), n, keys.drop_first())
    }
}

/// Run one whole selection call against the terminal model, feeding it the
/// scripted key presses in order.
///
/// The contract is the selection engine's specification:
/// - the terminal mode and cursor visibility are restored on every exit
///   path, so the call leaves the terminal exactly as found;
/// - an empty option list short-circuits to `Cancelled` without touching
///   the terminal at all;
/// - otherwise the result is fixed by `drive`: the accepted option, a
///   cancellation with the region cleared, or — when the keys run out,
///   standing for a failed read — an `InputReadFailure` that leaves the
///   last consistent frame on screen.
pub fn select_model(
    term: &mut TerminalModel,
    title: String,
    options: Vec<String>,
    keys: &Vec<KeyPress>,
) -> (r: Result<SelectionOutcome, SelectError>)
    requires
        !old(term).raw_mode,
        old(term).cursor_visible,
    ensures
        final(term).raw_mode == old(term).raw_mode,
        final(term).cursor_visible == old(term).cursor_visible,
        options@.len() == 0 ==> *final(term) == *old(term) && r == Ok::<
            SelectionOutcome,
            SelectError,
        >(SelectionOutcome::Cancelled),
        options@.len() > 0 ==> match drive(0, options@.len() as int, keys@) {
            DriveOutcome::Selected { index } => {
                &&& r == Ok::<SelectionOutcome, SelectError>(
                    SelectionOutcome::Selected(options@[index]),
                )
                &&& final(term).region@.len() == 0
            },
            DriveOutcome::Cancelled => {
                &&& r == Ok::<SelectionOutcome, SelectError>(SelectionOutcome::Cancelled)
                &&& final(term).region@.len() == 0
            },
            DriveOutcome::InputFailure => {
                &&& r == Err::<SelectionOutcome, SelectError>(SelectError::InputReadFailure)
                &&& is_render_of(
                    views_of(final(term).region@),
                    title@,
                    views_of(options@),
                    index_after_all(0, options@.len() as int, keys@),
                )
            },
        },
{
    if options.len() == 0 {
        return Ok(SelectionOutcome::Cancelled);
    }
    let ghost n = options@.len() as int;

    // Acquire: raw mode on, cursor hidden.
    term.raw_mode = true;
    term.cursor_visible = false;

    let mut state = MenuState::new(title, options);
    // Initial clear and draw.
    term.region = render_lines(&state);

    let mut j: usize = 0;
    proof {
        assert(keys@.skip(0) =~= keys@);
    }
    while j < keys.len()
        invariant
            !old(term).raw_mode,
            old(term).cursor_visible,
            state.wf(),
            state.title@ == title@,
            state.options == options,
            state.options@.len() == n,
            term.raw_mode,
            !term.cursor_visible,
            renders(term.region@, state),
            j <= keys@.len(),
            drive(0, n, keys@) == drive(state.highlighted_index as int, n, keys@.skip(j as int)),
            index_after_all(0, n, keys@) == index_after_all(
                state.highlighted_index as int,
                n,
                keys@.skip(j as int),
            ),
        decreases keys@.len() - j,
    {
        let k = keys[j];
        proof {
            assert(keys@.skip(j as int)[0] == keys@[j as int]);
            assert(keys@.skip(j as int).drop_first() =~= keys@.skip(j as int + 1));
        }
        j = j + 1;
        let res = state.step(k);
        match res {
            StepResult::Accept => {
                // Clear the menu, restore the terminal, hand back the
                // highlighted option.
                term.region = Vec::new();
                term.cursor_visible = true;
                term.raw_mode = false;
                let chosen = state.options[state.highlighted_index].clone();
                return Ok(SelectionOutcome::Selected(chosen));
            },
            StepResult::Cancel => {
                term.region = Vec::new();
                term.cursor_visible = true;
                term.raw_mode = false;
                return Ok(SelectionOutcome::Cancelled);
            },
            StepResult::Continue => {
                term.region = render_lines(&state);
            },
        }
    }

    // The key feed is exhausted: the read failed. Restore the terminal
    // but leave the region as last drawn.
    proof {
        assert(keys@.skip(j as int) =~= Seq::<KeyPress>::empty());
    }
    term.cursor_visible = true;
    term.raw_mode = false;
    Err(SelectError::InputReadFailure)
}

} // verus!
