//! The selection state machine: a title, an ordered option list and the
//! highlighted index, advanced one key press at a time.

use vstd::prelude::*;

use crate::key::{is_accept, is_cancel, KeyCode, KeyPress};

verus! {

/// What one key press did to the menu: keep going, accept the highlighted
/// option, or cancel the whole selection.
#[derive(Clone, Copy, Debug, PartialEq, Eq)]
pub enum StepResult {
    Continue,
    Accept,
    Cancel,
}

/// The highlighted index after one key press, clamped to `[0, n - 1]`:
/// `Up` moves towards 0, `Down` towards `n - 1`, neither wraps, and every
/// other key leaves the index alone.
pub open spec fn index_after_key(k: KeyPress, i: int, n: int) -> int {
    if k.code is Up {
        if i > 0 {
            i - 1
        } else {
            0
        }
    } else if k.code is Down {
        if i + 1 < n {
            i + 1
        } else {
            i
        }
    } else {
        i
    }
}

/// How one key press ends (or fails to end) the input loop.
pub open spec fn step_result_of(k: KeyPress) -> StepResult {
    if is_accept(k) {
        StepResult::Accept
    } else if is_cancel(k) {
        StepResult::Cancel
    } else {
        StepResult::Continue
    }
}

/// The menu state owned by one selection call.
pub struct MenuState {
    pub title: String,
    pub options: Vec<String>,
    pub highlighted_index: usize,
}

impl MenuState {
    /// The option list is non-empty and the highlighted index stays inside it.
    pub open spec fn wf(self) -> bool {
        &&& self.options@.len() >= 1
        &&& self.highlighted_index < self.options@.len()
    }

    /// A fresh menu highlights the first option.
    pub fn new(title: String, options: Vec<String>) -> (s: MenuState)
        requires
            options@.len() >= 1,
        ensures
            s.wf(),
            s.title == title,
            s.options == options,
            s.highlighted_index == 0,
    {
        MenuState { title, options, highlighted_index: 0 }
    }

    /// Apply one key press: move the highlight (clamped, never wrapping),
    /// or report that the press accepted or cancelled the selection.
    pub fn step(&mut self, k: KeyPress) -> (r: StepResult)
        requires
            old(self).wf(),
        ensures
            final(self).wf(),
            final(self).title == old(self).title,
            final(self).options == old(self).options,
            final(self).highlighted_index as int == index_after_key(
                k,
                old(self).highlighted_index as int,
                old(self).options@.len() as int,
            ),
            r == step_result_of(k),
    {
        match k.code {
            KeyCode::Up => {
                if self.highlighted_index > 0 {
                    self.highlighted_index = self.highlighted_index - 1;
                }
                StepResult::Continue
            },
            KeyCode::Down => {
                if self.highlighted_index < self.options.len() - 1 {
                    self.highlighted_index = self.highlighted_index + 1;
                }
                StepResult::Continue
            },
            KeyCode::Enter => StepResult::Accept,
            KeyCode::Esc => StepResult::Cancel,
            KeyCode::Char(c) => {
                if c == 'q' && k.modifiers_empty {
                    StepResult::Cancel
                } else {
                    StepResult::Continue
                }
            },
            KeyCode::Other => StepResult::Continue,
        }
    }
}

} // verus!
