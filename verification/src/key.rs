//! Discrete key presses, as the selection state machine sees them.
//!
//! A real input backend translates its own event type into [`KeyPress`];
//! the state machine only ever looks at the code and at whether any
//! modifier key was held.

use vstd::prelude::*;

verus! {

/// The key codes the menu reacts to. Every other key is `Other`.
#[derive(Clone, Copy, Debug, PartialEq, Eq)]
pub enum KeyCode {
    Up,
    Down,
    Enter,
    Esc,
    Char(char),
    Other,
}

/// One key press: a code plus whether the modifier set was empty.
#[derive(Clone, Copy, Debug, PartialEq, Eq)]
pub struct KeyPress {
    pub code: KeyCode,
    pub modifiers_empty: bool,
}

/// A press that accepts the highlighted option.
pub open spec fn is_accept(k: KeyPress) -> bool {
    k.code is Enter
}

/// A press that cancels the selection: Escape, or a bare 'q'.
pub open spec fn is_cancel(k: KeyPress) -> bool {
    ||| k.code is Esc
    ||| (k.code matches KeyCode::Char(c) && c == 'q' && k.modifiers_empty)
}

impl KeyPress {
    /// A press of a plain key with no modifiers held.
    pub fn bare(code: KeyCode) -> (k: KeyPress)
        ensures
            k == (KeyPress { code, modifiers_empty: true }),
    {
        KeyPress { code, modifiers_empty: true }
    }
}

} // verus!
