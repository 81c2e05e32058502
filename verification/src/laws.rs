//! The properties the menu component answers for, proved once and for all
//! over the specification functions that the contracts use.

use vstd::prelude::*;

use crate::engine::{drive, index_after_all, DriveOutcome};
use crate::key::{KeyCode, KeyPress};
use crate::menu::{index_after_key, step_result_of};
use crate::render::{highlight_prefix, is_render_of, plain_prefix, rendered_line};

verus! {

/// Clamping: start anywhere inside `[0, n - 1]` and apply any sequence of
/// key presses; the highlighted index never leaves `[0, n - 1]`.
pub proof fn lemma_index_clamped(i: int, n: int, keys: Seq<KeyPress>)
    requires
        0 <= i < n,
    ensures
        0 <= index_after_all(i, n, keys) < n,
    decreases keys.len(),
{
    if keys.len() > 0 {
        lemma_index_clamped(index_after_key(keys[0], i, n), n, keys.drop_first());
    }
}

/// Clamping, at the outcome: whatever key sequence a selection is driven
/// by, an accepted index lies inside `[0, n - 1]`.
pub proof fn lemma_drive_selects_in_range(i: int, n: int, keys: Seq<KeyPress>)
    requires
        0 <= i < n,
    ensures
        drive(i, n, keys) matches DriveOutcome::Selected { index } ==> 0 <= index < n,
    decreases keys.len(),
{
    if keys.len() > 0 {
        lemma_drive_selects_in_range(index_after_key(keys[0], i, n), n, keys.drop_first());
    }
}

/// No wrapping: `Down` on the last option and `Up` on the first are
/// no-ops; the index is clamped, never cycled.
pub proof fn lemma_no_wrap(k: KeyPress, n: int)
    requires
        n >= 1,
    ensures
        k.code is Down ==> index_after_key(k, n - 1, n) == n - 1,
        k.code is Up ==> index_after_key(k, 0, n) == 0,
{
}

/// Cancel equivalence: a bare 'q' and Escape make the same transition and
/// drive any selection to the same outcome. (The engine's contract then
/// fixes the same terminal end-state for both, since it depends only on
/// the outcome.)
pub proof fn lemma_cancel_equivalence(q: KeyPress, esc: KeyPress, i: int, n: int, rest: Seq<
    KeyPress,
>)
    requires
        q.code == KeyCode::Char('q'),
        q.modifiers_empty,
        esc.code is Esc,
    ensures
        step_result_of(q) == step_result_of(esc),
        drive(i, n, seq![q] + rest) == drive(i, n, seq![esc] + rest),
        drive(i, n, seq![q] + rest) is Cancelled,
{
    assert((seq![q] + rest)[0] == q);
    assert((seq![esc] + rest)[0] == esc);
}

/// The line carries the highlight marker in its first two characters.
pub open spec fn line_highlighted(l: Seq<char>) -> bool {
    l.len() >= 2 && l.subrange(0, 2) == highlight_prefix()
}

/// Render consistency: a rendered frame carries exactly one highlight
/// marker, on the line of the highlighted index; every other option line
/// starts with the blank prefix instead.
pub proof fn lemma_single_marker(
    lines: Seq<Seq<char>>,
    title: Seq<char>,
    options: Seq<Seq<char>>,
    sel: int,
)
    requires
        is_render_of(lines, title, options, sel),
        0 <= sel < options.len(),
    ensures
        forall|i: int|
            0 <= i < options.len() ==> (#[trigger] line_highlighted(lines[i + 1]) <==> i == sel),
{
    reveal_strlit("> ");
    reveal_strlit("  ");
    assert forall|i: int|
        0 <= i < options.len() implies (#[trigger] line_highlighted(lines[i + 1]) <==> i
        == sel) by {
        assert(lines[i + 1] == rendered_line(options[i], i == sel));
        if i == sel {
            assert(lines[i + 1].subrange(0, 2) =~= highlight_prefix());
        } else {
            assert(lines[i + 1][0] == plain_prefix()[0]);
            assert(plain_prefix()[0] == ' ');
            assert(highlight_prefix()[0] == '>');
            if line_highlighted(lines[i + 1]) {
                assert(lines[i + 1].subrange(0, 2)[0] == lines[i + 1][0]);
                assert(false);
            }
        }
    }
}

} // verus!
