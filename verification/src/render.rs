//! What the menu looks like: one title line, then one line per option,
//! the highlighted option marked by a two-character prefix and every other
//! option padded with two blanks so the columns line up.

use vstd::prelude::*;
use vstd::string::StringExecFns;

use crate::menu::MenuState;

verus! {

/// The marker in front of the highlighted option.
pub open spec fn highlight_prefix() -> Seq<char> {
    "> "@
}

/// The padding in front of every other option.
pub open spec fn plain_prefix() -> Seq<char> {
    "  "@
}

/// The text of one option line.
pub open spec fn rendered_line(opt: Seq<char>, highlighted: bool) -> Seq<char> {
    (if highlighted {
        highlight_prefix()
    } else {
        plain_prefix()
    }) + opt
}

/// The views of a sequence of owned lines.
pub open spec fn views_of(lines: Seq<String>) -> Seq<Seq<char>> {
    Seq::new(lines.len(), |i: int| lines[i]@)
}

/// `lines` is exactly the rendering of a title, an option list and a
/// highlighted index: the title first, then every option in order behind
/// its prefix, and nothing else.
pub open spec fn is_render_of(
    lines: Seq<Seq<char>>,
    title: Seq<char>,
    options: Seq<Seq<char>>,
    sel: int,
) -> bool {
    &&& lines.len() == 1 + options.len()
    &&& lines[0] == title
    &&& forall|i: int|
        0 <= i < options.len() ==> lines[i + 1] == rendered_line(options[i], i == sel)
}

/// `lines` renders the menu state `s`.
pub open spec fn renders(lines: Seq<String>, s: MenuState) -> bool {
    is_render_of(views_of(lines), s.title@, views_of(s.options@), s.highlighted_index as int)
}

/// Build the lines that display `state`.
pub fn render_lines(state: &MenuState) -> (r: Vec<String>)
    requires
        state.wf(),
    ensures
        renders(r@, *state),
{
    let mut r: Vec<String> = Vec::new();
    r.push(state.title.clone());
    let mut i: usize = 0;
    while i < state.options.len()
        invariant
            state.wf(),
            i <= state.options@.len(),
            r@.len() == 1 + i,
            r@[0]@ == state.title@,
            forall|j: int|
                0 <= j < i ==> r@[j + 1]@ == rendered_line(
                    state.options@[j]@,
                    j == state.highlighted_index as int,
                ),
        decreases state.options@.len() - i,
    {
        let highlighted = i == state.highlighted_index;
        let mut line = String::from_str(
            if highlighted {
                "> "
            } else {
                "  "
            },
        );
        line.append(state.options[i].as_str());
        r.push(line);
        i = i + 1;
    }
    r
}

} // verus!
