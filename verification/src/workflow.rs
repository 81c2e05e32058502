//! The display-attach workflow's own computations, on plain bytes.
//!
//! The surrounding program asks the system which display outputs exist and
//! runs the command that rearranges them; both of those are subprocess
//! calls outside this library. What the library owns is the text logic in
//! between: picking the connected outputs and the primary one out of the
//! query's lines, dropping the primary from the candidate list, and
//! building the argument list for the final command. Lines travel as byte
//! sequences, one line per entry.

use vstd::prelude::*;
use vstd::slice::{slice_subrange, slice_to_vec};

verus! {

/// ASCII whitespace, the separators a display-query line is split on.
pub open spec fn spec_is_space(b: u8) -> bool {
    b == 32 || b == 9 || b == 10 || b == 11 || b == 12 || b == 13
}

fn is_space(b: u8) -> (r: bool)
    ensures
        r == spec_is_space(b),
{
    b == 32 || b == 9 || b == 10 || b == 11 || b == 12 || b == 13
}

/// `n` occurs contiguously somewhere in `h`.
pub open spec fn has_sub(h: Seq<u8>, n: Seq<u8>) -> bool {
    exists|k: int| 0 <= k && k + n.len() <= h.len() && #[trigger] h.subrange(k, k + n.len()) == n
}

/// Whether the needle occurs contiguously in the haystack.
pub fn contains_sub(h: &[u8], n: &[u8]) -> (r: bool)
    ensures
        r == has_sub(h@, n@),
{
    if n.len() > h.len() {
        return false;
    }
    let end = h.len() - n.len();
    let mut k: usize = 0;
    while k <= end
        invariant
            n@.len() <= h@.len(),
            h@.len() <= usize::MAX,
            end == h@.len() - n@.len(),
            k <= end + 1,
            forall|k2: int| 0 <= k2 < k ==> #[trigger] h@.subrange(k2, k2 + n@.len() as int) != n@,
        decreases end + 1 - k,
    {
        let mut j: usize = 0;
        while j < n.len() && h[k + j] == n[j]
            invariant
                n@.len() <= h@.len(),
                h@.len() <= usize::MAX,
                end == h@.len() - n@.len(),
                k <= end,
                j <= n@.len(),
                forall|t: int| 0 <= t < j ==> h@[k + t] == n@[t],
            decreases n@.len() - j,
        {
            j = j + 1;
        }
        if j == n.len() {
            assert(h@.subrange(k as int, k as int + n@.len() as int) =~= n@);
            return true;
        }
        assert(h@.subrange(k as int, k as int + n@.len() as int) != n@) by {
            assert(h@.subrange(k as int, k as int + n@.len() as int)[j as int] == h@[k as int
                + j as int]);
        }
        k = k + 1;
    }
    false
}

/// The line with its leading whitespace removed.
pub open spec fn skip_spaces(l: Seq<u8>) -> Seq<u8>
    decreases l.len(),
{
    if l.len() == 0 {
        l
    } else if spec_is_space(l[0]) {
        skip_spaces(l.drop_first())
    } else {
        l
    }
}

/// The longest whitespace-free prefix of the line.
pub open spec fn take_nonspaces(l: Seq<u8>) -> Seq<u8>
    decreases l.len(),
{
    if l.len() == 0 {
        l
    } else if spec_is_space(l[0]) {
        Seq::empty()
    } else {
        seq![l[0]] + take_nonspaces(l.drop_first())
    }
}

/// The first whitespace-separated token of the line.
pub open spec fn first_token_of(l: Seq<u8>) -> Seq<u8> {
    take_nonspaces(skip_spaces(l))
}

/// The line has a token at all, i.e. some non-whitespace byte.
pub open spec fn has_token(l: Seq<u8>) -> bool {
    skip_spaces(l).len() > 0
}

proof fn lemma_skip_spaces_prefix(l: Seq<u8>, a: int)
    requires
        0 <= a <= l.len(),
        forall|k: int| 0 <= k < a ==> spec_is_space(l[k]),
    ensures
        skip_spaces(l) == skip_spaces(l.skip(a)),
    decreases a,
{
    if a > 0 {
        assert(spec_is_space(l[0]));
        assert(l.drop_first() =~= l.skip(1));
        lemma_skip_spaces_prefix(l.skip(1), a - 1);
        assert(l.skip(1).skip(a - 1) =~= l.skip(a));
    } else {
        assert(l.skip(0) =~= l);
    }
}

proof fn lemma_take_nonspaces_range(l: Seq<u8>, a: int, b: int)
    requires
        0 <= a <= b <= l.len(),
        forall|k: int| a <= k < b ==> !spec_is_space(l[k]),
        b == l.len() || spec_is_space(l[b]),
    ensures
        take_nonspaces(l.skip(a)) == l.subrange(a, b),
    decreases b - a,
{
    if a == b {
        assert(l.subrange(a, b) =~= Seq::<u8>::empty());
        if a < l.len() {
            assert(l.skip(a)[0] == l[a]);
            assert(take_nonspaces(l.skip(a)) =~= Seq::<u8>::empty());
        } else {
            assert(l.skip(a) =~= Seq::<u8>::empty());
        }
    } else {
        assert(l.skip(a)[0] == l[a]);
        assert(!spec_is_space(l[a]));
        assert(l.skip(a).drop_first() =~= l.skip(a + 1));
        lemma_take_nonspaces_range(l, a + 1, b);
        assert(seq![l[a]] + l.subrange(a + 1, b) =~= l.subrange(a, b));
    }
}

/// The first whitespace-separated token of the line, or `None` when the
/// line is all whitespace.
pub fn first_token(line: &[u8]) -> (r: Option<Vec<u8>>)
    ensures
        r is Some <==> has_token(line@),
        r matches Some(t) ==> t@ == first_token_of(line@),
{
    let mut a: usize = 0;
    while a < line.len() && is_space(line[a])
        invariant
            a <= line@.len(),
            forall|k: int| 0 <= k < a ==> spec_is_space(line@[k]),
        decreases line@.len() - a,
    {
        a = a + 1;
    }
    proof {
        lemma_skip_spaces_prefix(line@, a as int);
    }
    if a == line.len() {
        proof {
            assert(line@.skip(a as int) =~= Seq::<u8>::empty());
        }
        return None;
    }
    assert(skip_spaces(line@) == line@.skip(a as int));
    assert(line@.skip(a as int)[0] == line@[a as int]);
    let mut b: usize = a;
    while b < line.len() && !is_space(line[b])
        invariant
            a <= b <= line@.len(),
            forall|k: int| a <= k < b ==> !spec_is_space(line@[k]),
        decreases line@.len() - b,
    {
        b = b + 1;
    }
    proof {
        lemma_take_nonspaces_range(line@, a as int, b as int);
    }
    let token = slice_to_vec(slice_subrange(line, a, b));
    Some(token)
}

/// An owned copy of a byte string.
pub fn copy_bytes(v: &Vec<u8>) -> (r: Vec<u8>)
    ensures
        r@ == v@,
{
    slice_to_vec(v.as_slice())
}

/// Whether two byte strings hold the same bytes.
pub fn bytes_eq(a: &[u8], b: &[u8]) -> (r: bool)
    ensures
        r == (a@ == b@),
{
    if a.len() != b.len() {
        return false;
    }
    let mut i: usize = 0;
    while i < a.len()
        invariant
            a@.len() == b@.len(),
            i <= a@.len(),
            forall|k: int| 0 <= k < i ==> a@[k] == b@[k],
        decreases a@.len() - i,
    {
        if a[i] != b[i] {
            return false;
        }
        i = i + 1;
    }
    assert(a@ =~= b@);
    true
}

/// The byte text `" connected"`: its presence marks a line that reports a
/// connected display output.
pub open spec fn connected_marker() -> Seq<u8> {
    seq![32u8, 99, 111, 110, 110, 101, 99, 116, 101, 100]  // " connected"
}

/// The byte text `"primary"`: its presence marks the primary output's line.
pub open spec fn primary_marker() -> Seq<u8> {
    seq![112u8, 114, 105, 109, 97, 114, 121]  // "primary"
}

/// A line that reports a connected output.
pub open spec fn is_connected_line(l: Seq<u8>) -> bool {
    has_sub(l, connected_marker())
}

/// A line that names the primary output.
pub open spec fn mentions_primary(l: Seq<u8>) -> bool {
    has_sub(l, primary_marker())
}

/// The views of a sequence of owned byte strings.
pub open spec fn byte_views(v: Seq<Vec<u8>>) -> Seq<Seq<u8>> {
    Seq::new(v.len(), |i: int| v[i]@)
}

/// The view of an optional owned byte string.
pub open spec fn opt_bytes_view(o: Option<Vec<u8>>) -> Option<Seq<u8>> {
    match o {
        Some(v) => Some(v@),
        None => None,
    }
}

/// The names (first tokens) of the connected-output lines, in order.
pub open spec fn connected_names(lines: Seq<Seq<u8>>) -> Seq<Seq<u8>>
    decreases lines.len(),
{
    if lines.len() == 0 {
        Seq::empty()
    } else {
        let rest = connected_names(lines.drop_last());
        if is_connected_line(lines.last()) {
            rest.push(first_token_of(lines.last()))
        } else {
            rest
        }
    }
}

/// The name on the last connected-output line that also says "primary";
/// `None` when no line does.
pub open spec fn primary_name(lines: Seq<Seq<u8>>) -> Option<Seq<u8>>
    decreases lines.len(),
{
    if lines.len() == 0 {
        None
    } else if is_connected_line(lines.last()) && mentions_primary(lines.last()) {
        Some(first_token_of(lines.last()))
    } else {
        primary_name(lines.drop_last())
    }
}

proof fn lemma_has_token_of_nonspace(l: Seq<u8>, idx: int)
    requires
        0 <= idx < l.len(),
        !spec_is_space(l[idx]),
    ensures
        has_token(l),
    decreases l.len(),
{
    if spec_is_space(l[0]) {
        assert(idx != 0);
        assert(l.drop_first()[idx - 1] == l[idx]);
        lemma_has_token_of_nonspace(l.drop_first(), idx - 1);
    }
}

proof fn lemma_connected_line_has_token(l: Seq<u8>)
    requires
        is_connected_line(l),
    ensures
        has_token(l),
{
    let k = choose|k: int|
        0 <= k && k + connected_marker().len() <= l.len() && #[trigger] l.subrange(
            k,
            k + connected_marker().len(),
        ) == connected_marker();
    assert(l.subrange(k, k + connected_marker().len())[1] == l[k + 1]);
    assert(connected_marker()[1] == 99);
    lemma_has_token_of_nonspace(l, k + 1);
}

/// What the display query's lines say: every connected output's name, in
/// order, and the primary output's name if one was reported.
pub struct ParsedOutputs {
    pub connected: Vec<Vec<u8>>,
    pub primary: Option<Vec<u8>>,
}

/// Read the connected-output names and the primary name out of the
/// display query's lines.
pub fn parse_connected_outputs(lines: &Vec<Vec<u8>>) -> (r: ParsedOutputs)
    ensures
        byte_views(r.connected@) == connected_names(byte_views(lines@)),
        opt_bytes_view(r.primary) == primary_name(byte_views(lines@)),
{
    let ghost vl = byte_views(lines@);
    let cm: Vec<u8> = vec![32u8, 99, 111, 110, 110, 101, 99, 116, 101, 100];  // " connected"
    let pm: Vec<u8> = vec![112u8, 114, 105, 109, 97, 114, 121];  // "primary"
    proof {
        assert(cm@ =~= connected_marker());
        assert(pm@ =~= primary_marker());
    }
    let mut connected: Vec<Vec<u8>> = Vec::new();
    let mut primary: Option<Vec<u8>> = None;
    let mut i: usize = 0;
    proof {
        assert(vl.take(0) =~= Seq::<Seq<u8>>::empty());
        assert(byte_views(connected@) =~= Seq::<Seq<u8>>::empty());
    }
    while i < lines.len()
        invariant
            vl == byte_views(lines@),
            i <= lines@.len(),
            cm@ == connected_marker(),
            pm@ == primary_marker(),
            byte_views(connected@) == connected_names(vl.take(i as int)),
            opt_bytes_view(primary) == primary_name(vl.take(i as int)),
        decreases lines@.len() - i,
    {
        let line = &lines[i];
        proof {
            assert(vl.take(i as int + 1).drop_last() =~= vl.take(i as int));
            assert(vl.take(i as int + 1).last() == line@);
        }
        if contains_sub(line.as_slice(), cm.as_slice()) {
            proof {
                lemma_connected_line_has_token(line@);
            }
            let token = first_token(line.as_slice());
            let name = token.unwrap();
            if contains_sub(line.as_slice(), pm.as_slice()) {
                primary = Some(copy_bytes(&name));
            }
            connected.push(name);
            proof {
                assert(byte_views(connected@) =~= connected_names(vl.take(i as int)).push(
                    first_token_of(line@),
                ));
            }
        }
        i = i + 1;
    }
    proof {
        assert(vl.take(lines@.len() as int) =~= vl);
    }
    ParsedOutputs { connected, primary }
}

/// The names with every occurrence of `gone` removed, order kept.
pub open spec fn without_name(names: Seq<Seq<u8>>, gone: Seq<u8>) -> Seq<Seq<u8>>
    decreases names.len(),
{
    if names.len() == 0 {
        names
    } else {
        let rest = without_name(names.drop_last(), gone);
        if names.last() == gone {
            rest
        } else {
            rest.push(names.last())
        }
    }
}

/// Drop every entry equal to `gone` — the primary output is not offered
/// as something to attach to itself.
pub fn drop_name(names: &Vec<Vec<u8>>, gone: &Vec<u8>) -> (r: Vec<Vec<u8>>)
    ensures
        byte_views(r@) == without_name(byte_views(names@), gone@),
{
    let ghost vn = byte_views(names@);
    let mut kept: Vec<Vec<u8>> = Vec::new();
    let mut i: usize = 0;
    proof {
        assert(vn.take(0) =~= Seq::<Seq<u8>>::empty());
        assert(byte_views(kept@) =~= Seq::<Seq<u8>>::empty());
        assert(without_name(vn.take(0), gone@) =~= Seq::<Seq<u8>>::empty());
    }
    while i < names.len()
        invariant
            vn == byte_views(names@),
            i <= names@.len(),
            byte_views(kept@) == without_name(vn.take(i as int), gone@),
        decreases names@.len() - i,
    {
        proof {
            assert(vn.take(i as int + 1).drop_last() =~= vn.take(i as int));
            assert(vn.take(i as int + 1).last() == names@[i as int]@);
        }
        if !bytes_eq(names[i].as_slice(), gone.as_slice()) {
            let kept_name = copy_bytes(&names[i]);
            kept.push(kept_name);
            proof {
                assert(byte_views(kept@) =~= without_name(vn.take(i as int), gone@).push(
                    names@[i as int]@,
                ));
            }
        }
        i = i + 1;
    }
    proof {
        assert(vn.take(names@.len() as int) =~= vn);
    }
    kept
}

/// The command-line flag each position name stands for: `left` and
/// `right` become `left-of` and `right-of`, `above` and `below` stay as
/// they are, and anything else is no position at all.
pub open spec fn position_flag_of(pos: Seq<u8>) -> Option<Seq<u8>> {
    if pos == seq![108u8, 101, 102, 116] {  // "left"
        Some(seq![108u8, 101, 102, 116, 45, 111, 102])  // "left-of"
    } else if pos == seq![114u8, 105, 103, 104, 116] {  // "right"
        Some(seq![114u8, 105, 103, 104, 116, 45, 111, 102])  // "right-of"
    } else if pos == seq![97u8, 98, 111, 118, 101] {  // "above"
        Some(seq![97u8, 98, 111, 118, 101])
    } else if pos == seq![98u8, 101, 108, 111, 119] {  // "below"
        Some(seq![98u8, 101, 108, 111, 119])
    } else {
        None
    }
}

/// Map a chosen position name to its command-line flag.
pub fn position_flag(pos: &[u8]) -> (r: Option<Vec<u8>>)
    ensures
        opt_bytes_view(r) == position_flag_of(pos@),
{
    let left: Vec<u8> = vec![108u8, 101, 102, 116];  // "left"
    let right: Vec<u8> = vec![114u8, 105, 103, 104, 116];  // "right"
    let above: Vec<u8> = vec![97u8, 98, 111, 118, 101];  // "above"
    let below: Vec<u8> = vec![98u8, 101, 108, 111, 119];  // "below"
    proof {
        assert(left@ =~= seq![108u8, 101, 102, 116]);
        assert(right@ =~= seq![114u8, 105, 103, 104, 116]);
        assert(above@ =~= seq![97u8, 98, 111, 118, 101]);
        assert(below@ =~= seq![98u8, 101, 108, 111, 119]);
    }
    if bytes_eq(pos, left.as_slice()) {
        let f: Vec<u8> = vec![108u8, 101, 102, 116, 45, 111, 102];  // "left-of"
        proof {
            assert(f@ =~= seq![108u8, 101, 102, 116, 45, 111, 102]);
        }
        Some(f)
    } else if bytes_eq(pos, right.as_slice()) {
        let f: Vec<u8> = vec![114u8, 105, 103, 104, 116, 45, 111, 102];  // "right-of"
        proof {
            assert(f@ =~= seq![114u8, 105, 103, 104, 116, 45, 111, 102]);
        }
        Some(f)
    } else if bytes_eq(pos, above.as_slice()) {
        Some(above)
    } else if bytes_eq(pos, below.as_slice()) {
        Some(below)
    } else {
        None
    }
}

/// The argument list that attaches `selected` at `flag` of `primary`:
/// `--output <selected> --auto --<flag> <primary>`.
pub open spec fn attach_args_of(selected: Seq<u8>, flag: Seq<u8>, primary: Seq<u8>) -> Seq<
    Seq<u8>,
> {
    seq![
        seq![45u8, 45, 111, 117, 116, 112, 117, 116],  // "--output"
        selected,
        seq![45u8, 45, 97, 117, 116, 111],  // "--auto"
        seq![45u8, 45] + flag,
        primary,
    ]
}

/// Build the argument list for the command that attaches a display.
pub fn attach_args(selected: &Vec<u8>, flag: &Vec<u8>, primary: &Vec<u8>) -> (r: Vec<Vec<u8>>)
    ensures
        byte_views(r@) == attach_args_of(selected@, flag@, primary@),
{
    let output_flag: Vec<u8> = vec![45u8, 45, 111, 117, 116, 112, 117, 116];  // "--output"
    let auto_flag: Vec<u8> = vec![45u8, 45, 97, 117, 116, 111];  // "--auto"
    let mut dashed: Vec<u8> = vec![45u8, 45];
    let mut i: usize = 0;
    proof {
        assert(dashed@ =~= seq![45u8, 45] + flag@.take(0));
    }
    while i < flag.len()
        invariant
            i <= flag@.len(),
            dashed@ == seq![45u8, 45] + flag@.take(i as int),
        decreases flag@.len() - i,
    {
        dashed.push(flag[i]);
        proof {
            assert(dashed@ =~= seq![45u8, 45] + flag@.take(i as int + 1));
        }
        i = i + 1;
    }
    proof {
        assert(flag@.take(flag@.len() as int) =~= flag@);
    }
    let mut r: Vec<Vec<u8>> = Vec::new();
    r.push(output_flag);
    r.push(copy_bytes(selected));
    r.push(auto_flag);
    r.push(dashed);
    r.push(copy_bytes(primary));
    proof {
        assert(output_flag@ =~= seq![45u8, 45, 111, 117, 116, 112, 117, 116]);
        assert(auto_flag@ =~= seq![45u8, 45, 97, 117, 116, 111]);
        assert(byte_views(r@) =~= attach_args_of(selected@, flag@, primary@));
    }
    r
}

} // verus!
