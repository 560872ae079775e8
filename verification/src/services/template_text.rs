//! What a template's text says of the template, before it is rendered.

use vstd::prelude::*;

verus! {

/// Whether a tag opens at `i`: two opening braces.
pub open spec fn opens_tag(template: Seq<char>, i: int) -> bool {
    0 <= i && i + 1 < template.len() && template[i] == '{' && template[i + 1] == '{'
}

/// The characters that may stand between the opening of a tag and the mark
/// of its kind: white space, the tilde that trims white space, and the hash
/// that opens a block.
pub open spec fn before_mark(c: char) -> bool {
    c == ' ' || c == '\t' || c == '\n' || c == '\r' || c == '~' || c == '#'
}

/// Whether a tag opens at `i` and nothing but what may stand before a mark
/// follows it up to `end`.
pub open spec fn open_until(template: Seq<char>, i: int, end: int) -> bool {
    &&& opens_tag(template, i)
    &&& i + 2 <= end <= template.len()
    &&& forall|k: int| i + 2 <= k < end ==> before_mark(#[trigger] template[k])
}

/// Whether the tag that opens at `i` is marked at `j` as a partial (`>`) or
/// as a decorator (`*`).
pub open spec fn partial_call_at(template: Seq<char>, i: int, j: int) -> bool {
    &&& open_until(template, i, j)
    &&& j < template.len()
    &&& (template[j] == '>' || template[j] == '*')
}

/// Whether some tag is open up to `end`.
pub open spec fn in_opening(template: Seq<char>, end: int) -> bool {
    exists|i: int| #[trigger] open_until(template, i, end)
}

/// Whether the template calls a partial or a decorator before `end`.
pub open spec fn calls_partial_before(template: Seq<char>, end: int) -> bool {
    exists|i: int, j: int| j < end && #[trigger] partial_call_at(template, i, j)
}

/// Whether the template calls a partial or a decorator, inline ones
/// included: somewhere two opening braces are followed, after any white
/// space, tildes and hashes, by `>` or `*`. This holds of every template
/// whose rendering can include a template, and of some texts that only look
/// so, such as an escaped tag.
pub open spec fn calls_partial(template: Seq<char>) -> bool {
    exists|i: int, j: int| #[trigger] partial_call_at(template, i, j)
}

/// Whether the template calls a partial or a decorator.
pub fn has_partial_call(template: &str) -> (found: bool)
    ensures
        found == calls_partial(template@),
{
    let mut in_run = false;
    let mut after_brace = false;
    for c in it: template.chars()
        invariant
            it.seq() == template@,
            in_run == in_opening(template@, it.index() as int),
            after_brace == (it.index() > 0 && template@[it.index() - 1] == '{'),
            !calls_partial_before(template@, it.index() as int),
    {
        let ghost p = it.index() as int;
        assert(c == template@[p]);
        if in_run && (c == '>' || c == '*') {
            proof {
                let i = choose|i: int| #[trigger] open_until(template@, i, p);
                assert(partial_call_at(template@, i, p));
            }
            return true;
        }
        let ghost was_in_run = in_run;
        let ghost was_after_brace = after_brace;
        let skips = c == ' ' || c == '\t' || c == '\n' || c == '\r' || c == '~' || c == '#';
        in_run = (in_run && skips) || (after_brace && c == '{');
        after_brace = c == '{';
        proof {
            if was_in_run && skips {
                let i = choose|i: int| #[trigger] open_until(template@, i, p);
                assert(open_until(template@, i, p + 1));
            }
            if was_after_brace && c == '{' {
                assert(open_until(template@, p - 1, p + 1));
            }
            if in_opening(template@, p + 1) {
                let i = choose|i: int| #[trigger] open_until(template@, i, p + 1);
                if i + 2 <= p {
                    assert(open_until(template@, i, p));
                    assert(before_mark(template@[p]));
                }
            }
            if calls_partial_before(template@, p + 1) {
                let (i, j) = choose|i: int, j: int|
                    j < p + 1 && #[trigger] partial_call_at(template@, i, j);
                if j < p {
                    assert(calls_partial_before(template@, p));
                } else {
                    assert(open_until(template@, i, p));
                }
            }
        }
    }
    proof {
        if calls_partial(template@) {
            let (i, j) = choose|i: int, j: int| #[trigger] partial_call_at(template@, i, j);
            assert(calls_partial_before(template@, template@.len() as int));
        }
    }
    false
}

} // verus!
