//! Spotting templates that reach for a partial.
//!
//! The engine is only ever given the one template of the note at hand. An
//! include in it finds nothing, or an inline partial, or the template itself,
//! and the last two may lead back to the include without end: the engine
//! stops a template from including itself only at its top, before any block,
//! and the name of an include may come from the note's own fields. Such
//! templates are told apart here, before the engine sees them.
//!
//! The test goes by the text alone. It also finds a `>` tag that stands in a
//! comment or a raw block or behind an escape, where the engine would read
//! none.

use vstd::prelude::*;

verus! {

/// The characters that may stand between the two opening braces of a tag and
/// the sigil that says what kind of tag it is.
pub open spec fn is_tag_filler(c: char) -> bool {
    c == ' ' || c == '\t' || c == '\n' || c == '\r' || c == '~' || c == '#'
}

/// `source` has `{{` at `open`, and nothing but filler from there up to `end`.
pub open spec fn tag_open_until(source: Seq<char>, open: int, end: int) -> bool {
    &&& 0 <= open
    &&& open + 1 < end <= source.len()
    &&& source[open] == '{'
    &&& source[open + 1] == '{'
    &&& forall|k: int| open + 1 < k < end ==> is_tag_filler(#[trigger] source[k])
}

/// `source` holds a tag whose sigil is `>`: two opening braces, any run of
/// filler, then `>`. Every partial include and every partial block starts
/// this way.
pub open spec fn includes_partial(source: Seq<char>) -> bool {
    exists|open: int, at: int|
        #[trigger] tag_open_until(source, open, at) && at < source.len() && source[at] == '>'
}

/// Whether the first `len` characters of `source` hold such a tag in full.
pub open spec fn includes_partial_within(source: Seq<char>, len: int) -> bool {
    exists|open: int, at: int|
        #[trigger] tag_open_until(source, open, at) && at < len && source[at] == '>'
}

/// Whether a tag has been opened in the first `len` characters and is still
/// waiting for its sigil there.
pub open spec fn tag_pending_at(source: Seq<char>, len: int) -> bool {
    exists|open: int| #[trigger] tag_open_until(source, open, len)
}

fn is_filler(c: char) -> (filler: bool)
    ensures
        filler == is_tag_filler(c),
{
    c == ' ' || c == '\t' || c == '\n' || c == '\r' || c == '~' || c == '#'
}

/// Tells whether `source` holds a tag that includes a partial.
pub fn uses_partials(source: &str) -> (found: bool)
    ensures
        found == includes_partial(source@),
{
    let mut pending = false;
    let mut after_brace = false;
    let mut found = false;
    for c in it: source.chars()
        invariant
            it.seq() == source@,
            found == includes_partial_within(source@, it.index()),
            pending == tag_pending_at(source@, it.index()),
            after_brace == (it.index() > 0 && source@[it.index() - 1] == '{'),
    {
        let ghost seen = it.index();
        proof {
            step_found(source@, seen);
            step_pending(source@, seen);
        }
        if pending && c == '>' {
            found = true;
        }
        pending = (pending && is_filler(c)) || (after_brace && c == '{');
        after_brace = c == '{';
    }
    proof {
        assert(includes_partial_within(source@, source@.len() as int) == includes_partial(source@));
    }
    found
}

/// Taking one more character into account finds a tag exactly where one was
/// found before or one was pending and the character is the sigil.
proof fn step_found(source: Seq<char>, seen: int)
    requires
        0 <= seen < source.len(),
    ensures
        includes_partial_within(source, seen + 1) == (includes_partial_within(source, seen) || (
        tag_pending_at(source, seen) && source[seen] == '>')),
{
    if includes_partial_within(source, seen + 1) {
        let (open, at) = choose|open: int, at: int|
            #[trigger] tag_open_until(source, open, at) && at < seen + 1 && source[at] == '>';
        if at < seen {
            assert(includes_partial_within(source, seen));
        } else {
            assert(tag_open_until(source, open, seen));
        }
    }
    if includes_partial_within(source, seen) {
        let (open, at) = choose|open: int, at: int|
            #[trigger] tag_open_until(source, open, at) && at < seen && source[at] == '>';
        assert(tag_open_until(source, open, at) && at < seen + 1 && source[at] == '>');
    }
    if tag_pending_at(source, seen) && source[seen] == '>' {
        let open = choose|open: int| #[trigger] tag_open_until(source, open, seen);
        assert(tag_open_until(source, open, seen) && seen < seen + 1 && source[seen] == '>');
    }
}

/// Taking one more character into account leaves a tag pending exactly where
/// one was pending and the character is filler, or the character is the
/// second of two opening braces.
proof fn step_pending(source: Seq<char>, seen: int)
    requires
        0 <= seen < source.len(),
    ensures
        tag_pending_at(source, seen + 1) == ((tag_pending_at(source, seen) && is_tag_filler(
            source[seen],
        )) || (seen > 0 && source[seen - 1] == '{' && source[seen] == '{')),
{
    if tag_pending_at(source, seen + 1) {
        let open = choose|open: int| #[trigger] tag_open_until(source, open, seen + 1);
        if open + 1 < seen {
            assert(is_tag_filler(source[seen]));
            assert(tag_open_until(source, open, seen));
        }
    }
    if tag_pending_at(source, seen) && is_tag_filler(source[seen]) {
        let open = choose|open: int| #[trigger] tag_open_until(source, open, seen);
        assert(tag_open_until(source, open, seen + 1));
    }
    if seen > 0 && source[seen - 1] == '{' && source[seen] == '{' {
        assert(tag_open_until(source, seen - 1, seen + 1));
    }
}

} // verus!
