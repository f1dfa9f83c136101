//! Trusted boundary around `ropey::Rope`, the balanced text container the
//! editor stores its document in.  The rope's contents are named by
//! `rope_chars`; every wrapper states, over that name and the line model of
//! `crate::text`, what the rope's own documentation and source show.  The
//! crate is built without ropey's `cr_lines`/`unicode_lines` features, so a
//! line break is exactly one `'\n'` character, as the line model assumes.

use vstd::prelude::*;

use crate::text::{line_count, line_end_incl, line_of, line_start};

verus! {

#[verifier::external_type_specification]
#[verifier::external_body]
pub struct ExRope(ropey::Rope);

/// The characters a rope holds, in document order.
pub uninterp spec fn rope_chars(r: ropey::Rope) -> Seq<char>;

/// Relies on `ropey::Rope::from_str`: builds a rope holding exactly the
/// characters of `s`.
#[verifier::external_body]
pub(crate) fn rope_from_str(s: &str) -> (r: ropey::Rope)
    ensures
        rope_chars(r) == s@,
{
    ropey::Rope::from_str(s)
}

/// Relies on `ropey::Rope::len_chars`: the total number of characters.
#[verifier::external_body]
pub(crate) fn rope_len_chars(r: &ropey::Rope) -> (n: usize)
    ensures
        n == rope_chars(*r).len(),
{
    r.len_chars()
}

/// Relies on `ropey::Rope::len_lines`: one more than the number of line
/// breaks, so 1 for an empty rope.
#[verifier::external_body]
pub(crate) fn rope_len_lines(r: &ropey::Rope) -> (n: usize)
    ensures
        n == line_count(rope_chars(*r), '\n'),
{
    r.len_lines()
}

/// Relies on `ropey::Rope::insert_char`: inserts `c` before character
/// index `idx`.  It panics for `idx > len_chars()`, so that is excluded.
#[verifier::external_body]
pub(crate) fn rope_insert_char(r: &mut ropey::Rope, idx: usize, c: char)
    requires
        idx <= rope_chars(*old(r)).len(),
    ensures
        rope_chars(*final(r)) == rope_chars(*old(r)).insert(idx as int, c),
{
    r.insert_char(idx, c)
}

/// Relies on `ropey::Rope::remove`: removes the character range
/// `idx..idx + 1`.  It panics past the end, so that is excluded.
#[verifier::external_body]
pub(crate) fn rope_remove_char(r: &mut ropey::Rope, idx: usize)
    requires
        idx < rope_chars(*old(r)).len(),
    ensures
        rope_chars(*final(r)) == rope_chars(*old(r)).remove(idx as int),
{
    r.remove(idx..idx + 1)
}

/// Relies on `ropey::Rope::char`: the character at `idx`.  It panics for
/// `idx >= len_chars()`, so that is excluded.
#[verifier::external_body]
pub(crate) fn rope_char(r: &ropey::Rope, idx: usize) -> (c: char)
    requires
        idx < rope_chars(*r).len(),
    ensures
        c == rope_chars(*r)[idx as int],
{
    r.char(idx)
}

/// Relies on `ropey::Rope::get_char`: the character at `idx`, or `None`
/// past the end.
#[verifier::external_body]
pub(crate) fn rope_get_char(r: &ropey::Rope, idx: usize) -> (c: Option<char>)
    ensures
        idx < rope_chars(*r).len() ==> c == Some(rope_chars(*r)[idx as int]),
        idx >= rope_chars(*r).len() ==> c is None,
{
    r.get_char(idx)
}

/// Relies on `ropey::Rope::char_to_line`: the line index of the given
/// character, which its documentation states is the number of line endings
/// before it; one past the end maps to the last line.  It panics for
/// `idx > len_chars()`, so that is excluded.
#[verifier::external_body]
pub(crate) fn rope_char_to_line(r: &ropey::Rope, idx: usize) -> (l: usize)
    requires
        idx <= rope_chars(*r).len(),
    ensures
        l == line_of(rope_chars(*r), '\n', idx as int),
{
    r.char_to_line(idx)
}

/// Relies on `ropey::Rope::line_to_char`: the character index of the start
/// of the given line.  It panics for `l > len_lines()`; the one-past-the-
/// end case is excluded too, keeping the stated line model exact.
#[verifier::external_body]
pub(crate) fn rope_line_to_char(r: &ropey::Rope, l: usize) -> (i: usize)
    requires
        l < line_count(rope_chars(*r), '\n'),
    ensures
        i == line_start(rope_chars(*r), '\n', l as int),
{
    r.line_to_char(l)
}

/// Relies on `ropey::Rope::line` and `RopeSlice::len_chars`: the line's
/// character count, including its terminating newline where it has one
/// (the last line has none).  `line` panics for `l >= len_lines()`, so
/// that is excluded.
#[verifier::external_body]
pub(crate) fn rope_line_len(r: &ropey::Rope, l: usize) -> (n: usize)
    requires
        l < line_count(rope_chars(*r), '\n'),
    ensures
        n == line_end_incl(rope_chars(*r), '\n', l as int) - line_start(
            rope_chars(*r),
            '\n',
            l as int,
        ),
{
    r.line(l).len_chars()
}

/// Relies on `ropey::Rope::line` and `String::from(RopeSlice)`: the line's
/// characters, including its terminating newline where it has one.
#[verifier::external_body]
pub(crate) fn rope_line_str(r: &ropey::Rope, l: usize) -> (t: String)
    requires
        l < line_count(rope_chars(*r), '\n'),
    ensures
        t@ == rope_chars(*r).subrange(
            line_start(rope_chars(*r), '\n', l as int),
            line_end_incl(rope_chars(*r), '\n', l as int),
        ),
{
    String::from(r.line(l))
}

/// Relies on `ropey::Rope`'s `Display` impl, which writes every chunk in
/// order: the whole text as one string.
#[verifier::external_body]
pub(crate) fn rope_to_string(r: &ropey::Rope) -> (t: String)
    ensures
        t@ == rope_chars(*r),
{
    r.to_string()
}

} // verus!
