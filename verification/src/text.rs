//! Characters of a field's text, and the two things that are asked of them
//! before anything is evaluated: whether an expression opens in the text, and
//! whether it holds a space.

use vstd::prelude::*;

verus! {

/// An expression opens at `i`: two opening braces side by side.
pub open spec fn marker_at(s: Seq<char>, i: int) -> bool {
    0 <= i && i + 1 < s.len() && s[i] == '{' && s[i + 1] == '{'
}

/// The text holds the marker that opens an expression.
pub open spec fn has_marker(s: Seq<char>) -> bool {
    exists|i: int| marker_at(s, i)
}

/// The text holds a space character.
pub open spec fn has_space(s: Seq<char>) -> bool {
    exists|i: int| 0 <= i < s.len() && s[i] == ' '
}

/// Whether `c` is white space: what `char::is_whitespace` answers for it, which
/// is whether Unicode gives `c` the property `White_Space`.
pub uninterp spec fn whitespace(c: char) -> bool;

/// `s` without the white space that it opens with.
pub open spec fn trimmed_start(s: Seq<char>) -> Seq<char>
    decreases s.len(),
{
    if s.len() > 0 && whitespace(s.first()) {
        trimmed_start(s.drop_first())
    } else {
        s
    }
}

/// `s` without the white space that it ends with.
pub open spec fn trimmed_end(s: Seq<char>) -> Seq<char>
    decreases s.len(),
{
    if s.len() > 0 && whitespace(s.last()) {
        trimmed_end(s.drop_last())
    } else {
        s
    }
}

/// `s` without the white space around it.
pub open spec fn trimmed(s: Seq<char>) -> Seq<char> {
    trimmed_end(trimmed_start(s))
}

/// `char::is_whitespace` for `c`.
#[verifier::external_body]
pub(crate) fn is_whitespace(c: char) -> (white: bool)
    ensures
        white == whitespace(c),
{
    c.is_whitespace()
}

/// The characters of `text`, in order.
pub fn chars_of(text: &str) -> (chars: Vec<char>)
    ensures
        chars@ == text@,
{
    let mut chars: Vec<char> = Vec::new();
    for c in it: text.chars()
        invariant
            it.seq() == text@,
            chars@ == text@.take(it.index() as int),
    {
        chars.push(c);
    }
    chars
}

/// Whether an expression opens anywhere in `text`.
pub fn contains_marker(text: &str) -> (found: bool)
    ensures
        found == has_marker(text@),
{
    let chars = chars_of(text);
    let mut i: usize = 1;
    while i < chars.len()
        invariant
            chars@ == text@,
            1 <= i,
            forall|j: int| 0 <= j && j + 1 < i ==> !marker_at(text@, j),
        decreases chars.len() - i,
    {
        if chars[i - 1] == '{' && chars[i] == '{' {
            assert(marker_at(text@, i - 1));
            return true;
        }
        i = i + 1;
    }
    false
}

/// Whether `text` holds a space.
pub fn contains_space(text: &str) -> (found: bool)
    ensures
        found == has_space(text@),
{
    let chars = chars_of(text);
    let mut i: usize = 0;
    while i < chars.len()
        invariant
            chars@ == text@,
            forall|j: int| 0 <= j < i ==> text@[j] != ' ',
        decreases chars.len() - i,
    {
        if chars[i] == ' ' {
            return true;
        }
        i = i + 1;
    }
    false
}

/// `text` without the white space around it.
pub fn trim(text: &str) -> (inner: String)
    ensures
        inner@ == trimmed(text@),
{
    let chars = chars_of(text);
    let n: usize = chars.len();
    let mut start: usize = 0;
    assert(text@.skip(0) == text@);
    while start < n && is_whitespace(chars[start])
        invariant
            chars@ == text@,
            n == chars.len(),
            start <= n,
            trimmed_start(text@) == trimmed_start(text@.skip(start as int)),
        decreases n - start,
    {
        assert(text@.skip(start as int).drop_first() == text@.skip(start + 1));
        start = start + 1;
    }
    let ghost rest = text@.skip(start as int);
    let mut end: usize = n;
    assert(rest.take(end - start) == rest);
    while end > start && is_whitespace(chars[end - 1])
        invariant
            chars@ == text@,
            n == chars.len(),
            start <= end <= n,
            rest == text@.skip(start as int),
            trimmed_end(rest) == trimmed_end(rest.take(end - start)),
        decreases end,
    {
        assert(rest.take(end - start).drop_last() == rest.take(end - 1 - start));
        end = end - 1;
    }
    String::from_str(text.substring_char(start, end))
}

} // verus!
