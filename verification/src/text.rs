//! Text helpers: views of optional strings, and trimming of an output line.
use vstd::prelude::*;

verus! {

/// The characters of an optional string.
pub open spec fn opt_view(text: Option<String>) -> Option<Seq<char>> {
    match text {
        Some(t) => Some(t@),
        None => None,
    }
}

/// The characters with the Unicode property `White_Space`.
pub open spec fn white_space(c: char) -> bool {
    ||| '\u{9}' <= c <= '\u{d}'
    ||| c == ' '
    ||| c == '\u{85}'
    ||| c == '\u{a0}'
    ||| c == '\u{1680}'
    ||| '\u{2000}' <= c <= '\u{200a}'
    ||| c == '\u{2028}'
    ||| c == '\u{2029}'
    ||| c == '\u{202f}'
    ||| c == '\u{205f}'
    ||| c == '\u{3000}'
}

/// `text` without the white space at its end.
pub open spec fn trimmed_end(text: Seq<char>) -> Seq<char>
    decreases text.len(),
{
    if text.len() > 0 && white_space(text.last()) {
        trimmed_end(text.drop_last())
    } else {
        text
    }
}

/// `text` without the white space at its start.
pub open spec fn trimmed_start(text: Seq<char>) -> Seq<char>
    decreases text.len(),
{
    if text.len() > 0 && white_space(text[0]) {
        trimmed_start(text.drop_first())
    } else {
        text
    }
}

/// `text` without the white space at either end.
pub open spec fn trimmed(text: Seq<char>) -> Seq<char> {
    trimmed_start(trimmed_end(text))
}

/// Tells whether a character has the Unicode property `White_Space`.
pub fn is_white_space(c: char) -> (yes: bool)
    ensures
        yes == white_space(c),
{
    ('\u{9}' <= c && c <= '\u{d}') || c == ' ' || c == '\u{85}' || c == '\u{a0}' || c == '\u{1680}'
        || ('\u{2000}' <= c && c <= '\u{200a}') || c == '\u{2028}' || c == '\u{2029}' || c
        == '\u{202f}' || c == '\u{205f}' || c == '\u{3000}'
}

/// Removes the white space at either end of an output line.
pub fn trim_line(line: &str) -> (text: &str)
    ensures
        text@ == trimmed(line@),
{
    let mut chars: Vec<char> = Vec::new();
    for c in iter: line.chars()
        invariant
            chars@ == line@.take(iter.index()),
            iter.seq() == line@,
    {
        chars.push(c);
        assert(line@.take(iter.index() + 1) == line@.take(iter.index()).push(c));
    }
    assert(chars@ == line@);
    let mut end: usize = chars.len();
    while end > 0 && is_white_space(chars[end - 1])
        invariant
            end <= chars.len(),
            trimmed_end(chars@.take(end as int)) == trimmed_end(chars@),
        ensures
            end == 0 || !white_space(chars[end - 1]),
        decreases end,
    {
        assert(chars@.take(end as int).drop_last() == chars@.take(end - 1));
        end = end - 1;
    }
    assert(trimmed_end(chars@) == chars@.take(end as int));
    let mut start: usize = 0;
    while start < end && is_white_space(chars[start])
        invariant
            start <= end <= chars.len(),
            trimmed_start(chars@.subrange(start as int, end as int)) == trimmed_start(
                chars@.take(end as int),
            ),
        ensures
            start == end || !white_space(chars[start as int]),
        decreases end - start,
    {
        assert(chars@.subrange(start as int, end as int).drop_first() == chars@.subrange(
            start + 1,
            end as int,
        ));
        start = start + 1;
    }
    line.substring_char(start, end)
}

} // verus!
