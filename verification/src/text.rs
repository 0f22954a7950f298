//! Character sequences: case folding, joining and searching.

use vstd::prelude::*;

verus! {

/// The lower-case form of an ASCII capital letter; any other character is
/// left as it is.
pub open spec fn lower_char(c: char) -> char {
    if 'A' <= c <= 'Z' {
        (c as u8 + 32) as char
    } else {
        c
    }
}

/// `s` with every ASCII capital letter replaced by its lower-case form.
pub open spec fn ascii_lowered(s: Seq<char>) -> Seq<char> {
    Seq::new(s.len(), |i: int| lower_char(s[i]))
}

/// `str::to_ascii_lowercase` of the standard library. Trusted: the returned
/// string has the length of `s` in characters, with 'A' to 'Z' mapped to 'a'
/// to 'z' and every other character, ASCII or not, unchanged.
pub assume_specification[ str::to_ascii_lowercase ](s: &str) -> (lowered: String)
    ensures
        lowered@ == ascii_lowered(s@),
;

/// The parts of `parts` from index `from` on, each preceded by `sep`.
pub open spec fn trailing(parts: Seq<Seq<char>>, sep: Seq<char>, from: int) -> Seq<char>
    decreases parts.len() - from,
{
    if 0 <= from < parts.len() {
        sep + parts[from] + trailing(parts, sep, from + 1)
    } else {
        Seq::empty()
    }
}

/// The parts of `parts` in order, with `sep` between each two neighbours.
pub open spec fn joined(parts: Seq<Seq<char>>, sep: Seq<char>) -> Seq<char> {
    if parts.len() == 0 {
        Seq::empty()
    } else {
        parts[0] + trailing(parts, sep, 1)
    }
}

/// `needle` stands in `hay` at offset `at`.
pub open spec fn occurs_at(hay: Seq<char>, needle: Seq<char>, at: int) -> bool {
    &&& 0 <= at
    &&& at + needle.len() <= hay.len()
    &&& hay.subrange(at, at + needle.len()) == needle
}

/// `needle` stands somewhere in `hay`.
pub open spec fn contains(hay: Seq<char>, needle: Seq<char>) -> bool {
    exists|at: int| occurs_at(hay, needle, at)
}

/// Joins `parts` with `sep` between each two neighbours.
pub fn join(parts: &[&str], sep: &str) -> (text: String)
    ensures
        text@ == joined(parts.deep_view(), sep@),
{
    let mut text = String::new();
    if parts.len() == 0 {
        return text;
    }
    text.append(parts[0]);
    let mut i: usize = 1;
    while i < parts.len()
        invariant
            1 <= i <= parts.len(),
            text@ + trailing(parts.deep_view(), sep@, i as int) == joined(
                parts.deep_view(),
                sep@,
            ),
        decreases parts.len() - i,
    {
        text.append(sep);
        text.append(parts[i]);
        i += 1;
    }
    text
}

/// The frames of `frames` as string slices, in the same order.
pub(crate) fn as_strs<'a>(frames: &'a [String]) -> (parts: Vec<&'a str>)
    ensures
        parts.deep_view() == frames.deep_view(),
{
    let mut parts: Vec<&'a str> = Vec::new();
    let mut i: usize = 0;
    while i < frames.len()
        invariant
            i <= frames.len(),
            parts@.len() == i,
            forall|k: int| 0 <= k < i ==> parts@[k]@ == frames@[k]@,
        decreases frames.len() - i,
    {
        parts.push(frames[i].as_str());
        i += 1;
    }
    parts
}

} // verus!
