//! Small helpers on texts.

use vstd::prelude::*;

verus! {

/// The characters of a text, in order.
pub fn chars_of(s: &str) -> (chars: Vec<char>)
    ensures
        chars@ == s@,
{
    let mut chars: Vec<char> = Vec::new();
    for c in it: s.chars()
        invariant
            it.seq() == s@,
            chars@ == it.seq().take(it.index()),
    {
        chars.push(c);
    }
    chars
}

/// Whether the characters of `chars` from `from` up to `to` are those of
/// `wanted`.
pub fn range_equals(chars: &Vec<char>, from: usize, to: usize, wanted: &Vec<char>) -> (same: bool)
    requires
        from <= to <= chars.len(),
    ensures
        same == (chars@.subrange(from as int, to as int) == wanted@),
{
    if to - from != wanted.len() {
        return false;
    }
    let ghost part = chars@.subrange(from as int, to as int);
    let mut i: usize = 0;
    while i < wanted.len()
        invariant
            from <= to <= chars.len(),
            to - from == wanted.len(),
            i <= wanted.len(),
            part == chars@.subrange(from as int, to as int),
            forall|j: int| 0 <= j < i ==> part[j] == wanted[j],
        decreases wanted.len() - i,
    {
        if chars[from + i] != wanted[i] {
            assert(part[i as int] != wanted[i as int]);
            return false;
        }
        i += 1;
    }
    assert(part =~= wanted@);
    true
}

/// Whether two texts are the same.
pub fn text_equals(a: &str, b: &str) -> (same: bool)
    ensures
        same == (a@ == b@),
{
    let left = chars_of(a);
    let right = chars_of(b);
    assert(left@.subrange(0, left.len() as int) =~= left@);
    range_equals(&left, 0, left.len(), &right)
}

/// The ASCII capital of a small ASCII letter; any other character itself.
pub open spec fn ascii_upper(c: char) -> char {
    if 'a' <= c <= 'z' {
        ((c as u8) - 32) as char
    } else {
        c
    }
}

/// `str::to_ascii_uppercase`: a copy of the text in which each of the letters
/// `a` to `z` is replaced by its capital and every other character is kept.
#[verifier::external_body]
pub(crate) fn to_ascii_uppercase(s: &str) -> (upper: String)
    ensures
        upper@ == s@.map_values(|c: char| ascii_upper(c)),
{
    s.to_ascii_uppercase()
}

} // verus!
