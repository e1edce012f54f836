//! ASCII case folding and substring search over sequences of characters.
//!
//! A string is modelled by its sequence of characters. The executable
//! functions work on `Vec<char>`, so that a character is reached in constant
//! time whatever its encoded width.

use vstd::prelude::*;

verus! {

/// The upper-case form of an ASCII letter; every other character is itself.
pub open spec fn ascii_upper(c: char) -> char {
    if 'a' <= c && c <= 'z' {
        ((c as u8) - 32) as char
    } else {
        c
    }
}

/// `text` with each ASCII lower-case letter replaced by its upper-case form.
pub open spec fn ascii_uppercase(text: Seq<char>) -> Seq<char> {
    text.map_values(|c: char| ascii_upper(c))
}

/// The two texts are equal once the case of ASCII letters is disregarded.
pub open spec fn eq_ignoring_ascii_case(a: Seq<char>, b: Seq<char>) -> bool {
    &&& a.len() == b.len()
    &&& forall|i: int| 0 <= i < a.len() ==> ascii_upper(#[trigger] a[i]) == ascii_upper(b[i])
}

/// `pattern` stands in `text` at index `at`.
pub open spec fn occurs_at(text: Seq<char>, at: int, pattern: Seq<char>) -> bool {
    &&& 0 <= at
    &&& at + pattern.len() <= text.len()
    &&& text.subrange(at, at + pattern.len()) =~= pattern
}

/// `pattern` stands somewhere in `text`.
pub open spec fn has_substring(text: Seq<char>, pattern: Seq<char>) -> bool {
    exists|at: int| occurs_at(text, at, pattern)
}

/// Upper-casing leaves an already upper-cased character as it is.
pub proof fn ascii_upper_idempotent(c: char)
    ensures
        ascii_upper(ascii_upper(c)) == ascii_upper(c),
{
}

/// Texts that differ only in the case of ASCII letters have the same
/// upper-case form, and only those.
pub proof fn eq_ignoring_case_iff_same_uppercase(a: Seq<char>, b: Seq<char>)
    ensures
        eq_ignoring_ascii_case(a, b) <==> ascii_uppercase(a) == ascii_uppercase(b),
{
    let ua = ascii_uppercase(a);
    let ub = ascii_uppercase(b);
    if eq_ignoring_ascii_case(a, b) {
        assert(ua =~= ub);
    }
    if ua == ub {
        assert(b.len() == ub.len());
        assert forall|i: int| 0 <= i < a.len() implies ascii_upper(#[trigger] a[i]) == ascii_upper(
            b[i],
        ) by {
            assert(ub[i] == ascii_upper(b[i]));
        }
    }
}

/// The characters of `text`, in order.
pub fn chars_of(text: &str) -> (chars: Vec<char>)
    ensures
        chars@ == text@,
{
    let mut chars: Vec<char> = Vec::new();
    for c in it: text.chars()
        invariant
            it.seq() == text@,
            chars@ == text@.take(it.index()),
    {
        chars.push(c);
    }
    chars
}

/// The upper-case form of one character.
pub fn to_ascii_upper(c: char) -> (upper: char)
    ensures
        upper == ascii_upper(c),
{
    if 'a' <= c && c <= 'z' {
        ((c as u8) - 32) as char
    } else {
        c
    }
}

/// The characters of `text`, upper-cased.
pub fn uppercase_chars(text: &str) -> (upper: Vec<char>)
    ensures
        upper@ == ascii_uppercase(text@),
{
    let mut upper: Vec<char> = Vec::new();
    for c in it: text.chars()
        invariant
            it.seq() == text@,
            upper@ == ascii_uppercase(text@.take(it.index())),
    {
        upper.push(to_ascii_upper(c));
    }
    upper
}

/// Whether `pattern` stands in `text` at index `at`.
pub fn matches_at(text: &Vec<char>, at: usize, pattern: &Vec<char>) -> (found: bool)
    ensures
        found == occurs_at(text@, at as int, pattern@),
{
    if pattern.len() > text.len() || at > text.len() - pattern.len() {
        return false;
    }
    let mut k: usize = 0;
    while k < pattern.len()
        invariant
            k <= pattern.len(),
            at + pattern.len() <= text.len(),
            forall|j: int| 0 <= j < k ==> text@[at + j] == pattern@[j],
        decreases pattern.len() - k,
    {
        if text[at + k] != pattern[k] {
            return false;
        }
        k += 1;
    }
    true
}

/// Whether `text` is `pattern`, character for character.
pub fn is_exactly(text: &Vec<char>, pattern: &str) -> (same: bool)
    ensures
        same == (text@ == pattern@),
{
    let wanted = chars_of(pattern);
    let same = text.len() == wanted.len() && matches_at(text, 0, &wanted);
    assert(same == (text@ =~= pattern@));
    same
}

/// Whether `text` begins with `pattern`.
pub fn starts_with(text: &Vec<char>, pattern: &str) -> (found: bool)
    ensures
        found == pattern@.is_prefix_of(text@),
{
    let wanted = chars_of(pattern);
    matches_at(text, 0, &wanted)
}

/// Whether `text` ends with `pattern`.
pub fn ends_with(text: &Vec<char>, pattern: &str) -> (found: bool)
    ensures
        found == pattern@.is_suffix_of(text@),
{
    let wanted = chars_of(pattern);
    if wanted.len() > text.len() {
        return false;
    }
    matches_at(text, text.len() - wanted.len(), &wanted)
}

/// Whether `pattern` stands somewhere in `text`.
pub fn contains(text: &Vec<char>, pattern: &str) -> (found: bool)
    ensures
        found == has_substring(text@, pattern@),
{
    let wanted = chars_of(pattern);
    if wanted.len() > text.len() {
        return false;
    }
    let last: usize = text.len() - wanted.len();
    let mut at: usize = 0;
    while at <= last
        invariant
            wanted@ == pattern@,
            last == text.len() - wanted.len(),
            at <= last + 1,
            forall|j: int| 0 <= j < at ==> !occurs_at(text@, j, pattern@),
        decreases last + 1 - at,
    {
        if matches_at(text, at, &wanted) {
            return true;
        }
        at += 1;
    }
    false
}

} // verus!
