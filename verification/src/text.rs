//! Small operations on the characters of a text.
use vstd::prelude::*;

verus! {

/// A character with the Unicode property White_Space.
pub open spec fn is_white_space(c: char) -> bool {
    let n = c as u32;
    (0x09 <= n <= 0x0D) || n == 0x20 || n == 0x85 || n == 0xA0 || n == 0x1680 || (0x2000 <= n
        <= 0x200A) || n == 0x2028 || n == 0x2029 || n == 0x202F || n == 0x205F || n == 0x3000
}

/// A text of white space only; the empty text is one.
pub open spec fn is_blank(text: Seq<char>) -> bool {
    forall|i: int| 0 <= i < text.len() ==> is_white_space(#[trigger] text[i])
}

/// `part` stands in `text` from position `at` on.
pub open spec fn occurs_at(text: Seq<char>, part: Seq<char>, at: int) -> bool {
    &&& 0 <= at
    &&& at + part.len() <= text.len()
    &&& text.subrange(at, at + part.len()) == part
}

/// `part` stands somewhere in `text`.
pub open spec fn occurs_in(text: Seq<char>, part: Seq<char>) -> bool {
    exists|at: int| occurs_at(text, part, at)
}

/// The characters of a text.
pub fn chars_of(s: &str) -> (chars: Vec<char>)
    ensures
        chars@ == s@,
{
    let mut chars: Vec<char> = Vec::new();
    for c in it: s.chars()
        invariant
            it.seq() == s@,
            chars@ == it.seq().take(it.index()),
    {
        chars.push(c);
    }
    chars
}

/// Whether `c` is white space.
pub fn white_space(c: char) -> (b: bool)
    ensures
        b == is_white_space(c),
{
    let n: u32 = c as u32;
    (0x09 <= n && n <= 0x0D) || n == 0x20 || n == 0x85 || n == 0xA0 || n == 0x1680 || (0x2000 <= n
        && n <= 0x200A) || n == 0x2028 || n == 0x2029 || n == 0x202F || n == 0x205F || n == 0x3000
}

/// Whether `text` holds white space only.
pub fn blank(text: &[char]) -> (b: bool)
    ensures
        b == is_blank(text@),
{
    let mut i: usize = 0;
    while i < text.len()
        invariant
            i <= text.len(),
            forall|j: int| 0 <= j < i ==> is_white_space(#[trigger] text@[j]),
        decreases text.len() - i,
    {
        if !white_space(text[i]) {
            return false;
        }
        i += 1;
    }
    true
}

/// Whether `part` stands in `text` from position `at` on.
fn matches_at(text: &[char], part: &[char], at: usize) -> (b: bool)
    requires
        at + part@.len() <= text@.len(),
    ensures
        b == occurs_at(text@, part@, at as int),
{
    let n: usize = text.len();
    let mut k: usize = 0;
    while k < part.len()
        invariant
            k <= part.len(),
            at + part@.len() <= text@.len() == n,
            forall|j: int| 0 <= j < k ==> text@[at + j] == part@[j],
        decreases part.len() - k,
    {
        if text[at + k] != part[k] {
            proof {
                let window = text@.subrange(at as int, at + part@.len());
                assert(window[k as int] == text@[at + k]);
            }
            return false;
        }
        k += 1;
    }
    assert(text@.subrange(at as int, at + part@.len()) =~= part@);
    true
}

/// Whether `part` stands somewhere in `text`.
pub fn contains(text: &[char], part: &[char]) -> (b: bool)
    ensures
        b == occurs_in(text@, part@),
{
    if part.len() > text.len() {
        return false;
    }
    if part.len() == 0 {
        assert(text@.subrange(0, 0) =~= part@);
        assert(occurs_at(text@, part@, 0));
        return true;
    }
    let last: usize = text.len() - part.len();
    let mut at: usize = 0;
    while at <= last
        invariant
            last == text@.len() - part@.len(),
            last < usize::MAX,
            at <= last + 1,
            forall|j: int| 0 <= j < at ==> !occurs_at(text@, part@, j),
        decreases last + 1 - at,
    {
        if matches_at(text, part, at) {
            return true;
        }
        at += 1;
    }
    false
}

} // verus!
