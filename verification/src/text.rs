//! Character-level helpers on strings.

use vstd::prelude::*;
use vstd::string::StringExecFns;

verus! {

/// Whether `c` occurs in `s`.
pub open spec fn has_char(s: Seq<char>, c: char) -> bool {
    exists|i: int| 0 <= i < s.len() && s[i] == c
}

/// The characters of `s`, in order.
pub fn chars_of(s: &str) -> (v: Vec<char>)
    ensures
        v@ == s@,
{
    let mut v: Vec<char> = Vec::new();
    for c in it: s.chars()
        invariant
            v@ == it.seq().take(it.index()),
            it.seq() == s@,
    {
        v.push(c);
    }
    v
}

/// Whether `c` occurs in `s`.
pub fn contains_char(s: &str, c: char) -> (found: bool)
    ensures
        found == has_char(s@, c),
{
    let chars = chars_of(s);
    let mut i: usize = 0;
    while i < chars.len()
        invariant
            i <= chars.len(),
            chars@ == s@,
            forall|j: int| 0 <= j < i ==> s@[j] != c,
        decreases chars.len() - i,
    {
        if chars[i] == c {
            return true;
        }
        i += 1;
    }
    false
}

/// Whether two strings hold the same characters.
pub fn same_text(a: &str, b: &str) -> (same: bool)
    ensures
        same == (a@ == b@),
{
    let x = chars_of(a);
    let y = chars_of(b);
    if x.len() != y.len() {
        return false;
    }
    let mut i: usize = 0;
    while i < x.len()
        invariant
            i <= x.len(),
            x.len() == y.len(),
            x@ == a@,
            y@ == b@,
            forall|j: int| 0 <= j < i ==> a@[j] == b@[j],
        decreases x.len() - i,
    {
        if x[i] != y[i] {
            return false;
        }
        i += 1;
    }
    assert(a@ =~= b@);
    true
}

/// The small letters of ASCII, in their order.
pub const SMALL_LETTERS: &'static str = "abcdefghijklmnopqrstuvwxyz";

/// A character with the capital letters of ASCII made small: `A` to `Z`
/// become `a` to `z`, every other character stays.
pub open spec fn lower_char(c: char) -> char {
    if 'A' <= c && c <= 'Z' {
        ((c as u32) + 32) as char
    } else {
        c
    }
}

/// A text with the capital letters of ASCII made small.
pub open spec fn lowercase(s: Seq<char>) -> Seq<char> {
    Seq::new(s.len(), |i: int| lower_char(s[i]))
}

/// Making a text small a second time changes nothing.
pub proof fn lemma_lowercase_twice(s: Seq<char>)
    ensures
        lowercase(lowercase(s)) == lowercase(s),
{
}

/// `s` with the capital letters of ASCII made small.
pub fn to_lowercase(s: &str) -> (lower: String)
    ensures
        lower@ == lowercase(s@),
{
    let chars = chars_of(s);
    let len = chars.len();
    let mut lower = String::new();
    let mut done: usize = 0;
    let mut at: usize = 0;
    while at < len
        invariant
            done <= at <= len,
            len == s@.len(),
            chars@ == s@,
            lower@ == lowercase(s@.take(done as int)),
            forall|j: int| done <= j < at ==> lower_char(s@[j]) == s@[j],
        decreases len - at,
    {
        let c = chars[at];
        if c >= 'A' && c <= 'Z' {
            let k: usize = (c as u32 - 'A' as u32) as usize;
            proof {
                reveal_strlit("abcdefghijklmnopqrstuvwxyz");
            }
            lower.append(s.substring_char(done, at));
            lower.append(SMALL_LETTERS.substring_char(k, k + 1));
            at += 1;
            done = at;
        } else {
            at += 1;
        }
    }
    lower.append(s.substring_char(done, len));
    lower
}

} // verus!
