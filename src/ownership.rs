//! Lengths and slices of strings, taken by value, by reference and by mutable
//! reference.
use vstd::prelude::*;
use vstd::string::StringExecFns;
use vstd::utf8::encode_utf8;

verus! {

/// The length in bytes of the UTF-8 encoding of `s`.
pub open spec fn byte_len(s: Seq<char>) -> nat {
    encode_utf8(s).len()
}

/// Hands `s` back together with its length in bytes.
pub fn calculate_length_without_ref(s: String) -> (r: (String, usize))
    ensures
        r.0@ == s@,
        r.1 == byte_len(s@) as usize,
{
    let length = s.as_str().len();
    (s, length)
}

/// The length in bytes of `s`.
pub fn calculate_length_with_ref(s: &String) -> (r: usize)
    ensures
        r == byte_len(s@) as usize,
{
    s.as_str().len()
}

/// Appends ", world" to `s` and returns the new length in bytes.
pub fn calculate_length_with_mut_ref(s: &mut String) -> (r: usize)
    ensures
        final(s)@ == old(s)@ + ", world"@,
        r == byte_len(final(s)@) as usize,
{
    s.append(", world");
    s.as_str().len()
}

/// `w` is the first word of `s`: the longest prefix of `s` without a space.
pub open spec fn is_first_word(s: Seq<char>, w: Seq<char>) -> bool {
    &&& w.len() <= s.len()
    &&& w == s.take(w.len() as int)
    &&& forall|i: int| 0 <= i < w.len() ==> w[i] != ' '
    &&& w.len() < s.len() ==> s[w.len() as int] == ' '
}

/// The part of `s` before its first space; all of `s` if it has none.
pub fn first_word(s: &str) -> (r: &str)
    ensures
        is_first_word(s@, r@),
{
    let n = s.unicode_len();
    let mut i: usize = 0;
    while i < n
        invariant
            n == s@.len(),
            i <= n,
            forall|j: int| 0 <= j < i ==> s@[j] != ' ',
        decreases n - i,
    {
        if s.get_char(i) == ' ' {
            return s.substring_char(0, i);
        }
        i = i + 1;
    }
    s.substring_char(0, n)
}

} // verus!
