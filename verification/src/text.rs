//! Character-level text helpers: the whitespace predicate behind the
//! "blank input is never sent" rule, and a string-vector clone with an
//! element-wise contract.

use vstd::prelude::*;
use vstd::string::*;

verus! {

/// Whitespace as Unicode defines it for the purpose of trimming: the
/// ASCII spacing controls and space, next-line, no-break space, Ogham
/// space mark, the en/em family of spaces, line and paragraph
/// separators, narrow and medium mathematical spaces, and the
/// ideographic space.
pub open spec fn is_space_char(c: char) -> bool {
    let u = c as int;
    ||| u == 0x09
    ||| u == 0x0A
    ||| u == 0x0B
    ||| u == 0x0C
    ||| u == 0x0D
    ||| u == 0x20
    ||| u == 0x85
    ||| u == 0xA0
    ||| u == 0x1680
    ||| (0x2000 <= u && u <= 0x200A)
    ||| u == 0x2028
    ||| u == 0x2029
    ||| u == 0x202F
    ||| u == 0x205F
    ||| u == 0x3000
}

/// A sequence is blank when every character in it is whitespace; the
/// empty sequence is blank.
pub open spec fn spec_is_blank(s: Seq<char>) -> bool {
    forall|i: int| 0 <= i < s.len() ==> is_space_char(#[trigger] s[i])
}

/// Decides [`is_space_char`] for one character.
pub fn is_space(c: char) -> (r: bool)
    ensures
        r == is_space_char(c),
{
    let u = c as u32;
    u == 0x09 || u == 0x0A || u == 0x0B || u == 0x0C || u == 0x0D || u == 0x20 || u == 0x85
        || u == 0xA0 || u == 0x1680 || (0x2000 <= u && u <= 0x200A) || u == 0x2028 || u == 0x2029
        || u == 0x202F || u == 0x205F || u == 0x3000
}

/// Decides whether a string is empty or consists of whitespace only.
pub fn is_blank(s: &str) -> (r: bool)
    ensures
        r == spec_is_blank(s@),
{
    let n = s.unicode_len();
    let mut idx: usize = 0;
    while idx < n
        invariant
            n == s@.len(),
            idx <= n,
            forall|j: int| 0 <= j < idx ==> is_space_char(#[trigger] s@[j]),
        decreases n - idx,
    {
        let c = s.get_char(idx);
        if !is_space(c) {
            return false;
        }
        idx += 1;
    }
    true
}

/// The character sequences held by a sequence of strings.
pub open spec fn strs_view(v: Seq<String>) -> Seq<Seq<char>> {
    v.map_values(|s: String| s@)
}

/// Clones a vector of strings, keeping every element's characters.
pub fn clone_string_vec(v: &Vec<String>) -> (r: Vec<String>)
    ensures
        r@.len() == v@.len(),
        forall|i: int| 0 <= i < v@.len() ==> #[trigger] r@[i]@ == v@[i]@,
        strs_view(r@) == strs_view(v@),
{
    let mut r: Vec<String> = Vec::new();
    let mut idx: usize = 0;
    while idx < v.len()
        invariant
            idx <= v@.len(),
            r@.len() == idx,
            forall|i: int| 0 <= i < idx ==> #[trigger] r@[i]@ == v@[i]@,
        decreases v@.len() - idx,
    {
        r.push(v[idx].clone());
        idx += 1;
    }
    proof {
        assert(strs_view(r@) =~= strs_view(v@));
    }
    r
}

} // verus!
