//! Case-insensitive text matching for position codes.
//!
//! Position fields are short codes such as "ST" or "AM, CM", and the
//! configuration matches them case-insensitively as substrings. The
//! folding is ASCII: the letters 'A' to 'Z' map to their lowercase
//! counterparts and every other character stands for itself.

use vstd::prelude::*;
use vstd::string::StrSliceExecFns;

verus! {

/// ASCII lowercase folding of one character.
pub open spec fn lower_char(c: char) -> char {
    match c {
        'A' => 'a',
        'B' => 'b',
        'C' => 'c',
        'D' => 'd',
        'E' => 'e',
        'F' => 'f',
        'G' => 'g',
        'H' => 'h',
        'I' => 'i',
        'J' => 'j',
        'K' => 'k',
        'L' => 'l',
        'M' => 'm',
        'N' => 'n',
        'O' => 'o',
        'P' => 'p',
        'Q' => 'q',
        'R' => 'r',
        'S' => 's',
        'T' => 't',
        'U' => 'u',
        'V' => 'v',
        'W' => 'w',
        'X' => 'x',
        'Y' => 'y',
        'Z' => 'z',
        _ => c,
    }
}

/// ASCII lowercase folding of a whole character sequence.
pub open spec fn lower_seq(s: Seq<char>) -> Seq<char> {
    s.map_values(|c: char| lower_char(c))
}

/// `needle` occurs in `hay` starting at index `i`.
pub open spec fn is_substring_at(hay: Seq<char>, needle: Seq<char>, i: int) -> bool {
    0 <= i && i + needle.len() <= hay.len() && hay.subrange(i, i + needle.len()) == needle
}

/// `needle` occurs somewhere in `hay`.
pub open spec fn contains_seq(hay: Seq<char>, needle: Seq<char>) -> bool {
    exists|i: int| is_substring_at(hay, needle, i)
}

/// The position field `position` matches the target `target`:
/// after ASCII lowercase folding, the target occurs in the position
/// field as a substring.
pub open spec fn spec_position_matches(position: Seq<char>, target: Seq<char>) -> bool {
    contains_seq(lower_seq(position), lower_seq(target))
}

/// Executable ASCII lowercase folding of one character.
pub fn to_lower_char(c: char) -> (r: char)
    ensures
        r == lower_char(c),
{
    match c {
        'A' => 'a',
        'B' => 'b',
        'C' => 'c',
        'D' => 'd',
        'E' => 'e',
        'F' => 'f',
        'G' => 'g',
        'H' => 'h',
        'I' => 'i',
        'J' => 'j',
        'K' => 'k',
        'L' => 'l',
        'M' => 'm',
        'N' => 'n',
        'O' => 'o',
        'P' => 'p',
        'Q' => 'q',
        'R' => 'r',
        'S' => 's',
        'T' => 't',
        'U' => 'u',
        'V' => 'v',
        'W' => 'w',
        'X' => 'x',
        'Y' => 'y',
        'Z' => 'z',
        _ => c,
    }
}

/// Folds a string to a lowercase character vector.
pub fn lower_vec(s: &str) -> (r: Vec<char>)
    ensures
        r@ == lower_seq(s@),
{
    let n = s.unicode_len();
    let mut r: Vec<char> = Vec::new();
    let mut i: usize = 0;
    while i < n
        invariant
            n == s@.len(),
            i <= n,
            r@ == lower_seq(s@).take(i as int),
        decreases n - i,
    {
        let c = s.get_char(i);
        r.push(to_lower_char(c));
        proof {
            assert(r@ =~= lower_seq(s@).take(i + 1));
        }
        i += 1;
    }
    proof {
        assert(r@ =~= lower_seq(s@));
    }
    r
}

/// Compares `needle` against `hay` at offset `i`.
fn matches_at(hay: &Vec<char>, needle: &Vec<char>, i: usize) -> (b: bool)
    requires
        i + needle@.len() <= hay@.len(),
    ensures
        b == is_substring_at(hay@, needle@, i as int),
{
    let n = hay.len();
    let m = needle.len();
    let mut j: usize = 0;
    while j < m
        invariant
            n == hay@.len(),
            m == needle@.len(),
            i + m <= n,
            j <= m,
            forall|k: int| 0 <= k < j ==> hay@[i + k] == needle@[k],
        decreases m - j,
    {
        if hay[i + j] != needle[j] {
            proof {
                assert(hay@.subrange(i as int, i + needle@.len())[j as int] != needle@[j as int]);
            }
            return false;
        }
        j += 1;
    }
    proof {
        assert(hay@.subrange(i as int, i + needle@.len()) =~= needle@);
    }
    true
}

/// Substring search over character vectors.
pub fn contains_chars(hay: &Vec<char>, needle: &Vec<char>) -> (b: bool)
    ensures
        b == contains_seq(hay@, needle@),
{
    let n = hay.len();
    let m = needle.len();
    if m > n {
        proof {
            assert(forall|i: int| !is_substring_at(hay@, needle@, i));
        }
        return false;
    }
    if m == 0 {
        proof {
            assert(hay@.subrange(0, 0) =~= needle@);
            assert(is_substring_at(hay@, needle@, 0));
        }
        return true;
    }
    let mut i: usize = 0;
    while i <= n - m
        invariant
            n == hay@.len(),
            m == needle@.len(),
            0 < m <= n,
            i <= n - m + 1,
            forall|k: int| 0 <= k < i ==> !is_substring_at(hay@, needle@, k),
        decreases n + 1 - m - i,
    {
        if matches_at(hay, needle, i) {
            return true;
        }
        i += 1;
    }
    proof {
        assert(forall|k: int| !is_substring_at(hay@, needle@, k));
    }
    false
}

/// Case-insensitive substring match of a target position against a
/// record's position field.
pub fn position_matches(position: &str, target: &str) -> (b: bool)
    ensures
        b == spec_position_matches(position@, target@),
{
    let hay = lower_vec(position);
    let needle = lower_vec(target);
    contains_chars(&hay, &needle)
}

} // verus!
