//! Verified helpers over `&str` / `String`: substring search, prefix tests
//! (case-sensitive and ASCII-case-insensitive) and splitting at a separator.
use vstd::prelude::*;
use vstd::string::*;

verus! {

/// `pat` occurs in `s` starting at position `i`.
pub open spec fn is_match_at(s: Seq<char>, pat: Seq<char>, i: int) -> bool {
    0 <= i && i + pat.len() <= s.len() && s.subrange(i, i + pat.len()) == pat
}

/// `pat` occurs somewhere in `s`.
pub open spec fn contains_seq(s: Seq<char>, pat: Seq<char>) -> bool {
    exists|i: int| is_match_at(s, pat, i)
}

/// `s` begins with `pat`.
pub open spec fn has_prefix(s: Seq<char>, pat: Seq<char>) -> bool {
    is_match_at(s, pat, 0)
}

/// The numeric value of `c` with ASCII upper-case letters folded to lower case.
pub open spec fn lower_val(c: char) -> u32 {
    if 65 <= c as u32 && c as u32 <= 90 {
        (c as u32 + 32) as u32
    } else {
        c as u32
    }
}

/// `a` and `b` are equal up to ASCII case.
pub open spec fn ci_eq(a: char, b: char) -> bool {
    lower_val(a) == lower_val(b)
}

/// `pat` occurs at position `i` of `s`, up to ASCII case.
pub open spec fn ci_match_at(s: Seq<char>, pat: Seq<char>, i: int) -> bool {
    0 <= i && i + pat.len() <= s.len() && (forall|j: int|
        0 <= j < pat.len() ==> ci_eq(s[i + j], pat[j]))
}

/// `pat` occurs somewhere in `s`, up to ASCII case.
pub open spec fn contains_seq_ci(s: Seq<char>, pat: Seq<char>) -> bool {
    exists|i: int| ci_match_at(s, pat, i)
}

/// `s` begins with `pat`, up to ASCII case.
pub open spec fn has_prefix_ci(s: Seq<char>, pat: Seq<char>) -> bool {
    ci_match_at(s, pat, 0)
}

fn ci_eq_chars(a: char, b: char) -> (r: bool)
    ensures
        r == ci_eq(a, b),
{
    let av: u32 = a as u32;
    let bv: u32 = b as u32;
    let af: u32 = if 65 <= av && av <= 90 { av + 32 } else { av };
    let bf: u32 = if 65 <= bv && bv <= 90 { bv + 32 } else { bv };
    af == bf
}

fn match_at(s: &str, pat: &str, i: usize) -> (r: bool)
    requires
        i + pat@.len() <= s@.len(),
    ensures
        r == is_match_at(s@, pat@, i as int),
{
    let slen: usize = s.unicode_len();
    let plen: usize = pat.unicode_len();
    let mut j: usize = 0;
    while j < plen
        invariant
            0 <= j <= plen,
            plen == pat@.len(),
            slen == s@.len(),
            i + plen <= slen,
            forall|k: int| 0 <= k < j ==> s@[i + k] == pat@[k],
        decreases plen - j,
    {
        if s.get_char(i + j) != pat.get_char(j) {
            assert(s@.subrange(i as int, i + plen) != pat@) by {
                assert(s@.subrange(i as int, i + plen)[j as int] == s@[i + j]);
            }
            return false;
        }
        j += 1;
    }
    assert(s@.subrange(i as int, i + plen) =~= pat@);
    true
}

fn ci_match_at_exec(s: &str, pat: &str, i: usize) -> (r: bool)
    requires
        i + pat@.len() <= s@.len(),
    ensures
        r == ci_match_at(s@, pat@, i as int),
{
    let slen: usize = s.unicode_len();
    let plen: usize = pat.unicode_len();
    let mut j: usize = 0;
    while j < plen
        invariant
            0 <= j <= plen,
            plen == pat@.len(),
            slen == s@.len(),
            i + plen <= slen,
            forall|k: int| 0 <= k < j ==> ci_eq(s@[i + k], pat@[k]),
        decreases plen - j,
    {
        if !ci_eq_chars(s.get_char(i + j), pat.get_char(j)) {
            return false;
        }
        j += 1;
    }
    true
}

/// Whether `pat` occurs in `s` as a contiguous substring.
pub fn contains_str(s: &str, pat: &str) -> (r: bool)
    ensures
        r == contains_seq(s@, pat@),
{
    let slen: usize = s.unicode_len();
    let plen: usize = pat.unicode_len();
    if plen > slen {
        return false;
    }
    if plen == 0 {
        assert(s@.subrange(0, 0) =~= pat@);
        assert(is_match_at(s@, pat@, 0));
        return true;
    }
    let mut i: usize = 0;
    while i <= slen - plen
        invariant
            1 <= plen <= slen,
            slen == s@.len(),
            plen == pat@.len(),
            0 <= i <= slen - plen + 1,
            forall|k: int| 0 <= k < i ==> !is_match_at(s@, pat@, k),
        decreases slen - i,
    {
        if match_at(s, pat, i) {
            return true;
        }
        i += 1;
    }
    false
}

/// Whether `pat` occurs in `s` as a contiguous substring, up to ASCII case.
pub fn contains_str_ci(s: &str, pat: &str) -> (r: bool)
    ensures
        r == contains_seq_ci(s@, pat@),
{
    let slen: usize = s.unicode_len();
    let plen: usize = pat.unicode_len();
    if plen > slen {
        return false;
    }
    if plen == 0 {
        assert(ci_match_at(s@, pat@, 0));
        return true;
    }
    let mut i: usize = 0;
    while i <= slen - plen
        invariant
            1 <= plen <= slen,
            slen == s@.len(),
            plen == pat@.len(),
            0 <= i <= slen - plen + 1,
            forall|k: int| 0 <= k < i ==> !ci_match_at(s@, pat@, k),
        decreases slen - i,
    {
        if ci_match_at_exec(s, pat, i) {
            return true;
        }
        i += 1;
    }
    false
}

/// Whether `s` starts with `pat`.
pub fn has_prefix_str(s: &str, pat: &str) -> (r: bool)
    ensures
        r == has_prefix(s@, pat@),
{
    let slen: usize = s.unicode_len();
    let plen: usize = pat.unicode_len();
    if plen > slen {
        return false;
    }
    match_at(s, pat, 0)
}

/// Whether `s` starts with `pat`, up to ASCII case.
pub fn has_prefix_str_ci(s: &str, pat: &str) -> (r: bool)
    ensures
        r == has_prefix_ci(s@, pat@),
{
    let slen: usize = s.unicode_len();
    let plen: usize = pat.unicode_len();
    if plen > slen {
        return false;
    }
    ci_match_at_exec(s, pat, 0)
}

/// The least position at which `pat` occurs in `s`, if any.
pub open spec fn first_match_index(s: Seq<char>, pat: Seq<char>) -> int {
    choose|i: int| is_match_at(s, pat, i) && (forall|k: int| 0 <= k < i ==> !is_match_at(s, pat, k))
}

/// The least match position is the only position that matches with no
/// earlier match, so `first_match_index` is pinned down by any witness.
pub proof fn lemma_first_match_index(s: Seq<char>, pat: Seq<char>, i: int)
    requires
        is_match_at(s, pat, i),
        forall|k: int| 0 <= k < i ==> !is_match_at(s, pat, k),
    ensures
        contains_seq(s, pat),
        first_match_index(s, pat) == i,
{
    assert(contains_seq(s, pat));
    let c = first_match_index(s, pat);
    assert(is_match_at(s, pat, c) && (forall|k: int| 0 <= k < c ==> !is_match_at(s, pat, k)))
        by {
        assert(is_match_at(s, pat, i) && (forall|k: int| 0 <= k < i ==> !is_match_at(s, pat, k)));
    }
    if c < i {
        assert(!is_match_at(s, pat, c));
    }
    if i < c {
        assert(!is_match_at(s, pat, i));
    }
}

/// Finds the least position at which `pat` occurs in `s`.
pub fn find_first(s: &str, pat: &str) -> (r: Option<usize>)
    ensures
        match r {
            Some(i) => is_match_at(s@, pat@, i as int) && (forall|k: int|
                0 <= k < i ==> !is_match_at(s@, pat@, k)) && i == first_match_index(s@, pat@),
            None => !contains_seq(s@, pat@),
        },
{
    let slen: usize = s.unicode_len();
    let plen: usize = pat.unicode_len();
    if plen > slen {
        return None;
    }
    if plen == 0 {
        assert(s@.subrange(0, 0) =~= pat@);
        proof {
            lemma_first_match_index(s@, pat@, 0);
        }
        return Some(0);
    }
    let mut i: usize = 0;
    while i <= slen - plen
        invariant
            1 <= plen <= slen,
            slen == s@.len(),
            plen == pat@.len(),
            0 <= i <= slen - plen + 1,
            forall|k: int| 0 <= k < i ==> !is_match_at(s@, pat@, k),
        decreases slen - i,
    {
        if match_at(s, pat, i) {
            proof {
                lemma_first_match_index(s@, pat@, i as int);
            }
            return Some(i);
        }
        i += 1;
    }
    None
}

/// The part of `s` before the first occurrence of `pat`; all of `s` when
/// `pat` does not occur in it.
pub open spec fn prefix_before(s: Seq<char>, pat: Seq<char>) -> Seq<char> {
    if contains_seq(s, pat) {
        s.take(first_match_index(s, pat))
    } else {
        s
    }
}

/// Splits off the part of `s` before the first occurrence of `pat`.
pub fn split_before(s: &str, pat: &str) -> (r: String)
    ensures
        r@ == prefix_before(s@, pat@),
{
    match find_first(s, pat) {
        Some(i) => {
            let piece = s.substring_char(0, i);
            assert(piece@ =~= s@.take(i as int));
            piece.to_owned()
        },
        None => s.to_owned(),
    }
}

} // verus!
