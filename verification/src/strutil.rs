//! Verified string building blocks: substring search, replacement,
//! decimal formatting, and small comparisons over `&str`.
//!
//! Everything here is stated over the character-sequence view of a string.

use vstd::prelude::*;

verus! {

/// Relies on `alloc::string::String::push`: appends one character
/// to the end of the string.
#[verifier::external_body]
pub fn push_char(s: &mut String, c: char)
    ensures
        final(s)@ == old(s)@.push(c),
{
    s.push(c);
}

/// The pattern `pat` occurs in `s` starting at character index `i`.
pub open spec fn is_match_at(s: Seq<char>, pat: Seq<char>, i: int) -> bool {
    &&& 0 <= i
    &&& i + pat.len() <= s.len()
    &&& s.subrange(i, i + pat.len()) == pat
}

/// Character index of the first occurrence of `pat` in `s`, if any.
pub open spec fn spec_find(s: Seq<char>, pat: Seq<char>) -> Option<nat>
    decreases s.len(),
{
    if pat.len() > s.len() {
        None
    } else if s.subrange(0, pat.len() as int) == pat {
        Some(0)
    } else if s.len() == 0 {
        None
    } else {
        match spec_find(s.skip(1), pat) {
            None => None,
            Some(j) => Some((j + 1) as nat),
        }
    }
}

/// `spec_find` returns exactly the first match: a found index is a match
/// with no earlier match, and a miss means no match anywhere.
pub proof fn lemma_spec_find_first_match(s: Seq<char>, pat: Seq<char>)
    ensures
        match spec_find(s, pat) {
            Some(i) => is_match_at(s, pat, i as int) && (forall|j: int|
                0 <= j < i ==> !is_match_at(s, pat, j)),
            None => forall|j: int| !is_match_at(s, pat, j),
        },
    decreases s.len(),
{
    if pat.len() > s.len() {
        assert(forall|j: int| !is_match_at(s, pat, j));
    } else if s.subrange(0, pat.len() as int) == pat {
        assert(is_match_at(s, pat, 0));
    } else {
        if s.len() == 0 {
            assert(forall|j: int| !is_match_at(s, pat, j));
        } else {
            lemma_spec_find_first_match(s.skip(1), pat);
            let t = s.skip(1);
            assert forall|j: int| 1 <= j && is_match_at(s, pat, j) implies is_match_at(
                t,
                pat,
                j - 1,
            ) by {
                assert(t.subrange(j - 1, j - 1 + pat.len()) =~= s.subrange(j, j + pat.len()));
            }
            assert forall|j: int| 0 <= j && is_match_at(t, pat, j) implies is_match_at(
                s,
                pat,
                j + 1,
            ) by {
                assert(s.subrange(j + 1, j + 1 + pat.len()) =~= t.subrange(j, j + pat.len()));
            }
            assert(!is_match_at(s, pat, 0)) by {
                assert(s.subrange(0, pat.len() as int) != pat);
            }
        }
    }
}

/// Does `pat` occur at character position `i` of `s`?  Checked character
/// by character.
pub fn match_at(s: &str, pat: &str, i: usize) -> (r: bool)
    requires
        i + pat@.len() <= s@.len(),
    ensures
        r == is_match_at(s@, pat@, i as int),
{
    let n = pat.unicode_len();
    let slen = s.unicode_len();
    let mut j: usize = 0;
    while j < n
        invariant
            j <= n,
            n == pat@.len(),
            slen == s@.len(),
            i + n <= s@.len(),
            s@.subrange(i as int, i + j) =~= pat@.subrange(0, j as int),
        decreases n - j,
    {
        if s.get_char(i + j) != pat.get_char(j) {
            assert(s@.subrange(i as int, i + pat@.len())[j as int] != pat@[j as int]);
            return false;
        }
        assert(s@.subrange(i as int, i + j + 1) =~= pat@.subrange(0, j + 1));
        j = j + 1;
    }
    assert(s@.subrange(i as int, i + pat@.len()) =~= pat@);
    true
}

/// Character index of the first occurrence of `pat` in `s`.
pub fn find_sub(s: &str, pat: &str) -> (r: Option<usize>)
    ensures
        r is Some <==> spec_find(s@, pat@) is Some,
        r is Some ==> r->0 as nat == spec_find(s@, pat@)->0,
{
    proof {
        lemma_spec_find_first_match(s@, pat@);
    }
    let n = s.unicode_len();
    let m = pat.unicode_len();
    if m > n {
        return None;
    }
    if m == 0 {
        assert(s@.subrange(0, 0) =~= pat@);
        return Some(0);
    }
    let mut i: usize = 0;
    while i <= n - m
        invariant
            1 <= m <= n,
            n == s@.len(),
            m == pat@.len(),
            i <= n - m + 1,
            forall|j: int| 0 <= j < i ==> !is_match_at(s@, pat@, j),
            match spec_find(s@, pat@) {
                Some(k) => is_match_at(s@, pat@, k as int) && (forall|j: int|
                    0 <= j < k ==> !is_match_at(s@, pat@, j)),
                None => forall|j: int| !is_match_at(s@, pat@, j),
            },
        decreases n - i,
    {
        if match_at(s, pat, i) {
            return Some(i);
        }
        i = i + 1;
    }
    assert(forall|j: int| !is_match_at(s@, pat@, j)) by {
        assert(forall|j: int| j > n - m ==> !is_match_at(s@, pat@, j));
    }
    None
}

/// Do the two strings hold the same characters?
pub fn str_eq(a: &str, b: &str) -> (r: bool)
    ensures
        r == (a@ == b@),
{
    let na = a.unicode_len();
    let nb = b.unicode_len();
    if na != nb {
        return false;
    }
    let r = match_at(a, b, 0);
    proof {
        if is_match_at(a@, b@, 0) {
            assert(a@.subrange(0, b@.len() as int) =~= a@);
        }
        if a@ == b@ {
            assert(a@.subrange(0, b@.len() as int) =~= b@);
        }
    }
    r
}

/// Does `s` end with the characters of `suffix`?
pub fn ends_with_str(s: &str, suffix: &str) -> (r: bool)
    ensures
        r == (s@.len() >= suffix@.len() && s@.skip(s@.len() - suffix@.len()) == suffix@),
{
    let n = s.unicode_len();
    let m = suffix.unicode_len();
    if m > n {
        return false;
    }
    let r = match_at(s, suffix, n - m);
    proof {
        assert(s@.subrange(n - m, n - m + suffix@.len()) =~= s@.skip(s@.len() - suffix@.len()));
    }
    r
}

/// `s` with every occurrence of `pat` replaced by `rep`, scanning left to
/// right and never rescanning replaced text.  An empty pattern replaces
/// nothing.
pub open spec fn spec_replace_all(s: Seq<char>, pat: Seq<char>, rep: Seq<char>) -> Seq<char>
    decreases s.len(),
    via spec_replace_all_decreases
{
    if pat.len() == 0 {
        s
    } else {
        match spec_find(s, pat) {
            None => s,
            Some(i) => s.take(i as int) + rep + spec_replace_all(
                s.skip(i as int + pat.len() as int),
                pat,
                rep,
            ),
        }
    }
}

#[via_fn]
proof fn spec_replace_all_decreases(s: Seq<char>, pat: Seq<char>, rep: Seq<char>) {
    lemma_spec_find_first_match(s, pat);
}

/// Replace every occurrence of `pat` in `s` by `rep`.
pub fn replace_all(s: &str, pat: &str, rep: &str) -> (r: String)
    ensures
        r@ == spec_replace_all(s@, pat@, rep@),
{
    let mut out = String::new();
    let mut rest = s.to_owned();
    if pat.unicode_len() == 0 {
        return rest;
    }
    loop
        invariant
            pat@.len() >= 1,
            spec_replace_all(s@, pat@, rep@) == out@ + spec_replace_all(rest@, pat@, rep@),
        decreases rest@.len(),
    {
        proof {
            lemma_spec_find_first_match(rest@, pat@);
        }
        match find_sub(rest.as_str(), pat) {
            None => {
                out.append(rest.as_str());
                return out;
            },
            Some(i) => {
                let n = rest.unicode_len();
                let head = rest.as_str().substring_char(0, i);
                out.append(head);
                out.append(rep);
                assert(head@ =~= rest@.take(i as int));
                let tail_start = i + pat.unicode_len();
                let tail = rest.as_str().substring_char(tail_start, n);
                assert(tail@ =~= rest@.skip(i + pat@.len()));
                rest = tail.to_owned();
            },
        }
    }
}

/// The decimal digit character for `d % 10`.
pub open spec fn dec_digit(d: nat) -> char {
    ((48 + d % 10) as u8) as char
}

/// The decimal representation of `n`, most significant digit first.
pub open spec fn dec_rep(n: nat) -> Seq<char>
    decreases n,
{
    if n < 10 {
        seq![dec_digit(n)]
    } else {
        dec_rep(n / 10).push(dec_digit(n % 10))
    }
}

/// Format `n` in decimal.
pub fn decimal_string(n: usize) -> (r: String)
    ensures
        r@ == dec_rep(n as nat),
    decreases n,
{
    if n < 10 {
        let mut s = String::new();
        push_char(&mut s, (48 + n as u8) as char);
        assert(s@ =~= seq![dec_digit(n as nat)]);
        s
    } else {
        let mut s = decimal_string(n / 10);
        push_char(&mut s, (48 + (n % 10) as u8) as char);
        s
    }
}

} // verus!
