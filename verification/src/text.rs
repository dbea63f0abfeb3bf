//! Mapping browser cursor offsets to editor coordinates.
//!
//! The browser reports a zero-based UTF-16 code-unit offset; editors want a
//! one-based line and a one-based column counted in UTF-8 bytes from the
//! start of the line.

use vstd::prelude::*;
use vstd::utf8::char_is_scalar;
use vstd::utf8::encode_scalar;
use vstd::utf8::encode_utf8;

verus! {

/// UTF-16 code units taken by one Unicode scalar value.
pub open spec fn utf16_len_of(c: char) -> nat {
    if (c as u32) < 0x10000 {
        1
    } else {
        2
    }
}

/// UTF-8 bytes taken by one Unicode scalar value.
pub open spec fn utf8_len_of(c: char) -> nat {
    if (c as u32) < 0x80 {
        1
    } else if (c as u32) < 0x800 {
        2
    } else if (c as u32) < 0x10000 {
        3
    } else {
        4
    }
}

/// Total UTF-8 byte length of a character sequence.
pub open spec fn utf8_len_seq(s: Seq<char>) -> nat
    decreases s.len(),
{
    if s.len() == 0 {
        0
    } else {
        utf8_len_of(s[0]) + utf8_len_seq(s.drop_first())
    }
}

/// `utf8_len_seq` agrees with the length of the UTF-8 encoding.
pub proof fn lemma_utf8_len_seq_encode(s: Seq<char>)
    ensures
        utf8_len_seq(s) == encode_utf8(s).len(),
    decreases s.len(),
{
    if s.len() == 0 {
    } else {
        char_is_scalar(s[0]);
        assert(encode_scalar(s[0] as u32).len() == utf8_len_of(s[0]));
        lemma_utf8_len_seq_encode(s.drop_first());
    }
}

/// `utf8_len_seq` adds up over concatenation.
pub proof fn lemma_utf8_len_seq_concat(a: Seq<char>, b: Seq<char>)
    ensures
        utf8_len_seq(a + b) == utf8_len_seq(a) + utf8_len_seq(b),
    decreases a.len(),
{
    if a.len() == 0 {
        assert(a + b =~= b);
    } else {
        assert((a + b).drop_first() =~= a.drop_first() + b);
        lemma_utf8_len_seq_concat(a.drop_first(), b);
    }
}

/// Every character takes at least one UTF-8 byte.
pub proof fn lemma_utf8_len_seq_lower(s: Seq<char>)
    ensures
        utf8_len_seq(s) >= s.len(),
    decreases s.len(),
{
    if s.len() > 0 {
        lemma_utf8_len_seq_lower(s.drop_first());
    }
}

/// A prefix never takes more UTF-8 bytes than the whole sequence.
pub proof fn lemma_utf8_len_seq_prefix(s: Seq<char>, i: int)
    requires
        0 <= i <= s.len(),
    ensures
        utf8_len_seq(s.take(i)) <= utf8_len_seq(s),
{
    assert(s =~= s.take(i) + s.skip(i));
    lemma_utf8_len_seq_concat(s.take(i), s.skip(i));
}

/// One-based line and UTF-8 column of the character at UTF-16 offset
/// `offset`, scanning from character `i` with the running counters
/// `line`, `col` and `units` (UTF-16 code units consumed so far).
///
/// Scanning stops at the character that pushes the running UTF-16 total
/// past `offset`; its own position is reported, so an offset landing
/// inside a surrogate pair resolves to the start of that character.  An
/// offset past the end of the text yields the position after the last
/// character.
pub open spec fn line_col_from(
    text: Seq<char>,
    offset: nat,
    i: nat,
    line: nat,
    col: nat,
    units: nat,
) -> (nat, nat)
    decreases text.len() - i,
{
    if i >= text.len() {
        (line, col)
    } else {
        let c = text[i as int];
        if units + utf16_len_of(c) > offset {
            (line, col)
        } else if c == '\n' {
            line_col_from(text, offset, i + 1, line + 1, 1, units + utf16_len_of(c))
        } else {
            line_col_from(text, offset, i + 1, line, col + utf8_len_of(c), units + utf16_len_of(c))
        }
    }
}

/// One-based (line, column) for a zero-based UTF-16 offset into `text`.
pub open spec fn spec_line_col(offset: nat, text: Seq<char>) -> (nat, nat) {
    line_col_from(text, offset, 0, 1, 1, 0)
}

/// UTF-16 code units taken by `c`.
pub fn utf16_char_len(c: char) -> (r: usize)
    ensures
        r == utf16_len_of(c),
{
    if (c as u32) < 0x10000 {
        1
    } else {
        2
    }
}

/// UTF-8 bytes taken by `c`.
pub fn utf8_char_len(c: char) -> (r: usize)
    ensures
        r == utf8_len_of(c),
{
    let v = c as u32;
    if v < 0x80 {
        1
    } else if v < 0x800 {
        2
    } else if v < 0x10000 {
        3
    } else {
        4
    }
}

/// Convert the browser's zero-based UTF-16 offset to one-based UTF-8
/// line/column cursor coordinates.
///
/// The line is incremented on every line feed before the offset; the
/// column counts UTF-8 bytes from the start of the line.  Offsets inside
/// a surrogate pair resolve to the start of that character; offsets past
/// the end of the text clamp to the position after the last character.
pub fn utf16_offset_to_utf8_line_col(offset: usize, text: &str) -> (r: (usize, usize))
    requires
        encode_utf8(text@).len() + 1 <= usize::MAX,
    ensures
        (r.0 as nat, r.1 as nat) == spec_line_col(offset as nat, text@),
        r.0 >= 1,
        r.1 >= 1,
{
    let n = text.unicode_len();
    let nbytes = text.as_bytes().len();
    proof {
        lemma_utf8_len_seq_encode(text@);
        lemma_utf8_len_seq_lower(text@);
        assert(text@.take(0) =~= Seq::<char>::empty());
    }
    let mut line: usize = 1;
    let mut col: usize = 1;
    let mut units: usize = 0;
    let mut i: usize = 0;
    while i < n
        invariant
            n == text@.len(),
            nbytes == utf8_len_seq(text@),
            nbytes + 1 <= usize::MAX,
            i <= n,
            1 <= line,
            1 <= col,
            line <= i + 1,
            n <= nbytes,
            col <= 1 + utf8_len_seq(text@.take(i as int)),
            units <= utf8_len_seq(text@.take(i as int)),
            spec_line_col(offset as nat, text@) == line_col_from(
                text@,
                offset as nat,
                i as nat,
                line as nat,
                col as nat,
                units as nat,
            ),
        decreases n - i,
    {
        let c = text.get_char(i);
        proof {
            assert(text@.take(i + 1) =~= text@.take(i as int) + seq![c]);
            lemma_utf8_len_seq_concat(text@.take(i as int), seq![c]);
            assert(seq![c].drop_first() =~= Seq::<char>::empty());
            assert(utf8_len_seq(Seq::<char>::empty()) == 0);
            assert(utf8_len_seq(seq![c]) == utf8_len_of(c));
            lemma_utf8_len_seq_prefix(text@, i + 1);
        }
        let ul = utf16_char_len(c);
        if units + ul > offset {
            return (line, col);
        }
        units = units + ul;
        if c == '\n' {
            line = line + 1;
            col = 1;
        } else {
            col = col + utf8_char_len(c);
        }
        i = i + 1;
    }
    (line, col)
}

} // verus!
