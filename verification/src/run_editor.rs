//! Naming for the earlier, synchronous editing flow: one plaintext file
//! per edit, named after the field's title.

use vstd::prelude::*;

use crate::strutil::push_char;

verus! {

/// Path separators are replaced by a dash; everything else is kept.
pub open spec fn dash_for_separator(c: char) -> char {
    if c == '/' || c == '\\' {
        '-'
    } else {
        c
    }
}

/// The file name for a field title: the title with path separators
/// dashed (`buffer` when the title is empty) and a plaintext extension.
pub open spec fn spec_process_title(title: Seq<char>) -> Seq<char> {
    let base = if title.len() == 0 {
        "buffer"@
    } else {
        title.map_values(|c: char| dash_for_separator(c))
    };
    base + ".txt"@
}

/// Derive the scratch file's name from the field's title.
pub fn process_title(title: &String) -> (r: String)
    ensures
        r@ == spec_process_title(title@),
{
    let n = title.as_str().unicode_len();
    let mut s: String;
    if n == 0 {
        s = String::from_str("buffer");
    } else {
        s = String::new();
        let mut i: usize = 0;
        proof {
            assert(title@.take(0).map_values(|c: char| dash_for_separator(c)) =~= Seq::<
                char,
            >::empty());
        }
        while i < n
            invariant
                i <= n,
                n == title@.len(),
                s@ == title@.take(i as int).map_values(|c: char| dash_for_separator(c)),
            decreases n - i,
        {
            let c = title.as_str().get_char(i);
            if c == '/' || c == '\\' {
                push_char(&mut s, '-');
            } else {
                push_char(&mut s, c);
            }
            proof {
                assert(title@.take(i + 1).map_values(|c: char| dash_for_separator(c)) =~= title@.take(
                    i as int,
                ).map_values(|c: char| dash_for_separator(c)).push(dash_for_separator(title@[i as int])));
            }
            i = i + 1;
        }
        proof {
            assert(title@.take(n as int) =~= title@);
        }
    }
    s.append(".txt");
    s
}

} // verus!
