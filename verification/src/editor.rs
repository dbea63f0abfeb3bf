//! Editor command synthesis: turn the user's command template into the
//! argument list that opens the mirror file at the cursor.
//!
//! The template is split under shell quoting rules; placeholder tokens
//! are substituted when present, a table of well-known editors supplies
//! idiomatic position arguments otherwise, and the file path is appended
//! as a last resort.  Spawning the resulting process is the caller's.

use vstd::prelude::*;

use crate::msg::RangeInText;
use crate::strutil::dec_rep;
use crate::strutil::decimal_string;
use crate::strutil::find_sub;
use crate::strutil::spec_find;
use crate::strutil::spec_replace_all;
use crate::strutil::replace_all;
use crate::strutil::str_eq;
use crate::text::spec_line_col;
use crate::text::utf16_offset_to_utf8_line_col;
use vstd::utf8::encode_utf8;

verus! {

/// Why a command template was rejected.
#[derive(Clone, Copy, Debug, PartialEq, Eq, Structural)]
pub enum EditorError {
    /// The template held no token at all.
    EmptyCommand,
    /// The template's quoting could not be parsed.
    BadTemplate,
}

/// The tokens of a command line under POSIX-like quoting rules, `None`
/// exactly when the quoting is malformed.
pub uninterp spec fn shell_words_of(s: Seq<char>) -> Option<Seq<Seq<char>>>;

/// Relies on shell_words' `split`: tokenizes a command line honoring
/// quoting and escaping — a function of the input alone.
#[verifier::external_body]
fn split_command(s: &str) -> (r: Option<Vec<String>>)
    ensures
        r is Some <==> shell_words_of(s@) is Some,
        r is Some ==> r.unwrap().deep_view() == shell_words_of(s@).unwrap(),
{
    match shell_words::split(s) {
        Ok(v) => Some(v),
        Err(_) => None,
    }
}

/// Does the token contain one of the placeholders `%f`, `%l`, `%c`?
pub open spec fn token_has_placeholder(t: Seq<char>) -> bool {
    ||| spec_find(t, "%f"@) is Some
    ||| spec_find(t, "%l"@) is Some
    ||| spec_find(t, "%c"@) is Some
}

/// Does any token after the program name contain a placeholder?
pub open spec fn has_placeholder(tokens: Seq<Seq<char>>) -> bool {
    exists|k: int| 1 <= k < tokens.len() && token_has_placeholder(#[trigger] tokens[k])
}

/// One token with every `%f` replaced by the file path, then every `%l`
/// by the line number, then every `%c` by the column number.
pub open spec fn spec_substitute_token(
    t: Seq<char>,
    file: Seq<char>,
    line: nat,
    col: nat,
) -> Seq<char> {
    spec_replace_all(
        spec_replace_all(spec_replace_all(t, "%f"@, file), "%l"@, dec_rep(line)),
        "%c"@,
        dec_rep(col),
    )
}

/// The index of the last `/` in `t`, if any.
pub open spec fn spec_rfind_slash(t: Seq<char>) -> Option<int>
    decreases t.len(),
{
    if t.len() == 0 {
        None
    } else if t.last() == '/' {
        Some(t.len() - 1)
    } else {
        spec_rfind_slash(t.drop_last())
    }
}

/// The base name of a path-like token: everything after its last `/`.
pub open spec fn spec_base_name(t: Seq<char>) -> Seq<char> {
    match spec_rfind_slash(t) {
        Some(i) => t.skip(i + 1),
        None => t,
    }
}

/// `spec_rfind_slash` returns exactly the last slash: a found index
/// holds a slash with none after it, and a miss means no slash at all.
proof fn lemma_rfind_slash(t: Seq<char>)
    ensures
        match spec_rfind_slash(t) {
            Some(i) => 0 <= i < t.len() && t[i] == '/' && (forall|j: int|
                i < j < t.len() ==> t[j] != '/'),
            None => forall|j: int| 0 <= j < t.len() ==> t[j] != '/',
        },
    decreases t.len(),
{
    if t.len() == 0 {
    } else if t.last() == '/' {
    } else {
        lemma_rfind_slash(t.drop_last());
        assert forall|j: int| 0 <= j < t.len() - 1 implies t.drop_last()[j] == t[j] by {}
        match spec_rfind_slash(t.drop_last()) {
            Some(i) => {
                assert(t[i] == '/');
                assert forall|j: int| i < j < t.len() implies t[j] != '/' by {
                    if j < t.len() - 1 {
                        assert(t.drop_last()[j] != '/');
                    }
                }
            },
            None => {
                assert forall|j: int| 0 <= j < t.len() implies t[j] != '/' by {
                    if j < t.len() - 1 {
                        assert(t.drop_last()[j] != '/');
                    }
                }
            },
        }
    }
}

/// The base name of a path-like token.
pub fn base_name(t: &str) -> (r: String)
    ensures
        r@ == spec_base_name(t@),
{
    proof {
        lemma_rfind_slash(t@);
    }
    let n = t.unicode_len();
    let mut i: usize = n;
    while i > 0
        invariant
            i <= n,
            n == t@.len(),
            forall|j: int| i <= j < n ==> t@[j] != '/',
            match spec_rfind_slash(t@) {
                Some(s) => 0 <= s < n && t@[s] == '/' && (forall|j: int|
                    s < j < n ==> t@[j] != '/'),
                None => forall|j: int| 0 <= j < n ==> t@[j] != '/',
            },
        decreases i,
    {
        if t.get_char(i - 1) == '/' {
            let r = t.substring_char(i, n);
            proof {
                if spec_rfind_slash(t@) is Some {
                    let s = spec_rfind_slash(t@).unwrap();
                    assert(s == i - 1);
                    assert(r@ =~= t@.skip(s + 1));
                } else {
                    assert(false);
                }
            }
            return r.to_owned();
        }
        i = i - 1;
    }
    proof {
        if spec_rfind_slash(t@) is Some {
            assert(t@[spec_rfind_slash(t@).unwrap()] == '/');
            assert(false);
        }
    }
    t.to_owned()
}

/// The idiomatic "open this file at line:col" arguments for a well-known
/// editor, or `None` for one the table does not know.
pub open spec fn spec_known_editor_args(
    editor: Seq<char>,
    file: Seq<char>,
    line: nat,
    col: nat,
) -> Option<Seq<Seq<char>>> {
    if editor == "vi"@ || editor == "vim"@ || editor == "nvim"@ {
        Some(seq!["+"@ + dec_rep(line), "+norm! "@ + dec_rep(col) + "|"@, file])
    } else if editor == "emacs"@ || editor == "emacsclient"@ || editor == "gedit"@ || editor
        == "kak"@ {
        Some(seq!["+"@ + dec_rep(line) + ":"@ + dec_rep(col), file])
    } else if editor == "nano"@ {
        Some(seq!["+"@ + dec_rep(line) + ","@ + dec_rep(col), file])
    } else if editor == "joe"@ || editor == "ee"@ {
        Some(seq!["+"@ + dec_rep(line), file])
    } else if editor == "code"@ || editor == "code-oss"@ {
        Some(seq!["--goto"@, file + ":"@ + dec_rep(line) + ":"@ + dec_rep(col), "--wait"@])
    } else if editor == "subl"@ {
        Some(seq![file + ":"@ + dec_rep(line) + ":"@ + dec_rep(col), "--wait"@])
    } else if editor == "micro"@ {
        Some(seq![file, "+"@ + dec_rep(line) + ":"@ + dec_rep(col)])
    } else {
        None
    }
}

/// `"+<line>"`.
fn fmt_plus_line(line: usize) -> (r: String)
    ensures
        r@ == "+"@ + dec_rep(line as nat),
{
    let mut s = String::from_str("+");
    let d = decimal_string(line);
    s.append(d.as_str());
    s
}

/// `"<left><line><sep><col>"`.
fn fmt_line_sep_col(left: &str, line: usize, sep: &str, col: usize) -> (r: String)
    ensures
        r@ == left@ + dec_rep(line as nat) + sep@ + dec_rep(col as nat),
{
    let mut s = left.to_owned();
    let dl = decimal_string(line);
    s.append(dl.as_str());
    s.append(sep);
    let dc = decimal_string(col);
    s.append(dc.as_str());
    s
}

/// `"<file>:<line>:<col>"`.
fn fmt_file_line_col(file: &str, line: usize, col: usize) -> (r: String)
    ensures
        r@ == file@ + ":"@ + dec_rep(line as nat) + ":"@ + dec_rep(col as nat),
{
    let mut s = file.to_owned();
    s.append(":");
    let dl = decimal_string(line);
    s.append(dl.as_str());
    s.append(":");
    let dc = decimal_string(col);
    s.append(dc.as_str());
    s
}

/// Format file path, cursor position and the needed flags for the
/// well-known editors; `None` for an editor not in the table.
pub fn format_known_editors(editor: &str, file: &str, line: usize, col: usize) -> (r: Option<
    Vec<String>,
>)
    ensures
        r is Some <==> spec_known_editor_args(editor@, file@, line as nat, col as nat) is Some,
        r is Some ==> r.unwrap().deep_view() == spec_known_editor_args(
            editor@,
            file@,
            line as nat,
            col as nat,
        ).unwrap(),
{
    let mut v: Vec<String> = Vec::new();
    if str_eq(editor, "vi") || str_eq(editor, "vim") || str_eq(editor, "nvim") {
        v.push(fmt_plus_line(line));
        let mut norm = String::from_str("+norm! ");
        let d = decimal_string(col);
        norm.append(d.as_str());
        norm.append("|");
        v.push(norm);
        v.push(file.to_owned());
        assert(v.deep_view() =~= spec_known_editor_args(
            editor@,
            file@,
            line as nat,
            col as nat,
        ).unwrap());
        Some(v)
    } else if str_eq(editor, "emacs") || str_eq(editor, "emacsclient") || str_eq(editor, "gedit")
        || str_eq(editor, "kak") {
        v.push(fmt_line_sep_col("+", line, ":", col));
        v.push(file.to_owned());
        assert(v.deep_view() =~= spec_known_editor_args(
            editor@,
            file@,
            line as nat,
            col as nat,
        ).unwrap());
        Some(v)
    } else if str_eq(editor, "nano") {
        v.push(fmt_line_sep_col("+", line, ",", col));
        v.push(file.to_owned());
        assert(v.deep_view() =~= spec_known_editor_args(
            editor@,
            file@,
            line as nat,
            col as nat,
        ).unwrap());
        Some(v)
    } else if str_eq(editor, "joe") || str_eq(editor, "ee") {
        v.push(fmt_plus_line(line));
        v.push(file.to_owned());
        assert(v.deep_view() =~= spec_known_editor_args(
            editor@,
            file@,
            line as nat,
            col as nat,
        ).unwrap());
        Some(v)
    } else if str_eq(editor, "code") || str_eq(editor, "code-oss") {
        v.push(String::from_str("--goto"));
        v.push(fmt_file_line_col(file, line, col));
        v.push(String::from_str("--wait"));
        assert(v.deep_view() =~= spec_known_editor_args(
            editor@,
            file@,
            line as nat,
            col as nat,
        ).unwrap());
        Some(v)
    } else if str_eq(editor, "subl") {
        v.push(fmt_file_line_col(file, line, col));
        v.push(String::from_str("--wait"));
        assert(v.deep_view() =~= spec_known_editor_args(
            editor@,
            file@,
            line as nat,
            col as nat,
        ).unwrap());
        Some(v)
    } else if str_eq(editor, "micro") {
        v.push(file.to_owned());
        v.push(fmt_line_sep_col("+", line, ":", col));
        assert(v.deep_view() =~= spec_known_editor_args(
            editor@,
            file@,
            line as nat,
            col as nat,
        ).unwrap());
        Some(v)
    } else {
        None
    }
}

/// Replace the first occurrence of `pattern` in `source` by
/// `replacement`; reports whether anything was replaced.
pub fn replace_in_place(source: &mut String, pattern: &str, replacement: &str) -> (found: bool)
    ensures
        found == (spec_find(old(source)@, pattern@) is Some),
        match spec_find(old(source)@, pattern@) {
            Some(i) => final(source)@ == old(source)@.take(i as int) + replacement@ + old(
                source,
            )@.skip(i as int + pattern@.len() as int),
            None => final(source)@ == old(source)@,
        },
{
    proof {
        crate::strutil::lemma_spec_find_first_match(source@, pattern@);
    }
    match find_sub(source.as_str(), pattern) {
        None => false,
        Some(i) => {
            let n = source.unicode_len();
            let plen = pattern.unicode_len();
            let mut out = String::new();
            let head = source.as_str().substring_char(0, i);
            out.append(head);
            out.append(replacement);
            let tail = source.as_str().substring_char(i + plen, n);
            out.append(tail);
            proof {
                let ghost sv = source@;
                let k = spec_find(sv, pattern@).unwrap() as int;
                assert(head@ =~= sv.take(k));
                assert(tail@ =~= sv.skip(k + pattern@.len()));
            }
            *source = out;
            true
        },
    }
}

/// The full substitution pass over a token list: with a placeholder
/// anywhere after the program name, every later token is substituted and
/// nothing else changes; otherwise a well-known last token's base name
/// appends its table arguments; otherwise the file path is appended.
pub open spec fn spec_substituted(
    tokens: Seq<Seq<char>>,
    file: Seq<char>,
    line: nat,
    col: nat,
) -> Seq<Seq<char>>
    recommends
        tokens.len() >= 1,
{
    if has_placeholder(tokens) {
        Seq::new(
            tokens.len(),
            |j: int|
                if j == 0 {
                    tokens[0]
                } else {
                    spec_substitute_token(tokens[j], file, line, col)
                },
        )
    } else {
        match spec_known_editor_args(spec_base_name(tokens.last()), file, line, col) {
            Some(args) => tokens + args,
            None => tokens.push(file),
        }
    }
}

/// Does the token contain a placeholder?
fn has_placeholder_token(t: &str) -> (r: bool)
    ensures
        r == token_has_placeholder(t@),
{
    let f = find_sub(t, "%f");
    let l = find_sub(t, "%l");
    let c = find_sub(t, "%c");
    f.is_some() || l.is_some() || c.is_some()
}

/// Add file name, cursor line and cursor column to the command.
pub fn perform_substitutions(command: &mut Vec<String>, file_path: &str, line: usize, col: usize)
    requires
        old(command)@.len() >= 1,
    ensures
        final(command).deep_view() == spec_substituted(
            old(command).deep_view(),
            file_path@,
            line as nat,
            col as nat,
        ),
{
    let ghost orig = old(command).deep_view();
    let n = command.len();
    let mut found = false;
    let mut k: usize = 1;
    while k < n
        invariant
            1 <= k <= n || (n == 0 && k == 1),
            n == command@.len(),
            orig == command.deep_view(),
            found == exists|j: int|
                1 <= j < k && token_has_placeholder(#[trigger] command.deep_view()[j]),
        decreases n - k,
    {
        let has = has_placeholder_token(command[k].as_str());
        proof {
            assert(command.deep_view()[k as int] == command@[k as int]@);
        }
        if has {
            found = true;
        }
        k = k + 1;
    }
    assert(found == has_placeholder(orig));
    if found {
        let mut k: usize = 1;
        while k < n
            invariant
                1 <= k <= n,
                n == command@.len(),
                orig.len() == n,
                command.deep_view()[0] == orig[0],
                forall|j: int| k <= j < n ==> command.deep_view()[j] == orig[j],
                forall|j: int|
                    1 <= j < k ==> command.deep_view()[j] == spec_substitute_token(
                        orig[j],
                        file_path@,
                        line as nat,
                        col as nat,
                    ),
            decreases n - k,
        {
            let ghost before = command.deep_view();
            proof {
                assert(command.deep_view()[k as int] == command@[k as int]@);
            }
            let dl = decimal_string(line);
            let dc = decimal_string(col);
            let t1 = replace_all(command[k].as_str(), "%f", file_path);
            let t2 = replace_all(t1.as_str(), "%l", dl.as_str());
            let t3 = replace_all(t2.as_str(), "%c", dc.as_str());
            proof {
                assert(t1@ == spec_replace_all(orig[k as int], "%f"@, file_path@));
                assert(t3@ == spec_substitute_token(
                    orig[k as int],
                    file_path@,
                    line as nat,
                    col as nat,
                ));
            }
            let ghost prev = command@;
            command.set(k, t3);
            proof {
                assert(command.deep_view()[k as int] == t3@);
                assert forall|j: int| 0 <= j < n && j != k implies command.deep_view()[j]
                    == before[j] by {
                    assert(command@[j] == prev[j]);
                }
                assert forall|j: int| 1 <= j < k + 1 implies command.deep_view()[j]
                    == spec_substitute_token(orig[j], file_path@, line as nat, col as nat) by {
                    if j == k {
                        assert(command.deep_view()[j] == t3@);
                    } else {
                        assert(command.deep_view()[j] == before[j]);
                        assert(before[j] == spec_substitute_token(
                            orig[j],
                            file_path@,
                            line as nat,
                            col as nat,
                        ));
                    }
                }
            }
            k = k + 1;
        }
        assert(command.deep_view() =~= spec_substituted(
            orig,
            file_path@,
            line as nat,
            col as nat,
        ));
    } else {
        let base = base_name(command[n - 1].as_str());
        proof {
            assert(orig[n - 1] == orig.last());
        }
        match format_known_editors(base.as_str(), file_path, line, col) {
            Some(mut additions) => {
                let ghost addv = additions.deep_view();
                command.append(&mut additions);
                assert(command.deep_view() =~= orig + addv);
            },
            None => {
                command.push(file_path.to_owned());
                assert(command.deep_view() =~= orig.push(file_path@));
            },
        }
    }
}

/// Turn already-split command tokens into the final argument list, or
/// report an empty command.
pub fn build_editor_command(
    tokens: Vec<String>,
    file_path: &str,
    line: usize,
    col: usize,
) -> (r: Result<Vec<String>, EditorError>)
    ensures
        r is Err <==> tokens@.len() == 0,
        r is Err ==> r == Err::<Vec<String>, EditorError>(EditorError::EmptyCommand),
        r is Ok ==> r.unwrap().deep_view() == spec_substituted(
            tokens.deep_view(),
            file_path@,
            line as nat,
            col as nat,
        ),
{
    let mut tokens = tokens;
    if tokens.len() == 0 {
        return Err(EditorError::EmptyCommand);
    }
    perform_substitutions(&mut tokens, file_path, line, col);
    Ok(tokens)
}

/// Split the command template and synthesize the argument list for
/// opening `file_path` at the cursor; the errors say exactly why a
/// template is unusable.
pub fn prepare_editor_command(
    template: &str,
    file_path: &str,
    line: usize,
    col: usize,
) -> (r: Result<Vec<String>, EditorError>)
    ensures
        r == Err::<Vec<String>, EditorError>(EditorError::BadTemplate) <==> shell_words_of(
            template@,
        ) is None,
        r == Err::<Vec<String>, EditorError>(EditorError::EmptyCommand) <==> (shell_words_of(
            template@,
        ) is Some && shell_words_of(template@).unwrap().len() == 0),
        r is Ok ==> r.unwrap().deep_view() == spec_substituted(
            shell_words_of(template@).unwrap(),
            file_path@,
            line as nat,
            col as nat,
        ),
{
    match split_command(template) {
        None => Err(EditorError::BadTemplate),
        Some(tokens) => build_editor_command(tokens, file_path, line, col),
    }
}

/// The editor's starting position: line and column of the primary
/// selection's start, or line 1 column 1 with no selection at all.
pub fn primary_position(selections: &Vec<RangeInText>, text: &str) -> (r: (usize, usize))
    requires
        encode_utf8(text@).len() + 1 <= usize::MAX,
    ensures
        selections@.len() == 0 ==> r == (1usize, 1usize),
        selections@.len() > 0 ==> (r.0 as nat, r.1 as nat) == spec_line_col(
            selections@[0].start as nat,
            text@,
        ),
        r.0 >= 1 && r.1 >= 1,
{
    if selections.len() == 0 {
        (1, 1)
    } else {
        utf16_offset_to_utf8_line_col(selections[0].start, text)
    }
}

} // verus!
