//! The local file mirror: the model of the on-disk copy of the browser's
//! text field.
//!
//! The mirror keeps the file's name, the digest of the last-known text
//! (trailing newline excluded) and the last-known modification time, and
//! decides when an incoming edit needs a fresh write.  The file itself —
//! creating, reading and writing it — is the caller's: this model is fed
//! the text and timestamps it observes.

use vstd::prelude::*;

use crate::msg::GetTextFromComponent;
use crate::strutil::push_char;
use crate::strutil::str_eq;
use crate::strutil::ends_with_str;

use sha2::Digest;

verus! {

/// The SHA-256 digest of the text's UTF-8 bytes.
pub uninterp spec fn sha256_of(text: Seq<char>) -> Seq<u8>;

/// Relies on sha2's `Sha256`: computes the SHA-256 digest of the text's
/// bytes — 32 bytes, a function of the input alone.
#[verifier::external_body]
fn sha256_hash(text: &str) -> (r: Vec<u8>)
    ensures
        r@ == sha256_of(text@),
        r@.len() == 32,
{
    sha2::Sha256::digest(text.as_bytes()).to_vec()
}

/// The DNS domain of the URL: present exactly when the URL parses and
/// its host is a domain name (not an address, not absent).
pub uninterp spec fn domain_of(url: Seq<char>) -> Option<Seq<char>>;

/// Relies on url's `Url::parse` and `Url::host`: the URL's host, when
/// the URL parses and the host is a DNS domain name — a function of the
/// input alone.
#[verifier::external_body]
fn url_domain(url: &str) -> (r: Option<String>)
    ensures
        r is Some <==> domain_of(url@) is Some,
        r is Some ==> r.unwrap()@ == domain_of(url@).unwrap(),
{
    match url::Url::parse(url) {
        Ok(u) => match u.host() {
            Some(url::Host::Domain(d)) => Some(d.to_string()),
            _ => None,
        },
        Err(_) => None,
    }
}

/// Does `s` end with `suffix`?
pub open spec fn spec_ends_with(s: Seq<char>, suffix: Seq<char>) -> bool {
    s.len() >= suffix.len() && s.skip(s.len() - suffix.len()) == suffix
}

/// Domains whose text fields are taken to hold markdown.
pub open spec fn is_markdown_domain(d: Seq<char>) -> bool {
    ||| d == "github.com"@
    ||| spec_ends_with(d, ".github.com"@)
    ||| d == "gitlab.com"@
    ||| spec_ends_with(d, ".gitlab.com"@)
    ||| d == "codeberg.org"@
    ||| spec_ends_with(d, ".codeberg.org"@)
}

/// The mirror file's extension, chosen by the edit request's source URL:
/// markdown for the well-known forge domains, plaintext for everything
/// else, unparseable URLs included.
pub open spec fn spec_file_extension(url: Seq<char>) -> Seq<char> {
    match domain_of(url) {
        Some(d) => if is_markdown_domain(d) {
            "md"@
        } else {
            "txt"@
        },
        None => "txt"@,
    }
}

/// Is this domain one whose text is taken to be markdown?
fn markdown_domain(d: &str) -> (r: bool)
    ensures
        r == is_markdown_domain(d@),
{
    str_eq(d, "github.com") || ends_with_str(d, ".github.com") || str_eq(d, "gitlab.com")
        || ends_with_str(d, ".gitlab.com") || str_eq(d, "codeberg.org") || ends_with_str(
        d,
        ".codeberg.org",
    )
}

/// The extension for the mirror of this edit request.
pub fn determine_file_extension(msg: &GetTextFromComponent) -> (r: &'static str)
    ensures
        r@ == spec_file_extension(msg.url@),
{
    match url_domain(msg.url.as_str()) {
        Some(d) => {
            if markdown_domain(d.as_str()) {
                "md"
            } else {
                "txt"
            }
        },
        None => "txt",
    }
}

/// Characters stripped from a title when deriving the file name.
pub open spec fn is_bad_filename_char(c: char) -> bool {
    c == ' ' || c == '/' || c == '\\' || c == '\r' || c == '\n' || c == '\t'
}

/// The title truncated to its first 16 characters, with the unwanted
/// characters stripped out.
pub open spec fn spec_sanitize_title(title: Seq<char>) -> Seq<char> {
    let cut = if title.len() > 16 {
        title.take(16)
    } else {
        title
    };
    cut.filter(|c: char| !is_bad_filename_char(c))
}

/// The mirror file's name for an edit request: the sanitized title
/// (`buffer` when the title is empty), a dot, and the URL-derived
/// extension.
pub open spec fn spec_file_name(title: Seq<char>, url: Seq<char>) -> Seq<char> {
    let base = if title.len() == 0 {
        "buffer"@
    } else {
        spec_sanitize_title(title)
    };
    base + "."@ + spec_file_extension(url)
}

/// Truncate the title to 16 characters and strip the unwanted ones.
fn sanitize_title(title: &str) -> (r: String)
    ensures
        r@ == spec_sanitize_title(title@),
{
    let n = title.unicode_len();
    let m = if n > 16 {
        16
    } else {
        n
    };
    let mut out = String::new();
    let mut i: usize = 0;
    proof {
        reveal(Seq::filter);
        assert(title@.take(0) =~= Seq::<char>::empty());
    }
    while i < m
        invariant
            m <= n,
            n == title@.len(),
            m == if n > 16 {
                16int
            } else {
                n as int
            },
            i <= m,
            out@ == title@.take(i as int).filter(|c: char| !is_bad_filename_char(c)),
        decreases m - i,
    {
        let c = title.get_char(i);
        proof {
            reveal(Seq::filter);
            let prefix = title@.take(i + 1);
            assert(prefix.drop_last() =~= title@.take(i as int));
            assert(prefix.last() == c);
        }
        if !(c == ' ' || c == '/' || c == '\\' || c == '\r' || c == '\n' || c == '\t') {
            push_char(&mut out, c);
        }
        i = i + 1;
    }
    proof {
        if n > 16 {
            assert(title@.take(m as int) == title@.take(16));
        } else {
            assert(title@.take(m as int) =~= title@);
        }
    }
    out
}

/// Derive the mirror file's name from an edit request.
pub fn get_filename(msg: &GetTextFromComponent) -> (r: String)
    ensures
        r@ == spec_file_name(msg.title@, msg.url@),
{
    let ext = determine_file_extension(msg);
    let mut name: String;
    if msg.title.as_str().unicode_len() == 0 {
        name = String::from_str("buffer");
    } else {
        name = sanitize_title(msg.title.as_str());
    }
    name.append(".");
    name.append(ext);
    name
}

/// The bytes written to the mirror file for `text`: the text followed by
/// exactly one trailing newline.
pub fn mirror_content(text: &str) -> (r: String)
    ensures
        r@ == text@.push('\n'),
{
    let mut r = text.to_owned();
    push_char(&mut r, '\n');
    r
}

/// A freshly-read mirror file with one trailing newline stripped, if any.
pub fn strip_trailing_newline(raw: &str) -> (r: String)
    ensures
        r@ == if raw@.len() > 0 && raw@.last() == '\n' {
            raw@.drop_last()
        } else {
            raw@
        },
{
    let n = raw.unicode_len();
    if n > 0 && raw.get_char(n - 1) == '\n' {
        let r = raw.substring_char(0, n - 1);
        assert(r@ =~= raw@.drop_last());
        r.to_owned()
    } else {
        raw.to_owned()
    }
}

/// The last-known state of the mirror file.  The file itself lives with
/// the caller; its path never changes after creation.
#[derive(Debug)]
pub struct LocalFile {
    /// SHA-256 digest of the last-known text, trailing newline excluded.
    pub hash: Vec<u8>,
    /// Modification time observed when that text was last written or read.
    pub last_edit: u64,
}

/// Does the mirror consider `(text, mtime)` identical to its last-known
/// snapshot?
pub open spec fn mirror_matches(m: LocalFile, text: Seq<char>, mtime: u64) -> bool {
    m.hash@ == sha256_of(text) && m.last_edit == mtime
}

impl LocalFile {
    /// A digest is always 32 bytes.
    pub open spec fn wf(&self) -> bool {
        self.hash@.len() == 32
    }

    /// The mirror state after the request's text was first written out,
    /// observing modification time `mtime`.
    pub fn create(m: &GetTextFromComponent, mtime: u64) -> (s: Self)
        ensures
            s.wf(),
            mirror_matches(s, m.text@, mtime),
    {
        LocalFile { hash: sha256_hash(m.text.as_str()), last_edit: mtime }
    }

    /// Is the incoming text, at the file's current modification time,
    /// identical to the last-known snapshot?  When it is, the remote
    /// side is echoing content the mirror already has, and writing it
    /// would re-trigger the file watcher for nothing.
    pub fn is_equivalent(&self, text: &str, current_mtime: u64) -> (r: bool)
        ensures
            r == mirror_matches(*self, text@, current_mtime),
    {
        let h = sha256_hash(text);
        let mut same = self.last_edit == current_mtime;
        if same {
            same = vec_u8_eq(&self.hash, &h);
        }
        same
    }

    /// Record a freshly written or read text and its observed
    /// modification time.
    pub fn record(&mut self, text: &str, mtime: u64)
        ensures
            final(self).wf(),
            mirror_matches(*final(self), text@, mtime),
    {
        self.hash = sha256_hash(text);
        self.last_edit = mtime;
    }

    /// Decide whether an incoming edit needs a write: it does exactly
    /// when it differs from the last-known snapshot in digest or in
    /// timing.
    pub fn needs_write(&self, text: &str, current_mtime: u64) -> (r: bool)
        ensures
            r == !mirror_matches(*self, text@, current_mtime),
    {
        !self.is_equivalent(text, current_mtime)
    }

    /// Apply an incoming edit: when it is identical to the last-known
    /// snapshot the mirror is left untouched and no write is reported;
    /// any difference in digest or timing reports a write and records
    /// the new text at its post-write modification time `new_mtime`.
    pub fn maybe_update(&mut self, text: &str, current_mtime: u64, new_mtime: u64) -> (wrote: bool)
        ensures
            wrote == !mirror_matches(*old(self), text@, current_mtime),
            !wrote ==> *final(self) == *old(self),
            wrote ==> final(self).wf() && mirror_matches(*final(self), text@, new_mtime),
    {
        if self.needs_write(text, current_mtime) {
            self.record(text, new_mtime);
            true
        } else {
            false
        }
    }

    /// Fold a freshly-read raw file content into the mirror: the text
    /// with one trailing newline stripped is recorded at the observed
    /// modification time and returned, so a later external edit is
    /// still detected.
    pub fn record_read(&mut self, raw: &str, mtime: u64) -> (text: String)
        ensures
            text@ == if raw@.len() > 0 && raw@.last() == '\n' {
                raw@.drop_last()
            } else {
                raw@
            },
            final(self).wf(),
            mirror_matches(*final(self), text@, mtime),
    {
        let text = strip_trailing_newline(raw);
        self.record(text.as_str(), mtime);
        text
    }
}

/// Byte-for-byte equality of two byte vectors.
fn vec_u8_eq(a: &Vec<u8>, b: &Vec<u8>) -> (r: bool)
    ensures
        r == (a@ == b@),
{
    if a.len() != b.len() {
        return false;
    }
    let mut i: usize = 0;
    while i < a.len()
        invariant
            i <= a@.len(),
            a@.len() == b@.len(),
            forall|j: int| 0 <= j < i ==> a@[j] == b@[j],
        decreases a@.len() - i,
    {
        if a[i] != b[i] {
            return false;
        }
        i = i + 1;
    }
    proof {
        assert(a@ =~= b@);
    }
    true
}

/// Idempotence of `maybe_update`: an edit whose text digest and timing
/// both match the last-recorded snapshot is never written again, and an
/// edit that differs in digest or in timing always is.
pub proof fn lemma_maybe_update_idempotent(
    m: LocalFile,
    text: Seq<char>,
    mtime: u64,
    text2: Seq<char>,
    mtime2: u64,
)
    requires
        mirror_matches(m, text, mtime),
    ensures
        mirror_matches(m, text2, mtime2) <==> (sha256_of(text2) == sha256_of(text) && mtime2
            == mtime),
{
}

} // verus!
