//! The origin rule: only browser-extension contexts may open a session.
//!
//! A websocket request from a browser carries its initiating origin; an
//! extension's origin uses a scheme of the form `*-extension`.  Holding
//! the channel to such origins keeps random web pages from driving the
//! local editor.

use vstd::prelude::*;

use crate::file::spec_ends_with;
use crate::strutil::ends_with_str;

verus! {

/// The scheme of the URL: present exactly when the URL parses.
pub uninterp spec fn scheme_of(url: Seq<char>) -> Option<Seq<char>>;

/// Relies on url's `Url::parse` and `Url::scheme`: the URL's scheme in
/// ASCII lower case — a function of the input alone.
#[verifier::external_body]
fn url_scheme(url: &str) -> (r: Option<String>)
    ensures
        r is Some <==> scheme_of(url@) is Some,
        r is Some ==> r.unwrap()@ == scheme_of(url@).unwrap(),
{
    match url::Url::parse(url) {
        Ok(u) => Some(u.scheme().to_string()),
        Err(_) => None,
    }
}

/// Is this origin an extension context?  True exactly when the origin
/// parses as a URL whose scheme ends with `extension`.
pub fn is_extension_origin(origin: &str) -> (r: bool)
    ensures
        r == match scheme_of(origin@) {
            Some(s) => spec_ends_with(s, "extension"@),
            None => false,
        },
{
    match url_scheme(origin) {
        Some(s) => ends_with_str(s.as_str(), "extension"),
        None => false,
    }
}

} // verus!
