//! Types for the GhostText protocol messages exchanged with the browser
//! extension over the bidirectional channel.
//!
//! The transport layer turns these into JSON text frames; the engine only
//! works with the plain values.

use vstd::prelude::*;

verus! {

/// One selection range, in zero-based UTF-16 code-unit offsets into the
/// associated text.  The first range of a sequence is the primary cursor.
#[derive(Clone, Copy, Debug, Default, PartialEq, Eq, Structural)]
pub struct RangeInText {
    pub start: usize,
    pub end: usize,
}

/// An edit request received from the browser: the current state of the
/// edited text field.
#[derive(Debug)]
pub struct GetTextFromComponent {
    pub selections: Vec<RangeInText>,
    pub syntax: String,
    pub text: String,
    pub title: String,
    pub url: String,
}

/// A text snapshot pushed back to the browser.
#[derive(Debug)]
pub struct SetTextInComponent<'a> {
    pub text: &'a str,
    pub selections: Vec<RangeInText>,
}

/// The redirect document served to a plain HTTP request, telling the
/// extension where to open its message channel.
#[allow(non_snake_case)]
#[derive(Clone, Copy, Debug, PartialEq, Eq, Structural)]
pub struct RedirectToWebSocket {
    pub WebSocketPort: u16,
    pub ProtocolVersion: u32,
}

/// The redirect message for a server listening on `port`; the protocol
/// version is always 1.
pub fn redirect_message(port: u16) -> (r: RedirectToWebSocket)
    ensures
        r.WebSocketPort == port,
        r.ProtocolVersion == 1,
{
    RedirectToWebSocket { WebSocketPort: port, ProtocolVersion: 1 }
}

/// An element-for-element copy of a selection list.
pub fn copy_ranges(v: &Vec<RangeInText>) -> (r: Vec<RangeInText>)
    ensures
        r@ == v@,
{
    let mut r: Vec<RangeInText> = Vec::new();
    let mut i: usize = 0;
    while i < v.len()
        invariant
            i <= v@.len(),
            r@ == v@.take(i as int),
        decreases v@.len() - i,
    {
        r.push(v[i]);
        assert(r@ =~= v@.take(i + 1));
        i = i + 1;
    }
    assert(r@ =~= v@);
    r
}

} // verus!
