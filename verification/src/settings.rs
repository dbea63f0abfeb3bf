//! Configuration handed to the session engine.
//!
//! The process boundary (argument parsing, environment) fills these in;
//! the engine only reads them.

use vstd::prelude::*;

verus! {

/// Runtime configuration for the server and its editing sessions.
#[derive(Clone, Debug)]
pub struct Settings {
    /// Port to listen on.
    pub port: u16,
    /// Host to bind to.
    pub host: String,
    /// Command to run with the received file.
    pub editor: String,
    /// Allow multiple concurrent instances of the editing command.
    pub multi: bool,
    /// Shut down after this many seconds with no connections.
    pub idle_timeout: Option<u64>,
    /// Buffer incoming changes for this many milliseconds before updating
    /// the local file; zero disables the buffering.
    pub delay: u64,
    /// Serve on a listening socket passed in by the service manager.
    pub from_systemd: bool,
}

/// Configuration of the earlier, synchronous server front end.
#[derive(Clone, Debug)]
pub struct Options {
    /// Port to listen on.
    pub port: u16,
    /// Host to bind to.
    pub host: String,
    /// Command to run with the received file.
    pub editor: String,
    /// Allow multiple concurrent instances of the editing command.
    pub multi: bool,
    /// Shut down after this many seconds with no connections.
    pub idle_timeout: Option<u64>,
    /// Serve on a listening socket passed in by the service manager.
    pub from_systemd: bool,
}

} // verus!
