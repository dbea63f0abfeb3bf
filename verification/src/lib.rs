//! Editing-session engine for a browser-to-editor bridge.
//!
//! A browser extension opens a bidirectional message channel; the server
//! mirrors a text field into a local file, launches an editor on it, and
//! pushes file edits back until the editor exits.  This crate holds the
//! session state machine, the debounce operator, the local-file mirror
//! model, the editor command synthesis, and the cursor offset mapper.
//! Transport, filesystem and process plumbing live outside the crate.

pub mod debounce;
pub mod editor;
pub mod idle;
pub mod file;
pub mod msg;
pub mod origin;
pub mod run_editor;
pub mod session;
mod settings;
pub mod strutil;
pub mod text;

pub use settings::Options;
pub use settings::Settings;
