//! The per-connection editing session: a state machine over the three
//! event sources of an active session — editor process exit, debounced
//! file-change notifications, and debounced inbound messages.
//!
//! The machine decides; its owner performs.  The owner classifies each
//! inbound frame, reports the file's modification time, carries out the
//! file writes and snapshot sends the returned steps ask for, and feeds
//! observed results back in.

use vstd::prelude::*;

use crate::file::LocalFile;
use crate::file::mirror_content;
use crate::file::mirror_matches;
use crate::msg::copy_ranges;
use crate::msg::GetTextFromComponent;
use crate::msg::RangeInText;
use crate::msg::SetTextInComponent;

verus! {

/// The debounce interval for file-change notifications, in milliseconds.
pub const EDIT_DELAY_MS: u64 = 200;

/// Where a session stands.
#[derive(Clone, Copy, Debug, PartialEq, Eq, Structural)]
pub enum SessionState {
    /// Waiting for the first inbound message.  `init_session` handles
    /// this phase: it runs before the session's own state exists, and a
    /// rejected first message means no further state is ever reached.
    Initializing,
    /// Mirror created, editor running, event loop live.
    Active,
    /// Terminal: the final snapshot is owed (on a clean exit) and the
    /// mirror's file is to be destroyed, on every exit path.
    Closed,
}

/// Why a session died.
#[derive(Clone, Copy, Debug, PartialEq, Eq, Structural)]
pub enum SessionError {
    /// The first inbound message was not a text frame.
    FirstMessageNotText,
    /// The first inbound message did not parse as an edit request.
    FirstMessageMalformed,
    /// A later text frame did not parse as an edit request.
    MessageMalformed,
    /// Watching the mirror's path could not be started.
    WatchFailed,
    /// The editor process could not be started at all.
    SpawnFailed,
    /// An outbound send failed: the channel is presumed broken.
    SendFailed,
}

/// An inbound frame, as classified by the transport owner: a text frame
/// either parses as an edit request or is malformed; everything else —
/// binary, ping, close — is not text.
#[derive(Debug)]
pub enum InboundMessage {
    /// A text frame holding a well-formed edit request.
    Edit(GetTextFromComponent),
    /// A text frame that does not parse as an edit request.
    MalformedText,
    /// A frame that is not text.
    NotText,
}

/// One observation from the active session's three event sources.
#[derive(Debug)]
pub enum SessionEvent {
    /// The editor process finished.
    EditorExited,
    /// The (debounced) file watcher reported a change to the mirror.
    FileChanged,
    /// A (debounced) inbound message arrived.
    Message(InboundMessage),
}

/// What the session's owner must do after an event.
#[derive(Debug)]
pub enum LoopStep {
    /// Leave the loop: send the final snapshot, close the channel,
    /// destroy the mirror.
    Exit,
    /// Read the mirror's file and push its contents as a snapshot.
    PushContents,
    /// Log and ignore; the session goes on.
    Ignore,
    /// Fatal: tear the session down without a snapshot.
    Fail(SessionError),
    /// Write `content` to the mirror's file, report the observed
    /// modification time back via `confirm_write`, then consume the
    /// self-triggered file-change notification so it is not redelivered
    /// as a spurious push (a bounded wait; timing out is non-fatal).
    Update { content: String },
    /// The inbound edit matched the mirror; nothing to write.
    NoWrite,
}

/// What a session needs before its mirror file exists: the file's name
/// and its initial content.
#[derive(Debug)]
pub struct SessionInit {
    /// The mirror file's name, derived from title and URL.
    pub file_name: String,
    /// The initial file content: the request's text plus one newline.
    pub content: String,
}

/// Check the first inbound message and derive the mirror's name and
/// initial content from it.  Anything but a well-formed edit request is
/// a fatal session error: no further state is reached.
pub fn init_session(msg: &InboundMessage) -> (r: Result<SessionInit, SessionError>)
    ensures
        r is Ok <==> msg is Edit,
        msg matches InboundMessage::Edit(req) ==> r.unwrap().file_name@
            == crate::file::spec_file_name(req.title@, req.url@) && r.unwrap().content@
            == req.text@.push('\n'),
        msg is NotText ==> r == Err::<SessionInit, SessionError>(SessionError::FirstMessageNotText),
        msg is MalformedText ==> r == Err::<SessionInit, SessionError>(
            SessionError::FirstMessageMalformed,
        ),
{
    match msg {
        InboundMessage::Edit(req) => Ok(
            SessionInit {
                file_name: crate::file::get_filename(req),
                content: mirror_content(req.text.as_str()),
            },
        ),
        InboundMessage::MalformedText => Err(SessionError::FirstMessageMalformed),
        InboundMessage::NotText => Err(SessionError::FirstMessageNotText),
    }
}

/// One editing session: its state, the selections last reported by the
/// browser, and the mirror model of the local file.
#[derive(Debug)]
pub struct Session {
    /// Where the session stands.
    pub state: SessionState,
    /// The current selections, updated by every inbound edit.
    pub selections: Vec<RangeInText>,
    /// The last-known digest and modification time of the mirror file.
    pub mirror: LocalFile,
}

impl Session {
    /// The mirror's digest is well-formed.
    pub open spec fn wf(&self) -> bool {
        self.mirror.wf()
    }

    /// The session right after initialization: the first edit request
    /// was accepted, its text written out and observed at `mtime`.
    pub fn start(req: &GetTextFromComponent, mtime: u64) -> (s: Session)
        ensures
            s.wf(),
            s.state == SessionState::Active,
            s.selections@ == req.selections@,
            mirror_matches(s.mirror, req.text@, mtime),
    {
        Session {
            state: SessionState::Active,
            selections: copy_ranges(&req.selections),
            mirror: LocalFile::create(req, mtime),
        }
    }

    /// Handle the next observation in the active loop.  Editor exit is
    /// the only loop-exit trigger; a file change asks for a push; a
    /// non-text message is ignored; a malformed text message is fatal;
    /// an edit updates the selections and asks for a write exactly when
    /// it differs from the mirror's last-known snapshot at the file's
    /// current modification time.
    pub fn handle_event(&mut self, event: &SessionEvent, current_mtime: u64) -> (step: LoopStep)
        requires
            old(self).state == SessionState::Active,
            old(self).wf(),
        ensures
            final(self).wf(),
            final(self).mirror == old(self).mirror,
            event is EditorExited ==> step is Exit && final(self).state == SessionState::Closed
                && final(self).selections == old(self).selections,
            event is FileChanged ==> step is PushContents && *final(self) == *old(self),
            event matches SessionEvent::Message(m) ==> match m {
                InboundMessage::NotText => step is Ignore && *final(self) == *old(self),
                InboundMessage::MalformedText => step == LoopStep::Fail(
                    SessionError::MessageMalformed,
                ) && final(self).state == SessionState::Closed
                    && final(self).selections == old(self).selections,
                InboundMessage::Edit(req) => final(self).state == SessionState::Active
                    && final(self).selections@ == req.selections@ && (if mirror_matches(
                    old(self).mirror,
                    req.text@,
                    current_mtime,
                ) {
                    step is NoWrite
                } else {
                    step matches LoopStep::Update { content } && content@ == req.text@.push('\n')
                }),
            },
    {
        match event {
            SessionEvent::EditorExited => {
                self.state = SessionState::Closed;
                LoopStep::Exit
            },
            SessionEvent::FileChanged => LoopStep::PushContents,
            SessionEvent::Message(m) => match m {
                InboundMessage::NotText => LoopStep::Ignore,
                InboundMessage::MalformedText => {
                    self.state = SessionState::Closed;
                    LoopStep::Fail(SessionError::MessageMalformed)
                },
                InboundMessage::Edit(req) => {
                    self.selections = copy_ranges(&req.selections);
                    if self.mirror.needs_write(req.text.as_str(), current_mtime) {
                        LoopStep::Update { content: mirror_content(req.text.as_str()) }
                    } else {
                        LoopStep::NoWrite
                    }
                },
            },
        }
    }

    /// Record a write the owner performed after an `Update` step: the
    /// written text was observed at `new_mtime`, so its own file-change
    /// echo can be told from a real external edit.
    pub fn confirm_write(&mut self, text: &str, new_mtime: u64)
        ensures
            final(self).wf(),
            final(self).state == old(self).state,
            final(self).selections == old(self).selections,
            mirror_matches(final(self).mirror, text@, new_mtime),
    {
        self.mirror.record(text, new_mtime);
    }

    /// Fold a raw read of the mirror's file into the session: strips one
    /// trailing newline, records the fresh digest and modification time,
    /// and hands back the text to push.
    pub fn record_read(&mut self, raw: &str, mtime: u64) -> (text: String)
        ensures
            final(self).wf(),
            final(self).state == old(self).state,
            final(self).selections == old(self).selections,
            text@ == if raw@.len() > 0 && raw@.last() == '\n' {
                raw@.drop_last()
            } else {
                raw@
            },
            mirror_matches(final(self).mirror, text@, mtime),
    {
        self.mirror.record_read(raw, mtime)
    }

    /// The snapshot to push for `text`: the text with the session's
    /// current selections.
    pub fn snapshot<'a>(&self, text: &'a str) -> (m: SetTextInComponent<'a>)
        ensures
            m.text@ == text@,
            m.selections@ == self.selections@,
    {
        SetTextInComponent { text, selections: copy_ranges(&self.selections) }
    }
}

} // verus!
