use gtany::msg::GetTextFromComponent;
use gtany::msg::RangeInText;
use gtany::session::InboundMessage;
use gtany::session::LoopStep;
use gtany::session::Session;
use gtany::session::SessionError;
use gtany::session::SessionEvent;
use gtany::session::SessionState;
use gtany::session::init_session;

fn req(text: &str, sels: Vec<RangeInText>) -> GetTextFromComponent {
    GetTextFromComponent {
        selections: sels,
        syntax: "markdown".to_string(),
        text: text.to_string(),
        title: "notes".to_string(),
        url: "https://example.com/page".to_string(),
    }
}

#[test]
fn first_message_must_be_text() {
    match init_session(&InboundMessage::NotText) {
        Err(SessionError::FirstMessageNotText) => {}
        other => panic!("unexpected: {:?}", other),
    }
}

#[test]
fn first_message_must_parse() {
    match init_session(&InboundMessage::MalformedText) {
        Err(SessionError::FirstMessageMalformed) => {}
        other => panic!("unexpected: {:?}", other),
    }
}

#[test]
fn first_edit_yields_mirror_name_and_content() {
    let init = init_session(&InboundMessage::Edit(req("hello", Vec::new()))).unwrap();
    assert_eq!(init.file_name, "notes.txt");
    assert_eq!(init.content, "hello\n");
}

#[test]
fn editor_exit_is_the_only_loop_exit() {
    let r = req("hello", Vec::new());
    let mut s = Session::start(&r, 10);
    assert_eq!(s.state, SessionState::Active);
    let step = s.handle_event(&SessionEvent::EditorExited, 10);
    assert!(matches!(step, LoopStep::Exit));
    assert_eq!(s.state, SessionState::Closed);
}

#[test]
fn file_change_asks_for_a_push() {
    let r = req("hello", Vec::new());
    let mut s = Session::start(&r, 10);
    let step = s.handle_event(&SessionEvent::FileChanged, 10);
    assert!(matches!(step, LoopStep::PushContents));
    assert_eq!(s.state, SessionState::Active);
}

#[test]
fn non_text_message_is_ignored() {
    let r = req("hello", Vec::new());
    let mut s = Session::start(&r, 10);
    let step = s.handle_event(&SessionEvent::Message(InboundMessage::NotText), 10);
    assert!(matches!(step, LoopStep::Ignore));
    assert_eq!(s.state, SessionState::Active);
}

#[test]
fn malformed_message_is_fatal() {
    let r = req("hello", Vec::new());
    let mut s = Session::start(&r, 10);
    let step = s.handle_event(&SessionEvent::Message(InboundMessage::MalformedText), 10);
    assert!(matches!(step, LoopStep::Fail(SessionError::MessageMalformed)));
    assert_eq!(s.state, SessionState::Closed);
}

#[test]
fn echoed_edit_is_not_rewritten() {
    let r = req("hello", Vec::new());
    let mut s = Session::start(&r, 10);
    let echo = SessionEvent::Message(InboundMessage::Edit(req("hello", Vec::new())));
    let step = s.handle_event(&echo, 10);
    assert!(matches!(step, LoopStep::NoWrite));
}

#[test]
fn changed_edit_is_written_and_selections_updated() {
    let r = req("hello", Vec::new());
    let mut s = Session::start(&r, 10);
    let sels = vec![RangeInText { start: 2, end: 4 }];
    let edit = SessionEvent::Message(InboundMessage::Edit(req("hello there", sels.clone())));
    match s.handle_event(&edit, 10) {
        LoopStep::Update { content } => assert_eq!(content, "hello there\n"),
        other => panic!("unexpected: {:?}", other),
    }
    assert_eq!(s.selections, sels);
    // The owner writes the file, observes the new time, confirms: the
    // same edit echoed back is then skipped.
    s.confirm_write("hello there", 11);
    let echo = SessionEvent::Message(InboundMessage::Edit(req("hello there", sels)));
    assert!(matches!(s.handle_event(&echo, 11), LoopStep::NoWrite));
}

#[test]
fn touched_file_forces_a_rewrite() {
    let r = req("hello", Vec::new());
    let mut s = Session::start(&r, 10);
    // Same text, but the file's modification time moved under us.
    let echo = SessionEvent::Message(InboundMessage::Edit(req("hello", Vec::new())));
    assert!(matches!(s.handle_event(&echo, 12), LoopStep::Update { .. }));
}

#[test]
fn snapshot_carries_current_selections() {
    let sels = vec![RangeInText { start: 1, end: 3 }];
    let r = req("hello", sels.clone());
    let mut s = Session::start(&r, 10);
    let text = s.record_read("fresh text\n", 20);
    let snap = s.snapshot(text.as_str());
    assert_eq!(snap.text, "fresh text");
    assert_eq!(snap.selections, sels);
}
