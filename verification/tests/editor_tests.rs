use gtany::editor::EditorError;
use gtany::editor::base_name;
use gtany::editor::format_known_editors;
use gtany::editor::prepare_editor_command;
use gtany::editor::replace_in_place;
use gtany::msg::RangeInText;
use gtany::strutil::decimal_string;

#[test]
fn placeholder_template_replaces_and_appends_nothing() {
    let r = prepare_editor_command("code %f --wait", "/tmp/x.txt", 1, 1).unwrap();
    assert_eq!(r, vec!["code", "/tmp/x.txt", "--wait"]);
}

#[test]
fn known_editor_gets_idiomatic_arguments() {
    let r = prepare_editor_command("vim", "/tmp/x.txt", 3, 5).unwrap();
    assert_eq!(r, vec!["vim", "+3", "+norm! 5|", "/tmp/x.txt"]);
}

#[test]
fn unknown_editor_gets_file_appended_once() {
    let r = prepare_editor_command("cat", "/tmp/x.txt", 3, 5).unwrap();
    assert_eq!(r, vec!["cat", "/tmp/x.txt"]);
}

#[test]
fn empty_template_is_rejected() {
    assert_eq!(prepare_editor_command("", "/tmp/x.txt", 1, 1), Err(EditorError::EmptyCommand));
    assert_eq!(prepare_editor_command("   ", "/tmp/x.txt", 1, 1), Err(EditorError::EmptyCommand));
}

#[test]
fn unbalanced_quote_is_rejected() {
    assert_eq!(
        prepare_editor_command("edit 'oops", "/tmp/x.txt", 1, 1),
        Err(EditorError::BadTemplate)
    );
}

#[test]
fn quoting_keeps_embedded_whitespace() {
    let r = prepare_editor_command("'my editor' --flag", "/tmp/x.txt", 1, 1).unwrap();
    assert_eq!(r, vec!["my editor", "--flag", "/tmp/x.txt"]);
}

#[test]
fn all_placeholders_replaced_in_later_tokens() {
    let r = prepare_editor_command("run --pos %l:%c --file %f %f", "/a b/f.txt", 12, 7).unwrap();
    assert_eq!(r, vec!["run", "--pos", "12:7", "--file", "/a b/f.txt", "/a b/f.txt"]);
}

#[test]
fn placeholder_in_program_name_does_not_count() {
    // Only tokens after the program name are scanned, so this falls
    // through to the unknown-editor path.
    let r = prepare_editor_command("%f", "/tmp/x.txt", 1, 1).unwrap();
    assert_eq!(r, vec!["%f", "/tmp/x.txt"]);
}

#[test]
fn known_editor_matches_on_base_name() {
    let r = prepare_editor_command("/usr/bin/nvim", "/tmp/x.txt", 2, 4).unwrap();
    assert_eq!(r, vec!["/usr/bin/nvim", "+2", "+norm! 4|", "/tmp/x.txt"]);
}

#[test]
fn known_editor_table_entries() {
    let f = "/tmp/x.txt";
    assert_eq!(format_known_editors("emacs", f, 3, 5).unwrap(), vec!["+3:5", f]);
    assert_eq!(format_known_editors("kak", f, 3, 5).unwrap(), vec!["+3:5", f]);
    assert_eq!(format_known_editors("nano", f, 3, 5).unwrap(), vec!["+3,5", f]);
    assert_eq!(format_known_editors("joe", f, 3, 5).unwrap(), vec!["+3", f]);
    assert_eq!(format_known_editors("ee", f, 3, 5).unwrap(), vec!["+3", f]);
    assert_eq!(
        format_known_editors("code", f, 3, 5).unwrap(),
        vec!["--goto", "/tmp/x.txt:3:5", "--wait"]
    );
    assert_eq!(
        format_known_editors("code-oss", f, 3, 5).unwrap(),
        vec!["--goto", "/tmp/x.txt:3:5", "--wait"]
    );
    assert_eq!(
        format_known_editors("subl", f, 3, 5).unwrap(),
        vec!["/tmp/x.txt:3:5", "--wait"]
    );
    assert_eq!(format_known_editors("micro", f, 3, 5).unwrap(), vec![f, "+3:5"]);
    assert_eq!(format_known_editors("ed", f, 3, 5), None);
}

#[test]
fn replace_in_place_first_occurrence_only() {
    let mut s = "a %l b %l".to_string();
    assert!(replace_in_place(&mut s, "%l", "9"));
    assert_eq!(s, "a 9 b %l");
    let mut t = "nothing here".to_string();
    assert!(!replace_in_place(&mut t, "%l", "9"));
    assert_eq!(t, "nothing here");
}

#[test]
fn base_name_takes_the_part_after_the_last_slash() {
    assert_eq!(base_name("/usr/bin/vim"), "vim");
    assert_eq!(base_name("vim"), "vim");
    assert_eq!(base_name("a/b/"), "");
}

#[test]
fn decimal_formatting() {
    assert_eq!(decimal_string(0), "0");
    assert_eq!(decimal_string(7), "7");
    assert_eq!(decimal_string(35), "35");
    assert_eq!(decimal_string(1024), "1024");
}

#[test]
fn primary_position_uses_first_selection() {
    let sels = vec![RangeInText { start: 4, end: 4 }, RangeInText { start: 0, end: 0 }];
    assert_eq!(gtany::editor::primary_position(&sels, "asdf hjkl"), (1, 5));
    let none: Vec<RangeInText> = Vec::new();
    assert_eq!(gtany::editor::primary_position(&none, "asdf hjkl"), (1, 1));
}
