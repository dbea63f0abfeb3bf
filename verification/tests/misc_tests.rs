use gtany::msg::redirect_message;
use gtany::origin::is_extension_origin;
use gtany::run_editor::process_title;
use gtany::strutil::ends_with_str;
use gtany::strutil::find_sub;
use gtany::strutil::replace_all;
use gtany::strutil::str_eq;

#[test]
fn extension_origins_are_allowed() {
    assert!(is_extension_origin("chrome-extension://abcdef"));
    assert!(is_extension_origin("moz-extension://12345"));
    assert!(is_extension_origin("safari-web-extension://x"));
}

#[test]
fn web_origins_are_rejected() {
    assert!(!is_extension_origin("https://example.com"));
    assert!(!is_extension_origin("http://localhost:4001"));
    assert!(!is_extension_origin("null"));
    assert!(!is_extension_origin("not a url"));
}

#[test]
fn redirect_names_port_and_protocol_version() {
    let m = redirect_message(4001);
    assert_eq!(m.WebSocketPort, 4001);
    assert_eq!(m.ProtocolVersion, 1);
}

#[test]
fn legacy_title_processing() {
    assert_eq!(process_title(&"notes".to_string()), "notes.txt");
    assert_eq!(process_title(&"".to_string()), "buffer.txt");
    assert_eq!(process_title(&"a/b\\c".to_string()), "a-b-c.txt");
}

#[test]
fn substring_search_finds_first_match() {
    assert_eq!(find_sub("abcabc", "bc"), Some(1));
    assert_eq!(find_sub("abcabc", "zz"), None);
    assert_eq!(find_sub("abc", ""), Some(0));
}

#[test]
fn replace_all_replaces_every_occurrence() {
    assert_eq!(replace_all("%f and %f", "%f", "x"), "x and x");
    assert_eq!(replace_all("aaa", "aa", "b"), "ba");
    assert_eq!(replace_all("none", "%f", "x"), "none");
}

#[test]
fn string_comparisons() {
    assert!(str_eq("vim", "vim"));
    assert!(!str_eq("vim", "vi"));
    assert!(ends_with_str("chrome-extension", "extension"));
    assert!(!ends_with_str("ext", "extension"));
}
