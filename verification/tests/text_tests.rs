use ymessenger::goloom_media::{portal_recommended, VideoFrame};
use ymessenger::history::{next_history_cursor, parse_i64, resolve_history_cursor};
use ymessenger::text::{first_line, html_escape, is_blank, trim, truncate};

#[test]
fn text_helpers() {
    assert_eq!(trim("  a b \n"), "a b");
    assert!(is_blank(" \t"));
    assert!(!is_blank(" x"));
    assert_eq!(first_line("one\ntwo"), "one");
    assert_eq!(html_escape("<a href=\"x\">"), "&lt;a href=&quot;x&quot;&gt;");
}

#[test]
fn truncate_respects_char_boundaries() {
    assert_eq!(truncate("hello", 10), "hello");
    assert_eq!(truncate("привет", 3), "п…(12 bytes total)");
    assert_eq!(truncate("abcdef", 4), "abcd…(6 bytes total)");
}

#[test]
fn history_cursors() {
    assert_eq!(next_history_cursor(&vec![5, 3, 9], 3).as_deref(), Some("2"));
    assert_eq!(next_history_cursor(&vec![5, 3], 3), None);
    assert_eq!(next_history_cursor(&vec![], 0), None);
    assert_eq!(resolve_history_cursor(Some("123"), Some(7)), Some(123));
    assert_eq!(resolve_history_cursor(Some(""), Some(7)), Some(6));
    assert_eq!(resolve_history_cursor(Some("x"), None), None);
    assert_eq!(parse_i64("-9223372036854775808"), Some(i64::MIN));
    assert_eq!(parse_i64("+12"), Some(12));
    assert_eq!(parse_i64("9223372036854775808"), None);
    assert_eq!(parse_i64("-"), None);
    assert_eq!(parse_i64("+-1"), None);
}

#[test]
fn portal_choice_matrix() {
    assert!(portal_recommended(Some("TRUE"), Some("x11"), false, true));
    assert!(!portal_recommended(Some("0"), Some("wayland"), true, false));
    assert!(portal_recommended(Some("maybe"), Some("Wayland"), false, true));
    assert!(!portal_recommended(None, Some("x11"), true, false));
    assert!(portal_recommended(None, None, true, false));
    assert!(!portal_recommended(None, None, true, true));
}

#[test]
fn frame_validity() {
    let f = VideoFrame { width: 2, height: 2, stride: 8, pixels: vec![0; 16] };
    assert!(f.is_valid());
    let g = VideoFrame { width: 2, height: 2, stride: 8, pixels: vec![0; 15] };
    assert!(!g.is_valid());
}

#[test]
fn portal_recommendation_matrix() {
    // The override wins over session detection, whatever the session.
    for (session, wayland, x) in [(Some("x11"), false, true), (Some("wayland"), true, false), (None, false, false)] {
        assert!(portal_recommended(Some("1"), session, wayland, x));
        assert!(!portal_recommended(Some("0"), session, wayland, x));
    }
}
