use laptop_lights::text::{media_running, parse_level};

#[test]
fn level_parses_with_trailing_whitespace() {
    assert_eq!(parse_level(b"120\n"), Some(120));
    assert_eq!(parse_level(b"0"), Some(0));
    assert_eq!(parse_level(b"+7 \t\r\n"), Some(7));
    assert_eq!(parse_level(b"4294967295\n"), Some(u32::MAX));
}

#[test]
fn level_refuses_bad_text() {
    assert_eq!(parse_level(b""), None);
    assert_eq!(parse_level(b"\n"), None);
    assert_eq!(parse_level(b"+"), None);
    assert_eq!(parse_level(b" 12"), None);
    assert_eq!(parse_level(b"-1"), None);
    assert_eq!(parse_level(b"12a"), None);
    assert_eq!(parse_level(b"4294967296"), None);
    assert_eq!(parse_level(b"99999999999999999999999"), None);
}

#[test]
fn status_running_detected() {
    assert!(media_running(b"state: RUNNING\nowner_pid   : 1234\ntrigger_time: 1.2\n"));
    assert!(media_running(b"owner_pid: 1\nstate: RUNNING"));
    assert!(media_running(b"RUNNING state"));
}

#[test]
fn status_not_running() {
    assert!(!media_running(b"closed\n"));
    assert!(!media_running(b""));
    assert!(!media_running(b"state: SETUP\nRUNNING\n"));
    assert!(!media_running(b"substate: RUNNING\n"));
    assert!(!media_running(b"states RUNNING\n"));
    assert!(!media_running(b"state_x: RUNNING\n"));
    assert!(!media_running(b"state: PAUSED\n"));
}

#[test]
fn level_trims_unicode_whitespace() {
    assert_eq!(parse_level("42\u{a0}".as_bytes()), Some(42));
    assert_eq!(parse_level("42\u{85}\n".as_bytes()), Some(42));
    assert_eq!(parse_level("7\u{1680}\u{2000}\u{200a}\u{2028}\u{2029}\u{202f}\u{205f}\u{3000} ".as_bytes()), Some(7));
    for c in ['\u{a0}', '\u{2003}', '\u{3000}', '\t', '\u{b}'] {
        let text = format!("315{}", c);
        assert_eq!(parse_level(text.as_bytes()), text.trim_end().parse::<u32>().ok());
    }
}

#[test]
fn level_keeps_non_whitespace_unicode() {
    assert_eq!(parse_level("42\u{200b}".as_bytes()), None);
    assert_eq!(parse_level("42\u{2010}".as_bytes()), None);
    assert_eq!(parse_level("\u{a0}42".as_bytes()), None);
}
