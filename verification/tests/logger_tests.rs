use imbdmlive::logger::{format_log_line, redact_message, LogTime, RecordLevel};

#[test]
fn auth_response_is_redacted_after_the_colon() {
    let r = redact_message("blivedm::client::auth", "auth response: {\"token\":\"SECRET\"}".to_string());
    assert_eq!(r, "auth response: <redacted>");
}

#[test]
fn auth_response_without_colon_is_replaced() {
    let r = redact_message("blivedm::client::auth", "got response token".to_string());
    assert_eq!(r, "<redacted response>");
}

#[test]
fn other_messages_are_kept() {
    let m = "response: 200".to_string();
    assert_eq!(redact_message("blivedm::client::websocket", m.clone()), m);
    let n = "auth ok: uid=1".to_string();
    assert_eq!(redact_message("blivedm::client::auth", n.clone()), n);
}

#[test]
fn redaction_keeps_text_before_first_colon_only() {
    let r = redact_message("blivedm::client::auth", "a:b response:c".to_string());
    assert_eq!(r, "a: <redacted>");
}

#[test]
fn log_line_format() {
    let t = LogTime { year: 2024, month: 1, day: 2, hour: 3, minute: 4, second: 5, millis: 6 };
    assert_eq!(
        format_log_line(t, RecordLevel::Info, "imbdmlive", "hello"),
        "[2024/01/02 03:04:05.006] INFO  imbdmlive: hello\n"
    );
    assert_eq!(
        format_log_line(t, RecordLevel::Error, "x", "boom"),
        "[2024/01/02 03:04:05.006] ERROR x: boom\n"
    );
    assert_eq!(
        format_log_line(t, RecordLevel::Warn, "y", ""),
        "[2024/01/02 03:04:05.006] WARN  y: \n"
    );
}

#[test]
fn log_line_matches_format_macro() {
    let t = LogTime { year: 987, month: 12, day: 31, hour: 23, minute: 59, second: 58, millis: 999 };
    for (lvl, name) in [
        (RecordLevel::Error, "ERROR"),
        (RecordLevel::Warn, "WARN"),
        (RecordLevel::Info, "INFO"),
        (RecordLevel::Debug, "DEBUG"),
        (RecordLevel::Trace, "TRACE"),
    ] {
        let expected = format!(
            "[{:04}/{:02}/{:02} {:02}:{:02}:{:02}.{:03}] {:<5} {}: {}\n",
            t.year, t.month, t.day, t.hour, t.minute, t.second, t.millis, name, "tgt", "msg"
        );
        assert_eq!(format_log_line(t, lvl, "tgt", "msg"), expected);
    }
}
