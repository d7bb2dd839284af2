use imbdmlive::config::{parse_log_level, toggle_key_to_imgui, Config, LogLevel, ToggleKey};

#[test]
fn log_level_names() {
    assert_eq!(parse_log_level("off"), Some(LogLevel::Off));
    assert_eq!(parse_log_level("error"), Some(LogLevel::Error));
    assert_eq!(parse_log_level("warn"), Some(LogLevel::Warn));
    assert_eq!(parse_log_level("warning"), Some(LogLevel::Warn));
    assert_eq!(parse_log_level("info"), Some(LogLevel::Info));
    assert_eq!(parse_log_level("debug"), Some(LogLevel::Debug));
    assert_eq!(parse_log_level("trace"), Some(LogLevel::Trace));
}

#[test]
fn log_level_ignores_case_and_surrounding_space() {
    assert_eq!(parse_log_level("  DeBuG \n"), Some(LogLevel::Debug));
    assert_eq!(parse_log_level("WARNING"), Some(LogLevel::Warn));
    assert_eq!(parse_log_level("\tOff"), Some(LogLevel::Off));
}

#[test]
fn unknown_log_level_is_none() {
    assert_eq!(parse_log_level(""), None);
    assert_eq!(parse_log_level("verbose"), None);
    assert_eq!(parse_log_level("in fo"), None);
    assert_eq!(parse_log_level("infos"), None);
}

#[test]
fn toggle_key_names() {
    assert_eq!(toggle_key_to_imgui("Insert"), Some(ToggleKey::Insert));
    assert_eq!(toggle_key_to_imgui(" ins "), Some(ToggleKey::Insert));
    assert_eq!(toggle_key_to_imgui("f1"), Some(ToggleKey::F1));
    assert_eq!(toggle_key_to_imgui("F10"), Some(ToggleKey::F10));
    assert_eq!(toggle_key_to_imgui("f12"), Some(ToggleKey::F12));
    assert_eq!(toggle_key_to_imgui("Home"), Some(ToggleKey::Home));
    assert_eq!(toggle_key_to_imgui("end"), Some(ToggleKey::End));
    assert_eq!(toggle_key_to_imgui("PageUp"), Some(ToggleKey::PageUp));
    assert_eq!(toggle_key_to_imgui("pgup"), Some(ToggleKey::PageUp));
    assert_eq!(toggle_key_to_imgui("PageDown"), Some(ToggleKey::PageDown));
    assert_eq!(toggle_key_to_imgui("PgDn"), Some(ToggleKey::PageDown));
}

#[test]
fn unknown_toggle_key_is_none() {
    assert_eq!(toggle_key_to_imgui("F13"), None);
    assert_eq!(toggle_key_to_imgui("Delete"), None);
    assert_eq!(toggle_key_to_imgui(""), None);
}

#[test]
fn default_config() {
    let cfg = Config::default();
    assert_eq!(cfg.room_id, "1597760");
    assert_eq!(cfg.cookies, None);
    assert_eq!(cfg.toggle_key, "Insert");
    assert_eq!(cfg.log_level, "info");
    assert_eq!(cfg.log_level_filter(), LogLevel::Info);
    assert_eq!(cfg.toggle_key_or_default(), ToggleKey::Insert);
}

#[test]
fn log_level_filter_falls_back_to_info() {
    let mut cfg = Config::default();
    cfg.log_level = "Trace".to_string();
    assert_eq!(cfg.log_level_filter(), LogLevel::Trace);
    cfg.log_level = "loud".to_string();
    assert_eq!(cfg.log_level_filter(), LogLevel::Info);
}

#[test]
fn toggle_key_falls_back_to_f8() {
    let mut cfg = Config::default();
    cfg.toggle_key = "Scroll".to_string();
    assert_eq!(cfg.toggle_key_or_default(), ToggleKey::F8);
    cfg.toggle_key = "home".to_string();
    assert_eq!(cfg.toggle_key_or_default(), ToggleKey::Home);
}

#[test]
fn connection_edits_are_trimmed() {
    let mut cfg = Config::default();
    cfg.apply_connection_edits("  21452505 ", "  SESSDATA=abc; bili_jct=x \n");
    assert_eq!(cfg.room_id, "21452505");
    assert_eq!(cfg.cookies.as_deref(), Some("SESSDATA=abc; bili_jct=x"));
    assert_eq!(cfg.toggle_key, "Insert");
    assert_eq!(cfg.log_level, "info");
}

#[test]
fn blank_cookie_edit_clears_cookies() {
    let mut cfg = Config::default();
    cfg.cookies = Some("old".to_string());
    cfg.apply_connection_edits("7", " \t ");
    assert_eq!(cfg.room_id, "7");
    assert_eq!(cfg.cookies, None);
}

#[test]
fn default_line_limit() {
    assert_eq!(Config::default().max_lines, 200);
}

#[test]
fn line_limit_edit_is_at_least_one() {
    let mut cfg = Config::default();
    cfg.apply_max_lines_edit(500);
    assert_eq!(cfg.max_lines, 500);
    cfg.apply_max_lines_edit(0);
    assert_eq!(cfg.max_lines, 1);
    cfg.apply_max_lines_edit(-20);
    assert_eq!(cfg.max_lines, 1);
    assert_eq!(cfg.room_id, "1597760");
}
