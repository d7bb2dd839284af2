//! Overlay settings: the connection settings, the log level and the key that
//! toggles the settings window, with the parsers for their text forms.

use vstd::prelude::*;

use crate::text::{
    ascii_lower, ascii_upper, is_white_space, trim_end, trim_start,
    lower_all, lower_equals, trim, trim_to_string, trimmed_chars, upper_all, upper_equals,
};

verus! {

/// Global log verbosity, one per `log::LevelFilter` variant.
#[derive(Clone, Copy, Debug, PartialEq, Eq, Structural)]
pub enum LogLevel {
    Off,
    Error,
    Warn,
    Info,
    Debug,
    Trace,
}

/// The level named by `name`: surrounding whitespace and ASCII case are
/// ignored, and `warning` is accepted beside `warn`.
pub open spec fn log_level_named(name: Seq<char>) -> Option<LogLevel> {
    let k = lower_all(trim(name));
    if k == "off"@ {
        Some(LogLevel::Off)
    } else if k == "error"@ {
        Some(LogLevel::Error)
    } else if k == "warn"@ || k == "warning"@ {
        Some(LogLevel::Warn)
    } else if k == "info"@ {
        Some(LogLevel::Info)
    } else if k == "debug"@ {
        Some(LogLevel::Debug)
    } else if k == "trace"@ {
        Some(LogLevel::Trace)
    } else {
        None
    }
}

/// Parses a configured log level name; `None` for an unknown name.
pub fn parse_log_level(level: &str) -> (r: Option<LogLevel>)
    ensures
        r == log_level_named(level@),
{
    let k = trimmed_chars(level);
    if lower_equals(&k, "off") {
        Some(LogLevel::Off)
    } else if lower_equals(&k, "error") {
        Some(LogLevel::Error)
    } else if lower_equals(&k, "warn") || lower_equals(&k, "warning") {
        Some(LogLevel::Warn)
    } else if lower_equals(&k, "info") {
        Some(LogLevel::Info)
    } else if lower_equals(&k, "debug") {
        Some(LogLevel::Debug)
    } else if lower_equals(&k, "trace") {
        Some(LogLevel::Trace)
    } else {
        None
    }
}

/// Keys that can toggle the settings window, one per imgui key of the same name.
#[derive(Clone, Copy, Debug, PartialEq, Eq, Structural)]
pub enum ToggleKey {
    F1,
    F2,
    F3,
    F4,
    F5,
    F6,
    F7,
    F8,
    F9,
    F10,
    F11,
    F12,
    Insert,
    Home,
    End,
    PageUp,
    PageDown,
}

/// The key named by `name`: surrounding whitespace and ASCII case are
/// ignored; `INS`, `PGUP` and `PGDN` are accepted as short forms.
pub open spec fn toggle_key_named(name: Seq<char>) -> Option<ToggleKey> {
    let k = upper_all(trim(name));
    if k == "F1"@ {
        Some(ToggleKey::F1)
    } else if k == "F2"@ {
        Some(ToggleKey::F2)
    } else if k == "F3"@ {
        Some(ToggleKey::F3)
    } else if k == "F4"@ {
        Some(ToggleKey::F4)
    } else if k == "F5"@ {
        Some(ToggleKey::F5)
    } else if k == "F6"@ {
        Some(ToggleKey::F6)
    } else if k == "F7"@ {
        Some(ToggleKey::F7)
    } else if k == "F8"@ {
        Some(ToggleKey::F8)
    } else if k == "F9"@ {
        Some(ToggleKey::F9)
    } else if k == "F10"@ {
        Some(ToggleKey::F10)
    } else if k == "F11"@ {
        Some(ToggleKey::F11)
    } else if k == "F12"@ {
        Some(ToggleKey::F12)
    } else if k == "INSERT"@ || k == "INS"@ {
        Some(ToggleKey::Insert)
    } else if k == "HOME"@ {
        Some(ToggleKey::Home)
    } else if k == "END"@ {
        Some(ToggleKey::End)
    } else if k == "PAGEUP"@ || k == "PGUP"@ {
        Some(ToggleKey::PageUp)
    } else if k == "PAGEDOWN"@ || k == "PGDN"@ {
        Some(ToggleKey::PageDown)
    } else {
        None
    }
}

/// Maps a configured key name to the imgui key it stands for; `None` for
/// unknown names.
pub fn toggle_key_to_imgui(name: &str) -> (r: Option<ToggleKey>)
    ensures
        r == toggle_key_named(name@),
{
    let k = trimmed_chars(name);
    if upper_equals(&k, "F1") {
        Some(ToggleKey::F1)
    } else if upper_equals(&k, "F2") {
        Some(ToggleKey::F2)
    } else if upper_equals(&k, "F3") {
        Some(ToggleKey::F3)
    } else if upper_equals(&k, "F4") {
        Some(ToggleKey::F4)
    } else if upper_equals(&k, "F5") {
        Some(ToggleKey::F5)
    } else if upper_equals(&k, "F6") {
        Some(ToggleKey::F6)
    } else if upper_equals(&k, "F7") {
        Some(ToggleKey::F7)
    } else if upper_equals(&k, "F8") {
        Some(ToggleKey::F8)
    } else if upper_equals(&k, "F9") {
        Some(ToggleKey::F9)
    } else if upper_equals(&k, "F10") {
        Some(ToggleKey::F10)
    } else if upper_equals(&k, "F11") {
        Some(ToggleKey::F11)
    } else if upper_equals(&k, "F12") {
        Some(ToggleKey::F12)
    } else if upper_equals(&k, "INSERT") || upper_equals(&k, "INS") {
        Some(ToggleKey::Insert)
    } else if upper_equals(&k, "HOME") {
        Some(ToggleKey::Home)
    } else if upper_equals(&k, "END") {
        Some(ToggleKey::End)
    } else if upper_equals(&k, "PAGEUP") || upper_equals(&k, "PGUP") {
        Some(ToggleKey::PageUp)
    } else if upper_equals(&k, "PAGEDOWN") || upper_equals(&k, "PGDN") {
        Some(ToggleKey::PageDown)
    } else {
        None
    }
}

/// The overlay settings that decide what the overlay connects to and how it
/// logs and is toggled. The window geometry, opacity and font size are
/// carried by the UI that draws with them.
pub struct Config {
    /// Bilibili live room id to connect to.
    pub room_id: String,
    /// Optional cookie string; `None` lets the client detect browser cookies.
    pub cookies: Option<String>,
    /// Name of the key that toggles the settings window.
    pub toggle_key: String,
    /// Global log level name: off, error, warn, info, debug or trace.
    pub log_level: String,
    /// How many danmaku lines the overlay keeps; older lines are dropped.
    pub max_lines: usize,
}

impl Default for Config {
    fn default() -> (cfg: Self)
        ensures
            cfg.room_id@ == "1597760"@,
            cfg.cookies is None,
            cfg.toggle_key@ == "Insert"@,
            cfg.log_level@ == "info"@,
            cfg.max_lines == 200,
    {
        Config {
            room_id: String::from_str("1597760"),
            cookies: None,
            toggle_key: String::from_str("Insert"),
            log_level: String::from_str("info"),
            max_lines: 200,
        }
    }
}

/// The level that a configured level name selects: the named level, or
/// `Info` for a name that is not a level.
pub open spec fn effective_log_level(name: Seq<char>) -> LogLevel {
    match log_level_named(name) {
        Some(l) => l,
        None => LogLevel::Info,
    }
}

/// The key that a configured key name selects: the named key, or `F8` for a
/// name that is not a key.
pub open spec fn effective_toggle_key(name: Seq<char>) -> ToggleKey {
    match toggle_key_named(name) {
        Some(k) => k,
        None => ToggleKey::F8,
    }
}

/// What the cookie edit field turns into: `None` when it holds only
/// whitespace, else its trimmed text.
pub open spec fn cookies_from_edit(edit: Seq<char>) -> Option<Seq<char>> {
    if trim(edit).len() == 0 {
        None
    } else {
        Some(trim(edit))
    }
}

impl Config {
    /// The configured log level, falling back to `Info`.
    pub fn log_level_filter(&self) -> (l: LogLevel)
        ensures
            l == effective_log_level(self.log_level@),
            log_level_named(self.log_level@) matches Some(named) ==> l == named,
            log_level_named(self.log_level@) is None ==> l == LogLevel::Info,
    {
        match parse_log_level(self.log_level.as_str()) {
            Some(l) => l,
            None => LogLevel::Info,
        }
    }

    /// The configured toggle key, falling back to `F8`.
    pub fn toggle_key_or_default(&self) -> (k: ToggleKey)
        ensures
            k == effective_toggle_key(self.toggle_key@),
            toggle_key_named(self.toggle_key@) matches Some(named) ==> k == named,
            toggle_key_named(self.toggle_key@) is None ==> k == ToggleKey::F8,
    {
        match toggle_key_to_imgui(self.toggle_key.as_str()) {
            Some(k) => k,
            None => ToggleKey::F8,
        }
    }

    /// Takes the room and cookie edit fields of the settings window into the
    /// config: both are trimmed, and an empty cookie field clears the cookies.
    pub fn apply_connection_edits(&mut self, room_edit: &str, cookies_edit: &str)
        ensures
            final(self).room_id@ == trim(room_edit@),
            match final(self).cookies {
                Some(c) => cookies_from_edit(cookies_edit@) == Some(c@),
                None => cookies_from_edit(cookies_edit@) is None,
            },
            final(self).toggle_key == old(self).toggle_key,
            final(self).log_level == old(self).log_level,
            final(self).max_lines == old(self).max_lines,
    {
        self.room_id = trim_to_string(room_edit);
        let c = trim_to_string(cookies_edit);
        if c.as_str().is_empty() {
            self.cookies = None;
        } else {
            self.cookies = Some(c);
        }
    }

    /// Takes the line-limit edit field of the settings window into the
    /// config: a limit below one becomes one.
    pub fn apply_max_lines_edit(&mut self, edit: i32)
        ensures
            final(self).max_lines == (if edit < 1 {
                1
            } else {
                edit as int
            }),
            final(self).room_id == old(self).room_id,
            final(self).cookies == old(self).cookies,
            final(self).toggle_key == old(self).toggle_key,
            final(self).log_level == old(self).log_level,
    {
        if edit < 1 {
            self.max_lines = 1;
        } else {
            self.max_lines = edit as usize;
        }
    }
}

// ---------------------------------------------------------------------------
// Laws of the name tables
// ---------------------------------------------------------------------------

/// The name of each key: its variant name in upper case.
pub open spec fn key_name(k: ToggleKey) -> Seq<char> {
    match k {
        ToggleKey::F1 => "F1"@,
        ToggleKey::F2 => "F2"@,
        ToggleKey::F3 => "F3"@,
        ToggleKey::F4 => "F4"@,
        ToggleKey::F5 => "F5"@,
        ToggleKey::F6 => "F6"@,
        ToggleKey::F7 => "F7"@,
        ToggleKey::F8 => "F8"@,
        ToggleKey::F9 => "F9"@,
        ToggleKey::F10 => "F10"@,
        ToggleKey::F11 => "F11"@,
        ToggleKey::F12 => "F12"@,
        ToggleKey::Insert => "INSERT"@,
        ToggleKey::Home => "HOME"@,
        ToggleKey::End => "END"@,
        ToggleKey::PageUp => "PAGEUP"@,
        ToggleKey::PageDown => "PAGEDOWN"@,
    }
}

/// The name of each level: its variant name in lower case.
pub open spec fn level_name(l: LogLevel) -> Seq<char> {
    match l {
        LogLevel::Off => "off"@,
        LogLevel::Error => "error"@,
        LogLevel::Warn => "warn"@,
        LogLevel::Info => "info"@,
        LogLevel::Debug => "debug"@,
        LogLevel::Trace => "trace"@,
    }
}

/// A name made of ASCII upper-case letters and digits is its own trimmed,
/// upper-cased form.
proof fn lemma_upper_name_is_canonical(s: Seq<char>)
    requires
        s.len() > 0,
        forall|i: int|
            0 <= i < s.len() ==> ('A' <= #[trigger] s[i] <= 'Z') || ('0' <= s[i] <= '9'),
    ensures
        upper_all(trim(s)) == s,
{
    assert(!is_white_space(s[0]));
    assert(trim_start(s) == s);
    assert(!is_white_space(s.last()));
    assert(trim_end(s) == s);
    assert forall|i: int| 0 <= i < s.len() implies ascii_upper(s[i]) == s[i] by {}
    assert(upper_all(s) =~= s);
}

/// A name made of ASCII lower-case letters is its own trimmed, lower-cased
/// form.
proof fn lemma_lower_name_is_canonical(s: Seq<char>)
    requires
        s.len() > 0,
        forall|i: int| 0 <= i < s.len() ==> 'a' <= #[trigger] s[i] <= 'z',
    ensures
        lower_all(trim(s)) == s,
{
    assert(!is_white_space(s[0]));
    assert(trim_start(s) == s);
    assert(!is_white_space(s.last()));
    assert(trim_end(s) == s);
    assert forall|i: int| 0 <= i < s.len() implies ascii_lower(s[i]) == s[i] by {}
    assert(lower_all(s) =~= s);
}

/// Every key is selected by its own name, so no two keys share a name and
/// each function key `Fn` is named `Fn`.
pub proof fn lemma_each_key_parses_from_its_name(k: ToggleKey)
    ensures
        toggle_key_named(key_name(k)) == Some(k),
        effective_toggle_key(key_name(k)) == k,
{

    reveal_strlit("F1");
    reveal_strlit("F2");
    reveal_strlit("F3");
    reveal_strlit("F4");
    reveal_strlit("F5");
    reveal_strlit("F6");
    reveal_strlit("F7");
    reveal_strlit("F8");
    reveal_strlit("F9");
    reveal_strlit("F10");
    reveal_strlit("F11");
    reveal_strlit("F12");
    reveal_strlit("INSERT");
    reveal_strlit("INS");
    reveal_strlit("HOME");
    reveal_strlit("END");
    reveal_strlit("PAGEUP");
    reveal_strlit("PGUP");
    reveal_strlit("PAGEDOWN");
    reveal_strlit("PGDN");
    lemma_upper_name_is_canonical(key_name(k));
}

/// Distinct keys have distinct names.
pub proof fn lemma_key_names_distinct(a: ToggleKey, b: ToggleKey)
    ensures
        key_name(a) == key_name(b) ==> a == b,
{
    lemma_each_key_parses_from_its_name(a);
    lemma_each_key_parses_from_its_name(b);
}

/// Every level is selected by its own name, whatever it is: `off` turns
/// logging off, and only a name that is no level falls back to `Info`.
pub proof fn lemma_each_level_parses_from_its_name(l: LogLevel)
    ensures
        log_level_named(level_name(l)) == Some(l),
        effective_log_level(level_name(l)) == l,
{
    reveal_strlit("off");
    reveal_strlit("error");
    reveal_strlit("warn");
    reveal_strlit("warning");
    reveal_strlit("info");
    reveal_strlit("debug");
    reveal_strlit("trace");
    lemma_lower_name_is_canonical(level_name(l));
}

/// The effective level is the named level whenever the name is a level, and
/// `Info` exactly when it is not.
pub proof fn lemma_effective_level(name: Seq<char>)
    ensures
        log_level_named(name) matches Some(l) ==> effective_log_level(name) == l,
        log_level_named(name) is None ==> effective_log_level(name) == LogLevel::Info,
{
}

} // verus!
