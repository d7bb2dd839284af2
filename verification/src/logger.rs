//! What the log writer prints: the line format and the redaction of
//! authentication responses.

use vstd::prelude::*;

use crate::text::{
    chars_of, contains_chars, contains_text, find_char, padded_decimal, push_padded, push_str,
    same_text, slice_of, string_from_chars,
};

verus! {

/// The severity of one log record, one per `log::Level` variant.
#[derive(Clone, Copy, Debug, PartialEq, Eq, Structural)]
pub enum RecordLevel {
    Error,
    Warn,
    Info,
    Debug,
    Trace,
}

/// The name `log::Level` displays.
pub open spec fn level_name(l: RecordLevel) -> Seq<char> {
    match l {
        RecordLevel::Error => "ERROR"@,
        RecordLevel::Warn => "WARN"@,
        RecordLevel::Info => "INFO"@,
        RecordLevel::Debug => "DEBUG"@,
        RecordLevel::Trace => "TRACE"@,
    }
}

/// `s` padded on the right with spaces up to `width` chars (`{:<width}`).
pub open spec fn pad_right(s: Seq<char>, width: nat) -> Seq<char> {
    if s.len() >= width {
        s
    } else {
        s + Seq::new((width - s.len()) as nat, |_i: int| ' ')
    }
}

/// A local date and time, as the host clock reports it.
#[derive(Clone, Copy, Debug, PartialEq, Eq, Structural)]
pub struct LogTime {
    pub year: u16,
    pub month: u16,
    pub day: u16,
    pub hour: u16,
    pub minute: u16,
    pub second: u16,
    pub millis: u16,
}

/// `[YYYY/MM/DD HH:MM:SS.mmm] LEVEL target: message` and a newline.
pub open spec fn log_line(t: LogTime, level: RecordLevel, target: Seq<char>, message: Seq<char>) -> Seq<
    char,
> {
    "["@ + padded_decimal(t.year as nat, 4) + "/"@ + padded_decimal(t.month as nat, 2) + "/"@
        + padded_decimal(t.day as nat, 2) + " "@ + padded_decimal(t.hour as nat, 2) + ":"@
        + padded_decimal(t.minute as nat, 2) + ":"@ + padded_decimal(t.second as nat, 2) + "."@
        + padded_decimal(t.millis as nat, 3) + "] "@ + pad_right(level_name(level), 5) + " "@
        + target + ": "@ + message + "\n"@
}

fn push_level(out: &mut String, level: RecordLevel)
    ensures
        final(out)@ == old(out)@ + pad_right(level_name(level), 5),
{
    proof {
        reveal_strlit("ERROR");
        reveal_strlit("WARN");
        reveal_strlit("INFO");
        reveal_strlit("DEBUG");
        reveal_strlit("TRACE");
        reveal_strlit("WARN ");
        reveal_strlit("INFO ");
    }
    match level {
        RecordLevel::Error => push_str(out, "ERROR"),
        RecordLevel::Warn => push_str(out, "WARN "),
        RecordLevel::Info => push_str(out, "INFO "),
        RecordLevel::Debug => push_str(out, "DEBUG"),
        RecordLevel::Trace => push_str(out, "TRACE"),
    }
    assert(final(out)@ =~= old(out)@ + pad_right(level_name(level), 5));
}

/// Formats one log record as the log writer prints it.
pub fn format_log_line(t: LogTime, level: RecordLevel, target: &str, message: &str) -> (s: String)
    ensures
        s@ == log_line(t, level, target@, message@),
{
    let mut s = String::new();
    push_str(&mut s, "[");
    push_padded(&mut s, t.year as u64, 4);
    push_str(&mut s, "/");
    push_padded(&mut s, t.month as u64, 2);
    push_str(&mut s, "/");
    push_padded(&mut s, t.day as u64, 2);
    push_str(&mut s, " ");
    push_padded(&mut s, t.hour as u64, 2);
    push_str(&mut s, ":");
    push_padded(&mut s, t.minute as u64, 2);
    push_str(&mut s, ":");
    push_padded(&mut s, t.second as u64, 2);
    push_str(&mut s, ".");
    push_padded(&mut s, t.millis as u64, 3);
    push_str(&mut s, "] ");
    push_level(&mut s, level);
    push_str(&mut s, " ");
    push_str(&mut s, target);
    push_str(&mut s, ": ");
    push_str(&mut s, message);
    push_str(&mut s, "\n");
    assert(s@ =~= log_line(t, level, target@, message@));
    s
}

/// The position of the first `c` in `s`, if any.
pub open spec fn first_index_of(s: Seq<char>, c: char) -> Option<int> {
    if exists|i: int| 0 <= i < s.len() && s[i] == c {
        Some(
            choose|i: int|
                0 <= i < s.len() && s[i] == c && forall|j: int| 0 <= j < i ==> s[j] != c,
        )
    } else {
        None
    }
}

/// The log target of the client's authentication, whose responses are secret.
pub open spec fn auth_target() -> Seq<char> {
    "blivedm::client::auth"@
}

/// What the log writer prints of `message`: a message of the authentication
/// target that mentions `response` keeps only the text before its first
/// colon, or is replaced whole when it has none; any other message is kept.
pub open spec fn redacted(target: Seq<char>, message: Seq<char>) -> Seq<char> {
    if target == auth_target() && contains_text(message, "response"@) {
        match first_index_of(message, ':') {
            Some(i) => message.take(i) + ": <redacted>"@,
            None => "<redacted response>"@,
        }
    } else {
        message
    }
}

proof fn lemma_first_index(s: Seq<char>, c: char, i: int)
    requires
        0 <= i < s.len(),
        s[i] == c,
        forall|j: int| 0 <= j < i ==> s[j] != c,
    ensures
        first_index_of(s, c) == Some(i),
{
    let k = choose|k: int| 0 <= k < s.len() && s[k] == c && forall|j: int| 0 <= j < k ==> s[j] != c;
    assert(0 <= k < s.len() && s[k] == c && forall|j: int| 0 <= j < k ==> s[j] != c);
    if k < i {
        assert(s[k] != c);
    }
    if i < k {
        assert(s[i] != c);
    }
}

/// Hides the secret part of an authentication response before it is logged.
pub fn redact_message(target: &str, message: String) -> (r: String)
    ensures
        r@ == redacted(target@, message@),
{
    if !same_text(target, "blivedm::client::auth") {
        return message;
    }
    let chars = chars_of(message.as_str());
    let pattern = chars_of("response");
    if !contains_chars(&chars, &pattern) {
        return message;
    }
    match find_char(&chars, ':') {
        Some(i) => {
            proof {
                lemma_first_index(chars@, ':', i as int);
            }
            let prefix = slice_of(&chars, 0, i);
            let mut r = string_from_chars(&prefix);
            push_str(&mut r, ": <redacted>");
            assert(prefix@ =~= message@.take(i as int));
            r
        },
        None => {
            assert(first_index_of(chars@, ':') is None);
            String::from_str("<redacted response>")
        },
    }
}

} // verus!
