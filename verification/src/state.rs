//! The overlay's shared state: the danmaku lines shown, oldest first, the
//! room counters and the connection status.

use std::collections::VecDeque;
use std::sync::{Arc, Mutex};

use vstd::prelude::*;

use crate::text::{padded_decimal, push_padded, push_str, decimal, push_decimal};

verus! {

broadcast use vstd::std_specs::vecdeque::group_vec_dequeue_axioms;

/// What kind of line a [`DanmakuLine`] is.
#[derive(Clone, Copy, Debug, PartialEq, Eq, Structural)]
pub enum LineKind {
    /// Regular danmaku (bullet chat).
    Danmu,
    /// Gift / donation.
    Gift,
    /// Super Chat (醒目留言).
    SuperChat,
    /// Guard / membership purchase (上舰).
    Guard,
    /// User entered the live room.
    Enter,
    /// Local system / status message (not from the live room).
    System,
}

/// A local wall-clock time of day, as the host clock reports it.
#[derive(Clone, Copy, Debug, PartialEq, Eq, Structural)]
pub struct LocalTime {
    pub hour: u16,
    pub minute: u16,
    pub second: u16,
}

/// `HH:MM:SS`: each field printed with `{:02}`.
pub open spec fn clock_text(t: LocalTime) -> Seq<char> {
    padded_decimal(t.hour as nat, 2) + seq![':'] + padded_decimal(t.minute as nat, 2) + seq![':']
        + padded_decimal(t.second as nat, 2)
}

/// Formats a time of day as `HH:MM:SS`.
pub fn format_timestamp(t: LocalTime) -> (s: String)
    ensures
        s@ == clock_text(t),
{
    let mut s = String::new();
    push_padded(&mut s, t.hour as u64, 2);
    push_str(&mut s, ":");
    push_padded(&mut s, t.minute as u64, 2);
    push_str(&mut s, ":");
    push_padded(&mut s, t.second as u64, 2);
    proof {
        reveal_strlit(":");
    }
    assert(s@ =~= clock_text(t));
    s
}

/// A single rendered line in the danmaku list.
#[derive(Clone)]
pub struct DanmakuLine {
    pub kind: LineKind,
    /// Local time when this line was received, formatted as `HH:MM:SS`.
    pub timestamp: String,
    /// Sender name (empty for [`LineKind::System`]).
    pub user: String,
    /// Message body / formatted gift text.
    pub text: String,
}

impl DanmakuLine {
    /// The line has the given kind, timestamp, sender and body text.
    pub open spec fn reads(
        self,
        kind: LineKind,
        timestamp: Seq<char>,
        user: Seq<char>,
        text: Seq<char>,
    ) -> bool {
        &&& self.kind == kind
        &&& self.timestamp@ == timestamp
        &&& self.user@ == user
        &&& self.text@ == text
    }
}

/// Mutable overlay state shared across threads as `Arc<Mutex<OverlayState>>`.
pub struct OverlayState {
    /// Recent lines, oldest first.
    pub lines: VecDeque<DanmakuLine>,
    /// High-energy rank count (from `ONLINE_RANK_COUNT`).
    pub rank_count: u64,
    /// Online viewer count (from `ONLINE_RANK_COUNT`).
    pub online_count: u64,
    /// Current room popularity.
    pub popularity: u64,
    /// Whether the websocket is believed to be connected.
    pub connected: bool,
    /// Room currently being displayed.
    pub room_id: String,
}

#[verifier::external_type_specification]
#[verifier::external_body]
#[verifier::reject_recursive_types(T)]
pub struct ExMutex<T: ?Sized>(Mutex<T>);

/// `Mutex::new`: wraps a value in a new, unlocked mutex. What the mutex holds
/// is not modelled: it changes whenever another thread locks it.
pub assume_specification<T>[ Mutex::<T>::new ](t: T) -> Mutex<T>;

/// The text of a gift line: `送出 {gift} × {num}`.
pub open spec fn gift_text(gift: Seq<char>, num: Seq<char>) -> Seq<char> {
    "送出 "@ + gift + " × "@ + num
}

/// The text of a room-entry line.
pub open spec fn enter_text() -> Seq<char> {
    "进入直播间"@
}

impl OverlayState {
    /// A fresh state for `room`: no lines, zero counters, not connected.
    pub open spec fn is_fresh(self, room: Seq<char>) -> bool {
        &&& self.lines@.len() == 0
        &&& self.rank_count == 0
        &&& self.online_count == 0
        &&& self.popularity == 0
        &&& !self.connected
        &&& self.room_id@ == room
    }

    /// `self` is `old` with one line appended that reads as given, and
    /// nothing else changed.
    pub open spec fn appended(
        self,
        old: OverlayState,
        kind: LineKind,
        timestamp: Seq<char>,
        user: Seq<char>,
        text: Seq<char>,
    ) -> bool {
        &&& self.lines@.len() == old.lines@.len() + 1
        &&& self.lines@.drop_last() == old.lines@
        &&& self.lines@.last().reads(kind, timestamp, user, text)
        &&& self.same_status(old)
    }

    /// The counters, the connection flag and the room are those of `other`.
    pub open spec fn same_status(self, other: OverlayState) -> bool {
        &&& self.rank_count == other.rank_count
        &&& self.online_count == other.online_count
        &&& self.popularity == other.popularity
        &&& self.connected == other.connected
        &&& self.room_id == other.room_id
    }

    pub fn new(room_id: String) -> (s: Self)
        ensures
            s.is_fresh(room_id@),
            s.room_id == room_id,
    {
        OverlayState {
            lines: VecDeque::new(),
            rank_count: 0,
            online_count: 0,
            popularity: 0,
            connected: false,
            room_id,
        }
    }

    /// Wrap in the shared handle used everywhere else.
    pub fn shared(room_id: String) -> Arc<Mutex<Self>> {
        Arc::new(Mutex::new(Self::new(room_id)))
    }

    fn push(&mut self, line: DanmakuLine)
        ensures
            final(self).lines@ == old(self).lines@.push(line),
            final(self).same_status(*old(self)),
    {
        self.lines.push_back(line);
    }

    fn push_line(&mut self, kind: LineKind, time: LocalTime, user: String, text: String)
        ensures
            final(self).appended(*old(self), kind, clock_text(time), user@, text@),
    {
        let line = DanmakuLine { kind, timestamp: format_timestamp(time), user, text };
        self.push(line);
        assert(self.lines@.drop_last() =~= old(self).lines@);
    }

    /// Appends a regular danmaku received at `time`.
    pub fn push_danmu(&mut self, user: String, text: String, time: LocalTime)
        ensures
            final(self).appended(*old(self), LineKind::Danmu, clock_text(time), user@, text@),
    {
        self.push_line(LineKind::Danmu, time, user, text);
    }

    /// Appends a gift line, `送出 {gift} × {num}`.
    pub fn push_gift(&mut self, user: String, gift: String, num: String, time: LocalTime)
        ensures
            final(self).appended(
                *old(self),
                LineKind::Gift,
                clock_text(time),
                user@,
                gift_text(gift@, num@),
            ),
    {
        let mut text = String::new();
        push_str(&mut text, "送出 ");
        push_str(&mut text, gift.as_str());
        push_str(&mut text, " × ");
        push_str(&mut text, num.as_str());
        assert(text@ =~= gift_text(gift@, num@));
        self.push_line(LineKind::Gift, time, user, text);
    }

    /// Appends a Super Chat.
    pub fn push_super_chat(&mut self, user: String, text: String, time: LocalTime)
        ensures
            final(self).appended(
                *old(self),
                LineKind::SuperChat,
                clock_text(time),
                user@,
                text@,
            ),
    {
        self.push_line(LineKind::SuperChat, time, user, text);
    }

    /// Appends a guard purchase.
    pub fn push_guard(&mut self, user: String, text: String, time: LocalTime)
        ensures
            final(self).appended(*old(self), LineKind::Guard, clock_text(time), user@, text@),
    {
        self.push_line(LineKind::Guard, time, user, text);
    }

    /// Appends a room-entry line, `进入直播间`.
    pub fn push_enter(&mut self, user: String, time: LocalTime)
        ensures
            final(self).appended(
                *old(self),
                LineKind::Enter,
                clock_text(time),
                user@,
                enter_text(),
            ),
    {
        self.push_line(LineKind::Enter, time, user, String::from_str("进入直播间"));
    }

    /// Appends a local status line, with no sender.
    pub fn push_system(&mut self, text: String, time: LocalTime)
        ensures
            final(self).appended(
                *old(self),
                LineKind::System,
                clock_text(time),
                Seq::empty(),
                text@,
            ),
    {
        self.push_line(LineKind::System, time, String::new(), text);
    }

    pub fn set_online(&mut self, count: u64, online_count: u64)
        ensures
            final(self).rank_count == count,
            final(self).online_count == online_count,
            final(self).lines == old(self).lines,
            final(self).popularity == old(self).popularity,
            final(self).connected == old(self).connected,
            final(self).room_id == old(self).room_id,
    {
        self.rank_count = count;
        self.online_count = online_count;
    }

    pub fn set_popularity(&mut self, popularity: u64)
        ensures
            final(self).popularity == popularity,
            final(self).lines == old(self).lines,
            final(self).rank_count == old(self).rank_count,
            final(self).online_count == old(self).online_count,
            final(self).connected == old(self).connected,
            final(self).room_id == old(self).room_id,
    {
        self.popularity = popularity;
    }

    /// Drop all lines and reset counters (used on reconnect to a new room):
    /// the state is then that of a fresh overlay for `room_id`.
    pub fn reset(&mut self, room_id: String)
        ensures
            final(self).is_fresh(room_id@),
            final(self).room_id == room_id,
    {
        self.lines.clear();
        self.rank_count = 0;
        self.online_count = 0;
        self.popularity = 0;
        self.connected = false;
        self.room_id = room_id;
    }

    /// Drops the oldest lines until at most `max_lines` remain: the newest
    /// `min(len, max_lines)` lines stay, in order; the counters, the
    /// connection flag and the room are untouched.
    pub fn trim_to(&mut self, max_lines: usize)
        ensures
            final(self).lines@ == old(self).lines@.skip(
                old(self).lines@.len() - kept_count(old(self).lines@.len(), max_lines as nat),
            ),
            final(self).lines@.len() == kept_count(old(self).lines@.len(), max_lines as nat),
            old(self).lines@.len() <= max_lines ==> final(self).lines@ == old(self).lines@,
            old(self).lines@.len() > max_lines ==> final(self).lines@.len() == max_lines,
            forall|i: int|
                0 <= i < final(self).lines@.len() ==> #[trigger] final(self).lines@[i]
                    == old(self).lines@[old(self).lines@.len() - final(self).lines@.len() + i],
            final(self).same_status(*old(self)),
    {
        while self.lines.len() > max_lines
            invariant
                self.same_status(*old(self)),
                self.lines@.len() >= kept_count(old(self).lines@.len(), max_lines as nat),
                self.lines@.len() <= old(self).lines@.len(),
                self.lines@ == old(self).lines@.skip(
                    old(self).lines@.len() - self.lines@.len(),
                ),
            decreases self.lines@.len(),
        {
            let ghost before = self.lines@;
            self.lines.pop_front();
            assert(self.lines@ =~= old(self).lines@.skip(
                old(self).lines@.len() - self.lines@.len(),
            )) by {
                assert(before.subrange(1, before.len() as int) =~= old(self).lines@.skip(
                    old(self).lines@.len() - before.len() + 1,
                ));
            }
        }
    }

    /// The header above the list: `{status} | 房间 {room} | 在线 {online}`.
    pub fn header_text(&self) -> (s: String)
        ensures
            s@ == header_line(self.connected, self.room_id@, self.online_count),
    {
        let mut s = String::new();
        if self.connected {
            push_str(&mut s, "已连接");
        } else {
            push_str(&mut s, "未连接");
        }
        push_str(&mut s, " | 房间 ");
        push_str(&mut s, self.room_id.as_str());
        push_str(&mut s, " | 在线 ");
        push_decimal(&mut s, self.online_count);
        assert(s@ =~= header_line(self.connected, self.room_id@, self.online_count));
        s
    }
}

/// A reset overlay is indistinguishable from a new one: two states that are
/// both fresh for the same room show the same lines, counters, status and
/// room.
pub proof fn lemma_fresh_states_agree(a: OverlayState, b: OverlayState, room: Seq<char>)
    requires
        a.is_fresh(room),
        b.is_fresh(room),
    ensures
        a.lines@ == b.lines@,
        a.rank_count == b.rank_count,
        a.online_count == b.online_count,
        a.popularity == b.popularity,
        a.connected == b.connected,
        a.room_id@ == b.room_id@,
{
    assert(a.lines@ =~= b.lines@);
}

/// `{status} | 房间 {room} | 在线 {online}` with status `已连接` or `未连接`.
pub open spec fn header_line(connected: bool, room: Seq<char>, online: u64) -> Seq<char> {
    (if connected {
        "已连接"@
    } else {
        "未连接"@
    }) + " | 房间 "@ + room + " | 在线 "@ + decimal(online as nat)
}

/// How many lines a list of `len` lines keeps under a limit of `max`.
pub open spec fn kept_count(len: nat, max: nat) -> nat {
    if len <= max {
        len
    } else {
        max
    }
}

/// The line limit keeps `min(len, max)` lines: all of a list that fits, and
/// exactly `max` of a longer one.
pub proof fn lemma_kept_count_is_min(len: nat, max: nat)
    ensures
        len <= max ==> kept_count(len, max) == len,
        len > max ==> kept_count(len, max) == max,
        kept_count(len, max) == vstd::math::min(len as int, max as int),
{
}

/// `[{timestamp}] ` followed by `rest`.
pub open spec fn stamped(timestamp: Seq<char>, rest: Seq<char>) -> Seq<char> {
    "["@ + timestamp + "] "@ + rest
}

impl DanmakuLine {
    /// How the list draws this line: a line without a sender is one wrapped
    /// text, `[ts] text`; a line with one is a name label `[ts] user:`
    /// followed by the wrapped body.
    pub fn display_parts(&self) -> (r: (Option<String>, String))
        ensures
            self.user@.len() == 0 ==> r.0 is None && r.1@ == stamped(self.timestamp@, self.text@),
            self.user@.len() != 0 ==> r.0 is Some && r.0->0@ == stamped(
                self.timestamp@,
                self.user@ + ":"@,
            ) && r.1@ == self.text@,
    {
        let mut head = String::new();
        push_str(&mut head, "[");
        push_str(&mut head, self.timestamp.as_str());
        push_str(&mut head, "] ");
        if self.user.as_str().is_empty() {
            push_str(&mut head, self.text.as_str());
            assert(head@ =~= stamped(self.timestamp@, self.text@));
            (None, head)
        } else {
            push_str(&mut head, self.user.as_str());
            push_str(&mut head, ":");
            assert(head@ =~= stamped(self.timestamp@, self.user@ + ":"@));
            let body = String::from_str(self.text.as_str());
            (Some(head), body)
        }
    }
}

} // verus!
