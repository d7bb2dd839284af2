//! What the live-room connection does to the overlay: the events it delivers,
//! how each one changes the overlay state, and the decisions of the worker
//! that connects to a room and drains its events.

use vstd::prelude::*;

use crate::json::{field, field_of, get_in, text_of, text_or, text_or_default, JsonValue};
use crate::state::{clock_text, gift_text, LineKind, LocalTime, OverlayState};
use crate::text::{chars_parse_as_u64, parses_as_u64, push_str, same_text, trim, trimmed_chars};

verus! {

/// One event from the live room, as the client library decodes it.
pub enum LiveMessage {
    /// A regular danmaku.
    Danmu { user: String, text: String },
    /// A gift; `num` is the count as the room reports it.
    Gift { user: String, gift: String, num: String },
    /// The high-energy rank count and the online viewer count.
    OnlineRankCount { count: u64, online_count: u64 },
    /// A command the client has no typed variant for, as raw JSON.
    Raw(JsonValue),
    /// Any other event; the overlay ignores it.
    Other,
}

/// The line a raw command adds, as `(kind, user, text)`, if any: a Super Chat
/// with a non-empty message, or a guard purchase.
pub open spec fn raw_line(v: JsonValue) -> Option<(LineKind, Seq<char>, Seq<char>)> {
    let cmd = text_or(text_of(field(v, "cmd"@)), Seq::empty());
    let data = field(v, "data"@);
    if cmd == "SUPER_CHAT_MESSAGE"@ {
        let user = text_or(
            text_of(field_of(field_of(data, "user_info"@), "uname"@)),
            Seq::empty(),
        );
        let text = text_or(text_of(field_of(data, "message"@)), Seq::empty());
        if text.len() > 0 {
            Some((LineKind::SuperChat, user, text))
        } else {
            None
        }
    } else if cmd == "GUARD_BUY"@ {
        let user = text_or(text_of(field_of(data, "username"@)), Seq::empty());
        let gift = text_or(text_of(field_of(data, "gift_name"@)), "舰长"@);
        Some((LineKind::Guard, user, "开通 "@ + gift))
    } else {
        None
    }
}

/// `new` is `old` after the raw command `v` arrived at `time`.
pub open spec fn raw_applied(new: OverlayState, old: OverlayState, v: JsonValue, time: LocalTime) -> bool {
    match raw_line(v) {
        Some(line) => new.appended(old, line.0, clock_text(time), line.1, line.2),
        None => new == old,
    }
}

/// `new` is `old` after `msg` arrived at `time`.
pub open spec fn message_applied(
    new: OverlayState,
    old: OverlayState,
    msg: LiveMessage,
    time: LocalTime,
) -> bool {
    match msg {
        LiveMessage::Danmu { user, text } => new.appended(
            old,
            LineKind::Danmu,
            clock_text(time),
            user@,
            text@,
        ),
        LiveMessage::Gift { user, gift, num } => new.appended(
            old,
            LineKind::Gift,
            clock_text(time),
            user@,
            gift_text(gift@, num@),
        ),
        LiveMessage::OnlineRankCount { count, online_count } => {
            &&& new.rank_count == count
            &&& new.online_count == online_count
            &&& new.lines == old.lines
            &&& new.popularity == old.popularity
            &&& new.connected == old.connected
            &&& new.room_id == old.room_id
        },
        LiveMessage::Raw(v) => raw_applied(new, old, v, time),
        LiveMessage::Other => new == old,
    }
}

/// Maps one raw command into the overlay state.
pub fn apply_raw(v: &JsonValue, s: &mut OverlayState, time: LocalTime)
    ensures
        raw_applied(*final(s), *old(s), *v, time),
{
    proof {
        reveal_strlit("");
    }
    let cmd = text_or_default(v.get("cmd"), "");
    let data = v.get("data");
    assert(cmd@ == text_or(text_of(field(*v, "cmd"@)), Seq::empty()));
    assert(crate::json::deref_opt(data) == field(*v, "data"@));
    if same_text(cmd.as_str(), "SUPER_CHAT_MESSAGE") {
        let user = text_or_default(get_in(get_in(data, "user_info"), "uname"), "");
        let text = text_or_default(get_in(data, "message"), "");
        assert(user@ == text_or(
            text_of(field_of(field_of(field(*v, "data"@), "user_info"@), "uname"@)),
            Seq::empty(),
        ));
        assert(text@ == text_or(text_of(field_of(field(*v, "data"@), "message"@)), Seq::empty()));
        if !text.as_str().is_empty() {
            s.push_super_chat(user, text, time);
        }
    } else if same_text(cmd.as_str(), "GUARD_BUY") {
        let user = text_or_default(get_in(data, "username"), "");
        let gift = text_or_default(get_in(data, "gift_name"), "舰长");
        assert(user@ == text_or(text_of(field_of(field(*v, "data"@), "username"@)), Seq::empty()));
        assert(gift@ == text_or(text_of(field_of(field(*v, "data"@), "gift_name"@)), "舰长"@));
        assert(cmd@ == "GUARD_BUY"@);
        assert(cmd@ != "SUPER_CHAT_MESSAGE"@);
        let mut text = String::new();
        push_str(&mut text, "开通 ");
        push_str(&mut text, gift.as_str());
        assert(text@ =~= "开通 "@ + gift@);
        s.push_guard(user, text, time);
    }
}

/// Maps one live-room event into the overlay state.
pub fn apply(msg: LiveMessage, s: &mut OverlayState, time: LocalTime)
    ensures
        message_applied(*final(s), *old(s), msg, time),
{
    match msg {
        LiveMessage::Danmu { user, text } => s.push_danmu(user, text, time),
        LiveMessage::Gift { user, gift, num } => s.push_gift(user, gift, num, time),
        LiveMessage::OnlineRankCount { count, online_count } => s.set_online(count, online_count),
        LiveMessage::Raw(v) => apply_raw(&v, s, time),
        LiveMessage::Other => {},
    }
}

/// Whether `room_id` names a room: after trimming, a number that fits a `u64`.
pub fn is_valid_room_id(room_id: &str) -> (b: bool)
    ensures
        b == parses_as_u64(trim(room_id@)),
{
    let t = trimmed_chars(room_id);
    chars_parse_as_u64(&t)
}

/// What each live-room event does to the overlay, field by field: a danmaku
/// or a gift adds one line at the end that carries the event's sender, a
/// danmaku's text or a gift's `送出 {gift} × {num}`, and the arrival time;
/// a rank count sets the two counters; an event the overlay does not show
/// changes nothing. Older lines are kept as they were.
pub proof fn lemma_event_effects(
    new: OverlayState,
    old: OverlayState,
    msg: LiveMessage,
    time: LocalTime,
)
    requires
        message_applied(new, old, msg, time),
    ensures
        msg matches LiveMessage::Danmu { user, text } ==> {
            &&& new.lines@.len() == old.lines@.len() + 1
            &&& forall|i: int| 0 <= i < old.lines@.len() ==> new.lines@[i] == old.lines@[i]
            &&& new.lines@.last().kind == LineKind::Danmu
            &&& new.lines@.last().user@ == user@
            &&& new.lines@.last().text@ == text@
            &&& new.lines@.last().timestamp@ == clock_text(time)
            &&& new.online_count == old.online_count && new.rank_count == old.rank_count
            &&& new.connected == old.connected
        },
        msg matches LiveMessage::Gift { user, gift, num } ==> {
            &&& new.lines@.len() == old.lines@.len() + 1
            &&& forall|i: int| 0 <= i < old.lines@.len() ==> new.lines@[i] == old.lines@[i]
            &&& new.lines@.last().kind == LineKind::Gift
            &&& new.lines@.last().user@ == user@
            &&& new.lines@.last().text@ == "送出 "@ + gift@ + " × "@ + num@
            &&& new.lines@.last().timestamp@ == clock_text(time)
            &&& new.online_count == old.online_count && new.rank_count == old.rank_count
            &&& new.connected == old.connected
        },
        msg matches LiveMessage::OnlineRankCount { count, online_count } ==> {
            &&& new.rank_count == count
            &&& new.online_count == online_count
            &&& new.lines@ == old.lines@
            &&& new.connected == old.connected
        },
        msg is Other ==> new == old,
{
    match msg {
        LiveMessage::Danmu { user, text } => {
            assert forall|i: int| 0 <= i < old.lines@.len() implies new.lines@[i]
                == old.lines@[i] by {
                assert(new.lines@.drop_last()[i] == new.lines@[i]);
            }
        },
        LiveMessage::Gift { user, gift, num } => {
            assert forall|i: int| 0 <= i < old.lines@.len() implies new.lines@[i]
                == old.lines@[i] by {
                assert(new.lines@.drop_last()[i] == new.lines@[i]);
            }
        },
        _ => {},
    }
}

/// Only the two commands the overlay knows change it, and only by their exact
/// name: a raw command whose `cmd` text is neither `SUPER_CHAT_MESSAGE` nor
/// `GUARD_BUY` (a missing or non-text `cmd` counts as empty) leaves the state
/// as it was, and one that adds a line adds exactly one, at the end.
pub proof fn lemma_raw_commands_by_exact_name(
    new: OverlayState,
    old: OverlayState,
    v: JsonValue,
    time: LocalTime,
)
    requires
        raw_applied(new, old, v, time),
    ensures
        ({
            let cmd = text_or(text_of(field(v, "cmd"@)), Seq::empty());
            &&& (cmd != "SUPER_CHAT_MESSAGE"@ && cmd != "GUARD_BUY"@) ==> new == old
            &&& cmd == "GUARD_BUY"@ ==> {
                &&& new.lines@.len() == old.lines@.len() + 1
                &&& new.lines@.last().kind == LineKind::Guard
                &&& new.lines@.last().user@ == text_or(
                    text_of(field_of(field(v, "data"@), "username"@)),
                    Seq::empty(),
                )
                &&& new.lines@.last().text@ == "开通 "@ + text_or(
                    text_of(field_of(field(v, "data"@), "gift_name"@)),
                    "舰长"@,
                )
            }
            &&& cmd == "SUPER_CHAT_MESSAGE"@ ==> {
                let text = text_or(text_of(field_of(field(v, "data"@), "message"@)), Seq::empty());
                &&& text.len() == 0 ==> new == old
                &&& text.len() > 0 ==> {
                    &&& new.lines@.len() == old.lines@.len() + 1
                    &&& new.lines@.last().kind == LineKind::SuperChat
                    &&& new.lines@.last().text@ == text
                    &&& new.lines@.last().user@ == text_or(
                        text_of(field_of(field_of(field(v, "data"@), "user_info"@), "uname"@)),
                        Seq::empty(),
                    )
                }
            }
        }),
{
    reveal_strlit("SUPER_CHAT_MESSAGE");
    reveal_strlit("GUARD_BUY");
    assert("SUPER_CHAT_MESSAGE"@ != "GUARD_BUY"@) by {
        assert("SUPER_CHAT_MESSAGE"@.len() != "GUARD_BUY"@.len());
    }
}

// ---------------------------------------------------------------------------
// The connection worker
// ---------------------------------------------------------------------------

/// Where the connection worker stands.
#[derive(Clone, Copy, Debug, PartialEq, Eq, Structural)]
pub enum WorkerPhase {
    /// Not started yet.
    Idle,
    /// Waiting for the client to connect.
    Connecting,
    /// Connected; draining events.
    Running,
    /// Done; the worker thread ends.
    Finished,
}

/// What happened, as the thread that runs the worker reports it.
pub enum WorkerEvent {
    /// The worker thread has started.
    Begin,
    /// The client connected and authenticated.
    Connected,
    /// The client could not connect, with the client's error text.
    ConnectFailed(String),
    /// The handle asked the worker to stop.
    StopRequested,
    /// An event arrived from the room.
    Received(LiveMessage),
    /// No event is waiting.
    NothingPending,
    /// The client dropped its end of the event channel.
    ChannelClosed,
}

/// What the thread that runs the worker does next.
#[derive(Clone, Copy, Debug, PartialEq, Eq, Structural)]
pub enum WorkerCommand {
    /// Connect to the room, then report `Connected` or `ConnectFailed`.
    Connect,
    /// Check the stop flag, then the event channel, and report what it found.
    Poll,
    /// Sleep briefly, then poll.
    Wait,
    /// End the thread.
    Finish,
}

/// How the overlay state changes with a step of the worker.
pub enum StatusUpdate {
    /// No change.
    Keep,
    /// Show the notice and mark the overlay disconnected.
    Failed(String),
    /// Mark the overlay connected and show the notice.
    Online(String),
    /// Apply an event from the room.
    Deliver(LiveMessage),
    /// Mark the overlay disconnected.
    Offline,
}

/// The update leaves the overlay marked disconnected.
pub open spec fn disconnects(u: StatusUpdate) -> bool {
    u is Failed || u is Offline
}

/// The step from a phase on an event it does not expect: the worker stops.
pub open spec fn stops_unexpectedly(next: WorkerPhase, cmd: WorkerCommand, upd: StatusUpdate) -> bool {
    next == WorkerPhase::Finished && cmd == WorkerCommand::Finish && upd is Offline
}

/// One step of the worker for `room`: in `phase`, on `event`, it moves to
/// `next`, tells its thread to do `cmd`, and changes the overlay by `upd`.
pub open spec fn transition(
    phase: WorkerPhase,
    room: Seq<char>,
    event: WorkerEvent,
    next: WorkerPhase,
    cmd: WorkerCommand,
    upd: StatusUpdate,
) -> bool {
    match phase {
        WorkerPhase::Idle => match event {
            WorkerEvent::Begin => if parses_as_u64(trim(room)) {
                next == WorkerPhase::Connecting && cmd == WorkerCommand::Connect && upd is Keep
            } else {
                &&& next == WorkerPhase::Finished
                &&& cmd == WorkerCommand::Finish
                &&& upd matches StatusUpdate::Failed(n) && n@ == "无效房间号: "@ + room
            },
            _ => stops_unexpectedly(next, cmd, upd),
        },
        WorkerPhase::Connecting => match event {
            WorkerEvent::Connected => {
                &&& next == WorkerPhase::Running
                &&& cmd == WorkerCommand::Poll
                &&& upd matches StatusUpdate::Online(n) && n@ == "已连接房间 "@ + room
            },
            WorkerEvent::ConnectFailed(e) => {
                &&& next == WorkerPhase::Finished
                &&& cmd == WorkerCommand::Finish
                &&& upd matches StatusUpdate::Failed(n) && n@ == "连接失败: "@ + e@
            },
            _ => stops_unexpectedly(next, cmd, upd),
        },
        WorkerPhase::Running => match event {
            WorkerEvent::StopRequested => {
                next == WorkerPhase::Finished && cmd == WorkerCommand::Finish && upd is Offline
            },
            WorkerEvent::Received(m) => {
                next == WorkerPhase::Running && cmd == WorkerCommand::Poll && upd
                    == StatusUpdate::Deliver(m)
            },
            WorkerEvent::NothingPending => {
                next == WorkerPhase::Running && cmd == WorkerCommand::Wait && upd is Keep
            },
            WorkerEvent::ChannelClosed => {
                next == WorkerPhase::Finished && cmd == WorkerCommand::Finish && upd is Offline
            },
            _ => stops_unexpectedly(next, cmd, upd),
        },
        WorkerPhase::Finished => {
            next == WorkerPhase::Finished && cmd == WorkerCommand::Finish && upd is Keep
        },
    }
}

/// The decisions of the thread that connects to one room and streams its
/// events into the overlay.
pub struct DanmakuWorker {
    pub room_id: String,
    pub phase: WorkerPhase,
}

fn notice(prefix: &str, rest: &str) -> (s: String)
    ensures
        s@ == prefix@ + rest@,
{
    let mut s = String::new();
    push_str(&mut s, prefix);
    push_str(&mut s, rest);
    assert(s@ =~= prefix@ + rest@);
    s
}

impl DanmakuWorker {
    pub fn new(room_id: String) -> (w: Self)
        ensures
            w.room_id == room_id,
            w.phase == WorkerPhase::Idle,
    {
        DanmakuWorker { room_id, phase: WorkerPhase::Idle }
    }

    /// Takes one event and says what the thread does next and how the
    /// overlay changes.
    pub fn step(&mut self, event: WorkerEvent) -> (r: (WorkerCommand, StatusUpdate))
        ensures
            transition(old(self).phase, old(self).room_id@, event, final(self).phase, r.0, r.1),
            final(self).room_id == old(self).room_id,
    {
        match self.phase {
            WorkerPhase::Idle => match event {
                WorkerEvent::Begin => {
                    if is_valid_room_id(self.room_id.as_str()) {
                        self.phase = WorkerPhase::Connecting;
                        (WorkerCommand::Connect, StatusUpdate::Keep)
                    } else {
                        self.phase = WorkerPhase::Finished;
                        let n = notice("无效房间号: ", self.room_id.as_str());
                        (WorkerCommand::Finish, StatusUpdate::Failed(n))
                    }
                },
                _ => {
                    self.phase = WorkerPhase::Finished;
                    (WorkerCommand::Finish, StatusUpdate::Offline)
                },
            },
            WorkerPhase::Connecting => match event {
                WorkerEvent::Connected => {
                    self.phase = WorkerPhase::Running;
                    let n = notice("已连接房间 ", self.room_id.as_str());
                    (WorkerCommand::Poll, StatusUpdate::Online(n))
                },
                WorkerEvent::ConnectFailed(e) => {
                    self.phase = WorkerPhase::Finished;
                    let n = notice("连接失败: ", e.as_str());
                    (WorkerCommand::Finish, StatusUpdate::Failed(n))
                },
                _ => {
                    self.phase = WorkerPhase::Finished;
                    (WorkerCommand::Finish, StatusUpdate::Offline)
                },
            },
            WorkerPhase::Running => match event {
                WorkerEvent::StopRequested => {
                    self.phase = WorkerPhase::Finished;
                    (WorkerCommand::Finish, StatusUpdate::Offline)
                },
                WorkerEvent::Received(m) => (WorkerCommand::Poll, StatusUpdate::Deliver(m)),
                WorkerEvent::NothingPending => (WorkerCommand::Wait, StatusUpdate::Keep),
                WorkerEvent::ChannelClosed => {
                    self.phase = WorkerPhase::Finished;
                    (WorkerCommand::Finish, StatusUpdate::Offline)
                },
                _ => {
                    self.phase = WorkerPhase::Finished;
                    (WorkerCommand::Finish, StatusUpdate::Offline)
                },
            },
            WorkerPhase::Finished => (WorkerCommand::Finish, StatusUpdate::Keep),
        }
    }
}

/// `new` is `old` changed by `upd`, with any line stamped `time`.
pub open spec fn update_applied(
    new: OverlayState,
    old: OverlayState,
    upd: StatusUpdate,
    time: LocalTime,
) -> bool {
    match upd {
        StatusUpdate::Keep => new == old,
        StatusUpdate::Failed(n) => {
            &&& new.lines@.len() == old.lines@.len() + 1
            &&& new.lines@.drop_last() == old.lines@
            &&& new.lines@.last().reads(LineKind::System, clock_text(time), Seq::empty(), n@)
            &&& !new.connected
            &&& new.rank_count == old.rank_count
            &&& new.online_count == old.online_count
            &&& new.popularity == old.popularity
            &&& new.room_id == old.room_id
        },
        StatusUpdate::Online(n) => {
            &&& new.lines@.len() == old.lines@.len() + 1
            &&& new.lines@.drop_last() == old.lines@
            &&& new.lines@.last().reads(LineKind::System, clock_text(time), Seq::empty(), n@)
            &&& new.connected
            &&& new.rank_count == old.rank_count
            &&& new.online_count == old.online_count
            &&& new.popularity == old.popularity
            &&& new.room_id == old.room_id
        },
        StatusUpdate::Deliver(m) => message_applied(new, old, m, time),
        StatusUpdate::Offline => {
            &&& !new.connected
            &&& new.lines == old.lines
            &&& new.rank_count == old.rank_count
            &&& new.online_count == old.online_count
            &&& new.popularity == old.popularity
            &&& new.room_id == old.room_id
        },
    }
}

impl OverlayState {
    /// Changes the overlay as a step of the connection worker asks.
    pub fn apply_update(&mut self, upd: StatusUpdate, time: LocalTime)
        ensures
            update_applied(*final(self), *old(self), upd, time),
            disconnects(upd) ==> !final(self).connected,
    {
        match upd {
            StatusUpdate::Keep => {},
            StatusUpdate::Failed(n) => {
                self.push_system(n, time);
                self.connected = false;
            },
            StatusUpdate::Online(n) => {
                self.connected = true;
                self.push_system(n, time);
            },
            StatusUpdate::Deliver(m) => apply(m, self, time),
            StatusUpdate::Offline => {
                self.connected = false;
            },
        }
    }
}

// ---------------------------------------------------------------------------
// Laws of the worker
// ---------------------------------------------------------------------------

/// Whenever the worker finishes, it leaves the overlay marked disconnected:
/// a step into `Finished` from any other phase carries an update that
/// disconnects.
pub proof fn lemma_finishing_disconnects(
    phase: WorkerPhase,
    room: Seq<char>,
    event: WorkerEvent,
    next: WorkerPhase,
    cmd: WorkerCommand,
    upd: StatusUpdate,
)
    requires
        transition(phase, room, event, next, cmd, upd),
        phase != WorkerPhase::Finished,
        next == WorkerPhase::Finished,
    ensures
        disconnects(upd),
{
}

/// A finished worker stays finished and changes nothing, whatever it is told.
pub proof fn lemma_finished_is_final(
    room: Seq<char>,
    event: WorkerEvent,
    next: WorkerPhase,
    cmd: WorkerCommand,
    upd: StatusUpdate,
)
    requires
        transition(WorkerPhase::Finished, room, event, next, cmd, upd),
    ensures
        next == WorkerPhase::Finished,
        cmd == WorkerCommand::Finish,
        upd is Keep,
{
}

/// The thread is told to end exactly when the worker has finished.
pub proof fn lemma_finish_exactly_when_finished(
    phase: WorkerPhase,
    room: Seq<char>,
    event: WorkerEvent,
    next: WorkerPhase,
    cmd: WorkerCommand,
    upd: StatusUpdate,
)
    requires
        transition(phase, room, event, next, cmd, upd),
    ensures
        (cmd == WorkerCommand::Finish) <==> (next == WorkerPhase::Finished),
{
}

/// Room events reach the overlay only while the worker is running, and
/// delivering one keeps it running.
pub proof fn lemma_delivery_only_while_running(
    phase: WorkerPhase,
    room: Seq<char>,
    event: WorkerEvent,
    next: WorkerPhase,
    cmd: WorkerCommand,
    upd: StatusUpdate,
)
    requires
        transition(phase, room, event, next, cmd, upd),
        upd is Deliver,
    ensures
        phase == WorkerPhase::Running,
        next == WorkerPhase::Running,
        event is Received,
{
}

/// The overlay is marked connected only when a connection attempt succeeds,
/// and only a room id that parses as a number is ever connected to.
pub proof fn lemma_online_only_after_connect(
    phase: WorkerPhase,
    room: Seq<char>,
    event: WorkerEvent,
    next: WorkerPhase,
    cmd: WorkerCommand,
    upd: StatusUpdate,
)
    requires
        transition(phase, room, event, next, cmd, upd),
    ensures
        upd is Online ==> phase == WorkerPhase::Connecting && event is Connected,
        cmd == WorkerCommand::Connect ==> phase == WorkerPhase::Idle && parses_as_u64(trim(room)),
{
}

} // verus!
