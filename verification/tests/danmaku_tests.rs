use imbdmlive::danmaku::{
    apply, apply_raw, is_valid_room_id, DanmakuWorker, LiveMessage, StatusUpdate, WorkerCommand,
    WorkerEvent, WorkerPhase,
};
use imbdmlive::handle::DanmakuHandle;
use imbdmlive::json::JsonValue;
use imbdmlive::state::{LineKind, LocalTime, OverlayState};
use std::sync::atomic::Ordering;
use std::sync::Arc;

fn t0() -> LocalTime {
    LocalTime { hour: 20, minute: 15, second: 9 }
}

fn s(x: &str) -> String {
    x.to_string()
}

fn obj(members: Vec<(&str, JsonValue)>) -> JsonValue {
    JsonValue::Object(members.into_iter().map(|(k, v)| (k.to_string(), v)).collect())
}

fn text(x: &str) -> JsonValue {
    JsonValue::Str(x.to_string())
}

fn fresh() -> OverlayState {
    OverlayState::new(s("1597760"))
}

#[test]
fn danmu_and_gift_messages_add_lines() {
    let mut st = fresh();
    apply(LiveMessage::Danmu { user: s("a"), text: s("hi") }, &mut st, t0());
    apply(LiveMessage::Gift { user: s("b"), gift: s("辣条"), num: s("10") }, &mut st, t0());
    assert_eq!(st.lines.len(), 2);
    assert_eq!(st.lines[0].kind, LineKind::Danmu);
    assert_eq!(st.lines[0].text, "hi");
    assert_eq!(st.lines[0].timestamp, "20:15:09");
    assert_eq!(st.lines[1].kind, LineKind::Gift);
    assert_eq!(st.lines[1].text, "送出 辣条 × 10");
}

#[test]
fn online_rank_count_sets_counters() {
    let mut st = fresh();
    apply(LiveMessage::OnlineRankCount { count: 12, online_count: 3456 }, &mut st, t0());
    assert_eq!(st.rank_count, 12);
    assert_eq!(st.online_count, 3456);
    assert!(st.lines.is_empty());
}

#[test]
fn other_messages_are_ignored() {
    let mut st = fresh();
    apply(LiveMessage::Other, &mut st, t0());
    assert!(st.lines.is_empty());
    assert_eq!(st.online_count, 0);
}

#[test]
fn super_chat_from_raw_json() {
    let mut st = fresh();
    let v = obj(vec![
        ("cmd", text("SUPER_CHAT_MESSAGE")),
        (
            "data",
            obj(vec![
                ("message", text("主播好")),
                ("user_info", obj(vec![("uname", text("老板"))])),
                ("price", JsonValue::Number(s("30"))),
            ]),
        ),
    ]);
    apply(LiveMessage::Raw(v), &mut st, t0());
    assert_eq!(st.lines.len(), 1);
    assert_eq!(st.lines[0].kind, LineKind::SuperChat);
    assert_eq!(st.lines[0].user, "老板");
    assert_eq!(st.lines[0].text, "主播好");
}

#[test]
fn super_chat_without_message_is_ignored() {
    let mut st = fresh();
    let empty = obj(vec![
        ("cmd", text("SUPER_CHAT_MESSAGE")),
        ("data", obj(vec![("message", text("")), ("user_info", obj(vec![("uname", text("x"))]))])),
    ]);
    apply_raw(&empty, &mut st, t0());
    let missing = obj(vec![("cmd", text("SUPER_CHAT_MESSAGE")), ("data", JsonValue::Null)]);
    apply_raw(&missing, &mut st, t0());
    assert!(st.lines.is_empty());
}

#[test]
fn super_chat_without_user_has_empty_sender() {
    let mut st = fresh();
    let v = obj(vec![
        ("cmd", text("SUPER_CHAT_MESSAGE")),
        ("data", obj(vec![("message", text("hello")), ("user_info", JsonValue::Bool(true))])),
    ]);
    apply_raw(&v, &mut st, t0());
    assert_eq!(st.lines[0].user, "");
    assert_eq!(st.lines[0].text, "hello");
}

#[test]
fn guard_buy_from_raw_json() {
    let mut st = fresh();
    let v = obj(vec![
        ("cmd", text("GUARD_BUY")),
        ("data", obj(vec![("username", text("船长")), ("gift_name", text("提督"))])),
    ]);
    apply_raw(&v, &mut st, t0());
    assert_eq!(st.lines[0].kind, LineKind::Guard);
    assert_eq!(st.lines[0].user, "船长");
    assert_eq!(st.lines[0].text, "开通 提督");
}

#[test]
fn guard_buy_defaults_to_captain() {
    let mut st = fresh();
    let v = obj(vec![("cmd", text("GUARD_BUY"))]);
    apply_raw(&v, &mut st, t0());
    assert_eq!(st.lines.len(), 1);
    assert_eq!(st.lines[0].user, "");
    assert_eq!(st.lines[0].text, "开通 舰长");
}

#[test]
fn unknown_or_malformed_raw_commands_are_ignored() {
    let mut st = fresh();
    apply_raw(&obj(vec![("cmd", text("INTERACT_WORD"))]), &mut st, t0());
    apply_raw(&obj(vec![("cmd", JsonValue::Number(s("1")))]), &mut st, t0());
    apply_raw(&JsonValue::Array(vec![text("GUARD_BUY")]), &mut st, t0());
    apply_raw(&text("GUARD_BUY"), &mut st, t0());
    assert!(st.lines.is_empty());
}

#[test]
fn json_lookup_takes_the_first_member() {
    let v = obj(vec![("k", text("first")), ("k", text("second"))]);
    assert_eq!(v.get("k").and_then(|x| x.as_str()), Some("first"));
    assert!(v.get("missing").is_none());
    assert!(text("x").get("k").is_none());
}

#[test]
fn room_id_validation() {
    assert!(is_valid_room_id("1597760"));
    assert!(is_valid_room_id(" 1597760\n"));
    assert!(!is_valid_room_id("abc"));
    assert!(!is_valid_room_id(""));
}

#[test]
fn worker_rejects_an_invalid_room() {
    let mut w = DanmakuWorker::new(s("abc"));
    let (cmd, upd) = w.step(WorkerEvent::Begin);
    assert_eq!(cmd, WorkerCommand::Finish);
    assert_eq!(w.phase, WorkerPhase::Finished);
    match upd {
        StatusUpdate::Failed(n) => assert_eq!(n, "无效房间号: abc"),
        _ => panic!("expected a failure notice"),
    }
}

#[test]
fn worker_connects_runs_and_stops() {
    let mut st = fresh();
    let mut w = DanmakuWorker::new(s("1597760"));

    let (cmd, upd) = w.step(WorkerEvent::Begin);
    assert_eq!(cmd, WorkerCommand::Connect);
    assert!(matches!(upd, StatusUpdate::Keep));
    st.apply_update(upd, t0());
    assert!(st.lines.is_empty());

    let (cmd, upd) = w.step(WorkerEvent::Connected);
    assert_eq!(cmd, WorkerCommand::Poll);
    st.apply_update(upd, t0());
    assert!(st.connected);
    assert_eq!(st.lines[0].kind, LineKind::System);
    assert_eq!(st.lines[0].text, "已连接房间 1597760");

    let (cmd, upd) = w.step(WorkerEvent::Received(LiveMessage::Danmu { user: s("u"), text: s("x") }));
    assert_eq!(cmd, WorkerCommand::Poll);
    st.apply_update(upd, t0());
    assert_eq!(st.lines.len(), 2);
    assert_eq!(st.lines[1].text, "x");

    let (cmd, upd) = w.step(WorkerEvent::NothingPending);
    assert_eq!(cmd, WorkerCommand::Wait);
    assert!(matches!(upd, StatusUpdate::Keep));

    let (cmd, upd) = w.step(WorkerEvent::StopRequested);
    assert_eq!(cmd, WorkerCommand::Finish);
    assert_eq!(w.phase, WorkerPhase::Finished);
    st.apply_update(upd, t0());
    assert!(!st.connected);
    assert_eq!(st.lines.len(), 2);
}

#[test]
fn worker_reports_connection_failure() {
    let mut st = fresh();
    let mut w = DanmakuWorker::new(s("42"));
    w.step(WorkerEvent::Begin);
    let (cmd, upd) = w.step(WorkerEvent::ConnectFailed(s("timed out")));
    assert_eq!(cmd, WorkerCommand::Finish);
    st.connected = true;
    st.apply_update(upd, t0());
    assert!(!st.connected);
    assert_eq!(st.lines[0].text, "连接失败: timed out");
}

#[test]
fn closed_channel_ends_the_worker() {
    let mut w = DanmakuWorker::new(s("42"));
    w.step(WorkerEvent::Begin);
    w.step(WorkerEvent::Connected);
    let (cmd, upd) = w.step(WorkerEvent::ChannelClosed);
    assert_eq!(cmd, WorkerCommand::Finish);
    assert!(matches!(upd, StatusUpdate::Offline));
}

#[test]
fn finished_worker_ignores_everything() {
    let mut w = DanmakuWorker::new(s("x"));
    w.step(WorkerEvent::Begin);
    assert_eq!(w.phase, WorkerPhase::Finished);
    let (cmd, upd) = w.step(WorkerEvent::Received(LiveMessage::Other));
    assert_eq!(cmd, WorkerCommand::Finish);
    assert!(matches!(upd, StatusUpdate::Keep));
    let (cmd, upd) = w.step(WorkerEvent::Connected);
    assert_eq!(cmd, WorkerCommand::Finish);
    assert!(matches!(upd, StatusUpdate::Keep));
}

#[test]
fn unexpected_event_stops_the_worker() {
    let mut w = DanmakuWorker::new(s("42"));
    let (cmd, upd) = w.step(WorkerEvent::NothingPending);
    assert_eq!(cmd, WorkerCommand::Finish);
    assert!(matches!(upd, StatusUpdate::Offline));
}

#[test]
fn handle_stop_raises_the_flag() {
    let h = DanmakuHandle::new();
    assert!(!h.stop_flag().load(Ordering::SeqCst));
    h.stop();
    assert!(h.stop_flag().load(Ordering::SeqCst));
}

#[test]
fn dropping_the_handle_raises_the_flag() {
    let h = DanmakuHandle::new();
    let flag = Arc::clone(h.stop_flag());
    drop(h);
    assert!(flag.load(Ordering::SeqCst));
}
