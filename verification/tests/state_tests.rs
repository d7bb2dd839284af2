use imbdmlive::state::{format_timestamp, LineKind, LocalTime, OverlayState};

fn at(hour: u16, minute: u16, second: u16) -> LocalTime {
    LocalTime { hour, minute, second }
}

#[test]
fn new_state_is_empty_and_disconnected() {
    let s = OverlayState::new("1597760".to_string());
    assert!(s.lines.is_empty());
    assert_eq!(s.rank_count, 0);
    assert_eq!(s.online_count, 0);
    assert_eq!(s.popularity, 0);
    assert!(!s.connected);
    assert_eq!(s.room_id, "1597760");
}

#[test]
fn shared_state_holds_a_fresh_state() {
    let shared = OverlayState::shared("42".to_string());
    let s = shared.lock().unwrap();
    assert!(s.lines.is_empty());
    assert_eq!(s.room_id, "42");
    assert!(!s.connected);
}

#[test]
fn timestamps_are_zero_padded() {
    assert_eq!(format_timestamp(at(9, 5, 7)), "09:05:07");
    assert_eq!(format_timestamp(at(23, 59, 59)), "23:59:59");
    assert_eq!(format_timestamp(at(0, 0, 0)), "00:00:00");
    assert_eq!(format_timestamp(at(123, 4, 60)), format!("{:02}:{:02}:{:02}", 123, 4, 60));
}

#[test]
fn lines_are_appended_oldest_first() {
    let mut s = OverlayState::new("1".to_string());
    s.push_danmu("alice".to_string(), "hello".to_string(), at(12, 0, 1));
    s.push_danmu("bob".to_string(), "world".to_string(), at(12, 0, 2));
    assert_eq!(s.lines.len(), 2);
    assert_eq!(s.lines[0].user, "alice");
    assert_eq!(s.lines[0].text, "hello");
    assert_eq!(s.lines[0].timestamp, "12:00:01");
    assert_eq!(s.lines[0].kind, LineKind::Danmu);
    assert_eq!(s.lines[1].user, "bob");
    assert_eq!(s.lines[1].timestamp, "12:00:02");
}

#[test]
fn gift_line_text() {
    let mut s = OverlayState::new("1".to_string());
    s.push_gift("carol".to_string(), "小心心".to_string(), "3".to_string(), at(8, 30, 0));
    let line = &s.lines[0];
    assert_eq!(line.kind, LineKind::Gift);
    assert_eq!(line.user, "carol");
    assert_eq!(line.text, "送出 小心心 × 3");
    assert_eq!(line.timestamp, "08:30:00");
}

#[test]
fn super_chat_guard_enter_and_system_lines() {
    let mut s = OverlayState::new("1".to_string());
    s.push_super_chat("dave".to_string(), "加油".to_string(), at(1, 2, 3));
    s.push_guard("erin".to_string(), "开通 舰长".to_string(), at(1, 2, 4));
    s.push_enter("frank".to_string(), at(1, 2, 5));
    s.push_system("已连接房间 1".to_string(), at(1, 2, 6));
    let kinds: Vec<LineKind> = s.lines.iter().map(|l| l.kind).collect();
    assert_eq!(
        kinds,
        vec![LineKind::SuperChat, LineKind::Guard, LineKind::Enter, LineKind::System]
    );
    assert_eq!(s.lines[0].text, "加油");
    assert_eq!(s.lines[1].text, "开通 舰长");
    assert_eq!(s.lines[2].user, "frank");
    assert_eq!(s.lines[2].text, "进入直播间");
    assert_eq!(s.lines[3].user, "");
    assert_eq!(s.lines[3].text, "已连接房间 1");
}

#[test]
fn pushes_leave_counters_alone() {
    let mut s = OverlayState::new("1".to_string());
    s.set_online(5, 1200);
    s.set_popularity(77);
    s.connected = true;
    s.push_danmu("u".to_string(), "t".to_string(), at(0, 0, 0));
    assert_eq!(s.rank_count, 5);
    assert_eq!(s.online_count, 1200);
    assert_eq!(s.popularity, 77);
    assert!(s.connected);
}

#[test]
fn set_online_and_popularity() {
    let mut s = OverlayState::new("1".to_string());
    s.set_online(10, 20);
    assert_eq!((s.rank_count, s.online_count), (10, 20));
    s.set_popularity(99);
    assert_eq!(s.popularity, 99);
    assert_eq!((s.rank_count, s.online_count), (10, 20));
}

#[test]
fn reset_returns_to_a_fresh_state_for_the_new_room() {
    let mut s = OverlayState::new("1".to_string());
    s.push_danmu("u".to_string(), "t".to_string(), at(0, 0, 0));
    s.set_online(1, 2);
    s.set_popularity(3);
    s.connected = true;
    s.reset("2".to_string());
    let fresh = OverlayState::new("2".to_string());
    assert!(s.lines.is_empty());
    assert_eq!(s.rank_count, fresh.rank_count);
    assert_eq!(s.online_count, fresh.online_count);
    assert_eq!(s.popularity, fresh.popularity);
    assert_eq!(s.connected, fresh.connected);
    assert_eq!(s.room_id, fresh.room_id);
}

#[test]
fn header_text_shows_status_room_and_online_count() {
    let mut s = OverlayState::new("1597760".to_string());
    assert_eq!(s.header_text(), "未连接 | 房间 1597760 | 在线 0");
    s.connected = true;
    s.set_online(3, 4521);
    assert_eq!(s.header_text(), "已连接 | 房间 1597760 | 在线 4521");
}

#[test]
fn display_parts_of_lines() {
    let mut s = OverlayState::new("1".to_string());
    s.push_danmu("alice".to_string(), "hi".to_string(), at(10, 11, 12));
    s.push_system("连接失败: x".to_string(), at(10, 11, 13));
    assert_eq!(
        s.lines[0].display_parts(),
        (Some("[10:11:12] alice:".to_string()), "hi".to_string())
    );
    assert_eq!(s.lines[1].display_parts(), (None, "[10:11:13] 连接失败: x".to_string()));
}

#[test]
fn trim_keeps_the_newest_lines_in_order() {
    let mut s = OverlayState::new("1".to_string());
    for i in 0..5u16 {
        s.push_danmu(format!("u{i}"), format!("t{i}"), at(0, 0, i));
    }
    s.set_online(7, 8);
    s.connected = true;
    s.trim_to(3);
    let texts: Vec<&str> = s.lines.iter().map(|l| l.text.as_str()).collect();
    assert_eq!(texts, vec!["t2", "t3", "t4"]);
    assert_eq!((s.rank_count, s.online_count), (7, 8));
    assert!(s.connected);
    assert_eq!(s.room_id, "1");
}

#[test]
fn trim_above_length_keeps_everything_and_zero_clears() {
    let mut s = OverlayState::new("1".to_string());
    s.push_danmu("a".to_string(), "x".to_string(), at(0, 0, 0));
    s.push_danmu("b".to_string(), "y".to_string(), at(0, 0, 1));
    s.trim_to(10);
    assert_eq!(s.lines.len(), 2);
    s.trim_to(0);
    assert!(s.lines.is_empty());
}
