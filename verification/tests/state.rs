use blive::ui::RoomNumberInput;
use blive::ui::room_settings_form;
use blive::api::{LiveRoomInfoData, LiveStatus, LiveUserInfo};
use blive::settings::{GlobalSettings, Quality, RoomSettings, StreamCodec};
use blive::state::{
    AppState, DownloaderPresence, DownloaderStatus, PollAction, ReconnectManager, RoomCardState, RoomCardStatus,
};
use blive::ui::{before_first_space_exec, downloader_status_text, record_click_starts, record_label, room_card_view, room_count_text};

fn global() -> GlobalSettings {
    GlobalSettings::default_with_record_dir("/rec".to_string())
}

fn info(room_id: u64, status: LiveStatus) -> LiveRoomInfoData {
    LiveRoomInfoData {
        room_id,
        short_id: 0,
        live_status: status,
        title: "title".into(),
        area_name: "area".into(),
        live_time: "2024-05-06 07:08:09".into(),
        attention: 1234,
        user_cover: "cover".into(),
        ..Default::default()
    }
}

fn user() -> LiveUserInfo {
    LiveUserInfo { uname: "up".into(), ..Default::default() }
}

fn app_with_room(room_id: u64) -> AppState {
    let mut g = global();
    g.rooms.push(RoomSettings::new(room_id));
    let mut app = AppState::from_settings(g);
    app.add_room_state(room_id, RoomSettings::new(room_id));
    app
}

#[test]
fn reconnect_manager_counts_retries() {
    let mut m = ReconnectManager::new(3, 1000, 30000);
    assert!(m.should_reconnect());
    assert_eq!(m.exponential_delay_ms(), 1000);
    m.increment_attempt();
    assert_eq!(m.exponential_delay_ms(), 2000);
    m.increment_attempt();
    m.increment_attempt();
    assert!(!m.should_reconnect());
    assert_eq!(m.exponential_delay_ms(), 8000);
    m.reset_attempts();
    assert!(m.should_reconnect());
    assert_eq!(m.exponential_delay_ms(), 1000);
    assert_eq!(m.max_delay_ms(), 30000);
}

#[test]
fn backoff_stops_growing_after_ten_retries() {
    let mut m = ReconnectManager::new(100, 1000, 30000);
    let mut last = 0;
    for _ in 0..15 {
        let d = m.exponential_delay_ms();
        assert!(d >= last);
        last = d;
        m.increment_attempt();
    }
    assert_eq!(last, 1000 * 1024);
    assert_eq!(ReconnectManager::new(1, u64::MAX, 0).exponential_delay_ms(), 0u128 + u64::MAX as u128);
}

#[test]
fn new_room_state_defaults() {
    let s = RoomCardState::new(5, RoomSettings::new(5));
    assert_eq!(s.room_id, 5);
    assert_eq!(s.status, RoomCardStatus::WaitLiveStreaming);
    assert!(!s.user_stop && !s.reconnecting);
    assert!(s.room_info.is_none() && s.user_info.is_none() && s.downloader_status.is_none());
    assert!(s.reconnect_manager.should_reconnect());
    assert_eq!(s.reconnect_manager.exponential_delay_ms(), 1000);
    assert_eq!(s.reconnect_manager.max_delay_ms(), 30000);
}

#[test]
fn from_settings_fills_room_choices() {
    let mut g = global();
    g.quality = Quality::HD;
    let mut r = RoomSettings::new(1);
    r.codec = Some(StreamCodec::AVC);
    g.rooms.push(r);
    let app = AppState::from_settings(g);
    assert!(app.room_states.is_empty());
    let s = app.get_room_settings(1).unwrap();
    assert_eq!(s.quality, Some(Quality::HD));
    assert_eq!(s.codec, Some(StreamCodec::AVC));
    assert_eq!(s.record_dir.as_deref(), Some("/rec"));
}

#[test]
fn room_states_are_added_once_and_removed() {
    let mut app = AppState::from_settings(global());
    app.add_room_state(1, RoomSettings::new(1));
    app.add_room_state(2, RoomSettings::new(2));
    app.add_room_state(1, RoomSettings::new(1));
    assert_eq!(app.room_states.len(), 2);
    assert!(app.has_room_state(1) && app.has_room_state(2));
    assert_eq!(app.get_room_state(2).unwrap().room_id, 2);
    app.remove_room_state(1);
    assert!(!app.has_room_state(1));
    assert!(app.get_room_state(1).is_none());
    assert_eq!(app.room_states.len(), 1);
}

#[test]
fn poll_of_live_room_creates_downloader() {
    let mut app = app_with_room(10);
    let a = app.apply_poll(10, Some(info(10, LiveStatus::Live)), Some(user()), DownloaderPresence::Absent);
    match a {
        PollAction::CreateAndStart { settings } => {
            assert_eq!(settings.room_id, 10);
            assert_eq!(settings.record_dir.as_deref(), Some("/rec"));
            assert_eq!(settings.quality, Some(Quality::Original));
        },
        other => panic!("unexpected {:?}", other),
    }
    let s = app.get_room_state(10).unwrap();
    assert_eq!(s.room_info.as_ref().unwrap().title, "title");
    assert_eq!(s.user_info.as_ref().unwrap().uname, "up");
}

#[test]
fn poll_of_live_room_starts_idle_downloader() {
    let mut app = app_with_room(10);
    let a = app.apply_poll(10, Some(info(10, LiveStatus::Live)), Some(user()), DownloaderPresence::Idle);
    match a {
        PollAction::StartExisting { record_dir } => assert_eq!(record_dir, "/rec"),
        other => panic!("unexpected {:?}", other),
    }
    let a = app.apply_poll(10, Some(info(10, LiveStatus::Live)), Some(user()), DownloaderPresence::Running);
    assert!(matches!(a, PollAction::Nothing));
}

#[test]
fn poll_respects_user_stop_and_stops_offline_rooms() {
    let mut app = app_with_room(10);
    app.stop_recording(10, true);
    assert!(app.get_room_state(10).unwrap().user_stop);
    let a = app.apply_poll(10, Some(info(10, LiveStatus::Live)), Some(user()), DownloaderPresence::Absent);
    assert!(matches!(a, PollAction::Nothing));
    app.start_recording(10, true);
    assert!(!app.get_room_state(10).unwrap().user_stop);
    let a = app.apply_poll(10, Some(info(10, LiveStatus::Carousel)), Some(user()), DownloaderPresence::Running);
    assert!(matches!(a, PollAction::Stop));
    let a = app.apply_poll(10, Some(info(10, LiveStatus::Offline)), Some(user()), DownloaderPresence::Absent);
    assert!(matches!(a, PollAction::Nothing));
}

#[test]
fn partial_poll_keeps_what_was_read() {
    let mut app = app_with_room(10);
    let a = app.apply_poll(10, Some(info(10, LiveStatus::Live)), None, DownloaderPresence::Absent);
    assert!(matches!(a, PollAction::Nothing));
    let s = app.get_room_state(10).unwrap();
    assert!(s.room_info.is_some() && s.user_info.is_none());
    let a = app.apply_poll(10, None, Some(user()), DownloaderPresence::Absent);
    assert!(matches!(a, PollAction::Nothing));
    assert!(app.get_room_state(10).unwrap().user_info.is_some());
    let a = app.apply_poll(99, Some(info(99, LiveStatus::Live)), Some(user()), DownloaderPresence::Absent);
    assert!(matches!(a, PollAction::Nothing));
}

#[test]
fn poll_without_stored_settings_changes_nothing() {
    let mut app = AppState::from_settings(global());
    app.add_room_state(3, RoomSettings::new(3));
    let a = app.apply_poll(3, Some(info(3, LiveStatus::Live)), Some(user()), DownloaderPresence::Absent);
    assert!(matches!(a, PollAction::Nothing));
    assert!(app.get_room_state(3).unwrap().room_info.is_none());
}

#[test]
fn stop_recording_waits_for_stream() {
    let mut app = app_with_room(4);
    app.room_states[0].status = RoomCardStatus::LiveRecording;
    app.stop_recording(4, false);
    let s = app.get_room_state(4).unwrap();
    assert_eq!(s.status, RoomCardStatus::WaitLiveStreaming);
    assert!(!s.user_stop);
}

#[test]
fn reconnect_step_restarts_while_retries_remain() {
    let mut app = app_with_room(8);
    assert!(app.reconnect_step(8, true).is_none());
    app.room_states[0].reconnecting = true;
    let a = app.reconnect_step(8, true).unwrap();
    assert_eq!(a.exponential_delay_ms, 1000);
    assert_eq!(a.max_delay_ms, 30000);
    assert_eq!(a.record_dir, "/rec");
    assert!(a.restart);
    assert!(!app.get_room_state(8).unwrap().reconnecting);
    app.room_states[0].reconnecting = true;
    let a = app.reconnect_step(8, false).unwrap();
    assert_eq!(a.exponential_delay_ms, 2000);
    assert!(!a.restart);
    for _ in 0..8 {
        app.room_states[0].reconnecting = true;
        assert!(app.reconnect_step(8, true).is_some());
    }
    app.room_states[0].reconnecting = true;
    assert!(app.reconnect_step(8, true).is_none());
    assert!(app.get_room_state(8).unwrap().reconnecting);
}

#[test]
fn delete_room_forgets_state_and_settings() {
    let mut app = app_with_room(1);
    app.add_room(RoomSettings::new(2));
    app.add_room_state(2, RoomSettings::new(2));
    app.delete_room(1);
    assert!(!app.has_room(1) && !app.has_room_state(1));
    assert!(app.has_room(2) && app.has_room_state(2));
}

#[test]
fn submit_room_refuses_duplicates() {
    let mut app = AppState::from_settings(global());
    let s = app.submit_room(23767864).unwrap();
    assert_eq!(s.room_id, 23767864);
    assert!(app.has_room(23767864));
    assert_eq!(app.submit_room(23767864).unwrap_err(), "不能重复监听 23767864");
    assert_eq!(app.settings.rooms.len(), 1);
}

#[test]
fn recording_count_counts_recording_rooms() {
    let mut app = app_with_room(1);
    app.add_room_state(2, RoomSettings::new(2));
    app.add_room_state(3, RoomSettings::new(3));
    assert_eq!(app.recording_count(), 0);
    app.room_states[0].status = RoomCardStatus::LiveRecording;
    app.room_states[2].status = RoomCardStatus::LiveRecording;
    assert_eq!(app.recording_count(), 2);
    assert_eq!(room_count_text(app.room_states.len()), "共 3 个房间");
}

#[test]
fn room_card_view_texts() {
    let mut s = RoomCardState::new(10, RoomSettings::new(10));
    assert!(room_card_view(&s).is_none());
    let mut i = info(10, LiveStatus::Live);
    i.short_id = 77;
    s.room_info = Some(i);
    assert!(room_card_view(&s).is_none());
    s.user_info = Some(user());
    s.status = RoomCardStatus::LiveRecording;
    s.downloader_status = Some(DownloaderStatus::Error { cause: "boom".into() });
    let v = room_card_view(&s).unwrap();
    assert_eq!(v.room_number, "房间号: 77");
    assert_eq!(v.live_label, "直播中");
    assert!(v.live && v.record_enabled);
    assert_eq!(v.attention.as_deref(), Some("🔥 1234"));
    assert_eq!(v.area_name.as_deref(), Some("area"));
    assert_eq!(v.live_date.as_deref(), Some("2024-05-06"));
    assert_eq!(v.record_label, "停止录制");
    assert_eq!(v.downloader_text.as_deref(), Some("录制失败: boom"));
    assert!(v.failed && !v.reconnecting);
    assert_eq!(v.page_url, "https://live.bilibili.com/10");
    assert_eq!(v.streamer, "up");
    s.status = RoomCardStatus::WaitLiveStreaming;
    s.room_info = Some(info(10, LiveStatus::Offline));
    s.downloader_status = None;
    let v = room_card_view(&s).unwrap();
    assert!(v.attention.is_none() && v.area_name.is_none() && v.live_date.is_none());
    assert!(!v.record_enabled && !v.failed);
    assert_eq!(v.record_label, "开始录制");
    assert_eq!(v.room_number, "房间号: 10");
}

#[test]
fn downloader_status_lines() {
    let started = DownloaderStatus::Started { file_path: "/rec/a/b_P2.flv".into() };
    assert_eq!(downloader_status_text(&started), "录制中: b_P2.flv");
    let done = DownloaderStatus::Completed { file_path: "/rec/x.flv".into(), file_size: 1536, duration: 3661 };
    assert_eq!(downloader_status_text(&done), "录制完成: /rec/x.flv 大小: 1.50 KB 时长: 01:01:01");
    assert_eq!(before_first_space_exec("nospace"), "nospace");
    assert_eq!(before_first_space_exec(" lead"), "");
    assert_eq!(record_label(RoomCardStatus::WaitLiveStreaming), "开始录制");
    assert!(record_click_starts(RoomCardStatus::WaitLiveStreaming));
    assert!(!record_click_starts(RoomCardStatus::LiveRecording));
}

#[test]
fn room_number_input_edits() {
    let mut input = RoomNumberInput::new();
    assert_eq!(input.room_num(), 0);
    input.step(false);
    assert_eq!(input.room_num(), 0);
    input.on_text("23767864");
    assert_eq!(input.room_num(), 23767864);
    input.on_text("abc");
    assert_eq!(input.room_num(), 23767864);
    input.step(true);
    assert_eq!(input.room_num(), 23767865);
    input.step(false);
    assert_eq!(input.take(), Some(23767864));
    assert_eq!(input.room_num(), 0);
    assert_eq!(input.take(), None);
    input.on_text("18446744073709551615");
    input.step(true);
    assert_eq!(input.room_num(), u64::MAX);
}

#[test]
fn room_settings_form_selects_choices() {
    let mut r = RoomSettings::new(3);
    r.quality = Some(Quality::HD);
    let form = room_settings_form(&r);
    assert_eq!(form.record_name, "{up_name}_{room_title}_{datetime}");
    assert_eq!(form.strategy.options, vec!["低占用", "配置优先"]);
    assert_eq!(form.strategy.selected, "低占用");
    assert_eq!(form.quality.options, vec!["杜比", "4K", "原画", "蓝光", "超清", "高清", "流畅"]);
    assert_eq!(form.quality.selected, "高清");
    assert_eq!(form.format.options, vec!["flv", "fmp4", "ts"]);
    assert_eq!(form.format.selected, "fmp4");
    assert_eq!(form.codec.options, vec!["avc", "hevc"]);
    assert_eq!(form.codec.selected, "hevc");
}

#[test]
fn added_room_starts_fresh() {
    let mut app = AppState::from_settings(global());
    app.add_room_state(12, RoomSettings::new(12));
    let s = app.get_room_state(12).unwrap();
    assert_eq!(s.status, RoomCardStatus::WaitLiveStreaming);
    assert!(!s.user_stop && !s.reconnecting);
    assert!(s.downloader_status.is_none() && s.room_info.is_none() && s.user_info.is_none());
    assert!(s.reconnect_manager.should_reconnect());
    assert_eq!(s.reconnect_manager.exponential_delay_ms(), 1000);
    assert_eq!(s.reconnect_manager.max_delay_ms(), 30000);
}
