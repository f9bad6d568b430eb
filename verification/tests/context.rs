use blive::context::event_loop_done;
use blive::api::{LiveRoomInfoData, LiveUserInfo};
use blive::config::{default_config, default_output_dir, join_component_exec, ConfigManager};
use blive::context::{CardStatus, DownloadEvent, DownloadStats, DownloadStatus, DownloaderContext};
use blive::error::{AppError, DownloaderError};
use blive::logger::{
    lock_failure, log_app_shutdown, log_config_change, log_network_request, log_network_response,
    log_recording_error, log_recording_start, log_recording_stop, log_user_action, Level, LogLevel, LoggerManager,
};
use blive::settings::{Quality, Strategy, StreamCodec, VideoContainer};
use blive::tray::{respond_to_tray, TrayMessage, TrayResponse};

fn context() -> DownloaderContext {
    let info = LiveRoomInfoData { room_id: 732, ..Default::default() };
    DownloaderContext::new(
        info,
        LiveUserInfo::default(),
        Strategy::LowCost,
        Quality::Original,
        VideoContainer::FLV,
        StreamCodec::AVC,
    )
}

#[test]
fn idle_context_only_logs() {
    let mut c = context();
    let h = c.handle_event(DownloadEvent::Started { file_path: "/a.flv".into() });
    assert!(h.card.is_none());
    assert_eq!(h.log.len(), 1);
    assert_eq!(h.log[0].level, Level::INFO);
    assert_eq!(h.log[0].message, "开始录制 - 房间: 732, 质量: 原画, 文件: 文件: /a.flv");
    assert!(!c.is_running());
}

#[test]
fn running_context_tracks_events_in_order() {
    let mut c = context();
    c.set_running(true);
    c.set_status(DownloadStatus::Downloading);
    c.push_event(DownloadEvent::Progress { bytes_downloaded: 10, download_speed_kbps_bits: 42, duration_ms: 5 });
    c.push_event(DownloadEvent::Error { error: DownloaderError::NetworkConnectionFailed { message: "reset".into() } });
    c.push_event(DownloadEvent::Reconnecting { attempt: 2, delay_secs: 4 });
    c.push_event(DownloadEvent::Completed { file_path: "/a.flv".into(), file_size: 3 * 1024 * 1024, duration: 9 });
    c.push_event(DownloadEvent::Progress { bytes_downloaded: 0, download_speed_kbps_bits: 99, duration_ms: 0 });
    let handled = c.process_events();
    assert_eq!(handled.len(), 5);
    assert!(matches!(handled[0].card, Some(CardStatus::Recording { speed_kbps_bits: 42 })));
    assert!(handled[0].log.is_empty());
    match &handled[1].card {
        Some(CardStatus::Error(m)) => assert_eq!(m, "网络异常，正在重连: 网络连接失败: reset"),
        other => panic!("unexpected {:?}", other),
    }
    assert_eq!(handled[1].log[0].level, Level::ERROR);
    match &handled[2].card {
        Some(CardStatus::Error(m)) => assert_eq!(m, "网络中断，第2次重连 (4秒后)"),
        other => panic!("unexpected {:?}", other),
    }
    assert!(matches!(handled[3].card, Some(CardStatus::Waiting)));
    assert_eq!(handled[3].log.len(), 2);
    assert_eq!(handled[3].log[0].message, "停止录制 - 房间: 732");
    assert_eq!(handled[3].log[1].message, "录制完成 - 房间: 732, 文件: /a.flv, 大小: 3.00MB");
    // After completion nothing changes any more.
    assert!(handled[4].card.is_none());
    assert!(!c.is_running());
    let s = c.get_stats();
    assert_eq!(s.download_speed_kbps_bits, 42);
    assert_eq!(s.reconnect_count, 2);
    assert_eq!(s.bytes_downloaded, 3 * 1024 * 1024);
    assert_eq!(s.last_error.as_deref(), Some("网络连接失败: reset"));
    assert!(matches!(c.get_status(), DownloadStatus::Downloading));
}

#[test]
fn init_clears_figures_but_keeps_reconnects() {
    let mut c = context();
    c.set_running(true);
    c.handle_event(DownloadEvent::Reconnecting { attempt: 3, delay_secs: 1 });
    c.handle_event(DownloadEvent::Progress { bytes_downloaded: 1, download_speed_kbps_bits: 5, duration_ms: 1 });
    c.push_event(DownloadEvent::Started { file_path: "x".into() });
    c.init();
    assert!(!c.is_running());
    let s = c.get_stats();
    assert_eq!(s.reconnect_count, 3);
    assert_eq!(s.download_speed_kbps_bits, 0);
    assert!(c.process_events().is_empty());
    let mut d = DownloadStats { bytes_downloaded: 5, reconnect_count: 1, ..Default::default() };
    d.reset();
    assert_eq!((d.bytes_downloaded, d.reconnect_count), (0, 1));
}

#[test]
fn downloader_errors() {
    let e = DownloaderError::FileWriteFailed { path: "/p".into(), reason: "full".into() };
    assert!(e.is_recoverable());
    assert!(e.is_requires_restart());
    assert_eq!(e.message(), "文件写入失败: /p - full");
    assert!(DownloaderError::NoSuitableAudioCodec.is_recoverable());
    assert_eq!(DownloaderError::NoSuitableStreamProtocol.message(), "没有找到合适的直播流协议");
    let e = DownloaderError::InvalidRecordingConfig { field: "f".into(), value: "v".into(), reason: "r".into() };
    assert_eq!(e.message(), "无效的录制配置: f = v (r)");
    assert_eq!(AppError::ConfigError("bad".into()).message(), "配置错误: bad");
    assert_eq!(AppError::Unknown("x".into()).message(), "未知错误: x");
}

#[test]
fn log_lines() {
    let l = log_recording_start(1, "原画", "文件: a");
    assert_eq!((l.level, l.message.as_str()), (Level::INFO, "开始录制 - 房间: 1, 质量: 原画, 文件: 文件: a"));
    assert_eq!(log_recording_stop(2).message, "停止录制 - 房间: 2");
    let l = log_recording_error(3, "x");
    assert_eq!((l.level, l.message.as_str()), (Level::ERROR, "录制错误 - 房间: 3, 错误: x"));
    let l = log_network_request("http://a", "GET");
    assert_eq!((l.level, l.message.as_str()), (Level::DEBUG, "网络请求 - GET http://a"));
    assert_eq!(log_network_response(200, 15).message, "网络响应 - 状态: 200, 耗时: 15ms");
    assert_eq!(log_config_change("k", "v").message, "配置变更 - k: v");
    assert_eq!(log_user_action("删除房间", Some("房间号: 1")).message, "用户操作 - 删除房间: 房间号: 1");
    assert_eq!(log_user_action("a", None).message, "用户操作 - a");
    assert_eq!(log_app_shutdown().message, "应用关闭");
}

#[test]
fn logger_manager_lifecycle() {
    let mut m = LoggerManager::new(Level::INFO).unwrap();
    assert!(m.needs_init());
    let lines = m.log_app_start("0.1.0");
    assert_eq!(lines[0].message, "应用启动 - 版本: 0.1.0");
    assert_eq!(lines[1].message, "日志级别: Level(Info)");
    match m.complete_init(Err("taken".into())) {
        Err(AppError::Unknown(msg)) => assert_eq!(msg, "无法设置日志订阅者: taken"),
        other => panic!("unexpected {:?}", other),
    }
    assert!(m.needs_init());
    assert!(m.complete_init(Ok(())).is_ok());
    assert!(!m.needs_init());
    assert!(m.complete_init(Err("again".into())).is_ok());
    m.set_log_level(LogLevel::Warn);
    assert_eq!(m.log_level(), Level::WARN);
    assert_eq!(Level::from(LogLevel::Trace), Level::TRACE);
    assert_eq!(m.log_user_action("x", None).message, "用户操作 - x");
    match lock_failure("poisoned") {
        AppError::Unknown(msg) => assert_eq!(msg, "无法获取日志管理器写锁: poisoned"),
        other => panic!("unexpected {:?}", other),
    }
}

#[test]
fn default_configuration() {
    let c = default_config("0.1.0", Some("/home/u"));
    assert_eq!(c.app.name, "B站录播姬");
    assert_eq!(c.app.version, "0.1.0");
    assert_eq!(c.recording.output_dir, "/home/u/Movies/blive");
    assert_eq!(c.recording.format, "flv");
    assert_eq!(c.recording.max_retries, 3);
    assert_eq!(c.network.user_agent, "B站录播姬/1.0");
    assert_eq!((c.ui.window_width, c.ui.window_height), (1200, 800));
    assert_eq!(default_output_dir(None), "./recordings");
    assert_eq!(default_output_dir(Some("/home/u/")), "/home/u/Movies/blive");
    assert_eq!(join_component_exec("", "a"), "a");
}

#[test]
fn configuration_manager_loads_and_resets() {
    let m = ConfigManager::new("config.json".into(), None, "1.0", None).unwrap();
    assert_eq!(m.config_path(), "config.json");
    assert_eq!(m.config().recording.output_dir, "./recordings");
    let err = ConfigManager::new("c.json".into(), Some(Err(AppError::ConfigError("bad".into()))), "1.0", None);
    assert!(matches!(err, Err(AppError::ConfigError(_))));
    let mut stored = default_config("0.9", None);
    stored.ui.theme = "light".into();
    let mut m = ConfigManager::new("c.json".into(), Some(Ok(stored)), "1.0", None).unwrap();
    assert_eq!(m.config().ui.theme, "light");
    assert!(m.load(Some(Err(AppError::FileSystemError("gone".into())))).is_err());
    assert_eq!(m.config().ui.theme, "light");
    assert!(m.load(None).is_ok());
    assert_eq!(m.config().ui.theme, "light");
    m.reset_to_default("1.0", Some("/h"));
    assert_eq!(m.config().ui.theme, "dark");
    assert_eq!(m.config().recording.output_dir, "/h/Movies/blive");
}

#[test]
fn tray_messages() {
    assert_eq!(respond_to_tray(TrayMessage::Quit, true), TrayResponse::Quit);
    assert_eq!(respond_to_tray(TrayMessage::OpenWindow, false), TrayResponse::OpenMainWindow);
    assert_eq!(respond_to_tray(TrayMessage::OpenWindow, true), TrayResponse::ActivateFirstWindow);
}

#[test]
fn event_loop_ends_when_idle_and_stopped() {
    assert!(event_loop_done(0, false));
    assert!(!event_loop_done(1, false));
    assert!(!event_loop_done(0, true));
}
