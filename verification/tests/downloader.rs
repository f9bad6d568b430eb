use blive::context::DownloadStatus;
use blive::downloader::{begin_download, transport, Transport};
use blive::downloader::{file_creation_event, http_failure_event, output_unreadable_event, startup_failure_event};
use blive::api::{
    LiveRoomInfoData, LiveRoomStreamUrl, LiveStatus, LiveUserInfo, PlayStream, PlayStreamFormat, PlayUrl, PlayUrlInfo,
    StreamCodecInfo, StreamUrlInfo,
};
use blive::context::DownloadEvent;
use blive::downloader::{
    after_write, chunk_action, classify_ffmpeg_error, ffmpeg_args, ffmpeg_event_step, next_part_number, part_number,
    BLiveDownloader, ChunkAction, DownloadConfig, DownloaderKind, FfmpegErrorClass, FfmpegLogLevel,
    FfmpegObservation, StreamSelectError, MAX_PARTS, REFERER, USER_AGENT,
};
use blive::error::DownloaderError;
use blive::settings::{LiveProtocol, Quality, Strategy, StreamCodec, VideoContainer};

fn codec(name: StreamCodec, hosts: &[&str]) -> StreamCodecInfo {
    StreamCodecInfo {
        codec_name: name,
        current_qn: 10000,
        accept_qn: vec![10000],
        base_url: "/live/stream.m3u8".into(),
        url_info: hosts
            .iter()
            .map(|h| StreamUrlInfo { host: h.to_string(), extra: "?token=1".into(), stream_ttl: 3600 })
            .collect(),
    }
}

fn stream(protocol: LiveProtocol, formats: Vec<PlayStreamFormat>) -> PlayStream {
    PlayStream { protocol_name: protocol, format: formats }
}

fn answer(streams: Vec<PlayStream>) -> LiveRoomStreamUrl {
    LiveRoomStreamUrl {
        room_id: 1,
        short_id: 0,
        uid: 2,
        is_hidden: false,
        is_locked: false,
        is_portrait: false,
        live_status: 1,
        hidden_till: 0,
        lock_till: 0,
        encrypted: false,
        pwd_verified: true,
        live_time: 0,
        room_shield: 0,
        all_special_types: vec![],
        playurl_info: Some(PlayUrlInfo {
            conf_json: String::new(),
            playurl: PlayUrl { cid: 1, g_qn_desc: vec![], stream: streams },
        }),
    }
}

fn downloader(strategy: Strategy, format: VideoContainer, c: StreamCodec) -> BLiveDownloader {
    let info = LiveRoomInfoData {
        room_id: 732,
        live_status: LiveStatus::Live,
        title: "title".into(),
        live_time: "2024-05-06 07:08:09".into(),
        area_name: "area".into(),
        ..Default::default()
    };
    let user = LiveUserInfo { uname: "up".into(), ..Default::default() };
    BLiveDownloader::new(info, user, Quality::Original, format, c, strategy)
}

fn two_protocols() -> LiveRoomStreamUrl {
    answer(vec![
        stream(
            LiveProtocol::HttpStream,
            vec![PlayStreamFormat {
                format_name: VideoContainer::FLV,
                codec: vec![codec(StreamCodec::AVC, &["https://a"]), codec(StreamCodec::HEVC, &["https://b"])],
            }],
        ),
        stream(
            LiveProtocol::HttpHLS,
            vec![
                PlayStreamFormat { format_name: VideoContainer::TS, codec: vec![codec(StreamCodec::AVC, &["https://c"])] },
                PlayStreamFormat {
                    format_name: VideoContainer::FMP4,
                    codec: vec![codec(StreamCodec::AVC, &["https://d"]), codec(StreamCodec::HEVC, &["https://e", "https://f"])],
                },
            ],
        ),
    ])
}

#[test]
fn low_cost_prefers_http_stream() {
    let d = downloader(Strategy::LowCost, VideoContainer::FMP4, StreamCodec::HEVC);
    let sel = d.select_stream(&two_protocols()).unwrap();
    assert_eq!((sel.stream_index, sel.format_index, sel.codec_index), (0, 0, 1));
    assert_eq!(sel.kind, DownloaderKind::HttpStream);
    let c = d.parse_stream_url(&two_protocols()).unwrap();
    assert_eq!(c.url, "https://b/live/stream.m3u8?token=1");
    assert_eq!(c.format, VideoContainer::FLV);
    assert_eq!(c.codec, StreamCodec::HEVC);
}

#[test]
fn configured_strategy_prefers_hls() {
    let d = downloader(Strategy::PriorityConfig, VideoContainer::FMP4, StreamCodec::HEVC);
    let sel = d.select_stream(&two_protocols()).unwrap();
    assert_eq!((sel.stream_index, sel.format_index, sel.codec_index), (1, 1, 1));
    assert_eq!(sel.kind, DownloaderKind::HttpHls);
    let c = d.parse_stream_url(&two_protocols()).unwrap();
    assert!(c.url == "https://e/live/stream.m3u8?token=1" || c.url == "https://f/live/stream.m3u8?token=1");
    assert_eq!(c.kind, DownloaderKind::HttpHls);
}

#[test]
fn missing_choices_fall_back_to_first() {
    let d = downloader(Strategy::PriorityConfig, VideoContainer::FLV, StreamCodec::HEVC);
    let sel = d.select_stream(&two_protocols()).unwrap();
    assert_eq!((sel.stream_index, sel.format_index, sel.codec_index), (1, 0, 0));
}

#[test]
fn low_cost_falls_back_to_hls_with_stream_downloader() {
    let d = downloader(Strategy::LowCost, VideoContainer::TS, StreamCodec::AVC);
    let only_hls = answer(vec![stream(
        LiveProtocol::HttpHLS,
        vec![PlayStreamFormat { format_name: VideoContainer::TS, codec: vec![codec(StreamCodec::AVC, &["https://c"])] }],
    )]);
    let sel = d.select_stream(&only_hls).unwrap();
    assert_eq!(sel.kind, DownloaderKind::HttpStream);
    assert_eq!(sel.stream_index, 0);
}

#[test]
fn selection_errors() {
    let d = downloader(Strategy::LowCost, VideoContainer::FLV, StreamCodec::AVC);
    let mut none = answer(vec![]);
    assert_eq!(d.select_stream(&none).unwrap_err(), StreamSelectError::NoSuitableProtocol);
    none.playurl_info = None;
    assert_eq!(d.select_stream(&none).unwrap_err(), StreamSelectError::NoPlayInfo);
    let empty = answer(vec![stream(LiveProtocol::HttpStream, vec![])]);
    assert_eq!(d.select_stream(&empty).unwrap_err(), StreamSelectError::NoSuitableStream);
    let no_codec = answer(vec![stream(
        LiveProtocol::HttpStream,
        vec![PlayStreamFormat { format_name: VideoContainer::FLV, codec: vec![] }],
    )]);
    assert_eq!(d.select_stream(&no_codec).unwrap_err(), StreamSelectError::NoSuitableCodec);
    let hls = downloader(Strategy::PriorityConfig, VideoContainer::FLV, StreamCodec::AVC);
    let empty_hls = answer(vec![stream(LiveProtocol::HttpHLS, vec![])]);
    assert_eq!(hls.select_stream(&empty_hls).unwrap_err(), StreamSelectError::NoSuitableHlsStream);
    assert_eq!(StreamSelectError::NoSuitableHlsStream.message(), "未找到合适的HLS流");
    assert_eq!(hls.parse_hls_stream(&empty_hls.playurl_info.unwrap().playurl.stream[0]).unwrap_err(), StreamSelectError::NoSuitableHlsStream);
}

#[test]
fn single_entry_parsing() {
    let d = downloader(Strategy::LowCost, VideoContainer::TS, StreamCodec::AVC);
    let s = stream(
        LiveProtocol::HttpStream,
        vec![PlayStreamFormat { format_name: VideoContainer::TS, codec: vec![codec(StreamCodec::AVC, &["https://h"])] }],
    );
    let c = d.parse_http_stream(&s).unwrap();
    assert_eq!(c.url, "https://h/live/stream.m3u8?token=1");
    assert_eq!(c.kind, DownloaderKind::HttpStream);
    let c = d.parse_hls_stream(&s).unwrap();
    assert_eq!(c.kind, DownloaderKind::HttpHls);
}

#[test]
fn new_downloader_is_idle() {
    let d = downloader(Strategy::LowCost, VideoContainer::FLV, StreamCodec::AVC);
    assert!(!d.is_running());
    let stats = d.get_download_stats().unwrap();
    assert_eq!(stats.bytes_downloaded, 0);
    assert_eq!(stats.reconnect_count, 0);
    assert!(stats.last_error.is_none());
}

#[test]
fn file_name_from_template() {
    let d = downloader(Strategy::LowCost, VideoContainer::FLV, StreamCodec::AVC);
    assert_eq!(d.generate_filename(), "up_title_2024-05-06 07点08分");
    assert_eq!(d.try_generate_filename().as_deref(), Some("up_title_2024-05-06 07点08分"));
}

#[test]
fn file_name_with_unreadable_live_time_uses_epoch() {
    let info = LiveRoomInfoData { room_id: 1, title: "t".into(), live_time: "soon".into(), ..Default::default() };
    let user = LiveUserInfo { uname: "u".into(), ..Default::default() };
    let d = BLiveDownloader::new(info, user, Quality::HD, VideoContainer::FLV, StreamCodec::AVC, Strategy::LowCost);
    assert_eq!(d.generate_filename(), "u_t_1970-01-01 00点00分");
}

#[test]
fn file_places() {
    let p = BLiveDownloader::file_paths("/rec", "name", "flv");
    assert_eq!(p.initial, "/rec/name.flv");
    assert_eq!(p.stem, "name");
    assert_eq!(p.folder, "/rec/name");
    assert_eq!(p.first_part, "/rec/name/name_P1.flv");
}

#[test]
fn fresh_recording_goes_to_initial_path() {
    let p = BLiveDownloader::file_paths("/rec", "name", "flv");
    let plan = BLiveDownloader::resolve_file_path(&p, "flv", false, false, &vec![], false);
    assert_eq!(plan.path, "/rec/name.flv");
    assert!(!plan.rename_initial && plan.part.is_none() && !plan.at_part_limit);
}

#[test]
fn second_recording_moves_first_to_part_one() {
    let p = BLiveDownloader::file_paths("/rec", "name", "flv");
    let plan = BLiveDownloader::resolve_file_path(&p, "flv", false, true, &vec![], false);
    assert_eq!(plan.path, "/rec/name/name_P2.flv");
    assert!(plan.rename_initial);
    assert_eq!(plan.part, Some(2));
}

#[test]
fn later_recordings_take_next_part() {
    let p = BLiveDownloader::file_paths("/rec", "name", "flv");
    let entries = vec!["name_P1.flv".to_string(), "name_P3.flv".to_string(), "other.txt".to_string(), "name_Px.flv".to_string()];
    let plan = BLiveDownloader::resolve_file_path(&p, "flv", true, false, &entries, true);
    assert_eq!(plan.path, "/rec/name/name_P4.flv");
    assert!(!plan.rename_initial);
    assert_eq!(plan.part, Some(4));
    let full = vec!["name_P50.flv".to_string()];
    let plan = BLiveDownloader::resolve_file_path(&p, "flv", true, false, &full, true);
    assert_eq!(plan.part, Some(MAX_PARTS));
    assert!(plan.at_part_limit);
}

#[test]
fn part_numbers() {
    assert_eq!(part_number("name_P12.flv", "name", "flv"), Some(12));
    assert_eq!(part_number("name_P12.mp4", "name", "flv"), None);
    assert_eq!(part_number("other_P1.flv", "name", "flv"), None);
    assert_eq!(part_number("name_P.flv", "name", "flv"), None);
    assert_eq!(next_part_number(&vec![]), 1);
    assert_eq!(next_part_number(&vec![1, 7, 3]), 8);
    assert_eq!(next_part_number(&vec![60]), MAX_PARTS);
}

#[test]
fn download_settings() {
    let d = downloader(Strategy::PriorityConfig, VideoContainer::FLV, StreamCodec::AVC);
    let c = d.download_config("/rec/a.ts".into(), VideoContainer::TS, StreamCodec::HEVC);
    assert_eq!(c.output_path, "/rec/a.ts");
    assert!(!c.overwrite);
    assert_eq!((c.timeout, c.retry_count), (30, 3));
    assert_eq!(c.format, VideoContainer::TS);
    assert_eq!(c.codec, StreamCodec::HEVC);
    assert_eq!(c.quality, Quality::Original);
    assert_eq!(c.strategy, Strategy::PriorityConfig);
    let def = DownloadConfig::default();
    assert_eq!(def.output_path, "download");
    assert_eq!(def.codec, StreamCodec::HEVC);
}

#[test]
fn ffmpeg_arguments() {
    let c = DownloadConfig { output_path: "out.mkv".into(), codec: StreamCodec::AVC, ..Default::default() };
    let args = ffmpeg_args("https://x/y", &c);
    assert_eq!(args.len(), 15);
    assert_eq!(args[1], format!("User-Agent: {}", USER_AGENT));
    assert_eq!(args[3], format!("Referer: {}", REFERER));
    assert_eq!(args[5], "https://x/y");
    assert_eq!(args[13], "libx264");
    assert_eq!(args[14], "out.mkv");
    let c = DownloadConfig { output_path: "o".into(), codec: StreamCodec::HEVC, ..Default::default() };
    assert_eq!(ffmpeg_args("u", &c)[13], "hevc");
}

#[test]
fn ffmpeg_error_classes() {
    assert_eq!(classify_ffmpeg_error("Connection reset by peer"), FfmpegErrorClass::Network);
    assert_eq!(classify_ffmpeg_error("operation timeout"), FfmpegErrorClass::Network);
    assert_eq!(classify_ffmpeg_error("Invalid data found when processing input"), FfmpegErrorClass::Protocol);
    assert_eq!(classify_ffmpeg_error("something else"), FfmpegErrorClass::Unclassified);
}

#[test]
fn ffmpeg_steps() {
    let mut bytes = 100u64;
    let step = ffmpeg_event_step(
        DownloaderKind::HttpHls,
        &mut bytes,
        FfmpegObservation::Progress { size_kb: 50, bitrate_kbps_bits: 7 },
        true,
        "out",
        1000,
        1,
    );
    assert_eq!(bytes, 150);
    assert!(!step.stop);
    assert!(matches!(step.events[0], DownloadEvent::Progress { bytes_downloaded: 150, download_speed_kbps_bits: 7, duration_ms: 1000 }));
    let step = ffmpeg_event_step(
        DownloaderKind::HttpStream,
        &mut bytes,
        FfmpegObservation::Progress { size_kb: 2, bitrate_kbps_bits: 0 },
        true,
        "out",
        0,
        0,
    );
    assert_eq!(bytes, 2048);
    assert_eq!(step.events.len(), 1);
    let step = ffmpeg_event_step(DownloaderKind::HttpStream, &mut bytes, FfmpegObservation::Done, true, "out", 0, 9);
    assert!(matches!(&step.events[0], DownloadEvent::Completed { file_path, file_size: 2048, duration: 9 } if file_path == "out"));
    let step = ffmpeg_event_step(DownloaderKind::HttpStream, &mut bytes, FfmpegObservation::Other, false, "out", 0, 3);
    assert!(step.stop);
    assert!(matches!(step.events[0], DownloadEvent::Completed { duration: 3, .. }));
    let step = ffmpeg_event_step(
        DownloaderKind::HttpStream,
        &mut bytes,
        FfmpegObservation::Log { level: FfmpegLogLevel::Fatal, message: "bad".into() },
        true,
        "out",
        0,
        0,
    );
    assert!(matches!(&step.events[0], DownloadEvent::Error { error: DownloaderError::FfmpegFatalError { message } } if message == "bad"));
    let step = ffmpeg_event_step(
        DownloaderKind::HttpStream,
        &mut bytes,
        FfmpegObservation::Log { level: FfmpegLogLevel::Error, message: "Connection refused".into() },
        true,
        "out",
        0,
        0,
    );
    assert!(matches!(&step.events[0], DownloadEvent::Error { error: DownloaderError::NetworkConnectionFailed { .. } }));
    let step = ffmpeg_event_step(
        DownloaderKind::HttpStream,
        &mut bytes,
        FfmpegObservation::Log { level: FfmpegLogLevel::Error, message: "Decoder failed".into() },
        true,
        "out",
        0,
        0,
    );
    assert!(matches!(&step.events[0], DownloadEvent::Error { error: DownloaderError::NoSuitableStreamProtocol }));
    let step = ffmpeg_event_step(
        DownloaderKind::HttpStream,
        &mut bytes,
        FfmpegObservation::Log { level: FfmpegLogLevel::Other, message: "info".into() },
        true,
        "out",
        0,
        0,
    );
    assert!(step.events.is_empty() && !step.stop);
}

#[test]
fn http_chunks() {
    assert!(matches!(chunk_action(true, 10, 0, "o", 0), ChunkAction::Write));
    assert!(matches!(chunk_action(true, 0, 5, "o", 2), ChunkAction::EndOfStream(DownloadEvent::Completed { file_size: 5, duration: 2, .. })));
    assert!(matches!(chunk_action(false, 10, 5, "o", 2), ChunkAction::Stop(DownloadEvent::Completed { file_size: 5, .. })));
    let mut bytes = 10u64;
    let e = after_write(&mut bytes, 5, Ok(()), "o", 100, 3);
    assert_eq!(bytes, 15);
    assert!(matches!(e, DownloadEvent::Progress { bytes_downloaded: 15, duration_ms: 100, download_speed_kbps_bits: 3 }));
    let e = after_write(&mut bytes, 5, Err("disk full".into()), "o", 100, 3);
    assert_eq!(bytes, 15);
    assert!(matches!(e, DownloadEvent::Error { error: DownloaderError::FileWriteFailed { ref path, ref reason } } if path == "o" && reason == "disk full"));
}

#[test]
fn transports_and_start() {
    assert_eq!(transport(DownloaderKind::HttpStream, Strategy::LowCost), Transport::HttpBody);
    assert_eq!(transport(DownloaderKind::HttpStream, Strategy::PriorityConfig), Transport::Ffmpeg);
    assert_eq!(transport(DownloaderKind::HttpHls, Strategy::LowCost), Transport::Ffmpeg);
    let mut d = downloader(Strategy::LowCost, VideoContainer::FLV, StreamCodec::AVC);
    begin_download(&mut d.context, DownloaderKind::HttpStream, "/rec/a.flv");
    assert!(d.is_running());
    assert!(matches!(d.context.get_status(), DownloadStatus::Downloading));
    let handled = d.context.process_events();
    assert_eq!(handled.len(), 1);
    assert_eq!(handled[0].log[0].message, "开始录制 - 房间: 732, 质量: 原画, 文件: 文件: /rec/a.flv");
    let mut h = downloader(Strategy::PriorityConfig, VideoContainer::FLV, StreamCodec::AVC);
    begin_download(&mut h.context, DownloaderKind::HttpHls, "/rec/b.mkv");
    assert!(matches!(h.context.get_status(), DownloadStatus::NotStarted));
}

#[test]
fn failure_events() {
    assert!(matches!(http_failure_event("404 Not Found"), DownloadEvent::Error { error: DownloaderError::NetworkConnectionFailed { ref message } } if message == "HTTP请求失败: 404 Not Found"));
    assert!(matches!(file_creation_event("/p", "denied"), DownloadEvent::Error { error: DownloaderError::FileCreationFailed { ref path, ref reason } } if path == "/p" && reason == "denied"));
    assert!(matches!(startup_failure_event("https://x", "no ffmpeg"), DownloadEvent::Error { error: DownloaderError::StartupFailed { ref command, ref stderr } } if command == "ffmpeg -i https://x" && stderr == "no ffmpeg"));
    assert!(matches!(output_unreadable_event("closed"), DownloadEvent::Error { error: DownloaderError::StartupFailed { ref command, ref stderr } } if command.is_empty() && stderr == "closed"));
}

#[test]
fn file_places_with_dotted_name() {
    let p = BLiveDownloader::file_paths("/rec", "show.part", "mkv");
    assert_eq!(p.initial, "/rec/show.part.mkv");
    assert_eq!(p.stem, "show");
    assert_eq!(p.folder, "/rec/show");
    assert_eq!(p.first_part, "/rec/show/show_P1.mkv");
}

#[test]
fn no_file_name_for_skipped_or_repeated_shanghai_times() {
    let user = LiveUserInfo { uname: "u".into(), ..Default::default() };
    let skipped = LiveRoomInfoData { title: "t".into(), live_time: "1986-05-04 02:30:00".into(), ..Default::default() };
    let d = BLiveDownloader::new(skipped, user.clone(), Quality::HD, VideoContainer::FLV, StreamCodec::AVC, Strategy::LowCost);
    assert_eq!(d.try_generate_filename(), None);
    let repeated = LiveRoomInfoData { title: "t".into(), live_time: "1986-09-14 01:30:00".into(), ..Default::default() };
    let d = BLiveDownloader::new(repeated, user.clone(), Quality::HD, VideoContainer::FLV, StreamCodec::AVC, Strategy::LowCost);
    assert_eq!(d.try_generate_filename(), None);
    let fine = LiveRoomInfoData { title: "t".into(), live_time: "0999-01-02 03:04:05".into(), ..Default::default() };
    let d = BLiveDownloader::new(fine, user, Quality::HD, VideoContainer::FLV, StreamCodec::AVC, Strategy::LowCost);
    assert_eq!(d.try_generate_filename().as_deref(), Some("u_t_0999-01-02 03点04分"));
}
