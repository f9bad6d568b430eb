//! The bookkeeping of one recording: its status, statistics and running
//! flag, and the queue of events the download reports, each turned into an
//! update of the room card and log lines.
use vstd::prelude::*;
use std::collections::VecDeque;
use crate::api::{LiveRoomInfoData, LiveUserInfo};
use crate::error::{downloader_error_message, DownloaderError};
use crate::logger::{Level, LogRecord, log_recording_error, log_recording_start, log_recording_stop};
use crate::settings::{quality_label, Quality, Strategy, StreamCodec, VideoContainer};
use crate::text::{decimal, u64_to_decimal};
use crate::utils::{mebibytes_spec, mebibytes_two_decimals};

verus! {

/// The state of a recording.
#[derive(Debug)]
pub enum DownloadStatus {
    NotStarted,
    Downloading,
    Error(DownloaderError),
}

impl Clone for DownloadStatus {
    fn clone(&self) -> (r: Self)
        ensures
            r == *self,
    {
        match self {
            DownloadStatus::NotStarted => DownloadStatus::NotStarted,
            DownloadStatus::Downloading => DownloadStatus::Downloading,
            DownloadStatus::Error(e) => DownloadStatus::Error(e.clone()),
        }
    }
}

/// What a running download reports. Speeds are kilobits per second, kept as
/// the bit pattern of the 32-bit float the downloader measured.
#[derive(Debug)]
pub enum DownloadEvent {
    Started { file_path: String },
    Progress { bytes_downloaded: u64, download_speed_kbps_bits: u32, duration_ms: u64 },
    Error { error: DownloaderError },
    Reconnecting { attempt: u32, delay_secs: u64 },
    Completed { file_path: String, file_size: u64, duration: u64 },
}

/// Figures of a recording.
#[derive(Debug)]
pub struct DownloadStats {
    pub bytes_downloaded: u64,
    /// Bit pattern of the 32-bit float speed in kilobits per second.
    pub download_speed_kbps_bits: u32,
    pub duration_ms: u64,
    pub reconnect_count: u32,
    pub last_error: Option<String>,
}

pub struct DownloadStatsView {
    pub bytes_downloaded: u64,
    pub download_speed_kbps_bits: u32,
    pub duration_ms: u64,
    pub reconnect_count: u32,
    pub last_error: Option<Seq<char>>,
}

impl View for DownloadStats {
    type V = DownloadStatsView;

    open spec fn view(&self) -> DownloadStatsView {
        DownloadStatsView {
            bytes_downloaded: self.bytes_downloaded,
            download_speed_kbps_bits: self.download_speed_kbps_bits,
            duration_ms: self.duration_ms,
            reconnect_count: self.reconnect_count,
            last_error: crate::settings::opt_string_view(self.last_error),
        }
    }
}

pub open spec fn zero_stats() -> DownloadStatsView {
    DownloadStatsView {
        bytes_downloaded: 0,
        download_speed_kbps_bits: 0,
        duration_ms: 0,
        reconnect_count: 0,
        last_error: None,
    }
}

impl Default for DownloadStats {
    fn default() -> (r: Self)
        ensures
            r@ == zero_stats(),
    {
        DownloadStats {
            bytes_downloaded: 0,
            download_speed_kbps_bits: 0,
            duration_ms: 0,
            reconnect_count: 0,
            last_error: None,
        }
    }
}

impl Clone for DownloadStats {
    fn clone(&self) -> (r: Self)
        ensures
            r == *self,
    {
        DownloadStats {
            bytes_downloaded: self.bytes_downloaded,
            download_speed_kbps_bits: self.download_speed_kbps_bits,
            duration_ms: self.duration_ms,
            reconnect_count: self.reconnect_count,
            last_error: crate::settings::clone_opt_string(&self.last_error),
        }
    }
}

impl DownloadStats {
    /// Clears the figures of a recording; the reconnect count is kept.
    pub fn reset(&mut self)
        ensures
            final(self)@ == (DownloadStatsView {
                reconnect_count: old(self)@.reconnect_count,
                ..zero_stats()
            }),
    {
        self.bytes_downloaded = 0;
        self.download_speed_kbps_bits = 0;
        self.duration_ms = 0;
        self.last_error = None;
    }
}

/// What the room card shows about a recording.
#[derive(Debug)]
pub enum CardStatus {
    /// Recording at the speed whose 32-bit float bit pattern is given.
    Recording { speed_kbps_bits: u32 },
    Error(String),
    Waiting,
}

pub enum CardStatusView {
    Recording { speed_kbps_bits: u32 },
    Error(Seq<char>),
    Waiting,
}

impl View for CardStatus {
    type V = CardStatusView;

    open spec fn view(&self) -> CardStatusView {
        match self {
            CardStatus::Recording { speed_kbps_bits } => CardStatusView::Recording {
                speed_kbps_bits: *speed_kbps_bits,
            },
            CardStatus::Error(m) => CardStatusView::Error(m@),
            CardStatus::Waiting => CardStatusView::Waiting,
        }
    }
}

/// What handling one event produced: the log lines to write and the new
/// room card status, if any.
#[derive(Debug)]
pub struct HandledEvent {
    pub log: Vec<LogRecord>,
    pub card: Option<CardStatus>,
}

pub open spec fn log_view(log: Seq<LogRecord>) -> Seq<(Level, Seq<char>)> {
    log.map_values(|r: LogRecord| (r.level, r.message@))
}

pub open spec fn card_view(c: Option<CardStatus>) -> Option<CardStatusView> {
    match c {
        Some(s) => Some(s@),
        None => None,
    }
}

/// The message shown and logged for a reported error.
pub open spec fn retry_message(e: DownloaderError) -> Seq<char> {
    "网络异常，正在重连: "@ + downloader_error_message(e)
}

/// The message shown and logged for a reconnection attempt.
pub open spec fn reconnect_message(attempt: u32, delay_secs: u64) -> Seq<char> {
    "网络中断，第"@ + decimal(attempt as nat) + "次重连 ("@ + decimal(delay_secs as nat) + "秒后)"@
}

/// The log lines written for an event of the recording of room `room_id`
/// at quality `quality`. Progress is not logged.
pub open spec fn event_log_spec(room_id: u64, quality: Quality, e: DownloadEvent) -> Seq<
    (Level, Seq<char>),
> {
    match e {
        DownloadEvent::Started { file_path } => seq![
            (
                Level::INFO,
                "开始录制 - 房间: "@ + decimal(room_id as nat) + ", 质量: "@ + quality_label(quality)
                    + ", 文件: "@ + ("文件: "@ + file_path@),
            ),
        ],
        DownloadEvent::Progress { .. } => seq![],
        DownloadEvent::Error { error } => seq![
            (Level::ERROR, "录制错误 - 房间: "@ + decimal(room_id as nat) + ", 错误: "@ + retry_message(error)),
        ],
        DownloadEvent::Reconnecting { attempt, delay_secs } => seq![
            (
                Level::ERROR,
                "录制错误 - 房间: "@ + decimal(room_id as nat) + ", 错误: "@ + reconnect_message(
                    attempt,
                    delay_secs,
                ),
            ),
        ],
        DownloadEvent::Completed { file_path, file_size, .. } => seq![
            (Level::INFO, "停止录制 - 房间: "@ + decimal(room_id as nat)),
            (
                Level::INFO,
                "录制完成 - 房间: "@ + decimal(room_id as nat) + ", 文件: "@ + file_path@ + ", 大小: "@
                    + mebibytes_spec(file_size as nat) + "MB"@,
            ),
        ],
    }
}

/// The state of a recording that events change.
pub struct ContextStateView {
    pub status: DownloadStatus,
    pub stats: DownloadStatsView,
    pub running: bool,
}

/// The state after an event. A recording that is not running ignores
/// events. Otherwise: a start marks it running; progress records the speed;
/// an error records its message; a reconnection records the attempt; a
/// completion records the file size and stops it.
pub open spec fn handle_event_state(s: ContextStateView, e: DownloadEvent) -> ContextStateView {
    if !s.running {
        s
    } else {
        match e {
            DownloadEvent::Started { .. } => ContextStateView { running: true, ..s },
            DownloadEvent::Progress { download_speed_kbps_bits, .. } => ContextStateView {
                stats: DownloadStatsView { download_speed_kbps_bits, ..s.stats },
                ..s
            },
            DownloadEvent::Error { error } => ContextStateView {
                stats: DownloadStatsView {
                    last_error: Some(downloader_error_message(error)),
                    ..s.stats
                },
                ..s
            },
            DownloadEvent::Reconnecting { attempt, .. } => ContextStateView {
                stats: DownloadStatsView { reconnect_count: attempt, ..s.stats },
                ..s
            },
            DownloadEvent::Completed { file_size, .. } => ContextStateView {
                stats: DownloadStatsView { bytes_downloaded: file_size, ..s.stats },
                running: false,
                ..s
            },
        }
    }
}

/// The room card status an event leads to; none while not running.
pub open spec fn handle_event_card(s: ContextStateView, e: DownloadEvent) -> Option<CardStatusView> {
    if !s.running {
        None
    } else {
        match e {
            DownloadEvent::Started { .. } => Some(CardStatusView::Recording { speed_kbps_bits: 0 }),
            DownloadEvent::Progress { download_speed_kbps_bits, .. } => Some(
                CardStatusView::Recording { speed_kbps_bits: download_speed_kbps_bits },
            ),
            DownloadEvent::Error { error } => Some(CardStatusView::Error(retry_message(error))),
            DownloadEvent::Reconnecting { attempt, delay_secs } => Some(
                CardStatusView::Error(reconnect_message(attempt, delay_secs)),
            ),
            DownloadEvent::Completed { .. } => Some(CardStatusView::Waiting),
        }
    }
}

/// The state after handling the events in order.
pub open spec fn handle_events_state(s: ContextStateView, events: Seq<DownloadEvent>) -> ContextStateView
    decreases events.len(),
{
    if events.len() == 0 {
        s
    } else {
        handle_events_state(handle_event_state(s, events[0]), events.drop_first())
    }
}

/// The bookkeeping of one recording of a room.
pub struct DownloaderContext {
    pub status: DownloadStatus,
    pub room_info: LiveRoomInfoData,
    pub user_info: LiveUserInfo,
    pub quality: Quality,
    pub format: VideoContainer,
    pub codec: StreamCodec,
    pub strategy: Strategy,
    pub stats: DownloadStats,
    pub is_running: bool,
    pub event_queue: VecDeque<DownloadEvent>,
}

/// A zero speed as the bit pattern of a 32-bit float.
pub const ZERO_SPEED_BITS: u32 = 0;

impl DownloaderContext {
    pub open spec fn state(&self) -> ContextStateView {
        ContextStateView { status: self.status, stats: self.stats@, running: self.is_running }
    }

    pub open spec fn queue(&self) -> Seq<DownloadEvent> {
        self.event_queue@
    }

    /// A context that has not started, with zero figures and no events.
    pub fn new(
        room_info: LiveRoomInfoData,
        user_info: LiveUserInfo,
        strategy: Strategy,
        quality: Quality,
        format: VideoContainer,
        codec: StreamCodec,
    ) -> (r: Self)
        ensures
            r.state() == (ContextStateView {
                status: DownloadStatus::NotStarted,
                stats: zero_stats(),
                running: false,
            }),
            r.queue() == Seq::<DownloadEvent>::empty(),
            r.room_info == room_info,
            r.user_info == user_info,
            r.strategy == strategy,
            r.quality == quality,
            r.format == format,
            r.codec == codec,
    {
        DownloaderContext {
            status: DownloadStatus::NotStarted,
            room_info,
            user_info,
            quality,
            format,
            codec,
            strategy,
            stats: DownloadStats::default(),
            is_running: false,
            event_queue: VecDeque::new(),
        }
    }

    /// Makes the context ready for a new recording: figures cleared (the
    /// reconnect count kept), not running, no events, not started.
    pub fn init(&mut self)
        ensures
            final(self).state() == (ContextStateView {
                status: DownloadStatus::NotStarted,
                stats: DownloadStatsView {
                    reconnect_count: old(self).state().stats.reconnect_count,
                    ..zero_stats()
                },
                running: false,
            }),
            final(self).queue() == Seq::<DownloadEvent>::empty(),
            final(self).room_info == old(self).room_info,
            final(self).user_info == old(self).user_info,
            final(self).quality == old(self).quality,
            final(self).strategy == old(self).strategy,
            final(self).format == old(self).format,
            final(self).codec == old(self).codec,
    {
        self.stats.reset();
        self.is_running = false;
        self.event_queue.clear();
        self.set_status(DownloadStatus::NotStarted);
    }

    pub fn set_status(&mut self, status: DownloadStatus)
        ensures
            final(self).state() == (ContextStateView { status, ..old(self).state() }),
            final(self).queue() == old(self).queue(),
            final(self).room_info == old(self).room_info,
            final(self).user_info == old(self).user_info,
            final(self).quality == old(self).quality,
            final(self).strategy == old(self).strategy,
            final(self).format == old(self).format,
            final(self).codec == old(self).codec,
    {
        self.status = status;
    }

    pub fn get_status(&self) -> (r: DownloadStatus)
        ensures
            r == self.state().status,
    {
        self.status.clone()
    }

    pub fn set_running(&mut self, running: bool)
        ensures
            final(self).state() == (ContextStateView { running, ..old(self).state() }),
            final(self).queue() == old(self).queue(),
            final(self).room_info == old(self).room_info,
            final(self).user_info == old(self).user_info,
            final(self).quality == old(self).quality,
            final(self).strategy == old(self).strategy,
            final(self).format == old(self).format,
            final(self).codec == old(self).codec,
    {
        self.is_running = running;
    }

    pub fn is_running(&self) -> (r: bool)
        ensures
            r == self.state().running,
    {
        self.is_running
    }

    /// A copy of the figures of the recording.
    pub fn get_stats(&self) -> (r: DownloadStats)
        ensures
            r@ == self.state().stats,
    {
        self.stats.clone()
    }

    /// Queues an event reported by the download.
    pub fn push_event(&mut self, event: DownloadEvent)
        ensures
            final(self).queue() == old(self).queue().push(event),
            final(self).state() == old(self).state(),
            final(self).room_info == old(self).room_info,
            final(self).user_info == old(self).user_info,
            final(self).quality == old(self).quality,
            final(self).strategy == old(self).strategy,
            final(self).format == old(self).format,
            final(self).codec == old(self).codec,
    {
        self.event_queue.push_back(event);
    }

    /// Handles the queued events in the order they were reported and empties
    /// the queue; the number of events handled is the length of the result.
    pub fn process_events(&mut self) -> (r: Vec<HandledEvent>)
        ensures
            final(self).queue() == Seq::<DownloadEvent>::empty(),
            r@.len() == old(self).queue().len(),
            final(self).state() == handle_events_state(old(self).state(), old(self).queue()),
            forall|i: int|
                0 <= i < r@.len() ==> log_view(#[trigger] r@[i].log@) == event_log_spec(
                    old(self).room_info.room_id,
                    old(self).quality,
                    old(self).queue()[i],
                ),
            forall|i: int|
                0 <= i < r@.len() ==> card_view(#[trigger] r@[i].card) == handle_event_card(
                    handle_events_state(old(self).state(), old(self).queue().take(i)),
                    old(self).queue()[i],
                ),
            final(self).room_info == old(self).room_info,
            final(self).user_info == old(self).user_info,
            final(self).quality == old(self).quality,
            final(self).strategy == old(self).strategy,
            final(self).format == old(self).format,
            final(self).codec == old(self).codec,
    {
        let ghost q0 = self.queue();
        let ghost s0 = self.state();
        let mut handled: Vec<HandledEvent> = Vec::new();
        loop
            invariant
                handled@.len() + self.queue().len() == q0.len(),
                self.queue() == q0.skip(handled@.len() as int),
                self.state() == handle_events_state(s0, q0.take(handled@.len() as int)),
                self.room_info == old(self).room_info,
                self.user_info == old(self).user_info,
                self.quality == old(self).quality,
                self.strategy == old(self).strategy,
                self.format == old(self).format,
                self.codec == old(self).codec,
                forall|i: int|
                    0 <= i < handled@.len() ==> log_view(#[trigger] handled@[i].log@) == event_log_spec(
                        self.room_info.room_id,
                        self.quality,
                        q0[i],
                    ),
                forall|i: int|
                    0 <= i < handled@.len() ==> card_view(#[trigger] handled@[i].card)
                        == handle_event_card(handle_events_state(s0, q0.take(i)), q0[i]),
            ensures
                self.queue() == Seq::<DownloadEvent>::empty(),
                handled@.len() == q0.len(),
                self.state() == handle_events_state(s0, q0),
                self.room_info == old(self).room_info,
                self.user_info == old(self).user_info,
                self.quality == old(self).quality,
                self.strategy == old(self).strategy,
                self.format == old(self).format,
                self.codec == old(self).codec,
                forall|i: int|
                    0 <= i < handled@.len() ==> log_view(#[trigger] handled@[i].log@) == event_log_spec(
                        self.room_info.room_id,
                        self.quality,
                        q0[i],
                    ),
                forall|i: int|
                    0 <= i < handled@.len() ==> card_view(#[trigger] handled@[i].card)
                        == handle_event_card(handle_events_state(s0, q0.take(i)), q0[i]),
            decreases self.queue().len(),
        {
            let ghost k = handled@.len() as int;
            match self.event_queue.pop_front() {
                Some(event) => {
                    proof {
                        assert(q0[k] == event);
                        lemma_handle_events_step(s0, q0, k);
                    }
                    let h = self.handle_event(event);
                    handled.push(h);
                    proof {
                        assert(q0.skip(k).drop_first() =~= q0.skip(k + 1));
                    }
                },
                None => {
                    proof {
                        assert(q0.take(k) =~= q0);
                    }
                    break;
                },
            }
        }
        handled
    }

    /// Handles one event: produces its log lines, and, while the recording
    /// runs, updates the state and gives the new room card status.
    pub fn handle_event(&mut self, event: DownloadEvent) -> (r: HandledEvent)
        ensures
            log_view(r.log@) == event_log_spec(old(self).room_info.room_id, old(self).quality, event),
            card_view(r.card) == handle_event_card(old(self).state(), event),
            final(self).state() == handle_event_state(old(self).state(), event),
            final(self).queue() == old(self).queue(),
            final(self).room_info == old(self).room_info,
            final(self).user_info == old(self).user_info,
            final(self).quality == old(self).quality,
            final(self).strategy == old(self).strategy,
            final(self).format == old(self).format,
            final(self).codec == old(self).codec,
    {
        let log = self.log_event(&event);
        if !self.is_running {
            return HandledEvent { log, card: None };
        }
        let card = match event {
            DownloadEvent::Started { .. } => {
                self.is_running = true;
                CardStatus::Recording { speed_kbps_bits: ZERO_SPEED_BITS }
            },
            DownloadEvent::Progress { download_speed_kbps_bits, .. } => {
                self.stats.download_speed_kbps_bits = download_speed_kbps_bits;
                CardStatus::Recording { speed_kbps_bits: download_speed_kbps_bits }
            },
            DownloadEvent::Error { error } => {
                let text = error.message();
                let status = if error.is_recoverable() {
                    let mut m = String::from_str("网络异常，正在重连: ");
                    m.append(text.as_str());
                    CardStatus::Error(m)
                } else {
                    let mut m = String::from_str("录制失败, 等待重新连接: ");
                    m.append(text.as_str());
                    self.set_status(DownloadStatus::Error(error));
                    CardStatus::Error(m)
                };
                self.stats.last_error = Some(text);
                status
            },
            DownloadEvent::Reconnecting { attempt, delay_secs } => {
                self.stats.reconnect_count = attempt;
                CardStatus::Error(reconnect_text(attempt, delay_secs))
            },
            DownloadEvent::Completed { file_size, .. } => {
                self.stats.bytes_downloaded = file_size;
                self.is_running = false;
                CardStatus::Waiting
            },
        };
        HandledEvent { log, card: Some(card) }
    }

    /// The log lines for an event.
    fn log_event(&self, event: &DownloadEvent) -> (r: Vec<LogRecord>)
        ensures
            log_view(r@) == event_log_spec(self.room_info.room_id, self.quality, *event),
    {
        let room_id = self.room_info.room_id;
        let mut log: Vec<LogRecord> = Vec::new();
        match event {
            DownloadEvent::Started { file_path } => {
                let mut f = String::from_str("文件: ");
                f.append(file_path.as_str());
                log.push(log_recording_start(room_id, self.quality.label(), f.as_str()));
            },
            DownloadEvent::Progress { .. } => {},
            DownloadEvent::Error { error } => {
                let mut m = String::from_str("网络异常，正在重连: ");
                let text = error.message();
                m.append(text.as_str());
                log.push(log_recording_error(room_id, m.as_str()));
            },
            DownloadEvent::Reconnecting { attempt, delay_secs } => {
                let m = reconnect_text(*attempt, *delay_secs);
                log.push(log_recording_error(room_id, m.as_str()));
            },
            DownloadEvent::Completed { file_path, file_size, .. } => {
                log.push(log_recording_stop(room_id));
                let mut m = String::from_str("录制完成 - 房间: ");
                let id = u64_to_decimal(room_id);
                m.append(id.as_str());
                m.append(", 文件: ");
                m.append(file_path.as_str());
                m.append(", 大小: ");
                let size = mebibytes_two_decimals(*file_size);
                m.append(size.as_str());
                m.append("MB");
                log.push(LogRecord { level: Level::INFO, message: m });
            },
        }
        proof {
            assert(log_view(log@) =~= event_log_spec(self.room_info.room_id, self.quality, *event));
        }
        log
    }
}

/// Whether the loop that handles a recording's events ends after a round:
/// it does once a round handled nothing and the recording no longer runs
/// (what is left is handled once more afterwards).
pub fn event_loop_done(handled: usize, running: bool) -> (r: bool)
    ensures
        r == (handled == 0 && !running),
{
    handled == 0 && !running
}

fn reconnect_text(attempt: u32, delay_secs: u64) -> (r: String)
    ensures
        r@ == reconnect_message(attempt, delay_secs),
{
    let mut m = String::from_str("网络中断，第");
    let a = u64_to_decimal(attempt as u64);
    m.append(a.as_str());
    m.append("次重连 (");
    let d = u64_to_decimal(delay_secs);
    m.append(d.as_str());
    m.append("秒后)");
    m
}

proof fn lemma_handle_events_step(s: ContextStateView, q: Seq<DownloadEvent>, k: int)
    requires
        0 <= k < q.len(),
    ensures
        handle_events_state(s, q.take(k + 1)) == handle_event_state(handle_events_state(s, q.take(k)), q[k]),
    decreases k,
{
    let t = handle_event_state(s, q[0]);
    if k == 0 {
        assert(q.take(1).drop_first() =~= Seq::<DownloadEvent>::empty());
        assert(q.take(0) =~= Seq::<DownloadEvent>::empty());
        assert(handle_events_state(t, Seq::<DownloadEvent>::empty()) == t);
        assert(handle_events_state(s, q.take(1)) == handle_events_state(t, q.take(1).drop_first()));
        assert(handle_events_state(s, Seq::<DownloadEvent>::empty()) == s);
    } else {
        lemma_handle_events_step(t, q.drop_first(), k - 1);
        assert(q.take(k + 1).drop_first() =~= q.drop_first().take(k));
        assert(q.take(k).drop_first() =~= q.drop_first().take(k - 1));
        assert(handle_events_state(s, q.take(k + 1)) == handle_events_state(t, q.take(k + 1).drop_first()));
        assert(handle_events_state(s, q.take(k)) == handle_events_state(t, q.take(k).drop_first()));
    }
}

/// Events reported to a recording that is not running change nothing.
pub proof fn law_stopped_recording_ignores_events(s: ContextStateView, events: Seq<DownloadEvent>)
    requires
        !s.running,
    ensures
        handle_events_state(s, events) == s,
    decreases events.len(),
{
    if events.len() > 0 {
        law_stopped_recording_ignores_events(s, events.drop_first());
    }
}

/// A completed recording stops running, and nothing reported after that
/// changes its state.
pub proof fn law_completion_stops_recording(
    s: ContextStateView,
    file_path: String,
    file_size: u64,
    duration: u64,
    later: Seq<DownloadEvent>,
)
    requires
        s.running,
    ensures
        !handle_event_state(s, DownloadEvent::Completed { file_path, file_size, duration }).running,
        handle_events_state(
            handle_event_state(s, DownloadEvent::Completed { file_path, file_size, duration }),
            later,
        ) == handle_event_state(s, DownloadEvent::Completed { file_path, file_size, duration }),
{
    law_stopped_recording_ignores_events(
        handle_event_state(s, DownloadEvent::Completed { file_path, file_size, duration }),
        later,
    );
}


/// What the room card shows after an event of a running recording: a start
/// shows it recording at speed zero, progress shows it recording at the
/// reported speed, an error or a reconnection shows a message, and only a
/// completion shows it waiting again. A recording that is not running
/// changes no card.
pub proof fn law_card_follows_events(s: ContextStateView, e: DownloadEvent)
    ensures
        !s.running ==> handle_event_card(s, e) is None,
        s.running ==> handle_event_card(s, e) is Some,
        s.running && e is Started ==> handle_event_card(s, e) == Some(
            CardStatusView::Recording { speed_kbps_bits: 0 },
        ),
        s.running ==> (e matches DownloadEvent::Progress { download_speed_kbps_bits, .. } ==> handle_event_card(
            s,
            e,
        ) == Some(CardStatusView::Recording { speed_kbps_bits: download_speed_kbps_bits })),
        s.running && (e is Error || e is Reconnecting) ==> handle_event_card(s, e) matches Some(
            CardStatusView::Error(_),
        ),
        s.running ==> (handle_event_card(s, e) == Some(CardStatusView::Waiting) <==> e is Completed),
        s.running && !(e is Completed) ==> handle_event_state(s, e).running,
{
}
} // verus!
