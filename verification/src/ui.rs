//! What the application shows of a watched room, and of the list of rooms.
use vstd::prelude::*;
use crate::api::{live_status_label, room_page_url, room_page_url_spec, shown_room_id, LiveStatus};
use crate::external::{file_name, path_file_name};
use crate::settings::{
    codec_label, container_label, quality_label, strategy_label, Quality, RoomSettings, Strategy, StreamCodec,
    VideoContainer,
};
use crate::state::{DownloaderStatus, RoomCardState, RoomCardStatus};
use crate::text::{decimal, parse_u64, parse_u64_spec, u64_to_decimal};
use crate::utils::{pretty_bytes, pretty_bytes_spec, pretty_duration, pretty_duration_spec};

verus! {

/// The text before the first space, or all of it when there is none.
pub open spec fn before_first_space(s: Seq<char>) -> Seq<char>
    decreases s.len(),
{
    if s.len() == 0 || s[0] == ' ' {
        Seq::empty()
    } else {
        seq![s[0]] + before_first_space(s.drop_first())
    }
}

proof fn lemma_before_first_space(s: Seq<char>, i: int)
    requires
        0 <= i <= s.len(),
        forall|j: int| 0 <= j < i ==> s[j] != ' ',
        i < s.len() ==> s[i] == ' ',
    ensures
        before_first_space(s) == s.take(i),
    decreases s.len(),
{
    if i > 0 {
        let t = s.drop_first();
        assert forall|j: int| 0 <= j < i - 1 implies t[j] != ' ' by {
            assert(t[j] == s[j + 1]);
        }
        lemma_before_first_space(t, i - 1);
        assert(s.take(i) =~= seq![s[0]] + t.take(i - 1));
    } else {
        assert(s.take(0) =~= Seq::<char>::empty());
    }
}

/// The text before the first space, or all of it when there is none.
pub fn before_first_space_exec(s: &str) -> (r: String)
    ensures
        r@ == before_first_space(s@),
{
    let n = s.unicode_len();
    let mut i: usize = 0;
    while i < n
        invariant
            n == s@.len(),
            i <= n,
            forall|j: int| 0 <= j < i ==> s@[j] != ' ',
        ensures
            i < n ==> s@[i as int] == ' ',
        decreases n - i,
    {
        if s.get_char(i) == ' ' {
            break;
        }
        i = i + 1;
    }
    proof {
        lemma_before_first_space(s@, i as int);
    }
    String::from_str(s.substring_char(0, i))
}

/// The line shown under a room for what its downloader last reported.
pub open spec fn downloader_status_text_spec(status: DownloaderStatus) -> Seq<char> {
    match status {
        DownloaderStatus::Started { file_path } => "录制中: "@ + match path_file_name(file_path@) {
            Some(n) => n,
            None => Seq::empty(),
        },
        DownloaderStatus::Completed { file_path, file_size, duration } => "录制完成: "@ + file_path@
            + " 大小: "@ + pretty_bytes_spec(file_size as nat) + " 时长: "@ + pretty_duration_spec(
            duration as nat,
        ),
        DownloaderStatus::Error { cause } => "录制失败: "@ + cause@,
    }
}

/// The line shown under a room for what its downloader last reported: the
/// name of the file being written, the path, size and length of a finished
/// recording, or the cause of a failure.
pub fn downloader_status_text(status: &DownloaderStatus) -> (r: String)
    ensures
        r@ == downloader_status_text_spec(*status),
{
    match status {
        DownloaderStatus::Started { file_path } => {
            let mut s = String::from_str("录制中: ");
            if let Some(name) = file_name(file_path.as_str()) {
                s.append(name.as_str());
            }
            s
        },
        DownloaderStatus::Completed { file_path, file_size, duration } => {
            let mut s = String::from_str("录制完成: ");
            s.append(file_path.as_str());
            s.append(" 大小: ");
            let size = pretty_bytes(*file_size);
            s.append(size.as_str());
            s.append(" 时长: ");
            let length = pretty_duration(*duration);
            s.append(length.as_str());
            s
        },
        DownloaderStatus::Error { cause } => {
            let mut s = String::from_str("录制失败: ");
            s.append(cause.as_str());
            s
        },
    }
}

/// The label of the record button: start while waiting, stop while recording.
pub open spec fn record_label_spec(status: RoomCardStatus) -> Seq<char> {
    match status {
        RoomCardStatus::WaitLiveStreaming => "开始录制"@,
        RoomCardStatus::LiveRecording => "停止录制"@,
    }
}

pub fn record_label(status: RoomCardStatus) -> (r: &'static str)
    ensures
        r@ == record_label_spec(status),
{
    match status {
        RoomCardStatus::WaitLiveStreaming => "开始录制",
        RoomCardStatus::LiveRecording => "停止录制",
    }
}

/// Whether a click on the record button asks to start recording (rather
/// than to stop): it does while the room waits for the stream.
pub fn record_click_starts(status: RoomCardStatus) -> (r: bool)
    ensures
        r == (status == RoomCardStatus::WaitLiveStreaming),
{
    match status {
        RoomCardStatus::WaitLiveStreaming => true,
        RoomCardStatus::LiveRecording => false,
    }
}

/// What a room card shows once the room and its streamer are known.
#[derive(Debug)]
pub struct RoomCardView {
    pub cover_url: String,
    pub title: String,
    pub streamer: String,
    /// `房间号: ` and the room number shown to users.
    pub room_number: String,
    pub live: bool,
    pub live_label: &'static str,
    /// The follower count, shown while recording.
    pub attention: Option<String>,
    /// The area, shown while live.
    pub area_name: Option<String>,
    /// The day the stream went live, shown while live.
    pub live_date: Option<String>,
    pub record_label: &'static str,
    /// The record button works only while the room is live.
    pub record_enabled: bool,
    pub downloader_text: Option<String>,
    /// The card is marked as failed after a downloader error.
    pub failed: bool,
    /// The card is marked while the recording reconnects.
    pub reconnecting: bool,
    pub page_url: String,
}

/// What a room card shows for a room's state; `None` while the room or its
/// streamer is not known yet, when placeholders are shown.
pub fn room_card_view(state: &RoomCardState) -> (r: Option<RoomCardView>)
    ensures
        r is Some <==> (state.room_info is Some && state.user_info is Some),
        r matches Some(v) ==> {
            let info = state.room_info.unwrap();
            let user = state.user_info.unwrap();
            let live = info.live_status == LiveStatus::Live;
            &&& v.cover_url@ == info.user_cover@
            &&& v.title@ == info.title@
            &&& v.streamer@ == user.uname@
            &&& v.room_number@ == "房间号: "@ + decimal(shown_room_id(info) as nat)
            &&& v.live == live
            &&& v.live_label@ == live_status_label(info.live_status)
            &&& (state.status == RoomCardStatus::LiveRecording) == v.attention is Some
            &&& v.attention matches Some(a) ==> a@ == "🔥 "@ + decimal(info.attention as nat)
            &&& live == v.area_name is Some
            &&& v.area_name matches Some(a) ==> a@ == info.area_name@
            &&& live == v.live_date is Some
            &&& v.live_date matches Some(d) ==> d@ == before_first_space(info.live_time@)
            &&& v.record_label@ == record_label_spec(state.status)
            &&& v.record_enabled == live
            &&& state.downloader_status is Some == v.downloader_text is Some
            &&& v.downloader_text matches Some(t) ==> t@ == downloader_status_text_spec(
                state.downloader_status.unwrap(),
            )
            &&& v.failed == (state.downloader_status is Some && state.downloader_status.unwrap() is Error)
            &&& v.reconnecting == state.reconnecting
            &&& v.page_url@ == room_page_url_spec(info.room_id)
        },
{
    let (info, user) = match (&state.room_info, &state.user_info) {
        (Some(info), Some(user)) => (info, user),
        _ => {
            return None;
        },
    };
    let live = match info.live_status {
        LiveStatus::Live => true,
        _ => false,
    };
    let mut room_number = String::from_str("房间号: ");
    let shown = u64_to_decimal(info.shown_room_id());
    room_number.append(shown.as_str());
    let attention = match state.status {
        RoomCardStatus::LiveRecording => {
            let mut a = String::from_str("🔥 ");
            let n = u64_to_decimal(info.attention as u64);
            a.append(n.as_str());
            Some(a)
        },
        RoomCardStatus::WaitLiveStreaming => None,
    };
    let area_name = if live {
        Some(info.area_name.clone())
    } else {
        None
    };
    let live_date = if live {
        Some(before_first_space_exec(info.live_time.as_str()))
    } else {
        None
    };
    let downloader_text = match &state.downloader_status {
        Some(s) => Some(downloader_status_text(s)),
        None => None,
    };
    let failed = match &state.downloader_status {
        Some(DownloaderStatus::Error { .. }) => true,
        _ => false,
    };
    Some(
        RoomCardView {
            cover_url: info.user_cover.clone(),
            title: info.title.clone(),
            streamer: user.uname.clone(),
            room_number,
            live,
            live_label: info.live_status.label(),
            attention,
            area_name,
            live_date,
            record_label: record_label(state.status),
            record_enabled: live,
            downloader_text,
            failed,
            reconnecting: state.reconnecting,
            page_url: room_page_url(info.room_id),
        },
    )
}

/// `共 n 个房间`: the heading of the room list.
pub fn room_count_text(n: usize) -> (r: String)
    ensures
        r@ == "共 "@ + decimal(n as nat) + " 个房间"@,
{
    let mut s = String::from_str("共 ");
    let d = u64_to_decimal(n as u64);
    s.append(d.as_str());
    s.append(" 个房间");
    s
}

/// The room number typed into the room input.
#[derive(Debug)]
pub struct RoomNumberInput {
    room_num: u64,
}

impl RoomNumberInput {
    pub closed spec fn value(&self) -> u64 {
        self.room_num
    }

    /// An input showing zero.
    pub fn new() -> (r: Self)
        ensures
            r.value() == 0,
    {
        RoomNumberInput { room_num: 0 }
    }

    /// The number shown.
    pub fn room_num(&self) -> (r: u64)
        ensures
            r == self.value(),
    {
        self.room_num
    }

    /// A change of the text: a text that reads as a number replaces the
    /// number, any other text leaves it as it was.
    pub fn on_text(&mut self, text: &str)
        ensures
            final(self).value() == match parse_u64_spec(text@) {
                Some(v) => v,
                None => old(self).value(),
            },
    {
        if let Some(v) = parse_u64(text) {
            self.room_num = v;
        }
    }

    /// A step of the number: down stops at zero, up at the largest number.
    pub fn step(&mut self, up: bool)
        ensures
            up ==> final(self).value() == (if old(self).value() < u64::MAX {
                old(self).value() + 1
            } else {
                u64::MAX as int
            }),
            !up ==> final(self).value() == (if old(self).value() > 0 {
                old(self).value() - 1
            } else {
                0
            }),
    {
        if up {
            self.room_num = self.room_num.saturating_add(1);
        } else if self.room_num > 0 {
            self.room_num = self.room_num - 1;
        }
    }

    /// Takes the number to add a room with: a positive number is handed out
    /// and the input goes back to zero; zero adds nothing.
    pub fn take(&mut self) -> (r: Option<u64>)
        ensures
            old(self).value() > 0 ==> r == Some(old(self).value()) && final(self).value() == 0,
            old(self).value() == 0 ==> r is None && final(self).value() == 0,
    {
        if self.room_num > 0 {
            let v = self.room_num;
            self.room_num = 0;
            Some(v)
        } else {
            None
        }
    }
}

/// A drop-down list: the names offered, in order, and the one selected.
#[derive(Debug)]
pub struct ChoiceList {
    pub options: Vec<&'static str>,
    pub selected: &'static str,
}

pub open spec fn names(options: Seq<&'static str>) -> Seq<Seq<char>> {
    options.map_values(|o: &'static str| o@)
}

/// What the room settings dialog shows for a room's settings: the file-name
/// template, and for each choice every name offered with the room's own
/// choice (or the default one) selected.
#[derive(Debug)]
pub struct RoomSettingsForm {
    pub record_name: String,
    pub strategy: ChoiceList,
    pub quality: ChoiceList,
    pub format: ChoiceList,
    pub codec: ChoiceList,
}

/// The room settings dialog's fields for a room's settings.
pub fn room_settings_form(settings: &RoomSettings) -> (r: RoomSettingsForm)
    ensures
        r.record_name@ == settings.record_name@,
        names(r.strategy.options@) == seq![
            strategy_label(Strategy::LowCost),
            strategy_label(Strategy::PriorityConfig),
        ],
        r.strategy.selected@ == strategy_label(settings.strategy.unwrap_or(Strategy::LowCost)),
        names(r.quality.options@) == seq![
            quality_label(Quality::Dolby),
            quality_label(Quality::UHD4K),
            quality_label(Quality::Original),
            quality_label(Quality::BlueRay),
            quality_label(Quality::UltraHD),
            quality_label(Quality::HD),
            quality_label(Quality::Smooth),
        ],
        r.quality.selected@ == quality_label(settings.quality.unwrap_or(Quality::Original)),
        names(r.format.options@) == seq![
            container_label(VideoContainer::FLV),
            container_label(VideoContainer::FMP4),
            container_label(VideoContainer::TS),
        ],
        r.format.selected@ == container_label(settings.format.unwrap_or(VideoContainer::FMP4)),
        names(r.codec.options@) == seq![codec_label(StreamCodec::AVC), codec_label(StreamCodec::HEVC)],
        r.codec.selected@ == codec_label(settings.codec.unwrap_or(StreamCodec::HEVC)),
{
    let mut strategies: Vec<&'static str> = Vec::new();
    strategies.push(Strategy::LowCost.label());
    strategies.push(Strategy::PriorityConfig.label());
    let mut qualities: Vec<&'static str> = Vec::new();
    qualities.push(Quality::Dolby.label());
    qualities.push(Quality::UHD4K.label());
    qualities.push(Quality::Original.label());
    qualities.push(Quality::BlueRay.label());
    qualities.push(Quality::UltraHD.label());
    qualities.push(Quality::HD.label());
    qualities.push(Quality::Smooth.label());
    let mut formats: Vec<&'static str> = Vec::new();
    formats.push(VideoContainer::FLV.label());
    formats.push(VideoContainer::FMP4.label());
    formats.push(VideoContainer::TS.label());
    let mut codecs: Vec<&'static str> = Vec::new();
    codecs.push(StreamCodec::AVC.label());
    codecs.push(StreamCodec::HEVC.label());
    proof {
        assert(names(strategies@) =~= seq![
            strategy_label(Strategy::LowCost),
            strategy_label(Strategy::PriorityConfig),
        ]);
        assert(names(qualities@) =~= seq![
            quality_label(Quality::Dolby),
            quality_label(Quality::UHD4K),
            quality_label(Quality::Original),
            quality_label(Quality::BlueRay),
            quality_label(Quality::UltraHD),
            quality_label(Quality::HD),
            quality_label(Quality::Smooth),
        ]);
        assert(names(formats@) =~= seq![
            container_label(VideoContainer::FLV),
            container_label(VideoContainer::FMP4),
            container_label(VideoContainer::TS),
        ]);
        assert(names(codecs@) =~= seq![codec_label(StreamCodec::AVC), codec_label(StreamCodec::HEVC)]);
    }
    let strategy = match settings.strategy {
        Some(v) => v,
        None => Strategy::LowCost,
    };
    let quality = match settings.quality {
        Some(v) => v,
        None => Quality::Original,
    };
    let format = match settings.format {
        Some(v) => v,
        None => VideoContainer::FMP4,
    };
    let codec = match settings.codec {
        Some(v) => v,
        None => StreamCodec::HEVC,
    };
    RoomSettingsForm {
        record_name: settings.record_name.clone(),
        strategy: ChoiceList { options: strategies, selected: strategy.label() },
        quality: ChoiceList { options: qualities, selected: quality.label() },
        format: ChoiceList { options: formats, selected: format.label() },
        codec: ChoiceList { options: codecs, selected: codec.label() },
    }
}

} // verus!
