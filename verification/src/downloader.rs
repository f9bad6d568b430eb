//! Planning a recording: which stream to record, the recorded file's name
//! and place, the download settings, and what the download process is told.
use vstd::prelude::*;
use crate::api::{LiveRoomInfoData, LiveRoomStreamUrl, LiveUserInfo, PlayStream, PlayStreamFormat, StreamCodecInfo};
use crate::context::{DownloadStats, DownloaderContext, ContextStateView, zero_stats};
use crate::external::{
    chrono_parse, datetime_text, fields_tuple, file_stem, format_datetime, leon_parses, leon_render, pairs_view,
    parse_datetime, path_file_stem, random_index, render_template, shanghai_local_time_is_single, shanghai_single,
    valid_datetime_fields, DateTimeFields, TemplateFailure,
};
use crate::error::DownloaderError;
use crate::context::DownloadEvent;
use crate::settings::DEFAULT_RECORD_NAME;
use crate::text::{
    contains_seq, contains_str, decimal, has_prefix, has_suffix, parse_u32, parse_u32_spec,
    strip_prefix, strip_suffix, u64_to_decimal,
};
use crate::settings::{LiveProtocol, Quality, Strategy, StreamCodec, VideoContainer};

verus! {

/// The referer sent with every stream request.
pub const REFERER: &'static str = "https://live.bilibili.com/";

/// The browser identity sent with every stream request.
pub const USER_AGENT: &'static str = "Mozilla/5.0 (Windows NT 10.0; Win64; x64) AppleWebKit/537.36 (KHTML, like Gecko) Chrome/120.0.0.0 Safari/537.36";

// ---------------------------------------------------------------------------
// Stream selection
// ---------------------------------------------------------------------------

/// The index of the first element that satisfies `p`.
pub open spec fn first_index<T>(s: Seq<T>, p: spec_fn(T) -> bool) -> Option<int>
    decreases s.len(),
{
    if s.len() == 0 {
        None
    } else if p(s[0]) {
        Some(0)
    } else {
        match first_index(s.drop_first(), p) {
            Some(i) => Some(i + 1),
            None => None,
        }
    }
}

proof fn lemma_first_index<T>(s: Seq<T>, p: spec_fn(T) -> bool, i: int)
    requires
        0 <= i <= s.len(),
        forall|j: int| 0 <= j < i ==> !p(#[trigger] s[j]),
        i < s.len() ==> p(s[i]),
    ensures
        first_index(s, p) == (if i < s.len() {
            Some(i)
        } else {
            None::<int>
        }),
    decreases s.len(),
{
    if s.len() > 0 && i > 0 {
        assert forall|j: int| 0 <= j < i - 1 implies !p(#[trigger] s.drop_first()[j]) by {
            assert(s.drop_first()[j] == s[j + 1]);
        }
        lemma_first_index(s.drop_first(), p, i - 1);
        assert(!p(s[0]));
    }
}

/// Which downloader records a stream.
#[derive(Debug, Clone, Copy, PartialEq, Eq, Structural)]
pub enum DownloaderKind {
    HttpStream,
    HttpHls,
}

/// Why no stream could be picked.
#[derive(Debug, Clone, Copy, PartialEq, Eq, Structural)]
pub enum StreamSelectError {
    /// The answer holds no play information.
    NoPlayInfo,
    /// No stream is offered over a known protocol.
    NoSuitableProtocol,
    /// The chosen stream has no container.
    NoSuitableStream,
    /// The chosen HLS stream has no container.
    NoSuitableHlsStream,
    /// The chosen container has no codec.
    NoSuitableCodec,
}

pub open spec fn select_error_message(e: StreamSelectError) -> Seq<char> {
    match e {
        StreamSelectError::NoPlayInfo => "未找到播放信息"@,
        StreamSelectError::NoSuitableProtocol => "未找到合适的直播流协议"@,
        StreamSelectError::NoSuitableStream => "未找到合适的直播流"@,
        StreamSelectError::NoSuitableHlsStream => "未找到合适的HLS流"@,
        StreamSelectError::NoSuitableCodec => "未找到合适的视频编码"@,
    }
}

impl StreamSelectError {
    /// The message shown for the error.
    pub fn message(&self) -> (r: &'static str)
        ensures
            r@ == select_error_message(*self),
    {
        match self {
            StreamSelectError::NoPlayInfo => "未找到播放信息",
            StreamSelectError::NoSuitableProtocol => "未找到合适的直播流协议",
            StreamSelectError::NoSuitableStream => "未找到合适的直播流",
            StreamSelectError::NoSuitableHlsStream => "未找到合适的HLS流",
            StreamSelectError::NoSuitableCodec => "未找到合适的视频编码",
        }
    }
}

/// Where in a stream answer the recorded stream is, and which downloader
/// records it.
#[derive(Debug, Clone, Copy, PartialEq, Eq, Structural)]
pub struct StreamSelection {
    pub stream_index: usize,
    pub format_index: usize,
    pub codec_index: usize,
    pub kind: DownloaderKind,
}

/// The container picked in a stream: the wanted one when offered, else the first.
pub open spec fn format_pick(formats: Seq<PlayStreamFormat>, want: VideoContainer) -> int {
    match first_index(formats, |f: PlayStreamFormat| f.format_name == want) {
        Some(i) => i,
        None => 0,
    }
}

/// The codec picked in a container: the wanted one when offered, else the first.
pub open spec fn codec_pick(codecs: Seq<StreamCodecInfo>, want: StreamCodec) -> int {
    match first_index(codecs, |c: StreamCodecInfo| c.codec_name == want) {
        Some(i) => i,
        None => 0,
    }
}

/// The container and codec picked in a stream, as indices.
pub open spec fn pick_in_stream(
    stream: PlayStream,
    want_format: VideoContainer,
    want_codec: StreamCodec,
    kind: DownloaderKind,
) -> Result<(int, int), StreamSelectError> {
    let formats = stream.format@;
    if formats.len() == 0 {
        Err(
            match kind {
                DownloaderKind::HttpHls => StreamSelectError::NoSuitableHlsStream,
                DownloaderKind::HttpStream => StreamSelectError::NoSuitableStream,
            },
        )
    } else {
        let fi = format_pick(formats, want_format);
        let codecs = formats[fi].codec@;
        if codecs.len() == 0 {
            Err(StreamSelectError::NoSuitableCodec)
        } else {
            Ok((fi, codec_pick(codecs, want_codec)))
        }
    }
}

pub open spec fn protocol_index(streams: Seq<PlayStream>, p: LiveProtocol) -> Option<int> {
    first_index(streams, |s: PlayStream| s.protocol_name == p)
}

/// Which stream is recorded, and by which downloader. The low-cost strategy
/// prefers the HTTP stream and falls back to HLS, recording either with the
/// HTTP stream downloader; the configured strategy prefers HLS, recorded by
/// the HLS downloader, and falls back to the HTTP stream.
pub open spec fn pick_stream(streams: Seq<PlayStream>, strategy: Strategy) -> Option<(int, DownloaderKind)> {
    match strategy {
        Strategy::LowCost => match protocol_index(streams, LiveProtocol::HttpStream) {
            Some(i) => Some((i, DownloaderKind::HttpStream)),
            None => match protocol_index(streams, LiveProtocol::HttpHLS) {
                Some(i) => Some((i, DownloaderKind::HttpStream)),
                None => None,
            },
        },
        Strategy::PriorityConfig => match protocol_index(streams, LiveProtocol::HttpHLS) {
            Some(i) => Some((i, DownloaderKind::HttpHls)),
            None => match protocol_index(streams, LiveProtocol::HttpStream) {
                Some(i) => Some((i, DownloaderKind::HttpStream)),
                None => None,
            },
        },
    }
}

/// The stream, container and codec that a recording with the given
/// strategy and wanted container and codec picks from a stream answer.
pub open spec fn select_stream_spec(
    info: LiveRoomStreamUrl,
    strategy: Strategy,
    want_format: VideoContainer,
    want_codec: StreamCodec,
) -> Result<StreamSelection, StreamSelectError> {
    match info.playurl_info {
        None => Err(StreamSelectError::NoPlayInfo),
        Some(p) => {
            let streams = p.playurl.stream@;
            match pick_stream(streams, strategy) {
                None => Err(StreamSelectError::NoSuitableProtocol),
                Some((si, kind)) => match pick_in_stream(streams[si], want_format, want_codec, kind) {
                    Err(e) => Err(e),
                    Ok((fi, ci)) => Ok(
                        StreamSelection {
                            stream_index: si as usize,
                            format_index: fi as usize,
                            codec_index: ci as usize,
                            kind,
                        },
                    ),
                },
            }
        },
    }
}

/// The codec entry a selection points at.
pub open spec fn selected_codec(info: LiveRoomStreamUrl, sel: StreamSelection) -> StreamCodecInfo {
    info.playurl_info.unwrap().playurl.stream@[sel.stream_index as int].format@[sel.format_index as int].codec@[sel.codec_index as int]
}

/// The address of a stream through the `k`-th host of a codec entry.
pub open spec fn host_url(codec: StreamCodecInfo, k: int) -> Seq<char> {
    codec.url_info@[k].host@ + codec.base_url@ + codec.url_info@[k].extra@
}

/// The stream to record, with the address it is fetched from.
#[derive(Debug)]
pub struct StreamChoice {
    pub url: String,
    pub kind: DownloaderKind,
    pub format: VideoContainer,
    pub codec: StreamCodec,
}

/// A stream answer in which the stream a selection picks can be fetched:
/// its codec entry lists at least one host.
pub open spec fn selection_has_hosts(
    info: LiveRoomStreamUrl,
    strategy: Strategy,
    want_format: VideoContainer,
    want_codec: StreamCodec,
) -> bool {
    select_stream_spec(info, strategy, want_format, want_codec) matches Ok(sel) ==> selected_codec(
        info,
        sel,
    ).url_info@.len() > 0
}

/// The choice of a stream in a single stream entry (container, codec,
/// random host).
pub open spec fn stream_choice_ok(
    c: StreamChoice,
    stream: PlayStream,
    fi: int,
    ci: int,
    kind: DownloaderKind,
) -> bool {
    let codec = stream.format@[fi].codec@[ci];
    &&& c.kind == kind
    &&& c.format == stream.format@[fi].format_name
    &&& c.codec == codec.codec_name
    &&& exists|k: int| 0 <= k < codec.url_info@.len() && c.url@ == #[trigger] host_url(codec, k)
}

/// A recording of a room: its bookkeeping and the choices it records with.
pub struct BLiveDownloader {
    pub context: DownloaderContext,
}

fn find_protocol(streams: &Vec<PlayStream>, p: LiveProtocol) -> (r: Option<usize>)
    ensures
        match r {
            Some(x) => protocol_index(streams@, p) == Some(x as int) && x < streams@.len(),
            None => protocol_index(streams@, p) is None,
        },
{
    let ghost pred = |s: PlayStream| s.protocol_name == p;
    let mut i: usize = 0;
    while i < streams.len()
        invariant
            i <= streams@.len(),
            pred == (|s: PlayStream| s.protocol_name == p),
            forall|j: int| 0 <= j < i ==> !pred(#[trigger] streams@[j]),
        decreases streams.len() - i,
    {
        if streams[i].protocol_name == p {
            proof {
                assert(pred(streams@[i as int]));
                lemma_first_index(streams@, pred, i as int);
            }
            return Some(i);
        }
        i = i + 1;
    }
    proof {
        lemma_first_index(streams@, pred, i as int);
    }
    None
}

fn find_format(formats: &Vec<PlayStreamFormat>, want: VideoContainer) -> (r: usize)
    requires
        formats@.len() > 0,
    ensures
        r == format_pick(formats@, want),
        r < formats@.len(),
{
    let ghost pred = |f: PlayStreamFormat| f.format_name == want;
    let mut i: usize = 0;
    while i < formats.len()
        invariant
            i <= formats@.len(),
            pred == (|f: PlayStreamFormat| f.format_name == want),
            forall|j: int| 0 <= j < i ==> !pred(#[trigger] formats@[j]),
        decreases formats.len() - i,
    {
        if formats[i].format_name == want {
            proof {
                assert(pred(formats@[i as int]));
                lemma_first_index(formats@, pred, i as int);
            }
            return i;
        }
        i = i + 1;
    }
    proof {
        lemma_first_index(formats@, pred, i as int);
    }
    0
}

fn find_codec(codecs: &Vec<StreamCodecInfo>, want: StreamCodec) -> (r: usize)
    requires
        codecs@.len() > 0,
    ensures
        r == codec_pick(codecs@, want),
        r < codecs@.len(),
{
    let ghost pred = |c: StreamCodecInfo| c.codec_name == want;
    let mut i: usize = 0;
    while i < codecs.len()
        invariant
            i <= codecs@.len(),
            pred == (|c: StreamCodecInfo| c.codec_name == want),
            forall|j: int| 0 <= j < i ==> !pred(#[trigger] codecs@[j]),
        decreases codecs.len() - i,
    {
        if codecs[i].codec_name == want {
            proof {
                assert(pred(codecs@[i as int]));
                lemma_first_index(codecs@, pred, i as int);
            }
            return i;
        }
        i = i + 1;
    }
    proof {
        lemma_first_index(codecs@, pred, i as int);
    }
    0
}

/// The address of the stream through one host picked at random.
fn pick_url(codec: &StreamCodecInfo) -> (r: String)
    requires
        codec.url_info@.len() > 0,
    ensures
        exists|k: int| 0 <= k < codec.url_info@.len() && r@ == #[trigger] host_url(*codec, k),
{
    let k = random_index(codec.url_info.len());
    let info = &codec.url_info[k];
    let mut url = info.host.clone();
    url.append(codec.base_url.as_str());
    url.append(info.extra.as_str());
    assert(url@ == host_url(*codec, k as int));
    url
}

impl BLiveDownloader {
    /// A recording of a room with the given choices, not started.
    pub fn new(
        room_info: LiveRoomInfoData,
        user_info: LiveUserInfo,
        quality: Quality,
        format: VideoContainer,
        codec: StreamCodec,
        strategy: Strategy,
    ) -> (r: Self)
        ensures
            r.context.state() == (ContextStateView {
                status: crate::context::DownloadStatus::NotStarted,
                stats: zero_stats(),
                running: false,
            }),
            r.context.queue() == Seq::<crate::context::DownloadEvent>::empty(),
            r.context.room_info == room_info,
            r.context.user_info == user_info,
            r.context.quality == quality,
            r.context.format == format,
            r.context.codec == codec,
            r.context.strategy == strategy,
    {
        let context = DownloaderContext::new(room_info, user_info, strategy, quality, format, codec);
        BLiveDownloader { context }
    }

    /// Whether the recording runs.
    pub fn is_running(&self) -> (r: bool)
        ensures
            r == self.context.state().running,
    {
        self.context.is_running()
    }

    /// The figures of the recording.
    pub fn get_download_stats(&self) -> (r: Option<DownloadStats>)
        ensures
            r matches Some(s) && s@ == self.context.state().stats,
    {
        Some(self.context.get_stats())
    }

    /// The container and codec picked in one stream entry, as indices.
    fn pick_in(&self, stream: &PlayStream, kind: DownloaderKind) -> (r: Result<(usize, usize), StreamSelectError>)
        ensures
            match r {
                Ok((fi, ci)) => pick_in_stream(*stream, self.context.format, self.context.codec, kind)
                    == Ok::<(int, int), StreamSelectError>((fi as int, ci as int)) && fi < stream.format@.len()
                    && ci < stream.format@[fi as int].codec@.len(),
                Err(e) => pick_in_stream(*stream, self.context.format, self.context.codec, kind) == Err::<
                    (int, int),
                    StreamSelectError,
                >(e),
            },
    {
        if stream.format.len() == 0 {
            return Err(
                match kind {
                    DownloaderKind::HttpHls => StreamSelectError::NoSuitableHlsStream,
                    DownloaderKind::HttpStream => StreamSelectError::NoSuitableStream,
                },
            );
        }
        let fi = find_format(&stream.format, self.context.format);
        let codecs = &stream.format[fi].codec;
        if codecs.len() == 0 {
            return Err(StreamSelectError::NoSuitableCodec);
        }
        let ci = find_codec(codecs, self.context.codec);
        Ok((fi, ci))
    }

    /// Which stream, container and codec a recording picks from a stream
    /// answer, following the recording's strategy, container and codec.
    pub fn select_stream(&self, stream_info: &LiveRoomStreamUrl) -> (r: Result<StreamSelection, StreamSelectError>)
        ensures
            r == select_stream_spec(*stream_info, self.context.strategy, self.context.format, self.context.codec),
            r matches Ok(sel) ==> stream_info.playurl_info is Some && sel.stream_index
                < stream_info.playurl_info.unwrap().playurl.stream@.len() && sel.format_index
                < stream_info.playurl_info.unwrap().playurl.stream@[sel.stream_index as int].format@.len()
                && sel.codec_index < stream_info.playurl_info.unwrap().playurl.stream@[sel.stream_index as int].format@[sel.format_index as int].codec@.len(),
    {
        let playurl_info = match &stream_info.playurl_info {
            Some(p) => p,
            None => return Err(StreamSelectError::NoPlayInfo),
        };
        let streams = &playurl_info.playurl.stream;
        let (si, kind) = match self.context.strategy {
            Strategy::LowCost => match find_protocol(streams, LiveProtocol::HttpStream) {
                Some(i) => (i, DownloaderKind::HttpStream),
                None => match find_protocol(streams, LiveProtocol::HttpHLS) {
                    Some(i) => (i, DownloaderKind::HttpStream),
                    None => return Err(StreamSelectError::NoSuitableProtocol),
                },
            },
            Strategy::PriorityConfig => match find_protocol(streams, LiveProtocol::HttpHLS) {
                Some(i) => (i, DownloaderKind::HttpHls),
                None => match find_protocol(streams, LiveProtocol::HttpStream) {
                    Some(i) => (i, DownloaderKind::HttpStream),
                    None => return Err(StreamSelectError::NoSuitableProtocol),
                },
            },
        };
        match self.pick_in(&streams[si], kind) {
            Ok((fi, ci)) => Ok(
                StreamSelection { stream_index: si, format_index: fi, codec_index: ci, kind },
            ),
            Err(e) => Err(e),
        }
    }

    /// Picks the container and codec of an HTTP stream entry (the wanted ones
    /// when offered, else the first) and one of its hosts at random.
    pub fn parse_http_stream(&self, stream: &PlayStream) -> (r: Result<StreamChoice, StreamSelectError>)
        requires
            pick_in_stream(*stream, self.context.format, self.context.codec, DownloaderKind::HttpStream) matches Ok((fi, ci))
                ==> stream.format@[fi].codec@[ci].url_info@.len() > 0,
        ensures
            match pick_in_stream(*stream, self.context.format, self.context.codec, DownloaderKind::HttpStream) {
                Ok((fi, ci)) => r matches Ok(c) && stream_choice_ok(c, *stream, fi, ci, DownloaderKind::HttpStream),
                Err(e) => r matches Err(x) && x == e,
            },
    {
        self.parse_stream_entry(stream, DownloaderKind::HttpStream)
    }

    /// Picks the container and codec of an HLS stream entry (the wanted ones
    /// when offered, else the first) and one of its hosts at random.
    pub fn parse_hls_stream(&self, stream: &PlayStream) -> (r: Result<StreamChoice, StreamSelectError>)
        requires
            pick_in_stream(*stream, self.context.format, self.context.codec, DownloaderKind::HttpHls) matches Ok((fi, ci))
                ==> stream.format@[fi].codec@[ci].url_info@.len() > 0,
        ensures
            match pick_in_stream(*stream, self.context.format, self.context.codec, DownloaderKind::HttpHls) {
                Ok((fi, ci)) => r matches Ok(c) && stream_choice_ok(c, *stream, fi, ci, DownloaderKind::HttpHls),
                Err(e) => r matches Err(x) && x == e,
            },
    {
        self.parse_stream_entry(stream, DownloaderKind::HttpHls)
    }

    fn parse_stream_entry(&self, stream: &PlayStream, kind: DownloaderKind) -> (r: Result<StreamChoice, StreamSelectError>)
        requires
            pick_in_stream(*stream, self.context.format, self.context.codec, kind) matches Ok((fi, ci))
                ==> stream.format@[fi].codec@[ci].url_info@.len() > 0,
        ensures
            match pick_in_stream(*stream, self.context.format, self.context.codec, kind) {
                Ok((fi, ci)) => r matches Ok(c) && stream_choice_ok(c, *stream, fi, ci, kind),
                Err(e) => r matches Err(x) && x == e,
            },
    {
        match self.pick_in(stream, kind) {
            Ok((fi, ci)) => {
                let format_stream = &stream.format[fi];
                let codec = &format_stream.codec[ci];
                let url = pick_url(codec);
                Ok(StreamChoice { url, kind, format: format_stream.format_name, codec: codec.codec_name })
            },
            Err(e) => Err(e),
        }
    }

    /// Picks the stream to record from a stream answer, following the
    /// recording's strategy, container and codec, and one of its hosts at random.
    pub fn parse_stream_url(&self, stream_info: &LiveRoomStreamUrl) -> (r: Result<StreamChoice, StreamSelectError>)
        requires
            selection_has_hosts(*stream_info, self.context.strategy, self.context.format, self.context.codec),
        ensures
            match select_stream_spec(*stream_info, self.context.strategy, self.context.format, self.context.codec) {
                Ok(sel) => r matches Ok(c) && stream_choice_ok(
                    c,
                    stream_info.playurl_info.unwrap().playurl.stream@[sel.stream_index as int],
                    sel.format_index as int,
                    sel.codec_index as int,
                    sel.kind,
                ),
                Err(e) => r matches Err(x) && x == e,
            },
    {
        match self.select_stream(stream_info) {
            Ok(sel) => {
                let stream = match &stream_info.playurl_info {
                    Some(p) => &p.playurl.stream[sel.stream_index],
                    None => return Err(StreamSelectError::NoPlayInfo),
                };
                let format_stream = &stream.format[sel.format_index];
                let codec = &format_stream.codec[sel.codec_index];
                let url = pick_url(codec);
                Ok(StreamChoice { url, kind: sel.kind, format: format_stream.format_name, codec: codec.codec_name })
            },
            Err(e) => Err(e),
        }
    }
}


// ---------------------------------------------------------------------------
// File name
// ---------------------------------------------------------------------------

/// The template used when the record name template does not read.
pub const FALLBACK_RECORD_NAME: &'static str = "{up_name}_{datetime}";

/// How the API writes the time a stream went live.
pub const LIVE_TIME_FORMAT: &'static str = "%Y-%m-%d %H:%M:%S";

/// How the start time appears in a file name.
pub const DATETIME_FORMAT: &'static str = "%Y-%m-%d %H点%M分";

/// How the start date appears in a file name.
pub const DATE_FORMAT: &'static str = "%Y-%m-%d";

/// The date and time taken when a live time does not read: the Unix epoch.
pub open spec fn epoch_tuple() -> (int, int, int, int, int, int) {
    (1970, 1, 1, 0, 0, 0)
}

/// The time a stream went live, as read by chrono, or the epoch.
pub open spec fn live_time_tuple(live_time: Seq<char>) -> (int, int, int, int, int, int) {
    match chrono_parse(live_time, LIVE_TIME_FORMAT@) {
        Some(t) => t,
        None => epoch_tuple(),
    }
}

/// The values a file-name template is filled with.
pub open spec fn filename_values(info: LiveRoomInfoData, user: LiveUserInfo) -> Seq<(Seq<char>, Seq<char>)> {
    let t = live_time_tuple(info.live_time@);
    seq![
        ("up_name"@, user.uname@),
        ("room_id"@, decimal(info.room_id as nat)),
        ("datetime"@, datetime_text(t, DATETIME_FORMAT@)),
        ("room_title"@, info.title@),
        ("room_description"@, info.description@),
        ("room_area_name"@, info.area_name@),
        ("date"@, datetime_text(t, DATE_FORMAT@)),
    ]
}

/// The name of a recording: the record name template filled with the
/// room's values; when that template does not read, the fallback template;
/// empty when rendering fails.
pub open spec fn filename_spec(info: LiveRoomInfoData, user: LiveUserInfo) -> Seq<char> {
    let v = filename_values(info, user);
    if leon_parses(DEFAULT_RECORD_NAME@) {
        leon_render(DEFAULT_RECORD_NAME@, v).unwrap_or(Seq::empty())
    } else {
        leon_render(FALLBACK_RECORD_NAME@, v).unwrap_or(Seq::empty())
    }
}

/// The inputs on which a file name can be made: the start time, placed in
/// the Asia/Shanghai time zone, is a single time (not skipped or repeated
/// by a daylight-saving change), and one of the two templates reads.
pub open spec fn filename_possible(info: LiveRoomInfoData) -> bool {
    &&& shanghai_single(live_time_tuple(info.live_time@))
    &&& (leon_parses(DEFAULT_RECORD_NAME@) || leon_parses(FALLBACK_RECORD_NAME@))
}

// ---------------------------------------------------------------------------
// File placement
// ---------------------------------------------------------------------------

/// The most parts a recording is split into.
pub const MAX_PARTS: u32 = 50;

/// The places involved in storing a recording.
#[derive(Debug)]
pub struct FilePaths {
    /// `{base}/{filename}.{ext}`
    pub initial: String,
    /// The stem of the file name.
    pub stem: String,
    /// `{base}/{stem}`, the folder that holds the parts.
    pub folder: String,
    /// `{folder}/{stem}_P1.{ext}`
    pub first_part: String,
}

pub open spec fn stem_spec(filename: Seq<char>) -> Seq<char> {
    path_file_stem(filename).unwrap_or(Seq::empty())
}

pub open spec fn part_path_spec(folder: Seq<char>, stem: Seq<char>, n: nat, ext: Seq<char>) -> Seq<char> {
    folder + "/"@ + stem + "_P"@ + decimal(n) + "."@ + ext
}

/// The part number a file in the parts folder carries, when its name is
/// `{stem}_P{number}.{ext}`.
pub open spec fn part_number_of(name: Seq<char>, stem: Seq<char>, ext: Seq<char>) -> Option<u32> {
    let suffix = "."@ + ext;
    let prefix = stem + "_P"@;
    if has_suffix(name, suffix) {
        let a = name.subrange(0, name.len() - suffix.len());
        if has_prefix(a, prefix) {
            parse_u32_spec(a.subrange(prefix.len() as int, a.len() as int))
        } else {
            None
        }
    } else {
        None
    }
}

/// The part numbers of the files in the parts folder, in listing order.
pub open spec fn part_numbers(entries: Seq<Seq<char>>, stem: Seq<char>, ext: Seq<char>) -> Seq<u32>
    decreases entries.len(),
{
    if entries.len() == 0 {
        Seq::empty()
    } else {
        let rest = part_numbers(entries.drop_last(), stem, ext);
        match part_number_of(entries.last(), stem, ext) {
            Some(n) => rest.push(n),
            None => rest,
        }
    }
}

pub open spec fn max_part(parts: Seq<u32>) -> u32
    decreases parts.len(),
{
    if parts.len() == 0 {
        0
    } else {
        let m = max_part(parts.drop_last());
        if parts.last() > m {
            parts.last()
        } else {
            m
        }
    }
}

/// The number of the next part: one past the highest present part, at most
/// the limit, and 1 when there is none.
pub open spec fn next_part_spec(parts: Seq<u32>) -> u32 {
    if parts.len() == 0 {
        1
    } else if max_part(parts) >= MAX_PARTS {
        MAX_PARTS
    } else {
        (max_part(parts) + 1) as u32
    }
}

/// Where a recording goes, and what has to happen to files already there.
#[derive(Debug)]
pub struct FilePlan {
    pub path: String,
    /// Whether the earlier recording at the initial path is moved to part 1 first.
    pub rename_initial: bool,
    /// The part number written, when the recording is split into parts.
    pub part: Option<u32>,
    /// Whether the last allowed part is written again.
    pub at_part_limit: bool,
}

pub struct FilePlanView {
    pub path: Seq<char>,
    pub rename_initial: bool,
    pub part: Option<u32>,
    pub at_part_limit: bool,
}

impl View for FilePlan {
    type V = FilePlanView;

    open spec fn view(&self) -> FilePlanView {
        FilePlanView {
            path: self.path@,
            rename_initial: self.rename_initial,
            part: self.part,
            at_part_limit: self.at_part_limit,
        }
    }
}

/// Where a recording goes. With neither an earlier recording at the initial
/// path nor a parts folder, it goes to the initial path. Otherwise it goes
/// into the parts folder: an earlier recording at the initial path is moved
/// to part 1 (unless part 1 exists) and the new one is part 2; else the new
/// one takes the next part number.
pub open spec fn file_plan_spec(
    initial: Seq<char>,
    folder: Seq<char>,
    stem: Seq<char>,
    ext: Seq<char>,
    folder_exists: bool,
    initial_exists: bool,
    entries: Seq<Seq<char>>,
    first_part_exists: bool,
) -> FilePlanView {
    if !folder_exists && !initial_exists {
        FilePlanView { path: initial, rename_initial: false, part: None, at_part_limit: false }
    } else {
        let parts = part_numbers(entries, stem, ext);
        let rename = initial_exists && !first_part_exists;
        let n: u32 = if rename {
            2
        } else {
            next_part_spec(parts)
        };
        FilePlanView {
            path: part_path_spec(folder, stem, n as nat, ext),
            rename_initial: rename,
            part: Some(n),
            at_part_limit: n == MAX_PARTS && parts.contains(MAX_PARTS),
        }
    }
}

/// The part number of a listed file name, when it has the part form.
pub fn part_number(name: &str, stem: &str, ext: &str) -> (r: Option<u32>)
    ensures
        r == part_number_of(name@, stem@, ext@),
{
    let mut suffix = String::from_str(".");
    suffix.append(ext);
    let mut prefix = String::from_str(stem);
    prefix.append("_P");
    proof {
        reveal_strlit(".");
        reveal_strlit("_P");
    }
    match strip_suffix(name, suffix.as_str()) {
        Some(a) => match strip_prefix(a.as_str(), prefix.as_str()) {
            Some(digits) => parse_u32(digits.as_str()),
            None => None,
        },
        None => None,
    }
}

/// The next part number for the listed files of the parts folder.
pub fn next_part_number(parts: &Vec<u32>) -> (r: u32)
    ensures
        r == next_part_spec(parts@),
        1 <= r <= MAX_PARTS,
{
    if parts.len() == 0 {
        return 1;
    }
    let mut m: u32 = 0;
    for i in 0..parts.len()
        invariant
            m == max_part(parts@.take(i as int)),
    {
        proof {
            assert(parts@.take(i + 1).drop_last() =~= parts@.take(i as int));
        }
        if parts[i] > m {
            m = parts[i];
        }
    }
    proof {
        assert(parts@.take(parts.len() as int) =~= parts@);
    }
    if m >= MAX_PARTS {
        MAX_PARTS
    } else {
        m + 1
    }
}

fn contains_part(parts: &Vec<u32>, n: u32) -> (r: bool)
    ensures
        r == parts@.contains(n),
{
    for i in 0..parts.len()
        invariant
            forall|j: int| 0 <= j < i ==> parts@[j] != n,
    {
        if parts[i] == n {
            return true;
        }
    }
    false
}

/// The configuration a download runs with.
#[derive(Debug)]
pub struct DownloadConfig {
    pub output_path: String,
    pub overwrite: bool,
    /// Seconds.
    pub timeout: u64,
    pub retry_count: u32,
    pub codec: StreamCodec,
    pub format: VideoContainer,
    pub quality: Quality,
    pub strategy: Strategy,
}

impl Default for DownloadConfig {
    fn default() -> (r: Self)
        ensures
            r.output_path@ == "download"@,
            !r.overwrite && r.timeout == 30 && r.retry_count == 3,
            r.codec == StreamCodec::HEVC && r.format == VideoContainer::FMP4,
            r.quality == Quality::Original && r.strategy == Strategy::LowCost,
    {
        DownloadConfig {
            strategy: Strategy::LowCost,
            output_path: String::from_str("download"),
            overwrite: false,
            timeout: 30,
            retry_count: 3,
            codec: StreamCodec::HEVC,
            format: VideoContainer::FMP4,
            quality: Quality::Original,
        }
    }
}

impl Clone for DownloadConfig {
    fn clone(&self) -> (r: Self)
        ensures
            r == *self,
    {
        DownloadConfig {
            output_path: self.output_path.clone(),
            overwrite: self.overwrite,
            timeout: self.timeout,
            retry_count: self.retry_count,
            codec: self.codec,
            format: self.format,
            quality: self.quality,
            strategy: self.strategy,
        }
    }
}

impl BLiveDownloader {
    /// The start time read from the room's live time, or the epoch when it
    /// does not read.
    fn live_time_fields(&self) -> (r: DateTimeFields)
        ensures
            fields_tuple(r) == live_time_tuple(self.context.room_info.live_time@),
            valid_datetime_fields(r),
    {
        match parse_datetime(self.context.room_info.live_time.as_str(), LIVE_TIME_FORMAT) {
            Some(f) => f,
            None => DateTimeFields { year: 1970, month: 1, day: 1, hour: 0, minute: 0, second: 0 },
        }
    }

    /// Renders the file name; `None` when neither template reads.
    fn render_filename(&self) -> (r: Option<String>)
        ensures
            r is None <==> !(leon_parses(DEFAULT_RECORD_NAME@) || leon_parses(FALLBACK_RECORD_NAME@)),
            r matches Some(n) ==> n@ == filename_spec(self.context.room_info, self.context.user_info),
    {
        let room_info = &self.context.room_info;
        let user_info = &self.context.user_info;
        let fields = self.live_time_fields();
        let mut values: Vec<(String, String)> = Vec::new();
        values.push((String::from_str("up_name"), user_info.uname.clone()));
        values.push((String::from_str("room_id"), u64_to_decimal(room_info.room_id)));
        values.push((String::from_str("datetime"), format_datetime(&fields, DATETIME_FORMAT)));
        values.push((String::from_str("room_title"), room_info.title.clone()));
        values.push((String::from_str("room_description"), room_info.description.clone()));
        values.push((String::from_str("room_area_name"), room_info.area_name.clone()));
        values.push((String::from_str("date"), format_datetime(&fields, DATE_FORMAT)));
        assert(pairs_view(values@) =~= filename_values(*room_info, *user_info));
        match render_template(DEFAULT_RECORD_NAME, &values) {
            Ok(s) => Some(s),
            Err(TemplateFailure::Render) => Some(String::new()),
            Err(TemplateFailure::Parse) => match render_template(FALLBACK_RECORD_NAME, &values) {
                Ok(s) => Some(s),
                Err(TemplateFailure::Render) => Some(String::new()),
                Err(TemplateFailure::Parse) => None,
            },
        }
    }

    /// The name of the recording, from the record name template filled with
    /// the streamer's name, the room number, title, description and area, and
    /// the start time and date. The start time must be a single time in the
    /// Asia/Shanghai time zone and one of the templates must read; otherwise
    /// no name can be made.
    pub fn generate_filename(&self) -> (r: String)
        requires
            filename_possible(self.context.room_info),
        ensures
            r@ == filename_spec(self.context.room_info, self.context.user_info),
    {
        match self.render_filename() {
            Some(n) => n,
            None => String::new(),
        }
    }

    /// The name of the recording, when one can be made: `None` exactly when
    /// the start time is skipped or repeated in the Asia/Shanghai time zone,
    /// or when neither template reads.
    pub fn try_generate_filename(&self) -> (r: Option<String>)
        ensures
            r is None <==> !filename_possible(self.context.room_info),
            r matches Some(n) ==> n@ == filename_spec(self.context.room_info, self.context.user_info),
    {
        let fields = self.live_time_fields();
        if !shanghai_local_time_is_single(&fields) {
            return None;
        }
        self.render_filename()
    }

    /// The places involved in storing a recording named `filename` with
    /// extension `ext` under `base_path`.
    pub fn file_paths(base_path: &str, filename: &str, ext: &str) -> (r: FilePaths)
        ensures
            r.initial@ == base_path@ + "/"@ + filename@ + "."@ + ext@,
            r.stem@ == stem_spec(filename@),
            r.folder@ == base_path@ + "/"@ + stem_spec(filename@),
            r.first_part@ == part_path_spec(r.folder@, r.stem@, 1, ext@),
    {
        let mut initial = String::from_str(base_path);
        initial.append("/");
        initial.append(filename);
        initial.append(".");
        initial.append(ext);
        let stem = match file_stem(filename) {
            Some(s) => s,
            None => String::new(),
        };
        let mut folder = String::from_str(base_path);
        folder.append("/");
        folder.append(stem.as_str());
        let first_part = part_path(folder.as_str(), stem.as_str(), 1, ext);
        FilePaths { initial, stem, folder, first_part }
    }

    /// Decides where a recording goes from what is on disk: whether the parts
    /// folder and the initial file exist, the names listed in the parts
    /// folder, and whether part 1 exists.
    pub fn resolve_file_path(
        paths: &FilePaths,
        ext: &str,
        folder_exists: bool,
        initial_exists: bool,
        folder_entries: &Vec<String>,
        first_part_exists: bool,
    ) -> (r: FilePlan)
        ensures
            r@ == file_plan_spec(
                paths.initial@,
                paths.folder@,
                paths.stem@,
                ext@,
                folder_exists,
                initial_exists,
                folder_entries@.map_values(|e: String| e@),
                first_part_exists,
            ),
    {
        if !folder_exists && !initial_exists {
            return FilePlan {
                path: paths.initial.clone(),
                rename_initial: false,
                part: None,
                at_part_limit: false,
            };
        }
        let ghost names = folder_entries@.map_values(|e: String| e@);
        let mut parts: Vec<u32> = Vec::new();
        for i in 0..folder_entries.len()
            invariant
                names == folder_entries@.map_values(|e: String| e@),
                parts@ == part_numbers(names.take(i as int), paths.stem@, ext@),
        {
            proof {
                assert(names.take(i + 1).drop_last() =~= names.take(i as int));
            }
            match part_number(folder_entries[i].as_str(), paths.stem.as_str(), ext) {
                Some(n) => parts.push(n),
                None => {},
            }
        }
        proof {
            assert(names.take(folder_entries.len() as int) =~= names);
        }
        let rename = initial_exists && !first_part_exists;
        let n = if rename {
            2
        } else {
            next_part_number(&parts)
        };
        let at_limit = n == MAX_PARTS && contains_part(&parts, MAX_PARTS);
        FilePlan {
            path: part_path(paths.folder.as_str(), paths.stem.as_str(), n, ext),
            rename_initial: rename,
            part: Some(n),
            at_part_limit: at_limit,
        }
    }

    /// The configuration a download of the chosen stream runs with: no
    /// overwriting, a 30 second timeout, three retries, and the recording's
    /// quality and strategy.
    pub fn download_config(&self, output_path: String, format: VideoContainer, codec: StreamCodec) -> (r: DownloadConfig)
        ensures
            r.output_path == output_path,
            !r.overwrite && r.timeout == 30 && r.retry_count == 3,
            r.codec == codec && r.format == format,
            r.quality == self.context.quality && r.strategy == self.context.strategy,
    {
        DownloadConfig {
            output_path,
            overwrite: false,
            timeout: 30,
            retry_count: 3,
            codec,
            format,
            quality: self.context.quality,
            strategy: self.context.strategy,
        }
    }
}

fn part_path(folder: &str, stem: &str, n: u32, ext: &str) -> (r: String)
    ensures
        r@ == part_path_spec(folder@, stem@, n as nat, ext@),
{
    let mut p = String::from_str(folder);
    p.append("/");
    p.append(stem);
    p.append("_P");
    let num = u64_to_decimal(n as u64);
    p.append(num.as_str());
    p.append(".");
    p.append(ext);
    p
}

/// A recording split into parts always writes a part numbered from 1 to the limit.
pub proof fn law_part_number_in_range(
    initial: Seq<char>,
    folder: Seq<char>,
    stem: Seq<char>,
    ext: Seq<char>,
    folder_exists: bool,
    initial_exists: bool,
    entries: Seq<Seq<char>>,
    first_part_exists: bool,
)
    ensures
        file_plan_spec(initial, folder, stem, ext, folder_exists, initial_exists, entries, first_part_exists).part matches Some(n)
            ==> 1 <= n <= MAX_PARTS,
        !folder_exists && !initial_exists ==> file_plan_spec(
            initial,
            folder,
            stem,
            ext,
            folder_exists,
            initial_exists,
            entries,
            first_part_exists,
        ).path == initial,
{
}

// ---------------------------------------------------------------------------
// Download process
// ---------------------------------------------------------------------------

/// The video encoder named for a codec.
pub open spec fn encoder_name(c: StreamCodec) -> Seq<char> {
    match c {
        StreamCodec::AVC => "libx264"@,
        StreamCodec::HEVC => "hevc"@,
    }
}

/// The arguments handed to ffmpeg after its overwrite flag: request headers,
/// input, scaling, audio settings, video encoder and output file.
pub open spec fn ffmpeg_args_spec(url: Seq<char>, config_codec: StreamCodec, output: Seq<char>) -> Seq<Seq<char>> {
    seq![
        "-headers"@,
        "User-Agent: "@ + USER_AGENT@,
        "-headers"@,
        "Referer: "@ + REFERER@,
        "-i"@,
        url,
        "-vf"@,
        "scale=1920:1080"@,
        "-c:a"@,
        "aac"@,
        "-bsf:a"@,
        "aac_adtstoasc"@,
        "-c:v"@,
        encoder_name(config_codec),
        output,
    ]
}

/// The ffmpeg arguments for downloading `url` with `config`.
pub fn ffmpeg_args(url: &str, config: &DownloadConfig) -> (r: Vec<String>)
    ensures
        r@.map_values(|a: String| a@) == ffmpeg_args_spec(url@, config.codec, config.output_path@),
{
    let mut ua = String::from_str("User-Agent: ");
    ua.append(USER_AGENT);
    let mut referer = String::from_str("Referer: ");
    referer.append(REFERER);
    let mut args: Vec<String> = Vec::new();
    args.push(String::from_str("-headers"));
    args.push(ua);
    args.push(String::from_str("-headers"));
    args.push(referer);
    args.push(String::from_str("-i"));
    args.push(String::from_str(url));
    args.push(String::from_str("-vf"));
    args.push(String::from_str("scale=1920:1080"));
    args.push(String::from_str("-c:a"));
    args.push(String::from_str("aac"));
    args.push(String::from_str("-bsf:a"));
    args.push(String::from_str("aac_adtstoasc"));
    args.push(String::from_str("-c:v"));
    args.push(
        String::from_str(
            match config.codec {
                StreamCodec::AVC => "libx264",
                StreamCodec::HEVC => "hevc",
            },
        ),
    );
    args.push(config.output_path.clone());
    assert(args@.map_values(|a: String| a@) =~= ffmpeg_args_spec(url@, config.codec, config.output_path@));
    args
}

/// How severe an ffmpeg log line is.
#[derive(Debug, Clone, Copy, PartialEq, Eq, Structural)]
pub enum FfmpegLogLevel {
    Fatal,
    Error,
    Other,
}

/// What the ffmpeg process reported.
#[derive(Debug)]
pub enum FfmpegObservation {
    /// Progress, with the output size in kilobytes and the bitrate in
    /// kilobits per second as the bit pattern of a 32-bit float.
    Progress { size_kb: u32, bitrate_kbps_bits: u32 },
    Done,
    LogEof,
    Log { level: FfmpegLogLevel, message: String },
    Other,
}

/// What an ffmpeg error line is about.
#[derive(Debug, Clone, Copy, PartialEq, Eq, Structural)]
pub enum FfmpegErrorClass {
    Network,
    Protocol,
    Unclassified,
}

pub open spec fn ffmpeg_error_class(message: Seq<char>) -> FfmpegErrorClass {
    if contains_seq(message, "Connection reset"@) || contains_seq(message, "timeout"@)
        || contains_seq(message, "No route to host"@) || contains_seq(message, "Connection refused"@) {
        FfmpegErrorClass::Network
    } else if contains_seq(message, "Protocol not found"@) || contains_seq(message, "Invalid data found"@)
        || contains_seq(message, "Decoder failed"@) {
        FfmpegErrorClass::Protocol
    } else {
        FfmpegErrorClass::Unclassified
    }
}

/// Sorts an ffmpeg error line by what it mentions: lost connections and
/// timeouts are network errors; unknown protocols, bad data and decoder
/// failures are stream errors.
pub fn classify_ffmpeg_error(message: &str) -> (r: FfmpegErrorClass)
    ensures
        r == ffmpeg_error_class(message@),
{
    if contains_str(message, "Connection reset") || contains_str(message, "timeout") || contains_str(
        message,
        "No route to host",
    ) || contains_str(message, "Connection refused") {
        FfmpegErrorClass::Network
    } else if contains_str(message, "Protocol not found") || contains_str(message, "Invalid data found")
        || contains_str(message, "Decoder failed") {
        FfmpegErrorClass::Protocol
    } else {
        FfmpegErrorClass::Unclassified
    }
}

/// Whether an event is the completion of the download into `path`, with the
/// given size and duration.
pub open spec fn is_completion(e: DownloadEvent, path: Seq<char>, size: u64, secs: u64) -> bool {
    match e {
        DownloadEvent::Completed { file_path, file_size, duration } => file_path@ == path && file_size
            == size && duration == secs,
        _ => false,
    }
}

/// What one report of the ffmpeg process leads to.
#[derive(Debug)]
pub struct FfmpegStep {
    /// Events to queue.
    pub events: Vec<DownloadEvent>,
    /// Whether the process is stopped and the download ends.
    pub stop: bool,
}

/// The downloaded byte count after a progress report: the HLS downloader
/// adds the reported kilobytes up, the HTTP stream downloader takes the
/// reported size in bytes.
pub open spec fn progress_bytes(kind: DownloaderKind, bytes: u64, size_kb: u32) -> u64 {
    match kind {
        DownloaderKind::HttpHls => bytes.wrapping_add(size_kb as u64),
        DownloaderKind::HttpStream => (size_kb as u64 * 1024) as u64,
    }
}

/// Handles one report of the ffmpeg process. A download that no longer runs
/// completes and stops. Otherwise progress updates the byte count, the end
/// of the output completes the download, and fatal or classified error lines
/// become errors.
pub fn ffmpeg_event_step(
    kind: DownloaderKind,
    bytes_downloaded: &mut u64,
    observation: FfmpegObservation,
    running: bool,
    output_path: &str,
    elapsed_ms: u64,
    elapsed_secs: u64,
) -> (r: FfmpegStep)
    ensures
        !running ==> r.stop && *final(bytes_downloaded) == *old(bytes_downloaded) && r.events@.len() == 1
            && is_completion(r.events@[0], output_path@, *old(bytes_downloaded), elapsed_secs),
        running ==> !r.stop,
        running ==> match observation {
            FfmpegObservation::Progress { size_kb, bitrate_kbps_bits } => *final(bytes_downloaded)
                == progress_bytes(kind, *old(bytes_downloaded), size_kb) && r.events@.len() == 1
                && r.events@[0] == (DownloadEvent::Progress {
                bytes_downloaded: *final(bytes_downloaded),
                download_speed_kbps_bits: bitrate_kbps_bits,
                duration_ms: elapsed_ms,
            }),
            FfmpegObservation::Done | FfmpegObservation::LogEof => *final(bytes_downloaded)
                == *old(bytes_downloaded) && r.events@.len() == 1 && is_completion(
                r.events@[0],
                output_path@,
                *old(bytes_downloaded),
                elapsed_secs,
            ),
            FfmpegObservation::Log { level, message } => *final(bytes_downloaded) == *old(
                bytes_downloaded,
            ) && match level {
                FfmpegLogLevel::Fatal => r.events@.len() == 1 && r.events@[0] == (DownloadEvent::Error {
                    error: DownloaderError::FfmpegFatalError { message },
                }),
                FfmpegLogLevel::Error => match ffmpeg_error_class(message@) {
                    FfmpegErrorClass::Network => r.events@.len() == 1 && r.events@[0] == (
                    DownloadEvent::Error { error: DownloaderError::NetworkConnectionFailed { message } }),
                    FfmpegErrorClass::Protocol => r.events@.len() == 1 && r.events@[0] == (
                    DownloadEvent::Error { error: DownloaderError::NoSuitableStreamProtocol }),
                    FfmpegErrorClass::Unclassified => r.events@.len() == 0,
                },
                FfmpegLogLevel::Other => r.events@.len() == 0,
            },
            FfmpegObservation::Other => *final(bytes_downloaded) == *old(bytes_downloaded)
                && r.events@.len() == 0,
        },
{
    let mut events: Vec<DownloadEvent> = Vec::new();
    if !running {
        events.push(
            DownloadEvent::Completed {
                file_path: String::from_str(output_path),
                file_size: *bytes_downloaded,
                duration: elapsed_secs,
            },
        );
        return FfmpegStep { events, stop: true };
    }
    match observation {
        FfmpegObservation::Progress { size_kb, bitrate_kbps_bits } => {
            let b = match kind {
                DownloaderKind::HttpHls => bytes_downloaded.wrapping_add(size_kb as u64),
                DownloaderKind::HttpStream => size_kb as u64 * 1024,
            };
            *bytes_downloaded = b;
            events.push(
                DownloadEvent::Progress {
                    bytes_downloaded: b,
                    download_speed_kbps_bits: bitrate_kbps_bits,
                    duration_ms: elapsed_ms,
                },
            );
        },
        FfmpegObservation::Done | FfmpegObservation::LogEof => {
            events.push(
                DownloadEvent::Completed {
                    file_path: String::from_str(output_path),
                    file_size: *bytes_downloaded,
                    duration: elapsed_secs,
                },
            );
        },
        FfmpegObservation::Log { level, message } => {
            match level {
                FfmpegLogLevel::Fatal => {
                    events.push(
                        DownloadEvent::Error { error: DownloaderError::FfmpegFatalError { message } },
                    );
                },
                FfmpegLogLevel::Error => {
                    match classify_ffmpeg_error(message.as_str()) {
                        FfmpegErrorClass::Network => {
                            events.push(
                                DownloadEvent::Error {
                                    error: DownloaderError::NetworkConnectionFailed { message },
                                },
                            );
                        },
                        FfmpegErrorClass::Protocol => {
                            events.push(
                                DownloadEvent::Error { error: DownloaderError::NoSuitableStreamProtocol },
                            );
                        },
                        FfmpegErrorClass::Unclassified => {},
                    }
                },
                FfmpegLogLevel::Other => {},
            }
        },
        FfmpegObservation::Other => {},
    }
    FfmpegStep { events, stop: false }
}

/// What to do with a chunk read from an HTTP stream body.
#[derive(Debug)]
pub enum ChunkAction {
    /// The download was stopped: queue the completion and end.
    Stop(DownloadEvent),
    /// The body ended: queue the completion and end.
    EndOfStream(DownloadEvent),
    /// Write the chunk to the file.
    Write,
}

/// Decides about a chunk read from an HTTP stream body: a stopped download
/// completes with what it has; an empty read is the end of the body;
/// anything else is written.
pub fn chunk_action(
    running: bool,
    bytes_read: usize,
    bytes_downloaded: u64,
    output_path: &str,
    elapsed_secs: u64,
) -> (r: ChunkAction)
    ensures
        !running ==> (r matches ChunkAction::Stop(e) && is_completion(e, output_path@, bytes_downloaded, elapsed_secs)),
        running && bytes_read == 0 ==> (r matches ChunkAction::EndOfStream(e) && is_completion(
            e,
            output_path@,
            bytes_downloaded,
            elapsed_secs,
        )),
        running && bytes_read > 0 ==> r is Write,
{
    if !running {
        ChunkAction::Stop(
            DownloadEvent::Completed {
                file_path: String::from_str(output_path),
                file_size: bytes_downloaded,
                duration: elapsed_secs,
            },
        )
    } else if bytes_read == 0 {
        ChunkAction::EndOfStream(
            DownloadEvent::Completed {
                file_path: String::from_str(output_path),
                file_size: bytes_downloaded,
                duration: elapsed_secs,
            },
        )
    } else {
        ChunkAction::Write
    }
}

/// The event after writing a chunk: progress with the new byte count, or,
/// when writing failed, a file write error (the count is kept).
pub fn after_write(
    bytes_downloaded: &mut u64,
    bytes_read: usize,
    write_result: Result<(), String>,
    output_path: &str,
    elapsed_ms: u64,
    speed_kbps_bits: u32,
) -> (r: DownloadEvent)
    ensures
        match write_result {
            Ok(_) => *final(bytes_downloaded) == (*old(bytes_downloaded)).wrapping_add(bytes_read as u64) && r == (DownloadEvent::Progress {
                bytes_downloaded: *final(bytes_downloaded),
                download_speed_kbps_bits: speed_kbps_bits,
                duration_ms: elapsed_ms,
            }),
            Err(reason) => *final(bytes_downloaded) == *old(bytes_downloaded) && (r matches DownloadEvent::Error {
                error: DownloaderError::FileWriteFailed { path, reason: why },
            } && path@ == output_path@ && why == reason),
        },
{
    match write_result {
        Ok(_) => {
            let b = bytes_downloaded.wrapping_add(bytes_read as u64);
            *bytes_downloaded = b;
            DownloadEvent::Progress {
                bytes_downloaded: b,
                download_speed_kbps_bits: speed_kbps_bits,
                duration_ms: elapsed_ms,
            }
        },
        Err(reason) => DownloadEvent::Error {
            error: DownloaderError::FileWriteFailed { path: String::from_str(output_path), reason },
        },
    }
}

// ---------------------------------------------------------------------------
// Starting a download
// ---------------------------------------------------------------------------

/// How a downloader fetches its stream.
#[derive(Debug, Clone, Copy, PartialEq, Eq, Structural)]
pub enum Transport {
    /// Read the HTTP body and write it to the file as it comes.
    HttpBody,
    /// Let an ffmpeg process fetch and write the stream.
    Ffmpeg,
}

/// The HTTP stream downloader reads the body itself under the low-cost
/// strategy and runs ffmpeg otherwise; the HLS downloader always runs ffmpeg.
pub fn transport(kind: DownloaderKind, strategy: Strategy) -> (r: Transport)
    ensures
        r == (if kind == DownloaderKind::HttpStream && strategy == Strategy::LowCost {
            Transport::HttpBody
        } else {
            Transport::Ffmpeg
        }),
{
    match (kind, strategy) {
        (DownloaderKind::HttpStream, Strategy::LowCost) => Transport::HttpBody,
        _ => Transport::Ffmpeg,
    }
}

/// Whether an event is the start of the download into `path`.
pub open spec fn is_start(e: DownloadEvent, path: Seq<char>) -> bool {
    e matches DownloadEvent::Started { file_path } && file_path@ == path
}

/// Marks the start of a download into `output_path`: the recording runs,
/// counts as downloading when the HTTP stream downloader records it, and
/// the start event is queued.
pub fn begin_download(context: &mut DownloaderContext, kind: DownloaderKind, output_path: &str)
    ensures
        final(context).state() == (ContextStateView {
            running: true,
            status: if kind == DownloaderKind::HttpStream {
                crate::context::DownloadStatus::Downloading
            } else {
                old(context).state().status
            },
            ..old(context).state()
        }),
        final(context).queue().len() == old(context).queue().len() + 1,
        final(context).queue().drop_last() == old(context).queue(),
        is_start(final(context).queue().last(), output_path@),
        final(context).room_info == old(context).room_info,
        final(context).user_info == old(context).user_info,
        final(context).quality == old(context).quality,
        final(context).strategy == old(context).strategy,
        final(context).format == old(context).format,
        final(context).codec == old(context).codec,
{
    context.set_running(true);
    if kind == DownloaderKind::HttpStream {
        context.set_status(crate::context::DownloadStatus::Downloading);
    }
    context.push_event(DownloadEvent::Started { file_path: String::from_str(output_path) });
    proof {
        assert(final(context).queue().drop_last() =~= old(context).queue());
    }
}

/// The error queued when the HTTP request for the stream fails or is
/// refused, with what went wrong.
pub fn http_failure_event(detail: &str) -> (r: DownloadEvent)
    ensures
        r matches DownloadEvent::Error { error: DownloaderError::NetworkConnectionFailed { message } }
            && message@ == "HTTP请求失败: "@ + detail@,
{
    let mut m = String::from_str("HTTP请求失败: ");
    m.append(detail);
    DownloadEvent::Error { error: DownloaderError::NetworkConnectionFailed { message: m } }
}

/// The error queued when the output file cannot be created.
pub fn file_creation_event(path: &str, reason: &str) -> (r: DownloadEvent)
    ensures
        r matches DownloadEvent::Error { error: DownloaderError::FileCreationFailed { path: p, reason: why } }
            && p@ == path@ && why@ == reason@,
{
    DownloadEvent::Error {
        error: DownloaderError::FileCreationFailed { path: String::from_str(path), reason: String::from_str(reason) },
    }
}

/// The error queued when ffmpeg cannot be started for `url`.
pub fn startup_failure_event(url: &str, stderr: &str) -> (r: DownloadEvent)
    ensures
        r matches DownloadEvent::Error { error: DownloaderError::StartupFailed { command, stderr: err } }
            && command@ == "ffmpeg -i "@ + url@ && err@ == stderr@,
{
    let mut command = String::from_str("ffmpeg -i ");
    command.append(url);
    DownloadEvent::Error { error: DownloaderError::StartupFailed { command, stderr: String::from_str(stderr) } }
}

/// The error queued when the output of a started ffmpeg process cannot be
/// read; no command is named.
pub fn output_unreadable_event(stderr: &str) -> (r: DownloadEvent)
    ensures
        r matches DownloadEvent::Error { error: DownloaderError::StartupFailed { command, stderr: err } }
            && command@ == Seq::<char>::empty() && err@ == stderr@,
{
    DownloadEvent::Error {
        error: DownloaderError::StartupFailed { command: String::new(), stderr: String::from_str(stderr) },
    }
}

// ---------------------------------------------------------------------------
// Laws of stream selection and of ffmpeg reports
// ---------------------------------------------------------------------------

proof fn lemma_first_index_found<T>(s: Seq<T>, p: spec_fn(T) -> bool)
    ensures
        first_index(s, p) matches Some(i) ==> 0 <= i < s.len() && p(s[i]) && forall|j: int|
            0 <= j < i ==> !p(#[trigger] s[j]),
        first_index(s, p) is None ==> forall|j: int| 0 <= j < s.len() ==> !p(#[trigger] s[j]),
    decreases s.len(),
{
    if s.len() > 0 && !p(s[0]) {
        lemma_first_index_found(s.drop_first(), p);
        assert forall|j: int| 1 <= j < s.len() implies s[j] == #[trigger] s.drop_first()[j - 1] by {}
        if let Some(i) = first_index(s, p) {
            assert forall|j: int| 0 <= j < i implies !p(#[trigger] s[j]) by {
                if j > 0 {
                    assert(s[j] == s.drop_first()[j - 1]);
                }
            }
        } else {
            assert forall|j: int| 0 <= j < s.len() implies !p(#[trigger] s[j]) by {
                if j > 0 {
                    assert(s[j] == s.drop_first()[j - 1]);
                }
            }
        }
    }
}

/// Every list in a stream answer has a length that fits in `usize`, as
/// the length of a `Vec` does.
pub open spec fn answer_lengths_fit(info: LiveRoomStreamUrl) -> bool {
    info.playurl_info matches Some(p) ==> {
        let streams = p.playurl.stream@;
        &&& streams.len() <= usize::MAX
        &&& forall|i: int| 0 <= i < streams.len() ==> {
            let formats = (#[trigger] streams[i]).format@;
            &&& formats.len() <= usize::MAX
            &&& forall|k: int| 0 <= k < formats.len() ==> (#[trigger] formats[k]).codec@.len() <= usize::MAX
        }
    }
}

/// Whether some stream of the answer is offered over the protocol.
pub open spec fn offers(streams: Seq<PlayStream>, p: LiveProtocol) -> bool {
    exists|j: int| 0 <= j < streams.len() && #[trigger] streams[j].protocol_name == p
}

/// What a stream selection is, for every answer and every choice:
/// - the low-cost strategy records with the HTTP stream downloader, over the
///   HTTP stream when one is offered;
/// - the configured strategy records an HLS stream with the HLS downloader
///   when one is offered, and otherwise an HTTP stream with the HTTP stream
///   downloader; so the HLS downloader is used exactly for an HLS stream
///   under the configured strategy;
/// - the stream is the first one over its protocol; the container is the
///   wanted one when that stream offers it, else its first; likewise the codec;
/// - an empty stream is reported as an empty HLS stream only when the HLS
///   downloader would have recorded it.
pub proof fn law_stream_selection(
    info: LiveRoomStreamUrl,
    strategy: Strategy,
    want_format: VideoContainer,
    want_codec: StreamCodec,
)
    requires
        answer_lengths_fit(info),
    ensures
        select_stream_spec(info, strategy, want_format, want_codec) matches Ok(sel) ==> {
            let streams = info.playurl_info.unwrap().playurl.stream@;
            let chosen = streams[sel.stream_index as int];
            let formats = chosen.format@;
            let codecs = formats[sel.format_index as int].codec@;
            &&& info.playurl_info is Some
            &&& sel.stream_index < streams.len()
            &&& (sel.kind == DownloaderKind::HttpHls <==> (strategy == Strategy::PriorityConfig
                && chosen.protocol_name == LiveProtocol::HttpHLS))
            &&& (strategy == Strategy::LowCost && offers(streams, LiveProtocol::HttpStream))
                ==> chosen.protocol_name == LiveProtocol::HttpStream
            &&& (strategy == Strategy::PriorityConfig && offers(streams, LiveProtocol::HttpHLS))
                ==> chosen.protocol_name == LiveProtocol::HttpHLS
            &&& (strategy == Strategy::PriorityConfig && !offers(streams, LiveProtocol::HttpHLS))
                ==> chosen.protocol_name == LiveProtocol::HttpStream && sel.kind == DownloaderKind::HttpStream
            &&& forall|j: int| 0 <= j < sel.stream_index ==> #[trigger] streams[j].protocol_name != chosen.protocol_name
            &&& sel.format_index < formats.len()
            &&& (exists|k: int| 0 <= k < formats.len() && #[trigger] formats[k].format_name == want_format)
                ==> formats[sel.format_index as int].format_name == want_format
            &&& (!exists|k: int| 0 <= k < formats.len() && #[trigger] formats[k].format_name == want_format)
                ==> sel.format_index == 0
            &&& sel.codec_index < codecs.len()
            &&& (exists|k: int| 0 <= k < codecs.len() && #[trigger] codecs[k].codec_name == want_codec)
                ==> codecs[sel.codec_index as int].codec_name == want_codec
            &&& (!exists|k: int| 0 <= k < codecs.len() && #[trigger] codecs[k].codec_name == want_codec)
                ==> sel.codec_index == 0
        },
        select_stream_spec(info, strategy, want_format, want_codec) == Err::<StreamSelection, StreamSelectError>(
            StreamSelectError::NoSuitableHlsStream,
        ) ==> strategy == Strategy::PriorityConfig,
{
    if let Some(p) = info.playurl_info {
        let streams = p.playurl.stream@;
        let ps = |x: PlayStream| x.protocol_name == LiveProtocol::HttpStream;
        let ph = |x: PlayStream| x.protocol_name == LiveProtocol::HttpHLS;
        lemma_first_index_found(streams, ps);
        lemma_first_index_found(streams, ph);
        assert(offers(streams, LiveProtocol::HttpStream) ==> first_index(streams, ps) is Some) by {
            if offers(streams, LiveProtocol::HttpStream) {
                let j = choose|j: int| 0 <= j < streams.len() && #[trigger] streams[j].protocol_name
                    == LiveProtocol::HttpStream;
                assert(ps(streams[j]));
            }
        }
        assert(offers(streams, LiveProtocol::HttpHLS) ==> first_index(streams, ph) is Some) by {
            if offers(streams, LiveProtocol::HttpHLS) {
                let j = choose|j: int| 0 <= j < streams.len() && #[trigger] streams[j].protocol_name
                    == LiveProtocol::HttpHLS;
                assert(ph(streams[j]));
            }
        }
        if let Some((si, kind)) = pick_stream(streams, strategy) {
            let chosen = streams[si];
            let formats = chosen.format@;
            let pf = |x: PlayStreamFormat| x.format_name == want_format;
            lemma_first_index_found(formats, pf);
            if formats.len() > 0 {
                let fi = format_pick(formats, want_format);
                assert(exists|k: int| 0 <= k < formats.len() && #[trigger] formats[k].format_name == want_format
                    ==> first_index(formats, pf) is Some) by {
                    if exists|k: int| 0 <= k < formats.len() && #[trigger] formats[k].format_name == want_format {
                        let k = choose|k: int| 0 <= k < formats.len() && #[trigger] formats[k].format_name
                            == want_format;
                        assert(pf(formats[k]));
                    }
                }
                let codecs = formats[fi].codec@;
                let pc = |x: StreamCodecInfo| x.codec_name == want_codec;
                lemma_first_index_found(codecs, pc);
                assert(exists|k: int| 0 <= k < codecs.len() && #[trigger] codecs[k].codec_name == want_codec
                    ==> first_index(codecs, pc) is Some) by {
                    if exists|k: int| 0 <= k < codecs.len() && #[trigger] codecs[k].codec_name == want_codec {
                        let k = choose|k: int| 0 <= k < codecs.len() && #[trigger] codecs[k].codec_name
                            == want_codec;
                        assert(pc(codecs[k]));
                    }
                }
            }
        }
    }
}

/// An ffmpeg error line that mentions a lost connection, a timeout, an
/// unreachable host or a refused connection is a network error; one that
/// mentions none of those but an unknown protocol, bad data or a failed
/// decoder is a stream error; anything else is left unclassified.
pub proof fn law_ffmpeg_error_classes(message: Seq<char>)
    ensures
        contains_seq(message, "Connection reset"@) ==> ffmpeg_error_class(message) == FfmpegErrorClass::Network,
        contains_seq(message, "timeout"@) ==> ffmpeg_error_class(message) == FfmpegErrorClass::Network,
        contains_seq(message, "No route to host"@) ==> ffmpeg_error_class(message) == FfmpegErrorClass::Network,
        contains_seq(message, "Connection refused"@) ==> ffmpeg_error_class(message) == FfmpegErrorClass::Network,
        ffmpeg_error_class(message) == FfmpegErrorClass::Network ==> (contains_seq(message, "Connection reset"@)
            || contains_seq(message, "timeout"@) || contains_seq(message, "No route to host"@) || contains_seq(
            message,
            "Connection refused"@,
        )),
        ffmpeg_error_class(message) == FfmpegErrorClass::Protocol <==> (ffmpeg_error_class(message)
            != FfmpegErrorClass::Network && (contains_seq(message, "Protocol not found"@) || contains_seq(
            message,
            "Invalid data found"@,
        ) || contains_seq(message, "Decoder failed"@))),
{
}

} // verus!
