//! Recording settings: the choice enums, per-room settings with their
//! fallback to the global ones, and the versioned settings migration.
use vstd::prelude::*;
use crate::text::str_eq;

verus! {

pub const APP_NAME: &'static str = "blive";

pub const DISPLAY_NAME: &'static str = "BLive";

/// The file-name template of a recording.
pub const DEFAULT_RECORD_NAME: &'static str = "{up_name}_{room_title}_{datetime}";

/// The theme used when none is set.
pub const DEFAULT_THEME: &'static str = "Catppuccin Mocha";

// ---------------------------------------------------------------------------
// Choice enums
// ---------------------------------------------------------------------------

/// How a stream is fetched: with little CPU use, or exactly as configured.
#[derive(Debug, Clone, Copy, PartialEq, Eq, Structural)]
pub enum Strategy {
    LowCost,
    PriorityConfig,
}

impl Default for Strategy {
    fn default() -> (r: Self)
        ensures
            r == Strategy::LowCost,
    {
        Strategy::LowCost
    }
}

pub open spec fn strategy_label(s: Strategy) -> Seq<char> {
    match s {
        Strategy::LowCost => "低占用"@,
        Strategy::PriorityConfig => "配置优先"@,
    }
}

pub open spec fn strategy_from_label(s: Seq<char>) -> Option<Strategy> {
    if s == "低占用"@ {
        Some(Strategy::LowCost)
    } else if s == "配置优先"@ {
        Some(Strategy::PriorityConfig)
    } else {
        None
    }
}

impl Strategy {
    /// The name shown for the strategy.
    pub fn label(&self) -> (r: &'static str)
        ensures
            r@ == strategy_label(*self),
    {
        match self {
            Strategy::LowCost => "低占用",
            Strategy::PriorityConfig => "配置优先",
        }
    }

    /// The strategy whose shown name is exactly `s`.
    pub fn from_label(s: &str) -> (r: Option<Strategy>)
        ensures
            r == strategy_from_label(s@),
    {
        if str_eq(s, "低占用") {
            Some(Strategy::LowCost)
        } else if str_eq(s, "配置优先") {
            Some(Strategy::PriorityConfig)
        } else {
            None
        }
    }
}

/// The protocol a stream is served over.
#[derive(Debug, Clone, Copy, PartialEq, Eq, Structural)]
pub enum LiveProtocol {
    HttpStream,
    HttpHLS,
}

impl Default for LiveProtocol {
    fn default() -> (r: Self)
        ensures
            r == LiveProtocol::HttpHLS,
    {
        LiveProtocol::HttpHLS
    }
}

pub open spec fn protocol_name(p: LiveProtocol) -> Seq<char> {
    match p {
        LiveProtocol::HttpStream => "http_stream"@,
        LiveProtocol::HttpHLS => "http_hls"@,
    }
}

impl LiveProtocol {
    /// The name the live API uses for the protocol.
    pub fn name(&self) -> (r: &'static str)
        ensures
            r@ == protocol_name(*self),
    {
        match self {
            LiveProtocol::HttpStream => "http_stream",
            LiveProtocol::HttpHLS => "http_hls",
        }
    }

    /// The protocol the live API names `s`.
    pub fn from_name(s: &str) -> (r: Option<LiveProtocol>)
        ensures
            r matches Some(p) ==> protocol_name(p) == s@,
            r is None ==> s@ != protocol_name(LiveProtocol::HttpStream) && s@ != protocol_name(
                LiveProtocol::HttpHLS,
            ),
    {
        if str_eq(s, "http_stream") {
            Some(LiveProtocol::HttpStream)
        } else if str_eq(s, "http_hls") {
            Some(LiveProtocol::HttpHLS)
        } else {
            None
        }
    }
}

/// The container a recording is written in.
#[derive(Debug, Clone, Copy, PartialEq, Eq, Structural)]
pub enum VideoContainer {
    FLV,
    FMP4,
    TS,
}

impl Default for VideoContainer {
    fn default() -> (r: Self)
        ensures
            r == VideoContainer::FMP4,
    {
        VideoContainer::FMP4
    }
}

pub open spec fn container_ext(c: VideoContainer) -> Seq<char> {
    match c {
        VideoContainer::FLV => "flv"@,
        VideoContainer::FMP4 => "mkv"@,
        VideoContainer::TS => "mkv"@,
    }
}

pub open spec fn container_label(c: VideoContainer) -> Seq<char> {
    match c {
        VideoContainer::FLV => "flv"@,
        VideoContainer::FMP4 => "fmp4"@,
        VideoContainer::TS => "ts"@,
    }
}

pub open spec fn container_from_label(s: Seq<char>) -> Option<VideoContainer> {
    if s == "flv"@ {
        Some(VideoContainer::FLV)
    } else if s == "fmp4"@ {
        Some(VideoContainer::FMP4)
    } else if s == "ts"@ {
        Some(VideoContainer::TS)
    } else {
        None
    }
}

impl VideoContainer {
    /// The extension of the recorded file: fragmented MP4 and TS streams are
    /// written into Matroska files.
    pub fn ext(&self) -> (r: &'static str)
        ensures
            r@ == container_ext(*self),
    {
        match self {
            VideoContainer::FLV => "flv",
            VideoContainer::FMP4 => "mkv",
            VideoContainer::TS => "mkv",
        }
    }

    /// The name shown for the container.
    pub fn label(&self) -> (r: &'static str)
        ensures
            r@ == container_label(*self),
    {
        match self {
            VideoContainer::FLV => "flv",
            VideoContainer::FMP4 => "fmp4",
            VideoContainer::TS => "ts",
        }
    }

    /// The container whose shown name is exactly `s`.
    pub fn from_label(s: &str) -> (r: Option<VideoContainer>)
        ensures
            r == container_from_label(s@),
    {
        if str_eq(s, "flv") {
            Some(VideoContainer::FLV)
        } else if str_eq(s, "fmp4") {
            Some(VideoContainer::FMP4)
        } else if str_eq(s, "ts") {
            Some(VideoContainer::TS)
        } else {
            None
        }
    }
}

/// The picture quality asked of the live API.
#[derive(Debug, Clone, Copy, PartialEq, Eq, Structural)]
pub enum Quality {
    Dolby,
    UHD4K,
    Original,
    BlueRay,
    UltraHD,
    HD,
    Smooth,
}

impl Default for Quality {
    fn default() -> (r: Self)
        ensures
            r == Quality::Original,
    {
        Quality::Original
    }
}

/// The `qn` code of a quality in the live API.
pub open spec fn quality_code(q: Quality) -> u32 {
    match q {
        Quality::Dolby => 30000,
        Quality::UHD4K => 20000,
        Quality::Original => 10000,
        Quality::BlueRay => 400,
        Quality::UltraHD => 250,
        Quality::HD => 150,
        Quality::Smooth => 80,
    }
}

pub open spec fn quality_label(q: Quality) -> Seq<char> {
    match q {
        Quality::Dolby => "杜比"@,
        Quality::UHD4K => "4K"@,
        Quality::Original => "原画"@,
        Quality::BlueRay => "蓝光"@,
        Quality::UltraHD => "超清"@,
        Quality::HD => "高清"@,
        Quality::Smooth => "流畅"@,
    }
}

pub open spec fn quality_from_label(s: Seq<char>) -> Option<Quality> {
    if s == "杜比"@ {
        Some(Quality::Dolby)
    } else if s == "4K"@ {
        Some(Quality::UHD4K)
    } else if s == "原画"@ {
        Some(Quality::Original)
    } else if s == "蓝光"@ {
        Some(Quality::BlueRay)
    } else if s == "超清"@ {
        Some(Quality::UltraHD)
    } else if s == "高清"@ {
        Some(Quality::HD)
    } else if s == "流畅"@ {
        Some(Quality::Smooth)
    } else {
        None
    }
}

impl Quality {
    /// The `qn` code the live API takes for this quality.
    pub fn to_quality(&self) -> (r: u32)
        ensures
            r == quality_code(*self),
    {
        match self {
            Quality::Dolby => 30000,
            Quality::UHD4K => 20000,
            Quality::Original => 10000,
            Quality::BlueRay => 400,
            Quality::UltraHD => 250,
            Quality::HD => 150,
            Quality::Smooth => 80,
        }
    }

    /// The name shown for the quality.
    pub fn label(&self) -> (r: &'static str)
        ensures
            r@ == quality_label(*self),
    {
        match self {
            Quality::Dolby => "杜比",
            Quality::UHD4K => "4K",
            Quality::Original => "原画",
            Quality::BlueRay => "蓝光",
            Quality::UltraHD => "超清",
            Quality::HD => "高清",
            Quality::Smooth => "流畅",
        }
    }

    /// The quality whose shown name is exactly `s`.
    pub fn from_label(s: &str) -> (r: Option<Quality>)
        ensures
            r == quality_from_label(s@),
    {
        if str_eq(s, "杜比") {
            Some(Quality::Dolby)
        } else if str_eq(s, "4K") {
            Some(Quality::UHD4K)
        } else if str_eq(s, "原画") {
            Some(Quality::Original)
        } else if str_eq(s, "蓝光") {
            Some(Quality::BlueRay)
        } else if str_eq(s, "超清") {
            Some(Quality::UltraHD)
        } else if str_eq(s, "高清") {
            Some(Quality::HD)
        } else if str_eq(s, "流畅") {
            Some(Quality::Smooth)
        } else {
            None
        }
    }
}

/// The video codec of a stream.
#[derive(Debug, Clone, Copy, PartialEq, Eq, Structural)]
pub enum StreamCodec {
    AVC,
    HEVC,
}

impl Default for StreamCodec {
    fn default() -> (r: Self)
        ensures
            r == StreamCodec::HEVC,
    {
        StreamCodec::HEVC
    }
}

pub open spec fn codec_label(c: StreamCodec) -> Seq<char> {
    match c {
        StreamCodec::AVC => "avc"@,
        StreamCodec::HEVC => "hevc"@,
    }
}

pub open spec fn codec_from_label(s: Seq<char>) -> Option<StreamCodec> {
    if s == "avc"@ {
        Some(StreamCodec::AVC)
    } else if s == "hevc"@ {
        Some(StreamCodec::HEVC)
    } else {
        None
    }
}

impl StreamCodec {
    /// The name shown for the codec.
    pub fn label(&self) -> (r: &'static str)
        ensures
            r@ == codec_label(*self),
    {
        match self {
            StreamCodec::AVC => "avc",
            StreamCodec::HEVC => "hevc",
        }
    }

    /// The codec whose shown name is exactly `s`.
    pub fn from_label(s: &str) -> (r: Option<StreamCodec>)
        ensures
            r == codec_from_label(s@),
    {
        if str_eq(s, "avc") {
            Some(StreamCodec::AVC)
        } else if str_eq(s, "hevc") {
            Some(StreamCodec::HEVC)
        } else {
            None
        }
    }
}

/// Each shown name reads back to the choice it names.
pub proof fn law_labels_read_back(s: Strategy, q: Quality, f: VideoContainer, c: StreamCodec)
    ensures
        strategy_from_label(strategy_label(s)) == Some(s),
        quality_from_label(quality_label(q)) == Some(q),
        container_from_label(container_label(f)) == Some(f),
        codec_from_label(codec_label(c)) == Some(c),
{
    reveal_strlit("低占用");
    reveal_strlit("配置优先");
    reveal_strlit("杜比");
    reveal_strlit("4K");
    reveal_strlit("原画");
    reveal_strlit("蓝光");
    reveal_strlit("超清");
    reveal_strlit("高清");
    reveal_strlit("流畅");
    reveal_strlit("flv");
    reveal_strlit("fmp4");
    reveal_strlit("ts");
    reveal_strlit("avc");
    reveal_strlit("hevc");
    assert("低占用"@[0] == '低' && "配置优先"@[0] == '配');
    assert("杜比"@[0] == '杜' && "4K"@[0] == '4' && "原画"@[0] == '原' && "蓝光"@[0] == '蓝');
    assert("超清"@[0] == '超' && "高清"@[0] == '高' && "流畅"@[0] == '流');
    assert("flv"@[1] == 'l' && "fmp4"@[1] == 'm' && "ts"@[0] == 't' && "flv"@[0] == 'f');
    assert("fmp4"@[0] == 'f' && "avc"@[0] == 'a' && "hevc"@[0] == 'h');
}

// ---------------------------------------------------------------------------
// Settings version
// ---------------------------------------------------------------------------

/// The version of the settings file layout.
#[derive(Debug, Clone, Copy, PartialEq, Eq, Structural)]
pub enum SettingsVersion {
    V0,
    V1,
}

/// The layout that settings are saved in.
pub open spec fn current_version() -> SettingsVersion {
    SettingsVersion::V1
}

pub open spec fn version_number(v: SettingsVersion) -> nat {
    match v {
        SettingsVersion::V0 => 0,
        SettingsVersion::V1 => 1,
    }
}

pub open spec fn version_from_number(n: nat) -> SettingsVersion {
    if n == 0 {
        SettingsVersion::V0
    } else {
        SettingsVersion::V1
    }
}

impl SettingsVersion {
    /// The number a version is stored as.
    pub fn number(&self) -> (r: u32)
        ensures
            r == version_number(*self),
    {
        match self {
            SettingsVersion::V0 => 0,
            SettingsVersion::V1 => 1,
        }
    }

    /// The version stored as `n`; numbers past the known versions read as
    /// the newest one.
    pub fn from_number(n: u32) -> (r: SettingsVersion)
        ensures
            r == version_from_number(n as nat),
    {
        if n == 0 {
            SettingsVersion::V0
        } else {
            SettingsVersion::V1
        }
    }

    /// The version whose number is the sum of both, capped at the newest.
    pub fn add(self, rhs: SettingsVersion) -> (r: SettingsVersion)
        ensures
            r == version_from_number(version_number(self) + version_number(rhs)),
    {
        let sum = self.number() + rhs.number();
        if sum == 0 {
            SettingsVersion::V0
        } else {
            SettingsVersion::V1
        }
    }

    /// Replaces the version with its sum with `rhs`.
    pub fn add_assign(&mut self, rhs: SettingsVersion)
        ensures
            *final(self) == version_from_number(version_number(*old(self)) + version_number(rhs)),
    {
        *self = self.add(rhs);
    }

    /// Whether this version is older than `other`.
    pub fn is_older_than(&self, other: &SettingsVersion) -> (r: bool)
        ensures
            r == (version_number(*self) < version_number(*other)),
    {
        self.number() < other.number()
    }
}

/// Adding versions keeps the newer one: the sum is the maximum.
pub proof fn law_version_add_is_max(a: SettingsVersion, b: SettingsVersion)
    ensures
        version_from_number(version_number(a) + version_number(b)) == (if version_number(a)
            >= version_number(b) {
            a
        } else {
            b
        }),
        version_from_number(version_number(a) + version_number(b)) == version_from_number(
            version_number(b) + version_number(a),
        ),
{
}

/// A version read back from its number is the same version.
pub proof fn law_version_number_round_trip(v: SettingsVersion)
    ensures
        version_from_number(version_number(v)) == v,
{
}

// ---------------------------------------------------------------------------
// Room settings
// ---------------------------------------------------------------------------

/// The settings of one live room; each unset choice falls back to the
/// global settings.
#[derive(Debug)]
pub struct RoomSettings {
    pub room_id: u64,
    pub record_dir: Option<String>,
    pub strategy: Option<Strategy>,
    pub quality: Option<Quality>,
    pub format: Option<VideoContainer>,
    pub codec: Option<StreamCodec>,
    /// File-name template, as in `{up_name}_{room_title}_{datetime}`.
    pub record_name: String,
}

/// The mathematical value of a room's settings.
pub struct RoomSettingsView {
    pub room_id: u64,
    pub record_dir: Option<Seq<char>>,
    pub strategy: Option<Strategy>,
    pub quality: Option<Quality>,
    pub format: Option<VideoContainer>,
    pub codec: Option<StreamCodec>,
    pub record_name: Seq<char>,
}

pub open spec fn opt_string_view(s: Option<String>) -> Option<Seq<char>> {
    match s {
        Some(t) => Some(t@),
        None => None,
    }
}

impl View for RoomSettings {
    type V = RoomSettingsView;

    open spec fn view(&self) -> RoomSettingsView {
        RoomSettingsView {
            room_id: self.room_id,
            record_dir: opt_string_view(self.record_dir),
            strategy: self.strategy,
            quality: self.quality,
            format: self.format,
            codec: self.codec,
            record_name: self.record_name@,
        }
    }
}

pub fn clone_opt_string(s: &Option<String>) -> (r: Option<String>)
    ensures
        r == *s,
{
    match s {
        Some(t) => Some(t.clone()),
        None => None,
    }
}

impl Clone for RoomSettings {
    fn clone(&self) -> (r: Self)
        ensures
            r == *self,
    {
        RoomSettings {
            room_id: self.room_id,
            record_dir: clone_opt_string(&self.record_dir),
            strategy: self.strategy,
            quality: self.quality,
            format: self.format,
            codec: self.codec,
            record_name: self.record_name.clone(),
        }
    }
}

impl Default for RoomSettings {
    fn default() -> (r: Self)
        ensures
            r.room_id == 0,
            r.record_dir is None,
            r.strategy is None,
            r.quality is None,
            r.format is None,
            r.codec is None,
            r.record_name@ == Seq::<char>::empty(),
    {
        RoomSettings {
            room_id: 0,
            record_dir: None,
            strategy: None,
            quality: None,
            format: None,
            codec: None,
            record_name: String::new(),
        }
    }
}

/// The record directory a room ends up with: its own when set and not
/// empty, else the global one.
pub open spec fn effective_record_dir(own: Option<Seq<char>>, global: Seq<char>) -> Seq<char> {
    match own {
        Some(d) => if d.len() == 0 {
            global
        } else {
            d
        },
        None => global,
    }
}

/// A room's settings with every choice filled in from the global settings.
pub open spec fn merge_global_spec(r: RoomSettingsView, g: GlobalSettingsView) -> RoomSettingsView {
    RoomSettingsView {
        room_id: r.room_id,
        strategy: Some(r.strategy.unwrap_or(g.strategy)),
        quality: Some(r.quality.unwrap_or(g.quality)),
        format: Some(r.format.unwrap_or(g.format)),
        codec: Some(r.codec.unwrap_or(g.codec)),
        record_name: r.record_name,
        record_dir: Some(effective_record_dir(r.record_dir, g.record_dir)),
    }
}

/// The settings of a newly added room: every choice left to the global
/// settings, and the default file-name template.
pub open spec fn new_room_settings(room_id: u64) -> RoomSettingsView {
    RoomSettingsView {
        room_id,
        record_dir: None,
        strategy: None,
        quality: None,
        format: None,
        codec: None,
        record_name: DEFAULT_RECORD_NAME@,
    }
}

impl RoomSettings {
    /// Settings for a room with every choice left to the global settings and
    /// the default file-name template.
    pub fn new(room_id: u64) -> (r: Self)
        ensures
            r@ == new_room_settings(room_id),
    {
        RoomSettings {
            room_id,
            record_dir: None,
            strategy: None,
            quality: None,
            format: None,
            codec: None,
            record_name: String::from_str(DEFAULT_RECORD_NAME),
        }
    }

    /// These settings with every unset choice taken from the global
    /// settings; an unset or empty record directory becomes the global one.
    pub fn merge_global(&mut self, global_settings: &GlobalSettings) -> (r: Self)
        ensures
            r@ == merge_global_spec(old(self)@, global_settings@),
            *final(self) == *old(self),
    {
        let record_dir = match &self.record_dir {
            Some(d) => if d.as_str().is_empty() {
                global_settings.record_dir.clone()
            } else {
                d.clone()
            },
            None => global_settings.record_dir.clone(),
        };
        RoomSettings {
            room_id: self.room_id,
            strategy: Some(
                match self.strategy {
                    Some(s) => s,
                    None => global_settings.strategy,
                },
            ),
            quality: Some(
                match self.quality {
                    Some(q) => q,
                    None => global_settings.quality,
                },
            ),
            format: Some(
                match self.format {
                    Some(f) => f,
                    None => global_settings.format,
                },
            ),
            codec: Some(
                match self.codec {
                    Some(c) => c,
                    None => global_settings.codec,
                },
            ),
            record_name: self.record_name.clone(),
            record_dir: Some(record_dir),
        }
    }
}

// ---------------------------------------------------------------------------
// Global settings
// ---------------------------------------------------------------------------

/// The application-wide settings and the list of watched rooms.
#[derive(Debug)]
pub struct GlobalSettings {
    pub strategy: Strategy,
    pub theme_name: String,
    pub quality: Quality,
    pub format: VideoContainer,
    pub codec: StreamCodec,
    pub record_dir: String,
    pub rooms: Vec<RoomSettings>,
}

pub struct GlobalSettingsView {
    pub strategy: Strategy,
    pub theme_name: Seq<char>,
    pub quality: Quality,
    pub format: VideoContainer,
    pub codec: StreamCodec,
    pub record_dir: Seq<char>,
    pub rooms: Seq<RoomSettingsView>,
}

pub open spec fn rooms_view(rooms: Seq<RoomSettings>) -> Seq<RoomSettingsView> {
    rooms.map_values(|r: RoomSettings| r@)
}

impl View for GlobalSettings {
    type V = GlobalSettingsView;

    open spec fn view(&self) -> GlobalSettingsView {
        GlobalSettingsView {
            strategy: self.strategy,
            theme_name: self.theme_name@,
            quality: self.quality,
            format: self.format,
            codec: self.codec,
            record_dir: self.record_dir@,
            rooms: rooms_view(self.rooms@),
        }
    }
}

pub fn clone_rooms(rooms: &Vec<RoomSettings>) -> (r: Vec<RoomSettings>)
    ensures
        r@ == rooms@,
{
    let mut out: Vec<RoomSettings> = Vec::new();
    for i in 0..rooms.len()
        invariant
            out@ == rooms@.take(i as int),
    {
        out.push(rooms[i].clone());
        assert(out@ =~= rooms@.take(i + 1));
    }
    assert(rooms@.take(rooms.len() as int) =~= rooms@);
    out
}

impl Clone for GlobalSettings {
    fn clone(&self) -> (r: Self)
        ensures
            r@ == self@,
            r.rooms@ == self.rooms@,
    {
        let rooms = clone_rooms(&self.rooms);
        GlobalSettings {
            strategy: self.strategy,
            theme_name: self.theme_name.clone(),
            quality: self.quality,
            format: self.format,
            codec: self.codec,
            record_dir: self.record_dir.clone(),
            rooms,
        }
    }
}


pub open spec fn default_global_settings(record_dir: Seq<char>) -> GlobalSettingsView {
    GlobalSettingsView {
        strategy: Strategy::LowCost,
        theme_name: DEFAULT_THEME@,
        quality: Quality::Original,
        format: VideoContainer::FMP4,
        codec: StreamCodec::HEVC,
        record_dir,
        rooms: Seq::empty(),
    }
}

/// The value a room's choice is stored as: unset when it equals the global
/// choice, so that it follows later global changes.
pub open spec fn stored_choice<T>(chosen: Option<T>, global: T) -> Option<T> {
    if chosen.unwrap_or(global) == global {
        None
    } else {
        Some(chosen.unwrap_or(global))
    }
}

/// A stored room after the edited settings `e` were saved over it.
pub open spec fn store_overrides_spec(
    room: RoomSettingsView,
    e: RoomSettingsView,
    g: GlobalSettingsView,
) -> RoomSettingsView {
    if room.room_id == e.room_id {
        RoomSettingsView {
            codec: stored_choice(e.codec, g.codec),
            format: stored_choice(e.format, g.format),
            quality: stored_choice(e.quality, g.quality),
            strategy: stored_choice(e.strategy, g.strategy),
            ..room
        }
    } else {
        room
    }
}

pub open spec fn selected_or<T>(label: Option<Seq<char>>, parsed: Option<T>, fallback: T, current: T) -> T {
    match label {
        Some(_) => parsed.unwrap_or(fallback),
        None => current,
    }
}

pub open spec fn opt_str_view(s: Option<&str>) -> Option<Seq<char>> {
    match s {
        Some(t) => Some(t@),
        None => None,
    }
}

pub open spec fn parsed_label<T>(s: Option<&str>, parse: spec_fn(Seq<char>) -> Option<T>) -> Option<T> {
    match s {
        Some(t) => parse(t@),
        None => None,
    }
}

/// The settings the application starts with, from what loading the settings
/// file gave: the migrated settings, or the defaults when there is no file
/// or it could not be migrated; an empty theme name becomes the default theme.
pub open spec fn loaded_settings_spec(
    migrated: Option<Result<GlobalSettingsView, SettingsError>>,
    default_record_dir: Seq<char>,
) -> GlobalSettingsView {
    match migrated {
        Some(Ok(s)) => if s.theme_name.len() == 0 {
            GlobalSettingsView { theme_name: DEFAULT_THEME@, ..s }
        } else {
            s
        },
        _ => default_global_settings(default_record_dir),
    }
}

pub open spec fn migrated_view(m: Option<Result<GlobalSettings, SettingsError>>) -> Option<
    Result<GlobalSettingsView, SettingsError>,
> {
    match m {
        Some(Ok(s)) => Some(Ok(s@)),
        Some(Err(e)) => Some(Err(e)),
        None => None,
    }
}

/// The name of a backup copy of the settings file made at the time `stamp`.
pub fn backup_file_name(settings_path: &str, stamp: &str) -> (r: String)
    ensures
        r@ == settings_path@ + ".backup."@ + stamp@,
{
    let mut s = String::from_str(settings_path);
    s.append(".backup.");
    s.append(stamp);
    s
}

impl GlobalSettings {
    /// The default settings, recording into `record_dir`.
    pub fn default_with_record_dir(record_dir: String) -> (r: Self)
        ensures
            r@ == default_global_settings(record_dir@),
    {
        let r = GlobalSettings {
            strategy: Strategy::LowCost,
            theme_name: String::from_str(DEFAULT_THEME),
            quality: Quality::Original,
            format: VideoContainer::FMP4,
            codec: StreamCodec::HEVC,
            record_dir,
            rooms: Vec::new(),
        };
        assert(rooms_view(r.rooms@) =~= Seq::<RoomSettingsView>::empty());
        r
    }

    /// The settings the application starts with, given what loading the
    /// settings file gave (`None` when there is no readable file).
    pub fn from_loaded(
        migrated: Option<Result<GlobalSettings, SettingsError>>,
        default_record_dir: String,
    ) -> (r: Self)
        ensures
            r@ == loaded_settings_spec(migrated_view(migrated), default_record_dir@),
    {
        match migrated {
            Some(Ok(mut s)) => {
                if s.theme_name.as_str().is_empty() {
                    s.theme_name = String::from_str(DEFAULT_THEME);
                }
                s
            },
            _ => GlobalSettings::default_with_record_dir(default_record_dir),
        }
    }

    /// Takes the choices picked in the settings dialog: the record directory
    /// as typed, and for each picked name the choice it names (an unknown
    /// name picks the original quality, fragmented MP4 or AVC).
    pub fn apply_selection(
        &mut self,
        record_dir: &str,
        quality: Option<&str>,
        format: Option<&str>,
        codec: Option<&str>,
    )
        ensures
            final(self)@ == (GlobalSettingsView {
                record_dir: record_dir@,
                quality: selected_or(
                    opt_str_view(quality),
                    parsed_label(quality, |s| quality_from_label(s)),
                    Quality::Original,
                    old(self).quality,
                ),
                format: selected_or(
                    opt_str_view(format),
                    parsed_label(format, |s| container_from_label(s)),
                    VideoContainer::FMP4,
                    old(self).format,
                ),
                codec: selected_or(
                    opt_str_view(codec),
                    parsed_label(codec, |s| codec_from_label(s)),
                    StreamCodec::AVC,
                    old(self).codec,
                ),
                ..old(self)@
            }),
    {
        self.record_dir = String::from_str(record_dir);
        if let Some(q) = quality {
            self.quality = match Quality::from_label(q) {
                Some(v) => v,
                None => Quality::Original,
            };
        }
        if let Some(f) = format {
            self.format = match VideoContainer::from_label(f) {
                Some(v) => v,
                None => VideoContainer::FMP4,
            };
        }
        if let Some(c) = codec {
            self.codec = match StreamCodec::from_label(c) {
                Some(v) => v,
                None => StreamCodec::AVC,
            };
        }
    }

    /// Saves the edited settings of a room into the stored room list: each
    /// choice is kept only when it differs from the global choice. The record
    /// directory and file-name template of the stored room are left as they are.
    pub fn store_room_overrides(&mut self, settings: &RoomSettings)
        ensures
            final(self)@ == (GlobalSettingsView {
                rooms: old(self)@.rooms.map_values(
                    |r: RoomSettingsView| store_overrides_spec(r, settings@, old(self)@),
                ),
                ..old(self)@
            }),
    {
        let ghost g = self@;
        let ghost old_rooms = self.rooms@;
        let n = self.rooms.len();
        let mut rooms: Vec<RoomSettings> = Vec::new();
        for i in 0..n
            invariant
                n == old_rooms.len(),
                self@ == g,
                self.rooms@ == old_rooms,
                rooms_view(rooms@) == rooms_view(old_rooms.take(i as int)).map_values(
                    |r: RoomSettingsView| store_overrides_spec(r, settings@, g),
                ),
        {
            let mut room = self.rooms[i].clone();
            if room.room_id == settings.room_id {
                room.codec = stored_codec(settings.codec, self.codec);
                room.format = stored_format(settings.format, self.format);
                room.quality = stored_quality(settings.quality, self.quality);
                room.strategy = stored_strategy(settings.strategy, self.strategy);
            }
            assert(room@ == store_overrides_spec(old_rooms[i as int]@, settings@, g));
            let ghost prev = rooms@;
            let ghost room_v = room@;
            rooms.push(room);
            proof {
                let f = |r: RoomSettingsView| store_overrides_spec(r, settings@, g);
                assert(rooms_view(rooms@) =~= rooms_view(prev).push(room_v));
                assert(rooms_view(old_rooms.take(i + 1)).map_values(f) =~= rooms_view(
                    old_rooms.take(i as int),
                ).map_values(f).push(f(old_rooms[i as int]@))) by {
                    assert(rooms_view(old_rooms.take(i + 1)) =~= rooms_view(old_rooms.take(i as int)).push(
                        old_rooms[i as int]@,
                    ));
                }
                assert(rooms_view(old_rooms.take(i + 1)) =~= rooms_view(old_rooms.take(i as int)).push(
                    old_rooms[i as int]@,
                ));
                assert(rooms_view(rooms@) =~= rooms_view(old_rooms.take(i + 1)).map_values(
                    |r: RoomSettingsView| store_overrides_spec(r, settings@, g),
                ));
            }
        }
        proof {
            assert(old_rooms.take(n as int) =~= old_rooms);
        }
        self.rooms = rooms;
        assert(self@.rooms =~= g.rooms.map_values(
            |r: RoomSettingsView| store_overrides_spec(r, settings@, g),
        ));
    }
}

fn stored_codec(chosen: Option<StreamCodec>, global: StreamCodec) -> (r: Option<StreamCodec>)
    ensures
        r == stored_choice(chosen, global),
{
    let effective = match chosen {
        Some(c) => c,
        None => global,
    };
    if effective == global {
        None
    } else {
        Some(effective)
    }
}

fn stored_format(chosen: Option<VideoContainer>, global: VideoContainer) -> (r: Option<VideoContainer>)
    ensures
        r == stored_choice(chosen, global),
{
    let effective = match chosen {
        Some(c) => c,
        None => global,
    };
    if effective == global {
        None
    } else {
        Some(effective)
    }
}

fn stored_quality(chosen: Option<Quality>, global: Quality) -> (r: Option<Quality>)
    ensures
        r == stored_choice(chosen, global),
{
    let effective = match chosen {
        Some(c) => c,
        None => global,
    };
    if effective == global {
        None
    } else {
        Some(effective)
    }
}

fn stored_strategy(chosen: Option<Strategy>, global: Strategy) -> (r: Option<Strategy>)
    ensures
        r == stored_choice(chosen, global),
{
    let effective = match chosen {
        Some(c) => c,
        None => global,
    };
    if effective == global {
        None
    } else {
        Some(effective)
    }
}

impl RoomSettings {
    /// Takes the choices picked in the room settings dialog: each picked name
    /// sets the choice it names (an unknown name picks the low-cost strategy,
    /// the original quality, fragmented MP4 or AVC).
    pub fn apply_selection(
        &mut self,
        strategy: Option<&str>,
        quality: Option<&str>,
        format: Option<&str>,
        codec: Option<&str>,
    )
        ensures
            final(self)@ == (RoomSettingsView {
                strategy: match strategy {
                    Some(s) => Some(strategy_from_label(s@).unwrap_or(Strategy::LowCost)),
                    None => old(self).strategy,
                },
                quality: match quality {
                    Some(s) => Some(quality_from_label(s@).unwrap_or(Quality::Original)),
                    None => old(self).quality,
                },
                format: match format {
                    Some(s) => Some(container_from_label(s@).unwrap_or(VideoContainer::FMP4)),
                    None => old(self).format,
                },
                codec: match codec {
                    Some(s) => Some(codec_from_label(s@).unwrap_or(StreamCodec::AVC)),
                    None => old(self).codec,
                },
                ..old(self)@
            }),
    {
        if let Some(s) = strategy {
            self.strategy = Some(
                match Strategy::from_label(s) {
                    Some(v) => v,
                    None => Strategy::LowCost,
                },
            );
        }
        if let Some(q) = quality {
            self.quality = Some(
                match Quality::from_label(q) {
                    Some(v) => v,
                    None => Quality::Original,
                },
            );
        }
        if let Some(f) = format {
            self.format = Some(
                match VideoContainer::from_label(f) {
                    Some(v) => v,
                    None => VideoContainer::FMP4,
                },
            );
        }
        if let Some(c) = codec {
            self.codec = Some(
                match StreamCodec::from_label(c) {
                    Some(v) => v,
                    None => StreamCodec::AVC,
                },
            );
        }
    }
}

/// Filling a room's settings from the global ones twice changes nothing
/// more than doing it once.
pub proof fn law_merge_global_idempotent(r: RoomSettingsView, g: GlobalSettingsView)
    ensures
        merge_global_spec(merge_global_spec(r, g), g) == merge_global_spec(r, g),
{
    let m = merge_global_spec(r, g);
    assert(effective_record_dir(m.record_dir, g.record_dir) == effective_record_dir(
        r.record_dir,
        g.record_dir,
    )) by {
        match r.record_dir {
            Some(d) => {},
            None => {},
        }
        let e = effective_record_dir(r.record_dir, g.record_dir);
        if e.len() == 0 {
            assert(e == g.record_dir);
        }
    }
}

/// After a room's edited settings are saved into the stored list, filling
/// the stored room from the global settings gives the same strategy,
/// quality, container and codec as filling the edited settings.
pub proof fn law_stored_overrides_resolve_to_edited(
    room: RoomSettingsView,
    e: RoomSettingsView,
    g: GlobalSettingsView,
)
    requires
        room.room_id == e.room_id,
    ensures
        merge_global_spec(store_overrides_spec(room, e, g), g).strategy == merge_global_spec(e, g).strategy,
        merge_global_spec(store_overrides_spec(room, e, g), g).quality == merge_global_spec(e, g).quality,
        merge_global_spec(store_overrides_spec(room, e, g), g).format == merge_global_spec(e, g).format,
        merge_global_spec(store_overrides_spec(room, e, g), g).codec == merge_global_spec(e, g).codec,
{
}

// ---------------------------------------------------------------------------
// Versioned settings and migration
// ---------------------------------------------------------------------------

/// Settings together with the layout version they were saved in.
#[derive(Debug)]
pub struct VersionedSettings {
    pub version: SettingsVersion,
    pub data: GlobalSettings,
}

pub struct VersionedSettingsView {
    pub version: SettingsVersion,
    pub data: GlobalSettingsView,
}

impl View for VersionedSettings {
    type V = VersionedSettingsView;

    open spec fn view(&self) -> VersionedSettingsView {
        VersionedSettingsView { version: self.version, data: self.data@ }
    }
}

impl VersionedSettings {
    /// Default settings recording into `record_dir`, at the newest version.
    pub fn default_with_record_dir(record_dir: String) -> (r: Self)
        ensures
            r@ == (VersionedSettingsView {
                version: current_version(),
                data: default_global_settings(record_dir@),
            }),
    {
        VersionedSettings {
            version: SettingsVersion::V1,
            data: GlobalSettings::default_with_record_dir(record_dir),
        }
    }
}

/// Why settings were refused.
#[derive(Debug, Clone, Copy, PartialEq, Eq)]
pub enum SettingsError {
    /// The settings file is neither versioned nor old-style settings.
    UnrecognizedFormat,
    /// There is no settings file to back up.
    NoSettingsFile,
    EmptyThemeName,
    EmptyRecordDir,
    /// The room has an empty file-name template.
    EmptyRecordName { room_id: u64 },
}

impl SettingsError {
    /// The message shown for the error.
    pub fn message(&self) -> (r: String)
        ensures
            r@ == settings_error_message(*self),
    {
        match self {
            SettingsError::UnrecognizedFormat => String::from_str("无法解析配置文件格式"),
            SettingsError::NoSettingsFile => String::from_str("配置文件不存在，无需备份"),
            SettingsError::EmptyThemeName => String::from_str("主题名称不能为空"),
            SettingsError::EmptyRecordDir => String::from_str("录制目录不能为空"),
            SettingsError::EmptyRecordName { room_id } => {
                let mut s = String::from_str("房间 ");
                let id = crate::text::u64_to_decimal(*room_id);
                s.append(id.as_str());
                s.append(" 的录制名称不能为空");
                s
            },
        }
    }
}

pub open spec fn settings_error_message(e: SettingsError) -> Seq<char> {
    match e {
        SettingsError::UnrecognizedFormat => "无法解析配置文件格式"@,
        SettingsError::NoSettingsFile => "配置文件不存在，无需备份"@,
        SettingsError::EmptyThemeName => "主题名称不能为空"@,
        SettingsError::EmptyRecordDir => "录制目录不能为空"@,
        SettingsError::EmptyRecordName { room_id } => "房间 "@ + crate::text::decimal(room_id as nat)
            + " 的录制名称不能为空"@,
    }
}

/// A room after the version 0 to version 1 migration: an empty file-name
/// template becomes the default one.
pub open spec fn migrate_room_v0_to_v1(r: RoomSettingsView) -> RoomSettingsView {
    if r.record_name.len() == 0 {
        RoomSettingsView { record_name: DEFAULT_RECORD_NAME@, ..r }
    } else {
        r
    }
}

/// Settings after the version 0 to version 1 migration: an empty theme
/// becomes the default theme, an empty record directory becomes
/// `default_record_dir`, and empty room templates become the default one.
pub open spec fn migrate_v0_to_v1_spec(s: GlobalSettingsView, default_record_dir: Seq<char>) -> GlobalSettingsView {
    GlobalSettingsView {
        theme_name: if s.theme_name.len() == 0 {
            DEFAULT_THEME@
        } else {
            s.theme_name
        },
        record_dir: if s.record_dir.len() == 0 {
            default_record_dir
        } else {
            s.record_dir
        },
        rooms: s.rooms.map_values(|r: RoomSettingsView| migrate_room_v0_to_v1(r)),
        ..s
    }
}

/// Settings brought from `from` to the newest version.
pub open spec fn migrate_from_version_spec(
    from: SettingsVersion,
    s: GlobalSettingsView,
    default_record_dir: Seq<char>,
) -> GlobalSettingsView {
    match from {
        SettingsVersion::V0 => migrate_v0_to_v1_spec(s, default_record_dir),
        SettingsVersion::V1 => s,
    }
}

/// What loading a settings file gives: versioned settings are brought from
/// their version to the newest, old-style ones from version 0, and a file
/// that reads as neither is refused.
pub open spec fn migrate_spec(
    versioned: Option<VersionedSettingsView>,
    legacy: Option<GlobalSettingsView>,
    default_record_dir: Seq<char>,
) -> Result<GlobalSettingsView, SettingsError> {
    match versioned {
        Some(v) => Ok(migrate_from_version_spec(v.version, v.data, default_record_dir)),
        None => match legacy {
            Some(l) => Ok(migrate_v0_to_v1_spec(l, default_record_dir)),
            None => Err(SettingsError::UnrecognizedFormat),
        },
    }
}

/// What saving settings writes: the settings at the newest version.
pub open spec fn saved_settings_spec(s: GlobalSettingsView) -> VersionedSettingsView {
    VersionedSettingsView { version: current_version(), data: s }
}

pub open spec fn opt_versioned_view(v: Option<VersionedSettings>) -> Option<VersionedSettingsView> {
    match v {
        Some(x) => Some(x@),
        None => None,
    }
}

pub open spec fn opt_global_view(v: Option<GlobalSettings>) -> Option<GlobalSettingsView> {
    match v {
        Some(x) => Some(x@),
        None => None,
    }
}

pub open spec fn settings_result_view(r: Result<GlobalSettings, SettingsError>) -> Result<
    GlobalSettingsView,
    SettingsError,
> {
    match r {
        Ok(x) => Ok(x@),
        Err(e) => Err(e),
    }
}

/// The id of the first room whose file-name template is empty.
pub open spec fn first_unnamed_room(rooms: Seq<RoomSettingsView>) -> Option<u64>
    decreases rooms.len(),
{
    if rooms.len() == 0 {
        None
    } else if rooms[0].record_name.len() == 0 {
        Some(rooms[0].room_id)
    } else {
        first_unnamed_room(rooms.drop_first())
    }
}

/// The first check that settings fail: the theme, then the record
/// directory, then the rooms' file-name templates in order.
pub open spec fn validation_error(s: GlobalSettingsView) -> Option<SettingsError> {
    if s.theme_name.len() == 0 {
        Some(SettingsError::EmptyThemeName)
    } else if s.record_dir.len() == 0 {
        Some(SettingsError::EmptyRecordDir)
    } else {
        match first_unnamed_room(s.rooms) {
            Some(id) => Some(SettingsError::EmptyRecordName { room_id: id }),
            None => None,
        }
    }
}

/// Moves settings from one layout version to the next.
pub struct SettingsMigrator;

impl SettingsMigrator {
    /// Loads settings read from a settings file: `versioned` is the file
    /// read as versioned settings, `legacy` the file read as settings
    /// without a version (tried only when the first reading failed).
    /// Versioned settings are brought from their version to the newest,
    /// old-style settings from version 0.
    pub fn migrate(
        versioned: Option<VersionedSettings>,
        legacy: Option<GlobalSettings>,
        default_record_dir: &str,
    ) -> (r: Result<GlobalSettings, SettingsError>)
        ensures
            settings_result_view(r) == migrate_spec(
                opt_versioned_view(versioned),
                opt_global_view(legacy),
                default_record_dir@,
            ),
            match versioned {
                Some(v) => r matches Ok(s) && s@ == migrate_from_version_spec(
                    v.version,
                    v.data@,
                    default_record_dir@,
                ),
                None => match legacy {
                    Some(l) => r matches Ok(s) && s@ == migrate_v0_to_v1_spec(
                        l@,
                        default_record_dir@,
                    ),
                    None => r == Err::<GlobalSettings, SettingsError>(
                        SettingsError::UnrecognizedFormat,
                    ),
                },
            },
    {
        match versioned {
            Some(v) => Self::migrate_from_versioned(v, default_record_dir),
            None => match legacy {
                Some(l) => Self::migrate_from_legacy(l, default_record_dir),
                None => Err(SettingsError::UnrecognizedFormat),
            },
        }
    }

    fn migrate_from_versioned(
        versioned_settings: VersionedSettings,
        default_record_dir: &str,
    ) -> (r: Result<GlobalSettings, SettingsError>)
        ensures
            r matches Ok(s) && s@ == migrate_from_version_spec(
                versioned_settings.version,
                versioned_settings.data@,
                default_record_dir@,
            ),
    {
        let ghost original = versioned_settings.data@;
        let mut settings = versioned_settings.data;
        let mut from_version = versioned_settings.version;
        while from_version.is_older_than(&SettingsVersion::V1)
            invariant
                from_version == versioned_settings.version ==> settings@ == original,
                from_version != versioned_settings.version ==> (from_version == SettingsVersion::V1
                    && settings@ == migrate_from_version_spec(
                    versioned_settings.version,
                    original,
                    default_record_dir@,
                )),
            decreases 1 - version_number(from_version),
        {
            settings = Self::migrate_single_version(from_version, settings, default_record_dir);
            from_version = SettingsVersion::V1;
        }
        Ok(settings)
    }

    fn migrate_from_legacy(legacy_settings: GlobalSettings, default_record_dir: &str) -> (r: Result<
        GlobalSettings,
        SettingsError,
    >)
        ensures
            r matches Ok(s) && s@ == migrate_v0_to_v1_spec(legacy_settings@, default_record_dir@),
    {
        Self::migrate_from_versioned(
            VersionedSettings { version: SettingsVersion::V0, data: legacy_settings },
            default_record_dir,
        )
    }

    fn migrate_single_version(
        from_version: SettingsVersion,
        settings: GlobalSettings,
        default_record_dir: &str,
    ) -> (r: GlobalSettings)
        ensures
            r@ == migrate_from_version_spec(from_version, settings@, default_record_dir@),
    {
        match from_version {
            SettingsVersion::V0 => Self::migrate_v0_to_v1(settings, default_record_dir),
            SettingsVersion::V1 => settings,
        }
    }

    /// The version 0 to version 1 migration.
    pub fn migrate_v0_to_v1(settings: GlobalSettings, default_record_dir: &str) -> (r: GlobalSettings)
        ensures
            r@ == migrate_v0_to_v1_spec(settings@, default_record_dir@),
    {
        let ghost old_rooms = settings.rooms@;
        let mut migrated = settings;
        if migrated.theme_name.as_str().is_empty() {
            migrated.theme_name = String::from_str(DEFAULT_THEME);
        }
        if migrated.record_dir.as_str().is_empty() {
            migrated.record_dir = String::from_str(default_record_dir);
        }
        let n = migrated.rooms.len();
        let mut rooms: Vec<RoomSettings> = Vec::new();
        for i in 0..n
            invariant
                n == old_rooms.len(),
                migrated.rooms@ == old_rooms,
                rooms_view(rooms@) == rooms_view(old_rooms.take(i as int)).map_values(
                    |r: RoomSettingsView| migrate_room_v0_to_v1(r),
                ),
        {
            let mut room = migrated.rooms[i].clone();
            if room.record_name.as_str().is_empty() {
                room.record_name = String::from_str(DEFAULT_RECORD_NAME);
            }
            let ghost prev = rooms@;
            let ghost room_v = room@;
            rooms.push(room);
            proof {
                let f = |r: RoomSettingsView| migrate_room_v0_to_v1(r);
                assert(rooms_view(rooms@) =~= rooms_view(prev).push(room_v));
                assert(rooms_view(old_rooms.take(i + 1)) =~= rooms_view(old_rooms.take(i as int)).push(
                    old_rooms[i as int]@,
                ));
                assert(rooms_view(rooms@) =~= rooms_view(old_rooms.take(i + 1)).map_values(f));
            }
        }
        proof {
            assert(old_rooms.take(n as int) =~= old_rooms);
        }
        migrated.rooms = rooms;
        migrated
    }

    /// The settings to save: tagged with the newest version.
    pub fn save_with_version(settings: &GlobalSettings) -> (r: VersionedSettings)
        ensures
            r@ == saved_settings_spec(settings@),
            r.version == current_version(),
            r.data@ == settings@,
    {
        VersionedSettings { version: SettingsVersion::V1, data: settings.clone() }
    }

    /// Checks that the theme, the record directory and every room's
    /// file-name template are set; reports the first that is not.
    pub fn validate_settings(settings: &GlobalSettings) -> (r: Result<(), SettingsError>)
        ensures
            match validation_error(settings@) {
                Some(e) => r == Err::<(), SettingsError>(e),
                None => r is Ok,
            },
    {
        if settings.theme_name.as_str().is_empty() {
            return Err(SettingsError::EmptyThemeName);
        }
        if settings.record_dir.as_str().is_empty() {
            return Err(SettingsError::EmptyRecordDir);
        }
        let ghost rv = settings@.rooms;
        let n = settings.rooms.len();
        assert(rv.skip(0) =~= rv);
        for i in 0..n
            invariant
                n == rv.len(),
                rv == rooms_view(settings.rooms@),
                settings@.theme_name.len() > 0,
                settings@.record_dir.len() > 0,
                first_unnamed_room(rv) == first_unnamed_room(rv.skip(i as int)),
        {
            proof {
                assert(rv.skip(i as int).drop_first() =~= rv.skip(i + 1));
            }
            if settings.rooms[i].record_name.as_str().is_empty() {
                assert(rv.skip(i as int)[0] == rv[i as int]);
                assert(rv[i as int] == settings.rooms@[i as int]@);
                assert(rv[i as int].record_name.len() == 0);
                assert(first_unnamed_room(rv.skip(i as int)) == Some(rv[i as int].room_id));
                return Err(SettingsError::EmptyRecordName { room_id: settings.rooms[i].room_id });
            }
        }
        proof {
            assert(rv.skip(n as int) =~= Seq::<RoomSettingsView>::empty());
        }
        Ok(())
    }

    /// The version of a settings file: `versioned` is the version it holds
    /// when it reads as versioned settings, `legacy_readable` whether it
    /// reads as settings without a version (which count as version 0).
    pub fn get_settings_version(versioned: Option<SettingsVersion>, legacy_readable: bool) -> (r: Result<
        SettingsVersion,
        SettingsError,
    >)
        ensures
            match versioned {
                Some(v) => r == Ok::<SettingsVersion, SettingsError>(v),
                None => if legacy_readable {
                    r == Ok::<SettingsVersion, SettingsError>(SettingsVersion::V0)
                } else {
                    r == Err::<SettingsVersion, SettingsError>(SettingsError::UnrecognizedFormat)
                },
            },
    {
        match versioned {
            Some(v) => Ok(v),
            None => if legacy_readable {
                Ok(SettingsVersion::V0)
            } else {
                Err(SettingsError::UnrecognizedFormat)
            },
        }
    }
}

pub proof fn lemma_defaults_not_empty()
    ensures
        DEFAULT_THEME@.len() > 0,
        DEFAULT_RECORD_NAME@.len() > 0,
{
    reveal_strlit("Catppuccin Mocha");
    reveal_strlit("{up_name}_{room_title}_{datetime}");
}

proof fn lemma_no_unnamed_room(rooms: Seq<RoomSettingsView>)
    requires
        forall|i: int| 0 <= i < rooms.len() ==> (#[trigger] rooms[i]).record_name.len() > 0,
    ensures
        first_unnamed_room(rooms) is None,
    decreases rooms.len(),
{
    if rooms.len() > 0 {
        assert(rooms[0].record_name.len() > 0);
        lemma_no_unnamed_room(rooms.drop_first());
    }
}

proof fn lemma_unnamed_room_none_means_all_named(rooms: Seq<RoomSettingsView>, i: int)
    requires
        first_unnamed_room(rooms) is None,
        0 <= i < rooms.len(),
    ensures
        rooms[i].record_name.len() > 0,
    decreases rooms.len(),
{
    if i > 0 {
        lemma_unnamed_room_none_means_all_named(rooms.drop_first(), i - 1);
    }
}

/// Settings that went through the version 0 to version 1 migration pass
/// validation, provided the default record directory is not empty.
pub proof fn law_migrated_settings_are_valid(s: GlobalSettingsView, default_record_dir: Seq<char>)
    requires
        default_record_dir.len() > 0,
    ensures
        validation_error(migrate_v0_to_v1_spec(s, default_record_dir)) is None,
{
    lemma_defaults_not_empty();
    let m = migrate_v0_to_v1_spec(s, default_record_dir);
    assert forall|i: int| 0 <= i < m.rooms.len() implies (#[trigger] m.rooms[i]).record_name.len() > 0 by {
        assert(m.rooms[i] == migrate_room_v0_to_v1(s.rooms[i]));
    }
    lemma_no_unnamed_room(m.rooms);
}

/// Migrating settings that already pass validation changes nothing.
pub proof fn law_migrating_valid_settings_changes_nothing(
    s: GlobalSettingsView,
    default_record_dir: Seq<char>,
)
    requires
        validation_error(s) is None,
    ensures
        migrate_v0_to_v1_spec(s, default_record_dir) == s,
{
    let m = migrate_v0_to_v1_spec(s, default_record_dir);
    assert forall|i: int| 0 <= i < s.rooms.len() implies #[trigger] m.rooms[i] == s.rooms[i] by {
        lemma_unnamed_room_none_means_all_named(s.rooms, i);
    }
    assert(m.rooms =~= s.rooms);
}

/// Settings at the newest version are returned as they are.
pub proof fn law_current_version_is_not_migrated(s: GlobalSettingsView, default_record_dir: Seq<char>)
    ensures
        migrate_from_version_spec(current_version(), s, default_record_dir) == s,
{
}

/// Settings saved with their version load back as they were, provided
/// their theme name is set (loading fills in an empty theme name): saving
/// them, migrating what was saved and starting from the result gives them
/// back, whatever the default record directory.
pub proof fn law_saved_settings_load_back(
    s: GlobalSettingsView,
    legacy: Option<GlobalSettingsView>,
    default_record_dir: Seq<char>,
)
    requires
        s.theme_name.len() > 0,
    ensures
        loaded_settings_spec(
            Some(migrate_spec(Some(saved_settings_spec(s)), legacy, default_record_dir)),
            default_record_dir,
        ) == s,
{
}


/// Merging keeps every choice a room sets for itself and takes the global
/// choice only for those it leaves unset; the room number and file-name
/// template are the room's own.
pub proof fn law_merge_keeps_room_choices(r: RoomSettingsView, g: GlobalSettingsView)
    ensures
        r.strategy matches Some(v) ==> merge_global_spec(r, g).strategy == Some(v),
        r.quality matches Some(v) ==> merge_global_spec(r, g).quality == Some(v),
        r.format matches Some(v) ==> merge_global_spec(r, g).format == Some(v),
        r.codec matches Some(v) ==> merge_global_spec(r, g).codec == Some(v),
        r.strategy is None ==> merge_global_spec(r, g).strategy == Some(g.strategy),
        r.quality is None ==> merge_global_spec(r, g).quality == Some(g.quality),
        r.format is None ==> merge_global_spec(r, g).format == Some(g.format),
        r.codec is None ==> merge_global_spec(r, g).codec == Some(g.codec),
        (r.record_dir matches Some(d) && d.len() > 0) ==> merge_global_spec(r, g).record_dir == r.record_dir,
        (r.record_dir is None || r.record_dir == Some(Seq::<char>::empty())) ==> merge_global_spec(r, g).record_dir
            == Some(g.record_dir),
        merge_global_spec(r, g).room_id == r.room_id,
        merge_global_spec(r, g).record_name == r.record_name,
{
}
} // verus!
