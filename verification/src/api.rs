//! The data the Bilibili live API answers with, and the requests it takes.
use vstd::prelude::*;
use crate::settings::{LiveProtocol, StreamCodec, VideoContainer};
use crate::text::{decimal, u64_to_decimal};

verus! {

/// The envelope of every API answer.
#[derive(Debug)]
pub struct BasicResponse<Data: Sized> {
    pub code: i32,
    pub data: Data,
}

/// Whether a room is live, showing recorded videos, or off the air.
#[derive(Debug, Clone, Copy, PartialEq, Eq, Structural)]
pub enum LiveStatus {
    Offline,
    Live,
    Carousel,
}

impl Default for LiveStatus {
    fn default() -> (r: Self)
        ensures
            r == LiveStatus::Offline,
    {
        LiveStatus::Offline
    }
}

/// The status a number from the API stands for; unknown numbers read as off the air.
pub open spec fn live_status_from_number(n: u8) -> LiveStatus {
    if n == 1 {
        LiveStatus::Live
    } else if n == 2 {
        LiveStatus::Carousel
    } else {
        LiveStatus::Offline
    }
}

pub open spec fn live_status_label(s: LiveStatus) -> Seq<char> {
    match s {
        LiveStatus::Live => "直播中"@,
        LiveStatus::Carousel => "轮播中"@,
        LiveStatus::Offline => "未开播"@,
    }
}

impl LiveStatus {
    /// The status the API number `n` stands for.
    pub fn from_number(n: u8) -> (r: LiveStatus)
        ensures
            r == live_status_from_number(n),
    {
        if n == 1 {
            LiveStatus::Live
        } else if n == 2 {
            LiveStatus::Carousel
        } else {
            LiveStatus::Offline
        }
    }

    /// The name shown for the status.
    pub fn label(&self) -> (r: &'static str)
        ensures
            r@ == live_status_label(*self),
    {
        match self {
            LiveStatus::Live => "直播中",
            LiveStatus::Carousel => "轮播中",
            LiveStatus::Offline => "未开播",
        }
    }
}

/// What the API tells about a live room.
#[derive(Debug)]
pub struct LiveRoomInfoData {
    pub uid: u64,
    pub room_id: u64,
    pub short_id: u64,
    pub attention: u32,
    pub online: u32,
    pub is_portrait: bool,
    pub description: String,
    pub live_status: LiveStatus,
    pub parent_area_id: u32,
    pub parent_area_name: String,
    pub old_area_id: u32,
    pub background: String,
    pub title: String,
    pub user_cover: String,
    /// When the stream went live, as `YYYY-MM-DD HH:MM:SS`.
    pub live_time: String,
    pub tags: String,
    pub area_name: String,
}

impl Clone for LiveRoomInfoData {
    fn clone(&self) -> (r: Self)
        ensures
            r == *self,
    {
        LiveRoomInfoData {
            uid: self.uid,
            room_id: self.room_id,
            short_id: self.short_id,
            attention: self.attention,
            online: self.online,
            is_portrait: self.is_portrait,
            description: self.description.clone(),
            live_status: self.live_status,
            parent_area_id: self.parent_area_id,
            parent_area_name: self.parent_area_name.clone(),
            old_area_id: self.old_area_id,
            background: self.background.clone(),
            title: self.title.clone(),
            user_cover: self.user_cover.clone(),
            live_time: self.live_time.clone(),
            tags: self.tags.clone(),
            area_name: self.area_name.clone(),
        }
    }
}

impl Default for LiveRoomInfoData {
    fn default() -> (r: Self)
        ensures
            r.uid == 0 && r.room_id == 0 && r.short_id == 0 && r.attention == 0 && r.online == 0,
            !r.is_portrait && r.live_status == LiveStatus::Offline,
            r.parent_area_id == 0 && r.old_area_id == 0,
            r.description@.len() == 0 && r.parent_area_name@.len() == 0 && r.background@.len() == 0,
            r.title@.len() == 0 && r.user_cover@.len() == 0 && r.live_time@.len() == 0,
            r.tags@.len() == 0 && r.area_name@.len() == 0,
    {
        LiveRoomInfoData {
            uid: 0,
            room_id: 0,
            short_id: 0,
            attention: 0,
            online: 0,
            is_portrait: false,
            description: String::new(),
            live_status: LiveStatus::Offline,
            parent_area_id: 0,
            parent_area_name: String::new(),
            old_area_id: 0,
            background: String::new(),
            title: String::new(),
            user_cover: String::new(),
            live_time: String::new(),
            tags: String::new(),
            area_name: String::new(),
        }
    }
}

/// The room number shown for a room: its short number when it has one.
pub open spec fn shown_room_id(info: LiveRoomInfoData) -> u64 {
    if info.short_id > 0 {
        info.short_id
    } else {
        info.room_id
    }
}

impl LiveRoomInfoData {
    /// The room number shown for the room: its short number when it has one.
    pub fn shown_room_id(&self) -> (r: u64)
        ensures
            r == shown_room_id(*self),
    {
        if self.short_id > 0 {
            self.short_id
        } else {
            self.room_id
        }
    }
}

/// Where and how a room's stream can be played.
#[derive(Debug)]
pub struct LiveRoomStreamUrl {
    pub room_id: u64,
    pub short_id: u64,
    pub uid: u64,
    pub is_hidden: bool,
    pub is_locked: bool,
    pub is_portrait: bool,
    pub live_status: u8,
    pub hidden_till: u64,
    pub lock_till: u64,
    pub encrypted: bool,
    pub pwd_verified: bool,
    pub live_time: u64,
    pub room_shield: u8,
    pub all_special_types: Vec<u8>,
    pub playurl_info: Option<PlayUrlInfo>,
}

#[derive(Debug)]
pub struct PlayUrlInfo {
    pub conf_json: String,
    pub playurl: PlayUrl,
}

#[derive(Debug)]
pub struct PlayUrl {
    pub cid: u64,
    pub g_qn_desc: Vec<QnDesc>,
    pub stream: Vec<PlayStream>,
}

#[derive(Debug)]
pub struct QnDesc {
    pub qn: u32,
    pub desc: String,
    pub hdr_desc: String,
    pub attr_desc: Option<String>,
    pub hdr_type: u8,
    pub media_base_desc: Option<MediaBaseDesc>,
}

#[derive(Debug)]
pub struct MediaBaseDesc {
    pub detail_desc: MediaBaseDescDetail,
    pub brief_desc: MediaBaseDescBrief,
}

#[derive(Debug)]
pub struct MediaBaseDescDetail {
    pub desc: String,
}

#[derive(Debug)]
pub struct MediaBaseDescBrief {
    pub desc: String,
    pub badge: Option<String>,
}

/// The stream offered over one protocol, in several containers.
#[derive(Debug)]
pub struct PlayStream {
    pub protocol_name: LiveProtocol,
    pub format: Vec<PlayStreamFormat>,
}

/// The stream in one container, in several codecs.
#[derive(Debug)]
pub struct PlayStreamFormat {
    pub format_name: VideoContainer,
    pub codec: Vec<StreamCodecInfo>,
}

/// The stream in one codec, reachable through several hosts.
#[derive(Debug)]
pub struct StreamCodecInfo {
    pub codec_name: StreamCodec,
    pub current_qn: u32,
    pub accept_qn: Vec<u32>,
    pub base_url: String,
    pub url_info: Vec<StreamUrlInfo>,
}

/// One host that serves a stream, with the query part that goes with it.
#[derive(Debug)]
pub struct StreamUrlInfo {
    pub host: String,
    pub extra: String,
    pub stream_ttl: u32,
}

/// The streamer of a room, with level information.
#[derive(Debug)]
pub struct LiveUserData {
    pub info: LiveUserInfo,
    pub level: LiveUserLevel,
    pub san: i32,
}

/// Who streams in a room.
#[derive(Debug)]
pub struct LiveUserInfo {
    pub uid: u64,
    pub uname: String,
    pub face: String,
    pub rank: String,
    pub platform_user_level: u8,
    pub mobile_verify: i8,
    pub identification: i8,
    pub vip_type: i8,
    pub gender: i8,
}

impl Clone for LiveUserInfo {
    fn clone(&self) -> (r: Self)
        ensures
            r == *self,
    {
        LiveUserInfo {
            uid: self.uid,
            uname: self.uname.clone(),
            face: self.face.clone(),
            rank: self.rank.clone(),
            platform_user_level: self.platform_user_level,
            mobile_verify: self.mobile_verify,
            identification: self.identification,
            vip_type: self.vip_type,
            gender: self.gender,
        }
    }
}

impl Default for LiveUserInfo {
    fn default() -> (r: Self)
        ensures
            r.uid == 0 && r.platform_user_level == 0 && r.mobile_verify == 0,
            r.identification == 0 && r.vip_type == 0 && r.gender == 0,
            r.uname@.len() == 0 && r.face@.len() == 0 && r.rank@.len() == 0,
    {
        LiveUserInfo {
            uid: 0,
            uname: String::new(),
            face: String::new(),
            rank: String::new(),
            platform_user_level: 0,
            mobile_verify: 0,
            identification: 0,
            vip_type: 0,
            gender: 0,
        }
    }
}

#[derive(Debug)]
pub struct LiveUserLevel {
    pub uid: u64,
    pub cost: u64,
    pub rcost: u64,
    pub user_score: String,
    pub vip: u8,
    pub vip_time: String,
    pub svip_time: String,
    pub update_time: String,
}

// ---------------------------------------------------------------------------
// Requests
// ---------------------------------------------------------------------------

pub open spec fn room_info_url_spec(room_id: u64) -> Seq<char> {
    "https://api.live.bilibili.com/room/v1/Room/get_info?room_id="@ + decimal(room_id as nat)
}

pub open spec fn stream_url_request_spec(room_id: u64, quality: u32) -> Seq<char> {
    "https://api.live.bilibili.com/xlive/web-room/v2/index/getRoomPlayInfo?room_id="@ + decimal(
        room_id as nat,
    ) + "&protocol=0,1&format=0,1,2&codec=0,1&qn="@ + decimal(quality as nat)
}

pub open spec fn user_info_url_spec(room_id: u64) -> Seq<char> {
    "https://api.live.bilibili.com/live_user/v1/UserInfo/get_anchor_in_room?roomid="@ + decimal(
        room_id as nat,
    )
}

pub open spec fn room_page_url_spec(room_id: u64) -> Seq<char> {
    "https://live.bilibili.com/"@ + decimal(room_id as nat)
}

/// The address that answers with a room's information.
pub fn room_info_url(room_id: u64) -> (r: String)
    ensures
        r@ == room_info_url_spec(room_id),
{
    let mut s = String::from_str("https://api.live.bilibili.com/room/v1/Room/get_info?room_id=");
    let id = u64_to_decimal(room_id);
    s.append(id.as_str());
    s
}

/// The address that answers with where a room's stream can be played, in
/// the quality with the `qn` code `quality`.
pub fn stream_url_request(room_id: u64, quality: u32) -> (r: String)
    ensures
        r@ == stream_url_request_spec(room_id, quality),
{
    let mut s = String::from_str(
        "https://api.live.bilibili.com/xlive/web-room/v2/index/getRoomPlayInfo?room_id=",
    );
    let id = u64_to_decimal(room_id);
    s.append(id.as_str());
    s.append("&protocol=0,1&format=0,1,2&codec=0,1&qn=");
    let q = u64_to_decimal(quality as u64);
    s.append(q.as_str());
    s
}

/// The address that answers with who streams in a room.
pub fn user_info_url(room_id: u64) -> (r: String)
    ensures
        r@ == user_info_url_spec(room_id),
{
    let mut s = String::from_str(
        "https://api.live.bilibili.com/live_user/v1/UserInfo/get_anchor_in_room?roomid=",
    );
    let id = u64_to_decimal(room_id);
    s.append(id.as_str());
    s
}

/// The web page of a live room.
pub fn room_page_url(room_id: u64) -> (r: String)
    ensures
        r@ == room_page_url_spec(room_id),
{
    let mut s = String::from_str("https://live.bilibili.com/");
    let id = u64_to_decimal(room_id);
    s.append(id.as_str());
    s
}

/// Which API answer was refused.
#[derive(Debug, Clone, Copy, PartialEq, Eq, Structural)]
pub enum ApiQuery {
    RoomInfo,
    StreamUrl,
    UserInfo,
}

pub open spec fn api_failure_message(q: ApiQuery) -> Seq<char> {
    match q {
        ApiQuery::RoomInfo => "Failed to get live room info"@,
        ApiQuery::StreamUrl => "Failed to get live room stream url"@,
        ApiQuery::UserInfo => "Failed to get live room user info"@,
    }
}

/// Whether an HTTP status is a success (200 to 299).
pub open spec fn is_success_status(status: u16) -> bool {
    200 <= status && status < 300
}

/// Accepts an answer with a success status; otherwise gives the message of
/// the refused query.
pub fn check_status(query: ApiQuery, status: u16) -> (r: Result<(), String>)
    ensures
        is_success_status(status) ==> r is Ok,
        !is_success_status(status) ==> (r matches Err(m) && m@ == api_failure_message(query)),
{
    if 200 <= status && status < 300 {
        Ok(())
    } else {
        Err(
            match query {
                ApiQuery::RoomInfo => String::from_str("Failed to get live room info"),
                ApiQuery::StreamUrl => String::from_str("Failed to get live room stream url"),
                ApiQuery::UserInfo => String::from_str("Failed to get live room user info"),
            },
        )
    }
}

} // verus!
