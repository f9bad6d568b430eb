//! The application state: the watched rooms with their recording state,
//! the reconnection policy, and the decisions taken when a room is polled,
//! when the user starts or stops a recording, and when a room is deleted.
use vstd::prelude::*;
use std::time::Instant;
use crate::api::{LiveRoomInfoData, LiveStatus, LiveUserInfo};
use crate::external::now;
use crate::text::{decimal, u64_to_decimal};
use crate::settings::{
    merge_global_spec, new_room_settings, rooms_view, GlobalSettings, GlobalSettingsView, RoomSettings, RoomSettingsView,
};

verus! {

/// Whether a room card waits for the stream or records it.
#[derive(Debug, Clone, Copy, PartialEq, Eq, Structural)]
pub enum RoomCardStatus {
    WaitLiveStreaming,
    LiveRecording,
}

impl Default for RoomCardStatus {
    fn default() -> (r: Self)
        ensures
            r == RoomCardStatus::WaitLiveStreaming,
    {
        RoomCardStatus::WaitLiveStreaming
    }
}

/// The last thing the downloader of a room reported.
#[derive(Debug)]
pub enum DownloaderStatus {
    Started { file_path: String },
    Completed { file_path: String, file_size: u64, duration: u64 },
    Error { cause: String },
}

/// When and how often a lost recording is retried.
#[derive(Debug)]
pub struct ReconnectManager {
    current_attempt: u32,
    max_attempts: u32,
    /// Milliseconds.
    base_delay_ms: u64,
    /// Milliseconds.
    max_delay_ms: u64,
    last_reconnect_time: Option<Instant>,
}

/// The delay before retry number `attempt` (counted from 0), before jitter
/// and capping: the base delay doubled once per attempt, at most ten times.
pub open spec fn exponential_delay_spec(base_delay_ms: u64, attempt: u32) -> int {
    base_delay_ms * vstd::arithmetic::power2::pow2(if attempt < 10 {
        attempt as nat
    } else {
        10
    }) as int
}

impl ReconnectManager {
    pub closed spec fn attempt(&self) -> u32 {
        self.current_attempt
    }

    pub closed spec fn spec_max_attempts(&self) -> u32 {
        self.max_attempts
    }

    pub closed spec fn spec_base_delay_ms(&self) -> u64 {
        self.base_delay_ms
    }

    pub closed spec fn spec_max_delay_ms(&self) -> u64 {
        self.max_delay_ms
    }

    pub closed spec fn reconnected_once(&self) -> bool {
        self.last_reconnect_time is Some
    }

    /// A policy allowing `max_attempts` retries, with delays in milliseconds.
    pub fn new(max_attempts: u32, base_delay_ms: u64, max_delay_ms: u64) -> (r: Self)
        ensures
            r.attempt() == 0,
            r.spec_max_attempts() == max_attempts,
            r.spec_base_delay_ms() == base_delay_ms,
            r.spec_max_delay_ms() == max_delay_ms,
            !r.reconnected_once(),
    {
        ReconnectManager {
            current_attempt: 0,
            max_attempts,
            base_delay_ms,
            max_delay_ms,
            last_reconnect_time: None,
        }
    }

    /// Whether another retry is allowed.
    pub fn should_reconnect(&self) -> (r: bool)
        ensures
            r == (self.attempt() < self.spec_max_attempts()),
    {
        self.current_attempt < self.max_attempts
    }

    /// Counts a retry and notes when it happened.
    pub fn increment_attempt(&mut self)
        requires
            old(self).attempt() < u32::MAX,
        ensures
            final(self).attempt() == old(self).attempt() + 1,
            final(self).spec_max_attempts() == old(self).spec_max_attempts(),
            final(self).spec_base_delay_ms() == old(self).spec_base_delay_ms(),
            final(self).spec_max_delay_ms() == old(self).spec_max_delay_ms(),
            final(self).reconnected_once(),
    {
        self.current_attempt = self.current_attempt + 1;
        self.last_reconnect_time = Some(now());
    }

    /// Forgets all retries.
    pub fn reset_attempts(&mut self)
        ensures
            final(self).attempt() == 0,
            final(self).spec_max_attempts() == old(self).spec_max_attempts(),
            final(self).spec_base_delay_ms() == old(self).spec_base_delay_ms(),
            final(self).spec_max_delay_ms() == old(self).spec_max_delay_ms(),
            !final(self).reconnected_once(),
    {
        self.current_attempt = 0;
        self.last_reconnect_time = None;
    }

    /// The delay before the next retry, in milliseconds, before jitter and
    /// capping: the base delay doubled once per retry so far, at most ten times.
    pub fn exponential_delay_ms(&self) -> (r: u128)
        ensures
            r == exponential_delay_spec(self.spec_base_delay_ms(), self.attempt()),
    {
        let k: u32 = if self.current_attempt < 10 {
            self.current_attempt
        } else {
            10
        };
        let mut factor: u128 = 1;
        let mut i: u32 = 0;
        proof {
            vstd::arithmetic::power2::lemma2_to64();
        }
        while i < k
            invariant
                i <= k <= 10,
                factor == vstd::arithmetic::power2::pow2(i as nat),
            decreases k - i,
        {
            proof {
                vstd::arithmetic::power2::lemma_pow2_unfold((i + 1) as nat);
                vstd::arithmetic::power2::lemma_pow2_strictly_increases(i as nat, 10);
                vstd::arithmetic::power2::lemma2_to64();
            }
            factor = factor * 2;
            i = i + 1;
        }
        proof {
            vstd::arithmetic::power2::lemma2_to64();
            if k < 10 {
                vstd::arithmetic::power2::lemma_pow2_strictly_increases(k as nat, 10);
            }
            assert(self.base_delay_ms * factor <= u64::MAX * 1024) by (nonlinear_arith)
                requires
                    factor <= 1024,
                    self.base_delay_ms <= u64::MAX,
            ;
        }
        self.base_delay_ms as u128 * factor
    }

    /// The longest delay allowed, in milliseconds.
    pub fn max_delay_ms(&self) -> (r: u64)
        ensures
            r == self.spec_max_delay_ms(),
    {
        self.max_delay_ms
    }
}

impl Default for ReconnectManager {
    fn default() -> (r: Self)
        ensures
            r.attempt() == 0 && r.spec_max_attempts() == 0,
            r.spec_base_delay_ms() == 0 && r.spec_max_delay_ms() == 0,
            !r.reconnected_once(),
    {
        ReconnectManager::new(0, 0, 0)
    }
}

/// The back-off delay never shrinks as retries accumulate, and from the
/// tenth retry on it stays at 1024 times the base delay.
pub proof fn law_backoff_delay_grows(base_delay_ms: u64, a1: u32, a2: u32)
    requires
        a1 <= a2,
    ensures
        exponential_delay_spec(base_delay_ms, a1) <= exponential_delay_spec(base_delay_ms, a2),
        a2 >= 10 ==> exponential_delay_spec(base_delay_ms, a2) == base_delay_ms * 1024,
{
    let e1: nat = if a1 < 10 { a1 as nat } else { 10 };
    let e2: nat = if a2 < 10 { a2 as nat } else { 10 };
    vstd::arithmetic::power2::lemma2_to64();
    if e1 < e2 {
        vstd::arithmetic::power2::lemma_pow2_strictly_increases(e1, e2);
    }
    let p1 = vstd::arithmetic::power2::pow2(e1);
    let p2 = vstd::arithmetic::power2::pow2(e2);
    assert(base_delay_ms * p1 <= base_delay_ms * p2) by (nonlinear_arith)
        requires
            p1 <= p2,
    ;
}

/// What the application keeps about one watched room.
#[derive(Debug)]
pub struct RoomCardState {
    pub room_id: u64,
    pub status: RoomCardStatus,
    /// Whether the user stopped the recording; polling does not restart it then.
    pub user_stop: bool,
    pub downloader_status: Option<DownloaderStatus>,
    pub reconnecting: bool,
    pub settings: RoomSettings,
    pub reconnect_manager: ReconnectManager,
    pub room_info: Option<LiveRoomInfoData>,
    pub user_info: Option<LiveUserInfo>,
}

impl RoomCardState {
    /// The state of a newly watched room: waiting, no information yet, and
    /// up to ten retries from one second to thirty.
    pub fn new(room_id: u64, settings: RoomSettings) -> (r: Self)
        ensures
            r.room_id == room_id,
            r.status == RoomCardStatus::WaitLiveStreaming,
            !r.user_stop && !r.reconnecting,
            r.downloader_status is None && r.room_info is None && r.user_info is None,
            r.settings == settings,
            r.reconnect_manager.attempt() == 0,
            r.reconnect_manager.spec_max_attempts() == 10,
            r.reconnect_manager.spec_base_delay_ms() == 1000,
            r.reconnect_manager.spec_max_delay_ms() == 30000,
            !r.reconnect_manager.reconnected_once(),
            is_fresh_state(r, room_id, settings),
    {
        RoomCardState {
            room_id,
            status: RoomCardStatus::WaitLiveStreaming,
            user_stop: false,
            downloader_status: None,
            reconnecting: false,
            settings,
            reconnect_manager: ReconnectManager::new(10, 1000, 30000),
            room_info: None,
            user_info: None,
        }
    }
}

/// Whether a room's state is the one it starts with: waiting for the
/// stream, not stopped by the user, not reconnecting, nothing reported or
/// read yet, and no retry counted of up to ten, from one second to thirty.
pub open spec fn is_fresh_state(s: RoomCardState, room_id: u64, settings: RoomSettings) -> bool {
    &&& s.room_id == room_id
    &&& s.status == RoomCardStatus::WaitLiveStreaming
    &&& !s.user_stop
    &&& !s.reconnecting
    &&& s.downloader_status is None
    &&& s.room_info is None
    &&& s.user_info is None
    &&& s.settings == settings
    &&& s.reconnect_manager.attempt() == 0
    &&& s.reconnect_manager.spec_max_attempts() == 10
    &&& s.reconnect_manager.spec_base_delay_ms() == 1000
    &&& s.reconnect_manager.spec_max_delay_ms() == 30000
    &&& !s.reconnect_manager.reconnected_once()
}

/// Whether no room number occurs twice.
pub open spec fn unique_room_ids(states: Seq<RoomCardState>) -> bool {
    forall|i: int, j: int|
        0 <= i < states.len() && 0 <= j < states.len() && i != j ==> #[trigger] states[i].room_id
            != #[trigger] states[j].room_id
}

pub open spec fn has_room_state_spec(states: Seq<RoomCardState>, room_id: u64) -> bool {
    exists|i: int| 0 <= i < states.len() && #[trigger] states[i].room_id == room_id
}

/// Whether a room's settings are stored.
pub open spec fn has_room_spec(rooms: Seq<RoomSettingsView>, room_id: u64) -> bool {
    exists|i: int| 0 <= i < rooms.len() && #[trigger] rooms[i].room_id == room_id
}

/// The state of the application.
pub struct AppState {
    pub room_states: Vec<RoomCardState>,
    pub settings: GlobalSettings,
}

/// Whether a room has a downloader, and whether it runs.
#[derive(Debug, Clone, Copy, PartialEq, Eq, Structural)]
pub enum DownloaderPresence {
    Absent,
    Idle,
    Running,
}

/// What to do after a room was polled.
#[derive(Debug)]
pub enum PollAction {
    Nothing,
    /// Start the room's existing downloader, recording into the directory.
    StartExisting { record_dir: String },
    /// Create a downloader with these settings (all choices filled in) and start it.
    CreateAndStart { settings: RoomSettings },
    /// Stop the room's downloader and drop it.
    Stop,
}

/// What to do for a room whose recording was lost.
#[derive(Debug)]
pub struct ReconnectAction {
    /// Delay before the restart in milliseconds, before jitter and capping.
    pub exponential_delay_ms: u128,
    /// The longest delay in milliseconds.
    pub max_delay_ms: u64,
    pub record_dir: String,
    /// Whether there is a downloader to restart.
    pub restart: bool,
}

/// The stored settings of a room with every choice filled in from the
/// global settings, when the room's settings are stored.
pub open spec fn merged_room_settings(g: GlobalSettingsView, room_id: u64) -> Option<RoomSettingsView> {
    match room_settings_index(g.rooms, room_id) {
        Some(k) => Some(merge_global_spec(g.rooms[k], g)),
        None => None,
    }
}

/// What a poll decides once the room, its streamer and its settings are
/// known: a live room is recorded, into its merged record directory, unless
/// the user stopped it or it already records; a room that is not live stops
/// its downloader.
pub open spec fn poll_outcome(
    r: PollAction,
    status: LiveStatus,
    user_stop: bool,
    presence: DownloaderPresence,
    merged: RoomSettingsView,
) -> bool {
    match status {
        LiveStatus::Live => if user_stop || presence == DownloaderPresence::Running {
            r is Nothing
        } else if presence == DownloaderPresence::Idle {
            r matches PollAction::StartExisting { record_dir } && Some(record_dir@) == merged.record_dir
        } else {
            r matches PollAction::CreateAndStart { settings } && settings@ == merged
        },
        _ => if presence != DownloaderPresence::Absent {
            r is Stop
        } else {
            r is Nothing
        },
    }
}

/// What a poll of a watched room returns: a decision only when both the room
/// and its streamer were read and the room's settings are stored.
pub open spec fn poll_result(
    r: PollAction,
    user_stop: bool,
    room_info: Option<LiveRoomInfoData>,
    user_info: Option<LiveUserInfo>,
    merged: Option<RoomSettingsView>,
    presence: DownloaderPresence,
) -> bool {
    match (room_info, user_info, merged) {
        (Some(ri), Some(_), Some(m)) => poll_outcome(r, ri.live_status, user_stop, presence, m),
        _ => r is Nothing,
    }
}

/// A watched room's state after a poll: what was read replaces what was
/// kept, except when both were read and the room has no stored settings,
/// where nothing changes.
pub open spec fn polled_state(
    s: RoomCardState,
    room_info: Option<LiveRoomInfoData>,
    user_info: Option<LiveUserInfo>,
    settings_stored: bool,
) -> RoomCardState {
    if room_info is Some && user_info is Some && !settings_stored {
        s
    } else {
        RoomCardState {
            room_info: if room_info is Some {
                room_info
            } else {
                s.room_info
            },
            user_info: if user_info is Some {
                user_info
            } else {
                s.user_info
            },
            ..s
        }
    }
}

/// Whether a watched room's lost recording is restarted now: it is marked
/// as reconnecting, retries remain, and its settings are stored.
pub open spec fn reconnect_due(s: RoomCardState, g: GlobalSettingsView) -> bool {
    &&& s.reconnecting
    &&& s.reconnect_manager.attempt() < s.reconnect_manager.spec_max_attempts()
    &&& merged_room_settings(g, s.room_id) is Some
}

/// The first stored room settings with the room number.
pub open spec fn room_settings_index(rooms: Seq<RoomSettingsView>, room_id: u64) -> Option<int>
    decreases rooms.len(),
{
    if rooms.len() == 0 {
        None
    } else if rooms[0].room_id == room_id {
        Some(0)
    } else {
        match room_settings_index(rooms.drop_first(), room_id) {
            Some(i) => Some(i + 1),
            None => None,
        }
    }
}

proof fn lemma_room_settings_index(rooms: Seq<RoomSettingsView>, room_id: u64, i: int)
    requires
        0 <= i <= rooms.len(),
        forall|j: int| 0 <= j < i ==> (#[trigger] rooms[j]).room_id != room_id,
        i < rooms.len() ==> rooms[i].room_id == room_id,
    ensures
        room_settings_index(rooms, room_id) == (if i < rooms.len() {
            Some(i)
        } else {
            None::<int>
        }),
    decreases rooms.len(),
{
    if rooms.len() > 0 && i > 0 {
        assert forall|j: int| 0 <= j < i - 1 implies (#[trigger] rooms.drop_first()[j]).room_id != room_id by {
            assert(rooms.drop_first()[j] == rooms[j + 1]);
        }
        lemma_room_settings_index(rooms.drop_first(), room_id, i - 1);
    }
}

impl AppState {
    /// The well-formedness of the state: no room is watched twice.
    pub open spec fn wf(&self) -> bool {
        unique_room_ids(self.room_states@)
    }

    /// The state for loaded settings: no room watched yet, and each stored
    /// room's choices filled in from the global settings.
    pub fn from_settings(settings: GlobalSettings) -> (r: Self)
        ensures
            r.wf(),
            r.room_states@.len() == 0,
            r.settings@ == (GlobalSettingsView {
                rooms: settings@.rooms.map_values(|rs: RoomSettingsView| merge_global_spec(rs, settings@)),
                ..settings@
            }),
    {
        let ghost g = settings@;
        let mut settings = settings;
        let n = settings.rooms.len();
        let mut rooms: Vec<RoomSettings> = Vec::new();
        for i in 0..n
            invariant
                n == g.rooms.len(),
                settings@ == g,
                rooms_view(rooms@) == g.rooms.take(i as int).map_values(
                    |rs: RoomSettingsView| merge_global_spec(rs, g),
                ),
        {
            let mut room = settings.rooms[i].clone();
            let merged = room.merge_global(&settings);
            let ghost prev = rooms@;
            let ghost mv = merged@;
            rooms.push(merged);
            proof {
                let f = |rs: RoomSettingsView| merge_global_spec(rs, g);
                assert(rooms_view(rooms@) =~= rooms_view(prev).push(mv));
                assert(g.rooms.take(i + 1) =~= g.rooms.take(i as int).push(g.rooms[i as int]));
                assert(g.rooms.take(i + 1).map_values(f) =~= g.rooms.take(i as int).map_values(f).push(
                    f(g.rooms[i as int]),
                ));
            }
        }
        proof {
            assert(g.rooms.take(n as int) =~= g.rooms);
        }
        settings.rooms = rooms;
        let r = AppState { room_states: Vec::new(), settings };
        assert(r.settings@.rooms =~= g.rooms.map_values(|rs: RoomSettingsView| merge_global_spec(rs, g)));
        r
    }

    fn room_state_index(&self, room_id: u64) -> (r: Option<usize>)
        ensures
            match r {
                Some(i) => i < self.room_states@.len() && self.room_states@[i as int].room_id == room_id,
                None => !has_room_state_spec(self.room_states@, room_id),
            },
    {
        for i in 0..self.room_states.len()
            invariant
                forall|j: int| 0 <= j < i ==> (#[trigger] self.room_states@[j]).room_id != room_id,
        {
            if self.room_states[i].room_id == room_id {
                return Some(i);
            }
        }
        None
    }

    /// Whether the room is watched.
    pub fn has_room_state(&self, room_id: u64) -> (r: bool)
        ensures
            r == has_room_state_spec(self.room_states@, room_id),
    {
        self.room_state_index(room_id).is_some()
    }

    /// The state of a watched room.
    pub fn get_room_state(&self, room_id: u64) -> (r: Option<&RoomCardState>)
        requires
            self.wf(),
        ensures
            match r {
                Some(s) => s.room_id == room_id && exists|i: int|
                    0 <= i < self.room_states@.len() && self.room_states@[i] == *s,
                None => !has_room_state_spec(self.room_states@, room_id),
            },
    {
        match self.room_state_index(room_id) {
            Some(i) => Some(&self.room_states[i]),
            None => None,
        }
    }

    /// Starts watching a room, unless it is watched already.
    pub fn add_room_state(&mut self, room_id: u64, settings: RoomSettings)
        requires
            old(self).wf(),
        ensures
            final(self).wf(),
            final(self).settings == old(self).settings,
            has_room_state_spec(final(self).room_states@, room_id),
            has_room_state_spec(old(self).room_states@, room_id) ==> final(self).room_states@
                == old(self).room_states@,
            !has_room_state_spec(old(self).room_states@, room_id) ==> final(self).room_states@.len()
                == old(self).room_states@.len() + 1 && final(self).room_states@.drop_last()
                == old(self).room_states@ && is_fresh_state(final(self).room_states@.last(), room_id, settings),
    {
        if !self.has_room_state(room_id) {
            let state = RoomCardState::new(room_id, settings);
            self.room_states.push(state);
            proof {
                assert(self.room_states@.drop_last() =~= old(self).room_states@);
                assert(self.room_states@[self.room_states@.len() - 1].room_id == room_id);
            }
        }
    }

    /// Stops watching a room.
    pub fn remove_room_state(&mut self, room_id: u64)
        requires
            old(self).wf(),
        ensures
            final(self).wf(),
            final(self).settings == old(self).settings,
            !has_room_state_spec(final(self).room_states@, room_id),
            final(self).room_states@ == old(self).room_states@.filter(|s: RoomCardState| s.room_id != room_id),
    {
        let ghost old_states = self.room_states@;
        let ghost keep = |s: RoomCardState| s.room_id != room_id;
        let mut kept: Vec<RoomCardState> = Vec::new();
        let mut states: Vec<RoomCardState> = Vec::new();
        std::mem::swap(&mut states, &mut self.room_states);
        let n = states.len();
        let mut i: usize = 0;
        while i < n
            invariant
                n == old_states.len(),
                i <= n,
                states@ == old_states.skip(i as int),
                kept@ == old_states.take(i as int).filter(keep),
                keep == (|s: RoomCardState| s.room_id != room_id),
            decreases n - i,
        {
            let s = states.remove(0);
            proof {
                reveal(Seq::filter);
                assert(old_states.take(i + 1).drop_last() =~= old_states.take(i as int));
                assert(old_states.take(i + 1).last() == s);
                assert(old_states.skip(i as int).drop_first() =~= old_states.skip(i + 1));
            }
            if s.room_id != room_id {
                kept.push(s);
            }
            i = i + 1;
        }
        proof {
            assert(old_states.take(n as int) =~= old_states);
            lemma_filter_keeps_unique(old_states, keep);
            lemma_filter_drops(old_states, keep, room_id);
        }
        self.room_states = kept;
    }

    /// Whether the settings of the room are stored.
    pub fn has_room(&self, room_id: u64) -> (r: bool)
        ensures
            r == has_room_spec(self.settings@.rooms, room_id),
    {
        self.get_room_settings_index(room_id).is_some()
    }

    fn get_room_settings_index(&self, room_id: u64) -> (r: Option<usize>)
        ensures
            match r {
                Some(i) => room_settings_index(self.settings@.rooms, room_id) == Some(i as int) && i
                    < self.settings.rooms@.len() && self.settings@.rooms[i as int].room_id == room_id,
                None => room_settings_index(self.settings@.rooms, room_id) is None && !has_room_spec(
                    self.settings@.rooms,
                    room_id,
                ),
            },
    {
        let ghost rv = self.settings@.rooms;
        for i in 0..self.settings.rooms.len()
            invariant
                rv == self.settings@.rooms,
                forall|j: int| 0 <= j < i ==> (#[trigger] rv[j]).room_id != room_id,
        {
            if self.settings.rooms[i].room_id == room_id {
                proof {
                    lemma_room_settings_index(rv, room_id, i as int);
                }
                return Some(i);
            }
        }
        proof {
            lemma_room_settings_index(rv, room_id, rv.len() as int);
        }
        None
    }

    /// The stored settings of the room.
    pub fn get_room_settings(&self, room_id: u64) -> (r: Option<&RoomSettings>)
        ensures
            match room_settings_index(self.settings@.rooms, room_id) {
                Some(i) => r matches Some(s) && s@ == self.settings@.rooms[i],
                None => r is None,
            },
    {
        match self.get_room_settings_index(room_id) {
            Some(i) => Some(&self.settings.rooms[i]),
            None => None,
        }
    }

    /// Stores the settings of a newly added room.
    pub fn add_room(&mut self, settings: RoomSettings)
        ensures
            final(self).settings@ == (GlobalSettingsView {
                rooms: old(self).settings@.rooms.push(settings@),
                ..old(self).settings@
            }),
            final(self).room_states@ == old(self).room_states@,
    {
        let ghost sv = settings@;
        self.settings.rooms.push(settings);
        assert(rooms_view(self.settings.rooms@) =~= rooms_view(old(self).settings.rooms@).push(sv));
    }
}

/// Each watched room's state is kept, but the one with the room number,
/// which becomes what `f` makes of it.
pub open spec fn states_updated_at(
    old_states: Seq<RoomCardState>,
    new_states: Seq<RoomCardState>,
    room_id: u64,
    f: spec_fn(RoomCardState) -> RoomCardState,
) -> bool {
    &&& new_states.len() == old_states.len()
    &&& forall|j: int|
        0 <= j < old_states.len() ==> #[trigger] new_states[j] == if old_states[j].room_id == room_id {
            f(old_states[j])
        } else {
            old_states[j]
        }
}

proof fn lemma_updated_keeps_unique(
    old_states: Seq<RoomCardState>,
    new_states: Seq<RoomCardState>,
    room_id: u64,
    f: spec_fn(RoomCardState) -> RoomCardState,
)
    requires
        unique_room_ids(old_states),
        states_updated_at(old_states, new_states, room_id, f),
        forall|x: RoomCardState| #[trigger] f(x).room_id == x.room_id,
    ensures
        unique_room_ids(new_states),
        forall|r: u64| has_room_state_spec(new_states, r) == has_room_state_spec(old_states, r),
{
    assert forall|i: int, j: int|
        0 <= i < new_states.len() && 0 <= j < new_states.len() && i != j implies #[trigger] new_states[i].room_id
        != #[trigger] new_states[j].room_id by {
        assert(new_states[i].room_id == old_states[i].room_id);
        assert(new_states[j].room_id == old_states[j].room_id);
    }
    assert forall|r: u64| has_room_state_spec(new_states, r) == has_room_state_spec(old_states, r) by {
        if has_room_state_spec(new_states, r) {
            let i = choose|i: int| 0 <= i < new_states.len() && #[trigger] new_states[i].room_id == r;
            assert(old_states[i].room_id == new_states[i].room_id);
        }
        if has_room_state_spec(old_states, r) {
            let i = choose|i: int| 0 <= i < old_states.len() && #[trigger] old_states[i].room_id == r;
            assert(old_states[i].room_id == new_states[i].room_id);
        }
    }
}

impl AppState {
    /// Records what a poll of the room read, each of the room and its
    /// streamer being `None` when reading it failed, and decides what to do
    /// with the room's downloader, which is `presence`.
    pub fn apply_poll(
        &mut self,
        room_id: u64,
        room_info: Option<LiveRoomInfoData>,
        user_info: Option<LiveUserInfo>,
        presence: DownloaderPresence,
    ) -> (r: PollAction)
        requires
            old(self).wf(),
        ensures
            final(self).wf(),
            final(self).settings == old(self).settings,
            states_updated_at(
                old(self).room_states@,
                final(self).room_states@,
                room_id,
                |s: RoomCardState|
                    polled_state(
                        s,
                        room_info,
                        user_info,
                        merged_room_settings(old(self).settings@, room_id) is Some,
                    ),
            ),
            !has_room_state_spec(old(self).room_states@, room_id) ==> r is Nothing,
            forall|j: int|
                0 <= j < old(self).room_states@.len() && #[trigger] old(self).room_states@[j].room_id
                    == room_id ==> poll_result(
                    r,
                    old(self).room_states@[j].user_stop,
                    room_info,
                    user_info,
                    merged_room_settings(old(self).settings@, room_id),
                    presence,
                ),
    {
        let ghost old_states = self.room_states@;
        let ghost merged = merged_room_settings(self.settings@, room_id);
        let ghost ri0 = room_info;
        let ghost ui0 = user_info;
        let ghost f = |s: RoomCardState| polled_state(s, ri0, ui0, merged is Some);
        let idx = self.room_state_index(room_id);
        let i = match idx {
            None => {
                proof {
                    assert(self.room_states@ =~= old_states);
                    assert forall|j: int| 0 <= j < old_states.len() implies old_states[j].room_id
                        != room_id by {
                        if old_states[j].room_id == room_id {
                            assert(has_room_state_spec(old_states, room_id));
                        }
                    }
                }
                return PollAction::Nothing;
            },
            Some(i) => i,
        };
        proof {
            assert forall|j: int| 0 <= j < old_states.len() && old_states[j].room_id == room_id implies j
                == i by {
                if j != i {
                    assert(old_states[j].room_id != old_states[i as int].room_id);
                }
            }
        }
        let user_stop = self.room_states[i].user_stop;
        let r = match (room_info, user_info) {
            (Some(ri), Some(ui)) => {
                match self.get_room_settings_index(room_id) {
                    None => PollAction::Nothing,
                    Some(k) => {
                        let mut stored = self.settings.rooms[k].clone();
                        let merged_settings = stored.merge_global(&self.settings);
                        let status = ri.live_status;
                        self.room_states[i].room_info = Some(ri);
                        self.room_states[i].user_info = Some(ui);
                        match status {
                            LiveStatus::Live => {
                                if user_stop || presence == DownloaderPresence::Running {
                                    PollAction::Nothing
                                } else if presence == DownloaderPresence::Idle {
                                    let record_dir = match merged_settings.record_dir {
                                        Some(d) => d,
                                        None => String::new(),
                                    };
                                    PollAction::StartExisting { record_dir }
                                } else {
                                    PollAction::CreateAndStart { settings: merged_settings }
                                }
                            },
                            _ => {
                                if presence != DownloaderPresence::Absent {
                                    PollAction::Stop
                                } else {
                                    PollAction::Nothing
                                }
                            },
                        }
                    },
                }
            },
            (Some(ri), None) => {
                self.room_states[i].room_info = Some(ri);
                PollAction::Nothing
            },
            (None, Some(ui)) => {
                self.room_states[i].user_info = Some(ui);
                PollAction::Nothing
            },
            (None, None) => PollAction::Nothing,
        };
        proof {
            assert forall|j: int| 0 <= j < old_states.len() implies #[trigger] self.room_states@[j] == if old_states[j].room_id
                == room_id {
                f(old_states[j])
            } else {
                old_states[j]
            } by {
                if j == i {
                    assert(self.room_states@[j] == f(old_states[j]));
                }
            }
            lemma_updated_keeps_unique(old_states, self.room_states@, room_id, f);
        }
        r
    }
}

/// Whether a room's settings belong to another room than `room_id`.
pub open spec fn other_room(room_id: u64) -> spec_fn(RoomSettingsView) -> bool {
    |r: RoomSettingsView| r.room_id != room_id
}

/// The settings with those of the room left out, in their order.
fn without_room(rooms: Vec<RoomSettings>, room_id: u64) -> (r: Vec<RoomSettings>)
    ensures
        rooms_view(r@) == rooms_view(rooms@).filter(other_room(room_id)),
{
    let ghost vs = rooms_view(rooms@);
    let ghost keep = other_room(room_id);
    let mut rest = rooms;
    let mut kept: Vec<RoomSettings> = Vec::new();
    let n = rest.len();
    let mut i: usize = 0;
    while i < n
        invariant
            n == vs.len(),
            i <= n,
            rest@.len() == n - i,
            rooms_view(rest@) == vs.skip(i as int),
            rooms_view(kept@) == vs.take(i as int).filter(keep),
            keep == other_room(room_id),
        decreases n - i,
    {
        let ghost before = rest@;
        let x = rest.remove(0);
        proof {
            reveal(Seq::filter);
            assert(rooms_view(before)[0] == x@);
            assert(vs.skip(i as int)[0] == vs[i as int]);
            assert(vs.take(i + 1).drop_last() =~= vs.take(i as int));
            assert(vs.take(i + 1).last() == x@);
            assert forall|j: int| 0 <= j < rest@.len() implies #[trigger] rooms_view(rest@)[j] == vs.skip(
                i + 1,
            )[j] by {
                assert(rest@[j] == before[j + 1]);
                assert(rooms_view(before)[j + 1] == vs.skip(i as int)[j + 1]);
            }
            assert(rooms_view(rest@) =~= vs.skip(i + 1));
        }
        let ghost prev = kept@;
        if x.room_id != room_id {
            kept.push(x);
            proof {
                assert(rooms_view(kept@) =~= rooms_view(prev).push(x@));
            }
        }
        i = i + 1;
    }
    proof {
        assert(vs.take(n as int) =~= vs);
    }
    kept
}

impl AppState {
    /// Once per poll round: a room whose recording was lost is restarted,
    /// after the back-off delay, while retries remain; the retry is counted
    /// and the room is no longer marked as reconnecting. `has_downloader`
    /// says whether the room has a downloader to restart.
    pub fn reconnect_step(&mut self, room_id: u64, has_downloader: bool) -> (r: Option<ReconnectAction>)
        requires
            old(self).wf(),
        ensures
            final(self).wf(),
            final(self).settings == old(self).settings,
            final(self).room_states@.len() == old(self).room_states@.len(),
            forall|j: int|
                0 <= j < old(self).room_states@.len() ==> {
                    let s = #[trigger] old(self).room_states@[j];
                    let t = final(self).room_states@[j];
                    if s.room_id == room_id && reconnect_due(s, old(self).settings@) {
                        &&& t == RoomCardState { reconnecting: false, reconnect_manager: t.reconnect_manager, ..s }
                        &&& t.reconnect_manager.attempt() == s.reconnect_manager.attempt() + 1
                        &&& t.reconnect_manager.spec_max_attempts() == s.reconnect_manager.spec_max_attempts()
                        &&& t.reconnect_manager.spec_base_delay_ms() == s.reconnect_manager.spec_base_delay_ms()
                        &&& t.reconnect_manager.spec_max_delay_ms() == s.reconnect_manager.spec_max_delay_ms()
                        &&& t.reconnect_manager.reconnected_once()
                        &&& r matches Some(a) && a.restart == has_downloader
                            && a.exponential_delay_ms == exponential_delay_spec(
                            s.reconnect_manager.spec_base_delay_ms(),
                            s.reconnect_manager.attempt(),
                        ) && a.max_delay_ms == s.reconnect_manager.spec_max_delay_ms() && Some(a.record_dir@)
                            == merged_room_settings(old(self).settings@, room_id).unwrap().record_dir
                    } else {
                        t == s
                    }
                },
            r is Some ==> exists|j: int|
                0 <= j < old(self).room_states@.len() && #[trigger] old(self).room_states@[j].room_id == room_id
                    && reconnect_due(old(self).room_states@[j], old(self).settings@),
    {
        let ghost old_states = self.room_states@;
        let idx = self.room_state_index(room_id);
        let i = match idx {
            None => {
                return None;
            },
            Some(i) => i,
        };
        proof {
            assert forall|j: int| 0 <= j < old_states.len() && old_states[j].room_id == room_id implies j
                == i by {
                if j != i {
                    assert(old_states[j].room_id != old_states[i as int].room_id);
                }
            }
        }
        if !self.room_states[i].reconnecting || !self.room_states[i].reconnect_manager.should_reconnect() {
            return None;
        }
        let k = match self.get_room_settings_index(room_id) {
            None => {
                return None;
            },
            Some(k) => k,
        };
        let mut stored = self.settings.rooms[k].clone();
        let merged = stored.merge_global(&self.settings);
        let record_dir = match merged.record_dir {
            Some(d) => d,
            None => String::new(),
        };
        let exponential_delay_ms = self.room_states[i].reconnect_manager.exponential_delay_ms();
        let max_delay_ms = self.room_states[i].reconnect_manager.max_delay_ms();
        self.room_states[i].reconnect_manager.increment_attempt();
        self.room_states[i].reconnecting = false;
        proof {
            assert forall|a: int, b: int|
                0 <= a < self.room_states@.len() && 0 <= b < self.room_states@.len() && a != b implies #[trigger] self.room_states@[a].room_id
                != #[trigger] self.room_states@[b].room_id by {
                assert(self.room_states@[a].room_id == old_states[a].room_id);
                assert(self.room_states@[b].room_id == old_states[b].room_id);
            }
        }
        Some(ReconnectAction { exponential_delay_ms, max_delay_ms, record_dir, restart: has_downloader })
    }

    /// A request to stop recording the room, by the user or because the
    /// stream ended: the room waits for the stream again, and polling starts
    /// no recording while the user's stop holds.
    pub fn stop_recording(&mut self, room_id: u64, user_action: bool)
        requires
            old(self).wf(),
        ensures
            final(self).wf(),
            final(self).settings == old(self).settings,
            states_updated_at(
                old(self).room_states@,
                final(self).room_states@,
                room_id,
                |s: RoomCardState|
                    RoomCardState { user_stop: user_action, status: RoomCardStatus::WaitLiveStreaming, ..s },
            ),
    {
        let ghost old_states = self.room_states@;
        let ghost f = |s: RoomCardState|
            RoomCardState { user_stop: user_action, status: RoomCardStatus::WaitLiveStreaming, ..s };
        if let Some(i) = self.room_state_index(room_id) {
            proof {
                assert forall|j: int| 0 <= j < old_states.len() && old_states[j].room_id == room_id implies j
                    == i by {
                    if j != i {
                        assert(old_states[j].room_id != old_states[i as int].room_id);
                    }
                }
            }
            self.room_states[i].user_stop = user_action;
            self.room_states[i].status = RoomCardStatus::WaitLiveStreaming;
            proof {
                assert(self.room_states@[i as int] == f(old_states[i as int]));
            }
        } else {
            proof {
                assert forall|j: int| 0 <= j < old_states.len() implies old_states[j].room_id != room_id by {
                    if old_states[j].room_id == room_id {
                        assert(has_room_state_spec(old_states, room_id));
                    }
                }
            }
        }
        proof {
            lemma_updated_keeps_unique(old_states, self.room_states@, room_id, f);
        }
    }

    /// A request to start recording the room; one by the user lifts the
    /// user's stop.
    pub fn start_recording(&mut self, room_id: u64, user_action: bool)
        requires
            old(self).wf(),
        ensures
            final(self).wf(),
            final(self).settings == old(self).settings,
            states_updated_at(
                old(self).room_states@,
                final(self).room_states@,
                room_id,
                |s: RoomCardState|
                    if user_action {
                        RoomCardState { user_stop: false, ..s }
                    } else {
                        s
                    },
            ),
    {
        let ghost old_states = self.room_states@;
        let ghost f = |s: RoomCardState|
            if user_action {
                RoomCardState { user_stop: false, ..s }
            } else {
                s
            };
        if let Some(i) = self.room_state_index(room_id) {
            proof {
                assert forall|j: int| 0 <= j < old_states.len() && old_states[j].room_id == room_id implies j
                    == i by {
                    if j != i {
                        assert(old_states[j].room_id != old_states[i as int].room_id);
                    }
                }
            }
            if user_action {
                self.room_states[i].user_stop = false;
            }
            proof {
                assert(self.room_states@[i as int] == f(old_states[i as int]));
            }
        } else {
            proof {
                assert forall|j: int| 0 <= j < old_states.len() implies old_states[j].room_id != room_id by {
                    if old_states[j].room_id == room_id {
                        assert(has_room_state_spec(old_states, room_id));
                    }
                }
            }
        }
        proof {
            lemma_updated_keeps_unique(old_states, self.room_states@, room_id, f);
        }
    }

    /// Deletes a room: it is no longer watched and its settings are no
    /// longer stored; the other rooms stay, in their order.
    pub fn delete_room(&mut self, room_id: u64)
        requires
            old(self).wf(),
        ensures
            final(self).wf(),
            final(self).room_states@ == old(self).room_states@.filter(
                |s: RoomCardState| s.room_id != room_id,
            ),
            final(self).settings@ == (GlobalSettingsView {
                rooms: old(self).settings@.rooms.filter(other_room(room_id)),
                ..old(self).settings@
            }),
            !has_room_state_spec(final(self).room_states@, room_id),
            !has_room_spec(final(self).settings@.rooms, room_id),
    {
        self.remove_room_state(room_id);
        let mut rooms: Vec<RoomSettings> = Vec::new();
        std::mem::swap(&mut rooms, &mut self.settings.rooms);
        self.settings.rooms = without_room(rooms, room_id);
        proof {
            let f = self.settings@.rooms;
            if has_room_spec(f, room_id) {
                let i = choose|i: int| 0 <= i < f.len() && #[trigger] f[i].room_id == room_id;
                broadcast use vstd::seq_lib::group_filter_ensures;
                assert(other_room(room_id)(f[i]));
            }
        }
    }
}

/// The watched rooms that are recording.
pub open spec fn recording_rooms(states: Seq<RoomCardState>) -> Seq<RoomCardState> {
    states.filter(|s: RoomCardState| s.status == RoomCardStatus::LiveRecording)
}

impl AppState {
    /// How many watched rooms are recording.
    pub fn recording_count(&self) -> (r: usize)
        ensures
            r == recording_rooms(self.room_states@).len(),
    {
        let ghost pred = |s: RoomCardState| s.status == RoomCardStatus::LiveRecording;
        let mut count: usize = 0;
        let n = self.room_states.len();
        for i in 0..n
            invariant
                n == self.room_states@.len(),
                count == self.room_states@.take(i as int).filter(pred).len(),
                count <= i,
                pred == (|s: RoomCardState| s.status == RoomCardStatus::LiveRecording),
        {
            proof {
                reveal(Seq::filter);
                assert(self.room_states@.take(i + 1).drop_last() =~= self.room_states@.take(i as int));
            }
            if self.room_states[i].status == RoomCardStatus::LiveRecording {
                count = count + 1;
            }
        }
        proof {
            assert(self.room_states@.take(n as int) =~= self.room_states@);
        }
        count
    }

    /// Adds a room typed in by the user: refused, with the warning shown,
    /// when its settings are stored already; otherwise settings with every
    /// choice left to the global ones are stored and returned.
    pub fn submit_room(&mut self, room_id: u64) -> (r: Result<RoomSettings, String>)
        ensures
            final(self).room_states@ == old(self).room_states@,
            has_room_spec(old(self).settings@.rooms, room_id) ==> (r matches Err(w) && w@ == "不能重复监听 "@
                + decimal(room_id as nat)) && final(self).settings@ == old(self).settings@,
            !has_room_spec(old(self).settings@.rooms, room_id) ==> (r matches Ok(s) && s@ == new_room_settings(room_id)) && final(self).settings@ == (GlobalSettingsView {
                rooms: old(self).settings@.rooms.push(new_room_settings(room_id)),
                ..old(self).settings@
            }),
            has_room_spec(final(self).settings@.rooms, room_id),
    {
        if self.has_room(room_id) {
            let mut w = String::from_str("不能重复监听 ");
            let d = u64_to_decimal(room_id);
            w.append(d.as_str());
            return Err(w);
        }
        let settings = RoomSettings::new(room_id);
        self.add_room(settings.clone());
        proof {
            let rooms = self.settings@.rooms;
            assert(rooms[rooms.len() - 1].room_id == room_id);
        }
        Ok(settings)
    }
}

/// A room the user stopped is never started by polling: whatever was read,
/// a poll of it neither starts nor creates a downloader.
pub proof fn law_user_stop_prevents_restart(
    r: PollAction,
    room_info: Option<LiveRoomInfoData>,
    user_info: Option<LiveUserInfo>,
    merged: Option<RoomSettingsView>,
    presence: DownloaderPresence,
)
    requires
        poll_result(r, true, room_info, user_info, merged, presence),
    ensures
        !(r is StartExisting),
        !(r is CreateAndStart),
{
}

/// A downloader that runs is never started again by polling: the poll
/// leaves it alone while the room is live and stops it otherwise.
pub proof fn law_running_downloader_not_restarted(
    r: PollAction,
    user_stop: bool,
    room_info: Option<LiveRoomInfoData>,
    user_info: Option<LiveUserInfo>,
    merged: Option<RoomSettingsView>,
)
    requires
        poll_result(r, user_stop, room_info, user_info, merged, DownloaderPresence::Running),
    ensures
        r is Nothing || r is Stop,
        room_info matches Some(ri) && ri.live_status != LiveStatus::Live && user_info is Some && merged is Some
            ==> r is Stop,
{
}

proof fn lemma_filter_keeps_unique(s: Seq<RoomCardState>, keep: spec_fn(RoomCardState) -> bool)
    requires
        unique_room_ids(s),
    ensures
        unique_room_ids(s.filter(keep)),
        forall|x: RoomCardState| s.filter(keep).contains(x) ==> s.contains(x),
    decreases s.len(),
{
    broadcast use vstd::seq_lib::group_filter_ensures;

    assert forall|x: RoomCardState| s.filter(keep).contains(x) implies s.contains(x) by {
        s.lemma_filter_contains_rev(keep, x);
    }
    reveal(Seq::filter);
    if s.len() > 0 {
        let t = s.drop_last();
        assert(unique_room_ids(t)) by {
            assert forall|i: int, j: int|
                0 <= i < t.len() && 0 <= j < t.len() && i != j implies #[trigger] t[i].room_id
                != #[trigger] t[j].room_id by {
                assert(t[i] == s[i] && t[j] == s[j]);
            }
        }
        lemma_filter_keeps_unique(t, keep);
        let f = s.filter(keep);
        if keep(s.last()) {
            assert(f == t.filter(keep).push(s.last()));
            assert forall|i: int, j: int|
                0 <= i < f.len() && 0 <= j < f.len() && i != j implies #[trigger] f[i].room_id
                != #[trigger] f[j].room_id by {
                if i == f.len() - 1 || j == f.len() - 1 {
                    let k = if i == f.len() - 1 {
                        j
                    } else {
                        i
                    };
                    assert(t.filter(keep).contains(f[k]));
                    assert(t.contains(f[k]));
                    let m = choose|m: int| 0 <= m < t.len() && t[m] == f[k];
                    assert(s[m] == t[m]);
                    assert(s[s.len() - 1] == s.last());
                }
            }
        }
    }
}

proof fn lemma_filter_drops(s: Seq<RoomCardState>, keep: spec_fn(RoomCardState) -> bool, room_id: u64)
    requires
        keep == (|x: RoomCardState| x.room_id != room_id),
    ensures
        !has_room_state_spec(s.filter(keep), room_id),
{
    broadcast use vstd::seq_lib::group_filter_ensures;

    if has_room_state_spec(s.filter(keep), room_id) {
        let i = choose|i: int| 0 <= i < s.filter(keep).len() && #[trigger] s.filter(keep)[i].room_id == room_id;
        assert(keep(s.filter(keep)[i]));
    }
}


/// When a poll reads the room and its streamer and the room's settings are
/// stored, a room that is not live has its downloader stopped exactly when
/// it has one, running or not; a live room never has it stopped; and a
/// downloader is created only when there is none, started only when it
/// exists and is idle.
pub proof fn law_poll_stops_exactly_present_downloaders(
    r: PollAction,
    status: LiveStatus,
    user_stop: bool,
    presence: DownloaderPresence,
    merged: RoomSettingsView,
)
    requires
        poll_outcome(r, status, user_stop, presence, merged),
    ensures
        status != LiveStatus::Live ==> (r is Stop <==> presence != DownloaderPresence::Absent),
        status != LiveStatus::Live ==> (r is Nothing <==> presence == DownloaderPresence::Absent),
        status == LiveStatus::Live ==> !(r is Stop),
        r is CreateAndStart ==> presence == DownloaderPresence::Absent && status == LiveStatus::Live && !user_stop,
        r is StartExisting ==> presence == DownloaderPresence::Idle && status == LiveStatus::Live && !user_stop,
        status == LiveStatus::Live && !user_stop && presence == DownloaderPresence::Absent ==> r is CreateAndStart,
        status == LiveStatus::Live && !user_stop && presence == DownloaderPresence::Idle ==> r is StartExisting,
{
}
} // verus!
