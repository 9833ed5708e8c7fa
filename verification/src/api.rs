//! The player state, the snapshots made of it, and the commands and updates that are exchanged
//! with clients.
use crate::clock::{as_signed, elapsed_ms, sum_signed, sum_unsigned};
use std::time::Instant;
use vstd::prelude::*;

verus! {

/// Available control operations, one bit each.
#[derive(Debug, Clone, Copy, PartialEq, Eq, Hash, Structural)]
pub struct Controls {
    pub bits: u8,
}

/// Playback can be started.
pub const CAN_PLAY: u8 = 0x01;

/// Playback can be paused.
pub const CAN_PAUSE: u8 = 0x02;

/// Can skip to the next track.
pub const CAN_SKIP_NEXT: u8 = 0x04;

/// Can skip to the previous track.
pub const CAN_SKIP_PREVIOUS: u8 = 0x08;

/// The playback position can be changed.
pub const CAN_SEEK: u8 = 0x10;

/// The shuffle mode can be changed.
pub const CAN_CHANGE_SHUFFLE: u8 = 0x20;

/// The repeat mode can be changed.
pub const CAN_CHANGE_REPEAT: u8 = 0x40;

impl Controls {
    /// Whether every operation in `flags` is available.
    pub open spec fn has(self, flags: u8) -> bool {
        self.bits & flags == flags
    }

    /// No operation is available.
    pub fn empty() -> (controls: Self)
        ensures
            controls.bits == 0,
    {
        Controls { bits: 0 }
    }

    /// Makes the operations in `flags` available.
    pub fn insert(&mut self, flags: u8)
        ensures
            final(self).bits == old(self).bits | flags,
    {
        self.bits = self.bits | flags;
    }

    /// Whether every operation in `flags` is available.
    pub fn contains(&self, flags: u8) -> (yes: bool)
        ensures
            yes == self.has(flags),
    {
        self.bits & flags == flags
    }
}

impl Default for Controls {
    fn default() -> (controls: Self)
        ensures
            controls.bits == 0,
    {
        Controls { bits: 0 }
    }
}

/// The playback status.
#[derive(Debug, Clone, Copy, PartialEq, Eq, Hash, Structural)]
pub enum PlaybackStatus {
    /// Playback is stopped.
    Stopped,
    /// Currently playing.
    Playing,
    /// Playback is paused.
    Paused,
}

impl Default for PlaybackStatus {
    fn default() -> (status: Self)
        ensures
            status == PlaybackStatus::Stopped,
    {
        PlaybackStatus::Stopped
    }
}

/// Repeat mode for playback.
#[derive(Debug, Clone, Copy, PartialEq, Eq, Hash, Structural)]
pub enum RepeatMode {
    /// Do not repeat.
    Off,
    /// Repeat the current track.
    One,
    /// Repeat the entire list.
    All,
}

impl Default for RepeatMode {
    fn default() -> (mode: Self)
        ensures
            mode == RepeatMode::Off,
    {
        RepeatMode::Off
    }
}

/// Text conversion mode.
#[derive(Debug, Clone, Copy, PartialEq, Eq, Structural)]
pub enum TextConversionMode {
    /// No conversion.
    Off,
    /// Traditional to Simplified (t2s.json).
    TraditionalToSimplified,
    /// Simplified to Traditional (s2t.json).
    SimplifiedToTraditional,
    /// Simplified to Taiwan Standard (s2tw.json).
    SimplifiedToTaiwan,
    /// Taiwan Standard to Simplified (tw2s.json).
    TaiwanToSimplified,
    /// Simplified to Hong Kong Traditional (s2hk.json).
    SimplifiedToHongKong,
    /// Hong Kong Traditional to Simplified (hk2s.json).
    HongKongToSimplified,
}

impl Default for TextConversionMode {
    fn default() -> (mode: Self)
        ensures
            mode == TextConversionMode::Off,
    {
        TextConversionMode::Off
    }
}

/// The player state that is aggregated from what the media session reports.
#[derive(Debug, Clone)]
pub struct SharedPlayerState {
    /// The song title.
    pub title: String,
    /// The artist's name.
    pub artist: String,
    /// The album title.
    pub album: String,
    /// Total duration of the song in milliseconds; 0 where it is not known.
    pub song_duration_ms: u64,
    /// The last reported playback position in milliseconds.
    pub last_known_position_ms: u64,
    /// When `last_known_position_ms` was updated.
    pub last_known_position_report_time: Option<Instant>,
    /// The current playback status.
    pub playback_status: PlaybackStatus,
    /// The control options supported by the current media source.
    pub controls: Controls,
    /// Whether shuffle mode is currently active.
    pub is_shuffle_active: bool,
    /// The current repeat mode.
    pub repeat_mode: RepeatMode,
    /// Raw cover art data.
    pub cover_data: Option<Vec<u8>>,
    /// Hash of the cover art data.
    pub cover_data_hash: Option<u64>,
    /// Whether the first update of a track is still awaited. The position timer pauses meanwhile.
    pub is_waiting_for_initial_update: bool,
    /// User-defined position offset in milliseconds.
    pub position_offset_ms: i64,
    /// Optimization offset for Apple Music in milliseconds.
    pub apple_music_optimization_offset_ms: i64,
}

/// The contents of a `SharedPlayerState`.
#[verifier::ext_equal]
pub struct PlayerView {
    pub title: Seq<char>,
    pub artist: Seq<char>,
    pub album: Seq<char>,
    pub song_duration_ms: u64,
    pub last_known_position_ms: u64,
    pub last_known_position_report_time: Option<Instant>,
    pub playback_status: PlaybackStatus,
    pub controls: Controls,
    pub is_shuffle_active: bool,
    pub repeat_mode: RepeatMode,
    pub cover_data: Option<Seq<u8>>,
    pub cover_data_hash: Option<u64>,
    pub is_waiting_for_initial_update: bool,
    pub position_offset_ms: i64,
    pub apple_music_optimization_offset_ms: i64,
}

/// The characters of an optional text.
pub open spec fn text_of(text: Option<String>) -> Option<Seq<char>> {
    match text {
        Some(s) => Some(s@),
        None => None,
    }
}

/// The bytes of an optional block of data.
pub open spec fn bytes_of(data: Option<Vec<u8>>) -> Option<Seq<u8>> {
    match data {
        Some(b) => Some(b@),
        None => None,
    }
}

impl View for SharedPlayerState {
    type V = PlayerView;

    open spec fn view(&self) -> PlayerView {
        PlayerView {
            title: self.title@,
            artist: self.artist@,
            album: self.album@,
            song_duration_ms: self.song_duration_ms,
            last_known_position_ms: self.last_known_position_ms,
            last_known_position_report_time: self.last_known_position_report_time,
            playback_status: self.playback_status,
            controls: self.controls,
            is_shuffle_active: self.is_shuffle_active,
            repeat_mode: self.repeat_mode,
            cover_data: bytes_of(self.cover_data),
            cover_data_hash: self.cover_data_hash,
            is_waiting_for_initial_update: self.is_waiting_for_initial_update,
            position_offset_ms: self.position_offset_ms,
            apple_music_optimization_offset_ms: self.apple_music_optimization_offset_ms,
        }
    }
}

impl PlayerView {
    /// The state before anything was reported.
    pub open spec fn blank() -> PlayerView {
        PlayerView {
            title: Seq::empty(),
            artist: Seq::empty(),
            album: Seq::empty(),
            song_duration_ms: 0,
            last_known_position_ms: 0,
            last_known_position_report_time: None,
            playback_status: PlaybackStatus::Stopped,
            controls: Controls { bits: 0 },
            is_shuffle_active: false,
            repeat_mode: RepeatMode::Off,
            cover_data: None,
            cover_data_hash: None,
            is_waiting_for_initial_update: false,
            position_offset_ms: 0,
            apple_music_optimization_offset_ms: 0,
        }
    }

    /// A blank state that keeps the user's offset and waits for the first update.
    pub open spec fn reset(self) -> PlayerView {
        PlayerView {
            position_offset_ms: self.position_offset_ms,
            is_waiting_for_initial_update: true,
            ..PlayerView::blank()
        }
    }

    /// Whether the position moves on by itself.
    pub open spec fn is_advancing(self) -> bool {
        self.playback_status == PlaybackStatus::Playing
            && self.last_known_position_report_time is Some
    }

    /// The milliseconds from the last position report to `now`; 0 where there was no report.
    pub open spec fn elapsed_at(self, now: Instant) -> u64 {
        match self.last_known_position_report_time {
            Some(since) => crate::clock::millis_between(since, now) as u64,
            None => 0,
        }
    }

    /// The reported position, moved on by the time passed since the report.
    pub open spec fn advanced_position(self, elapsed_ms: u64) -> int {
        if self.is_advancing() {
            self.last_known_position_ms + elapsed_ms
        } else {
            self.last_known_position_ms as int
        }
    }

    /// The estimated position, `elapsed_ms` after the last report: with both offsets, not below
    /// zero, and not above the duration where that is known.
    pub open spec fn estimated_position(self, elapsed_ms: u64) -> int {
        let shifted = crate::clock::signed64(
            self.advanced_position(elapsed_ms) + self.apple_music_optimization_offset_ms
                + self.position_offset_ms,
        );
        let position = if shifted < 0 {
            0
        } else {
            shifted
        };
        if self.song_duration_ms > 0 && position > self.song_duration_ms {
            self.song_duration_ms as int
        } else {
            position
        }
    }

    /// The snapshot of this state, `elapsed_ms` after the last position report.
    pub open spec fn snapshot(self, elapsed_ms: u64) -> InfoView {
        InfoView {
            title: Some(self.title),
            artist: Some(self.artist),
            album_title: Some(self.album),
            duration_ms: Some(self.song_duration_ms),
            position_ms: Some(self.estimated_position(elapsed_ms) as u64),
            smtc_position_ms: Some(self.last_known_position_ms),
            playback_status: Some(self.playback_status),
            is_shuffle_active: Some(self.is_shuffle_active),
            repeat_mode: Some(self.repeat_mode),
            controls: Some(self.controls),
            cover_data: self.cover_data,
            cover_data_hash: self.cover_data_hash,
            position_report_time: self.last_known_position_report_time,
        }
    }

    /// The snapshot of this state without the cover art.
    pub open spec fn snapshot_without_cover(self, elapsed_ms: u64) -> InfoView {
        InfoView { cover_data: None, cover_data_hash: None, ..self.snapshot(elapsed_ms) }
    }
}

impl Default for SharedPlayerState {
    fn default() -> (state: Self)
        ensures
            state@ == PlayerView::blank(),
    {
        SharedPlayerState {
            title: String::new(),
            artist: String::new(),
            album: String::new(),
            song_duration_ms: 0,
            last_known_position_ms: 0,
            last_known_position_report_time: None,
            playback_status: PlaybackStatus::Stopped,
            controls: Controls::empty(),
            is_shuffle_active: false,
            repeat_mode: RepeatMode::Off,
            cover_data: None,
            cover_data_hash: None,
            is_waiting_for_initial_update: false,
            position_offset_ms: 0,
            apple_music_optimization_offset_ms: 0,
        }
    }
}

impl SharedPlayerState {
    /// Resets the player state. The user's position offset stays, and the state waits for the
    /// first update.
    pub fn reset_to_empty(&mut self)
        ensures
            final(self)@ == old(self)@.reset(),
    {
        let preserved_offset: i64 = self.position_offset_ms;
        *self = SharedPlayerState::default();
        self.position_offset_ms = preserved_offset;
        self.is_waiting_for_initial_update = true;
    }

    /// The milliseconds since the last position report; 0 where there was none.
    pub(crate) fn elapsed_since_report_ms(&self) -> (elapsed: u64)
        ensures
            exists|now: Instant| elapsed == #[trigger] self@.elapsed_at(now),
            self.last_known_position_report_time is None ==> elapsed == 0,
    {
        match self.last_known_position_report_time {
            Some(report_time) => {
                let elapsed: u64 = elapsed_ms(&report_time);
                proof {
                    let now = choose|now: Instant|
                        elapsed == #[trigger] crate::clock::millis_between(report_time, now);
                    assert(elapsed == self@.elapsed_at(now));
                }
                elapsed
            },
            None => {
                assert(0 == self@.elapsed_at(arbitrary()));
                0
            },
        }
    }

    /// Estimates the playback position `elapsed` milliseconds after the last report.
    pub fn position_after_ms(&self, elapsed: u64) -> (position: u64)
        ensures
            position == self@.estimated_position(elapsed),
    {
        let base: u64 = if self.playback_status == PlaybackStatus::Playing
            && self.last_known_position_report_time.is_some() {
            sum_unsigned(self.last_known_position_ms, elapsed)
        } else {
            self.last_known_position_ms
        };
        let total_offset: i64 = sum_signed(
            self.apple_music_optimization_offset_ms,
            self.position_offset_ms,
        );
        let shifted: i64 = sum_signed(as_signed(base), total_offset);
        proof {
            let advanced = self@.advanced_position(elapsed);
            let offsets = self.apple_music_optimization_offset_ms + self.position_offset_ms;
            assert(crate::clock::signed64(base as int) == crate::clock::signed64(advanced));
            crate::clock::lemma_signed64_sum(advanced, offsets);
        }
        let position: u64 = if shifted < 0 {
            0
        } else {
            shifted as u64
        };
        if self.song_duration_ms > 0 && position > self.song_duration_ms {
            return self.song_duration_ms;
        }
        position
    }

    /// Estimates the playback position now, by the time since the last report. Which point in
    /// time is the present is up to the clock.
    pub fn get_estimated_current_position_ms(&self) -> (position: u64)
        ensures
            exists|now: Instant|
                position == self@.estimated_position(#[trigger] self@.elapsed_at(now)),
            !self@.is_advancing() ==> position == self@.estimated_position(0),
    {
        let elapsed: u64 = self.elapsed_since_report_ms();
        self.position_after_ms(elapsed)
    }

    /// A snapshot of this state, `elapsed` milliseconds after the last position report.
    pub fn snapshot_after_ms(&self, elapsed: u64) -> (info: NowPlayingInfo)
        ensures
            info@ == self@.snapshot(elapsed),
    {
        NowPlayingInfo {
            title: Some(self.title.clone()),
            artist: Some(self.artist.clone()),
            album_title: Some(self.album.clone()),
            duration_ms: Some(self.song_duration_ms),
            position_ms: Some(self.position_after_ms(elapsed)),
            smtc_position_ms: Some(self.last_known_position_ms),
            playback_status: Some(self.playback_status),
            is_shuffle_active: Some(self.is_shuffle_active),
            repeat_mode: Some(self.repeat_mode),
            controls: Some(self.controls),
            cover_data: copy_bytes(&self.cover_data),
            cover_data_hash: self.cover_data_hash,
            position_report_time: self.last_known_position_report_time,
        }
    }

    /// A snapshot without the cover art, `elapsed` milliseconds after the last position report.
    pub fn snapshot_without_cover_after_ms(&self, elapsed: u64) -> (info: NowPlayingInfo)
        ensures
            info@ == self@.snapshot_without_cover(elapsed),
    {
        let mut info: NowPlayingInfo = self.snapshot_after_ms(elapsed);
        info.cover_data = None;
        info.cover_data_hash = None;
        info
    }
}

/// Copies an optional block of data.
pub fn copy_bytes(data: &Option<Vec<u8>>) -> (copy: Option<Vec<u8>>)
    ensures
        bytes_of(copy) == bytes_of(*data),
{
    match data {
        Some(bytes) => {
            let copied: Vec<u8> = bytes.clone();
            assert(copied@ =~= bytes@);
            Some(copied)
        },
        None => None,
    }
}

/// Copies an optional text.
pub fn copy_text(text: &Option<String>) -> (copy: Option<String>)
    ensures
        text_of(copy) == text_of(*text),
{
    match text {
        Some(s) => Some(s.clone()),
        None => None,
    }
}

/// A snapshot of all information about the currently playing track.
#[derive(Debug, Clone, PartialEq, Eq)]
pub struct NowPlayingInfo {
    /// The track title.
    pub title: Option<String>,
    /// The artist's name.
    pub artist: Option<String>,
    /// The album title.
    pub album_title: Option<String>,
    /// Total duration of the track in milliseconds.
    pub duration_ms: Option<u64>,
    /// Estimated playback position in milliseconds.
    pub position_ms: Option<u64>,
    /// The playback position in milliseconds as it was reported.
    pub smtc_position_ms: Option<u64>,
    /// The current playback status.
    pub playback_status: Option<PlaybackStatus>,
    /// Whether shuffle mode is currently active.
    pub is_shuffle_active: Option<bool>,
    /// The current repeat mode.
    pub repeat_mode: Option<RepeatMode>,
    /// The control options supported by the current media source.
    pub controls: Option<Controls>,
    /// The raw byte data of the cover art.
    pub cover_data: Option<Vec<u8>>,
    /// A hash of the cover art data.
    pub cover_data_hash: Option<u64>,
    /// When the playback position was last reported.
    pub position_report_time: Option<Instant>,
}

/// The contents of a `NowPlayingInfo`.
#[verifier::ext_equal]
pub struct InfoView {
    pub title: Option<Seq<char>>,
    pub artist: Option<Seq<char>>,
    pub album_title: Option<Seq<char>>,
    pub duration_ms: Option<u64>,
    pub position_ms: Option<u64>,
    pub smtc_position_ms: Option<u64>,
    pub playback_status: Option<PlaybackStatus>,
    pub is_shuffle_active: Option<bool>,
    pub repeat_mode: Option<RepeatMode>,
    pub controls: Option<Controls>,
    pub cover_data: Option<Seq<u8>>,
    pub cover_data_hash: Option<u64>,
    pub position_report_time: Option<Instant>,
}

impl View for NowPlayingInfo {
    type V = InfoView;

    open spec fn view(&self) -> InfoView {
        InfoView {
            title: text_of(self.title),
            artist: text_of(self.artist),
            album_title: text_of(self.album_title),
            duration_ms: self.duration_ms,
            position_ms: self.position_ms,
            smtc_position_ms: self.smtc_position_ms,
            playback_status: self.playback_status,
            is_shuffle_active: self.is_shuffle_active,
            repeat_mode: self.repeat_mode,
            controls: self.controls,
            cover_data: bytes_of(self.cover_data),
            cover_data_hash: self.cover_data_hash,
            position_report_time: self.position_report_time,
        }
    }
}

/// The newer value where there is one, else the older.
pub open spec fn newer_of<T>(newer: Option<T>, older: Option<T>) -> Option<T> {
    if newer is Some {
        newer
    } else {
        older
    }
}

impl InfoView {
    /// The information of which nothing is known.
    pub open spec fn blank() -> InfoView {
        InfoView {
            title: None,
            artist: None,
            album_title: None,
            duration_ms: None,
            position_ms: None,
            smtc_position_ms: None,
            playback_status: None,
            is_shuffle_active: None,
            repeat_mode: None,
            controls: None,
            cover_data: None,
            cover_data_hash: None,
            position_report_time: None,
        }
    }

    /// This information with every field replaced that `other` has a value for. New cover art
    /// brings its own hash, so that no hash of an earlier cover stays behind.
    pub open spec fn updated_with(self, other: InfoView) -> InfoView {
        InfoView {
            title: newer_of(other.title, self.title),
            artist: newer_of(other.artist, self.artist),
            album_title: newer_of(other.album_title, self.album_title),
            duration_ms: newer_of(other.duration_ms, self.duration_ms),
            position_ms: newer_of(other.position_ms, self.position_ms),
            smtc_position_ms: newer_of(other.smtc_position_ms, self.smtc_position_ms),
            playback_status: newer_of(other.playback_status, self.playback_status),
            is_shuffle_active: newer_of(other.is_shuffle_active, self.is_shuffle_active),
            repeat_mode: newer_of(other.repeat_mode, self.repeat_mode),
            controls: newer_of(other.controls, self.controls),
            cover_data: newer_of(other.cover_data, self.cover_data),
            cover_data_hash: if other.cover_data is Some {
                other.cover_data_hash
            } else {
                newer_of(other.cover_data_hash, self.cover_data_hash)
            },
            position_report_time: newer_of(other.position_report_time, self.position_report_time),
        }
    }
}

impl Default for NowPlayingInfo {
    fn default() -> (info: Self)
        ensures
            info@ == InfoView::blank(),
    {
        NowPlayingInfo {
            title: None,
            artist: None,
            album_title: None,
            duration_ms: None,
            position_ms: None,
            smtc_position_ms: None,
            playback_status: None,
            is_shuffle_active: None,
            repeat_mode: None,
            controls: None,
            cover_data: None,
            cover_data_hash: None,
            position_report_time: None,
        }
    }
}

impl NowPlayingInfo {
    /// Updates this information with the fields of another one that hold a value.
    pub fn update_with(&mut self, other: &Self)
        ensures
            final(self)@ == old(self)@.updated_with(other@),
    {
        if other.title.is_some() {
            self.title = copy_text(&other.title);
        }
        if other.artist.is_some() {
            self.artist = copy_text(&other.artist);
        }
        if other.album_title.is_some() {
            self.album_title = copy_text(&other.album_title);
        }
        if other.duration_ms.is_some() {
            self.duration_ms = other.duration_ms;
        }
        if other.position_ms.is_some() {
            self.position_ms = other.position_ms;
        }
        if other.smtc_position_ms.is_some() {
            self.smtc_position_ms = other.smtc_position_ms;
        }
        if other.playback_status.is_some() {
            self.playback_status = other.playback_status;
        }
        if other.is_shuffle_active.is_some() {
            self.is_shuffle_active = other.is_shuffle_active;
        }
        if other.repeat_mode.is_some() {
            self.repeat_mode = other.repeat_mode;
        }
        if other.controls.is_some() {
            self.controls = other.controls;
        }
        if other.cover_data.is_some() {
            self.cover_data = copy_bytes(&other.cover_data);
            self.cover_data_hash = other.cover_data_hash;
        } else if other.cover_data_hash.is_some() {
            self.cover_data_hash = other.cover_data_hash;
        }
        if other.position_report_time.is_some() {
            self.position_report_time = other.position_report_time;
        }
    }
}

impl SharedPlayerState {
    /// A snapshot of this state now, with or without the cover art. Which point in time is the
    /// present is up to the clock.
    pub fn snapshot(&self, with_cover: bool) -> (info: NowPlayingInfo)
        ensures
            with_cover ==> exists|now: Instant|
                info@ == self@.snapshot(#[trigger] self@.elapsed_at(now)),
            !with_cover ==> exists|now: Instant|
                info@ == self@.snapshot_without_cover(#[trigger] self@.elapsed_at(now)),
            with_cover && !self@.is_advancing() ==> info@ == self@.snapshot(0),
            !with_cover && !self@.is_advancing() ==> info@ == self@.snapshot_without_cover(0),
    {
        let elapsed: u64 = self.elapsed_since_report_ms();
        if with_cover {
            self.snapshot_after_ms(elapsed)
        } else {
            self.snapshot_without_cover_after_ms(elapsed)
        }
    }
}

impl<'a> From<&'a SharedPlayerState> for NowPlayingInfo {
    fn from(state: &'a SharedPlayerState) -> (info: Self)
        ensures
            exists|now: Instant| info@ == state@.snapshot(#[trigger] state@.elapsed_at(now)),
            !state@.is_advancing() ==> info@ == state@.snapshot(0),
    {
        state.snapshot(true)
    }
}

impl<'a> vstd::std_specs::convert::FromSpecImpl<&'a SharedPlayerState> for NowPlayingInfo {
    open spec fn obeys_from_spec() -> bool {
        false
    }

    open spec fn from_spec(state: &'a SharedPlayerState) -> Self {
        arbitrary()
    }
}

/// An available media session.
#[derive(Debug, Clone, PartialEq, Eq, Hash)]
pub struct SmtcSessionInfo {
    /// A unique identifier for the session.
    pub session_id: String,
    /// The application identifier of the source.
    pub source_app_user_model_id: String,
    /// The name to be displayed.
    pub display_name: String,
}

/// The contents of a `SmtcSessionInfo`.
#[verifier::ext_equal]
pub struct SessionInfoView {
    pub session_id: Seq<char>,
    pub source_app_user_model_id: Seq<char>,
    pub display_name: Seq<char>,
}

impl View for SmtcSessionInfo {
    type V = SessionInfoView;

    open spec fn view(&self) -> SessionInfoView {
        SessionInfoView {
            session_id: self.session_id@,
            source_app_user_model_id: self.source_app_user_model_id@,
            display_name: self.display_name@,
        }
    }
}

impl DeepView for SmtcSessionInfo {
    type V = SessionInfoView;

    open spec fn deep_view(&self) -> SessionInfoView {
        self@
    }
}

/// A volume level between 0 and 1, kept as the bits of a single-precision number.
#[derive(Debug, Clone, Copy, PartialEq, Eq, Structural)]
pub struct VolumeLevel {
    pub bits: u32,
}

/// The control actions that can be performed on a media session.
#[derive(Debug, Clone, Copy, PartialEq, Eq, Structural)]
pub enum SmtcControlCommand {
    /// Pauses playback.
    Pause,
    /// Starts or resumes playback.
    Play,
    /// Skips to the next track.
    SkipNext,
    /// Skips to the previous track.
    SkipPrevious,
    /// Seeks to a specific time point (in milliseconds).
    SeekTo(u64),
    /// Sets the volume.
    SetVolume(VolumeLevel),
    /// Sets the shuffle mode.
    SetShuffle(bool),
    /// Sets the repeat mode.
    SetRepeatMode(RepeatMode),
}

/// The tag of a control command that comes from C.
#[derive(Debug, Clone, Copy, PartialEq, Eq, Structural)]
pub enum CControlCommandType {
    Pause,
    Play,
    SkipNext,
    SkipPrevious,
    SeekTo,
    SetVolume,
    SetShuffle,
    SetRepeatMode,
}

/// A repeat mode that comes from C.
#[derive(Debug, Clone, Copy, PartialEq, Eq, Structural)]
pub enum CRepeatMode {
    Off,
    One,
    All,
}

/// What the data of a control command from C means, member by member. Only the member that
/// belongs to the tag of the command counts.
#[derive(Debug, Clone, Copy, PartialEq, Eq, Structural)]
pub struct ControlCommandData {
    pub seek_to_ms: u64,
    pub volume_level: VolumeLevel,
    pub is_shuffle_active: bool,
    pub repeat_mode: CRepeatMode,
}

/// A control command that comes from C.
#[derive(Debug, Clone, Copy, PartialEq, Eq, Structural)]
pub struct CSmtcControlCommand {
    /// The type of the command.
    pub command_type: CControlCommandType,
    /// The data associated with the command.
    pub data: ControlCommandData,
}

/// A text conversion mode that comes from C.
#[derive(Debug, Clone, Copy, PartialEq, Eq, Structural)]
pub enum CTextConversionMode {
    /// No conversion.
    Off,
    /// Traditional to Simplified (t2s.json).
    TraditionalToSimplified,
    /// Simplified to Traditional (s2t.json).
    SimplifiedToTraditional,
    /// Simplified to Taiwan Standard (s2tw.json).
    SimplifiedToTaiwan,
    /// Taiwan Standard to Simplified (tw2s.json).
    TaiwanToSimplified,
    /// Simplified to Hong Kong Traditional (s2hk.json).
    SimplifiedToHongKong,
    /// Hong Kong Traditional to Simplified (hk2s.json).
    HongKongToSimplified,
}

/// The repeat mode that a mode from C stands for.
pub open spec fn repeat_mode_of(c_mode: CRepeatMode) -> RepeatMode {
    match c_mode {
        CRepeatMode::Off => RepeatMode::Off,
        CRepeatMode::One => RepeatMode::One,
        CRepeatMode::All => RepeatMode::All,
    }
}

impl From<CRepeatMode> for RepeatMode {
    fn from(c_mode: CRepeatMode) -> (mode: Self) {
        match c_mode {
            CRepeatMode::Off => RepeatMode::Off,
            CRepeatMode::One => RepeatMode::One,
            CRepeatMode::All => RepeatMode::All,
        }
    }
}

impl vstd::std_specs::convert::FromSpecImpl<CRepeatMode> for RepeatMode {
    open spec fn obeys_from_spec() -> bool {
        true
    }

    open spec fn from_spec(c_mode: CRepeatMode) -> Self {
        repeat_mode_of(c_mode)
    }
}

/// The text conversion mode that a mode from C stands for.
pub open spec fn text_conversion_mode_of(c_mode: CTextConversionMode) -> TextConversionMode {
    match c_mode {
        CTextConversionMode::Off => TextConversionMode::Off,
        CTextConversionMode::TraditionalToSimplified => TextConversionMode::TraditionalToSimplified,
        CTextConversionMode::SimplifiedToTraditional => TextConversionMode::SimplifiedToTraditional,
        CTextConversionMode::SimplifiedToTaiwan => TextConversionMode::SimplifiedToTaiwan,
        CTextConversionMode::TaiwanToSimplified => TextConversionMode::TaiwanToSimplified,
        CTextConversionMode::SimplifiedToHongKong => TextConversionMode::SimplifiedToHongKong,
        CTextConversionMode::HongKongToSimplified => TextConversionMode::HongKongToSimplified,
    }
}

impl From<CTextConversionMode> for TextConversionMode {
    fn from(c_mode: CTextConversionMode) -> (mode: Self) {
        match c_mode {
            CTextConversionMode::Off => TextConversionMode::Off,
            CTextConversionMode::TraditionalToSimplified =>
                TextConversionMode::TraditionalToSimplified,
            CTextConversionMode::SimplifiedToTraditional =>
                TextConversionMode::SimplifiedToTraditional,
            CTextConversionMode::SimplifiedToTaiwan => TextConversionMode::SimplifiedToTaiwan,
            CTextConversionMode::TaiwanToSimplified => TextConversionMode::TaiwanToSimplified,
            CTextConversionMode::SimplifiedToHongKong => TextConversionMode::SimplifiedToHongKong,
            CTextConversionMode::HongKongToSimplified => TextConversionMode::HongKongToSimplified,
        }
    }
}

impl vstd::std_specs::convert::FromSpecImpl<CTextConversionMode> for TextConversionMode {
    open spec fn obeys_from_spec() -> bool {
        true
    }

    open spec fn from_spec(c_mode: CTextConversionMode) -> Self {
        text_conversion_mode_of(c_mode)
    }
}

/// Commands sent to the background service.
#[derive(Debug, Clone)]
pub enum MediaCommand {
    /// Selects and starts listening to a specific media session, named by its identifier.
    SelectSession(String),
    /// Executes a media control action on the currently monitored session.
    Control(SmtcControlCommand),
    /// Starts capturing system audio output.
    StartAudioCapture,
    /// Stops capturing system audio output.
    StopAudioCapture,
    /// Sets the text conversion mode for track information.
    SetTextConversion(TextConversionMode),
    /// Requests an update of the session list and of the current track.
    RequestUpdate,
    /// Enables or disables high-frequency progress updates.
    SetHighFrequencyProgressUpdates(bool),
    /// Sets an offset for the current playback position in milliseconds.
    SetProgressOffset(i64),
    /// Enables or disables the optimizations for Apple Music, which only take effect where the
    /// current session is Apple Music: an album that is merged into the artist is split off, and
    /// the timeline is shifted. They are enabled by default.
    SetAppleMusicOptimization(bool),
    /// Requests to shut down the service.
    Shutdown,
}

/// The contents of a `MediaCommand`.
pub enum MediaCommandView {
    SelectSession(Seq<char>),
    Control(SmtcControlCommand),
    StartAudioCapture,
    StopAudioCapture,
    SetTextConversion(TextConversionMode),
    RequestUpdate,
    SetHighFrequencyProgressUpdates(bool),
    SetProgressOffset(i64),
    SetAppleMusicOptimization(bool),
    Shutdown,
}

impl View for MediaCommand {
    type V = MediaCommandView;

    open spec fn view(&self) -> MediaCommandView {
        match *self {
            MediaCommand::SelectSession(id) => MediaCommandView::SelectSession(id@),
            MediaCommand::Control(command) => MediaCommandView::Control(command),
            MediaCommand::StartAudioCapture => MediaCommandView::StartAudioCapture,
            MediaCommand::StopAudioCapture => MediaCommandView::StopAudioCapture,
            MediaCommand::SetTextConversion(mode) => MediaCommandView::SetTextConversion(mode),
            MediaCommand::RequestUpdate => MediaCommandView::RequestUpdate,
            MediaCommand::SetHighFrequencyProgressUpdates(on) =>
                MediaCommandView::SetHighFrequencyProgressUpdates(on),
            MediaCommand::SetProgressOffset(offset) => MediaCommandView::SetProgressOffset(offset),
            MediaCommand::SetAppleMusicOptimization(on) =>
                MediaCommandView::SetAppleMusicOptimization(on),
            MediaCommand::Shutdown => MediaCommandView::Shutdown,
        }
    }
}

/// Events and state updates that the background service sends.
#[derive(Debug, Clone)]
pub enum MediaUpdate {
    /// The media state has changed.
    TrackChanged(NowPlayingInfo),
    /// The list of available media sessions has been updated.
    SessionsChanged(Vec<SmtcSessionInfo>),
    /// An audio data packet has been received.
    AudioData(Vec<u8>),
    /// A non-fatal runtime error.
    Error(String),
    /// A non-fatal runtime diagnostic message.
    Diagnostic(DiagnosticInfo),
    /// The volume or mute state of a specific session has changed.
    VolumeChanged {
        /// The ID of the session that changed.
        session_id: String,
        /// The new volume level.
        volume: VolumeLevel,
        /// The new mute state.
        is_muted: bool,
    },
    /// The previously selected session has disappeared.
    SelectedSessionVanished(String),
}

/// The contents of a `MediaUpdate`.
pub enum MediaUpdateView {
    TrackChanged(InfoView),
    SessionsChanged(Seq<SessionInfoView>),
    AudioData(Seq<u8>),
    Error(Seq<char>),
    Diagnostic(DiagnosticView),
    VolumeChanged { session_id: Seq<char>, volume: VolumeLevel, is_muted: bool },
    SelectedSessionVanished(Seq<char>),
}

impl View for MediaUpdate {
    type V = MediaUpdateView;

    open spec fn view(&self) -> MediaUpdateView {
        match *self {
            MediaUpdate::TrackChanged(info) => MediaUpdateView::TrackChanged(info@),
            MediaUpdate::SessionsChanged(list) => MediaUpdateView::SessionsChanged(
                list.deep_view(),
            ),
            MediaUpdate::AudioData(bytes) => MediaUpdateView::AudioData(bytes@),
            MediaUpdate::Error(message) => MediaUpdateView::Error(message@),
            MediaUpdate::Diagnostic(info) => MediaUpdateView::Diagnostic(info@),
            MediaUpdate::VolumeChanged { session_id, volume, is_muted } =>
                MediaUpdateView::VolumeChanged { session_id: session_id@, volume, is_muted },
            MediaUpdate::SelectedSessionVanished(id) => MediaUpdateView::SelectedSessionVanished(
                id@,
            ),
        }
    }
}

/// The severity level of a diagnostic message.
#[derive(Debug, Clone, Copy, PartialEq, Eq, Structural)]
pub enum DiagnosticLevel {
    Warning,
    Error,
}

/// A moment in Coordinated Universal Time: seconds since 1970, and nanoseconds since the last
/// whole second.
#[derive(Debug, Clone, Copy, PartialEq, Eq, Structural)]
pub struct UtcTimestamp {
    pub secs: i64,
    pub nanos: u32,
}

/// A diagnostic message.
#[derive(Debug, Clone)]
pub struct DiagnosticInfo {
    pub level: DiagnosticLevel,
    pub message: String,
    pub timestamp: UtcTimestamp,
}

/// The contents of a `DiagnosticInfo`.
#[verifier::ext_equal]
pub struct DiagnosticView {
    pub level: DiagnosticLevel,
    pub message: Seq<char>,
    pub timestamp: UtcTimestamp,
}

impl View for DiagnosticInfo {
    type V = DiagnosticView;

    open spec fn view(&self) -> DiagnosticView {
        DiagnosticView { level: self.level, message: self.message@, timestamp: self.timestamp }
    }
}

/// The estimated position never exceeds a known duration.
pub proof fn law_estimate_stays_within_song(state: PlayerView, elapsed: u64)
    requires
        state.song_duration_ms > 0,
    ensures
        0 <= state.estimated_position(elapsed) <= state.song_duration_ms,
{
}

/// The position does not advance unless playback is running.
pub proof fn law_position_stands_still(state: PlayerView, a: u64, b: u64)
    requires
        state.playback_status != PlaybackStatus::Playing,
    ensures
        state.estimated_position(a) == state.estimated_position(b),
{
}

/// While nothing overflows, time only moves the estimate forward, and never faster than the
/// clock.
pub proof fn law_estimate_follows_clock(state: PlayerView, a: u64, b: u64)
    requires
        a <= b,
        state.last_known_position_ms + b <= i64::MAX,
        i64::MIN <= state.last_known_position_ms + state.apple_music_optimization_offset_ms
            + state.position_offset_ms,
        state.last_known_position_ms + b + state.apple_music_optimization_offset_ms
            + state.position_offset_ms <= i64::MAX,
    ensures
        state.estimated_position(a) <= state.estimated_position(b),
        state.estimated_position(b) - state.estimated_position(a) <= b - a,
{
}

/// While nothing overflows, a larger user offset shows a later position, by at most the
/// difference of the offsets.
pub proof fn law_offset_shifts_estimate(state: PlayerView, offset: i64, elapsed: u64)
    requires
        state.position_offset_ms <= offset,
        i64::MIN <= state.advanced_position(elapsed) + state.apple_music_optimization_offset_ms
            + state.position_offset_ms,
        state.advanced_position(elapsed) + state.apple_music_optimization_offset_ms + offset
            <= i64::MAX,
    ensures
        ({
            let shifted = PlayerView { position_offset_ms: offset, ..state };
            let gain = shifted.estimated_position(elapsed) - state.estimated_position(elapsed);
            0 <= gain <= offset - state.position_offset_ms
        }),
{
}

/// While nothing overflows, the estimate is the reported position, moved on by the clock while
/// playback runs, with both offsets, not below zero and not above a known duration.
pub proof fn law_estimate_adds_up(state: PlayerView, elapsed: u64)
    requires
        i64::MIN <= state.advanced_position(elapsed) + state.apple_music_optimization_offset_ms
            + state.position_offset_ms <= i64::MAX,
    ensures
        ({
            let sum = state.advanced_position(elapsed) + state.apple_music_optimization_offset_ms
                + state.position_offset_ms;
            let position = if sum < 0 {
                0
            } else {
                sum
            };
            state.estimated_position(elapsed) == if state.song_duration_ms > 0 && position
                > state.song_duration_ms {
                state.song_duration_ms as int
            } else {
                position
            }
        }),
{
}

/// A snapshot shows the position that is estimated at the same instant, and everything else as
/// the state has it.
pub proof fn law_snapshot_shows_state(state: PlayerView, elapsed: u64)
    ensures
        ({
            let info = state.snapshot(elapsed);
            &&& info.position_ms matches Some(ms) && ms == state.estimated_position(elapsed)
            &&& info.smtc_position_ms == Some(state.last_known_position_ms)
            &&& info.title == Some(state.title)
            &&& info.artist == Some(state.artist)
            &&& info.album_title == Some(state.album)
            &&& info.duration_ms == Some(state.song_duration_ms)
            &&& info.playback_status == Some(state.playback_status)
            &&& info.is_shuffle_active == Some(state.is_shuffle_active)
            &&& info.repeat_mode == Some(state.repeat_mode)
            &&& info.controls == Some(state.controls)
            &&& info.cover_data == state.cover_data
            &&& info.cover_data_hash == state.cover_data_hash
            &&& info.position_report_time == state.last_known_position_report_time
        }),
{
}

/// Resetting keeps the user's offset, forgets everything else, and does no more when repeated.
pub proof fn law_reset_keeps_user_offset(state: PlayerView)
    ensures
        state.reset().position_offset_ms == state.position_offset_ms,
        state.reset().is_waiting_for_initial_update,
        state.reset().reset() == state.reset(),
        forall|other: PlayerView|
            other.position_offset_ms == state.position_offset_ms ==> #[trigger] other.reset()
                == state.reset(),
{
}

/// Information about nothing changes nothing, and updating twice is the same as updating once.
pub proof fn law_update_is_idempotent(info: InfoView, other: InfoView)
    ensures
        info.updated_with(InfoView::blank()) == info,
        info.updated_with(other).updated_with(other) == info.updated_with(other),
        InfoView::blank().updated_with(other) == other,
{
}

/// After an update every field that the newer information has a value for holds that value.
pub proof fn law_update_takes_newer_values(info: InfoView, other: InfoView)
    ensures
        ({
            let updated = info.updated_with(other);
            &&& other.title is Some ==> updated.title == other.title
            &&& other.artist is Some ==> updated.artist == other.artist
            &&& other.album_title is Some ==> updated.album_title == other.album_title
            &&& other.duration_ms is Some ==> updated.duration_ms == other.duration_ms
            &&& other.position_ms is Some ==> updated.position_ms == other.position_ms
            &&& other.smtc_position_ms is Some ==> updated.smtc_position_ms
                == other.smtc_position_ms
            &&& other.playback_status is Some ==> updated.playback_status == other.playback_status
            &&& other.is_shuffle_active is Some ==> updated.is_shuffle_active
                == other.is_shuffle_active
            &&& other.repeat_mode is Some ==> updated.repeat_mode == other.repeat_mode
            &&& other.controls is Some ==> updated.controls == other.controls
            &&& other.cover_data is Some ==> updated.cover_data == other.cover_data
            &&& other.cover_data_hash is Some ==> updated.cover_data_hash == other.cover_data_hash
            &&& other.position_report_time is Some ==> updated.position_report_time
                == other.position_report_time
        }),
{
}

/// A client that applies a snapshot to what it knew holds the metadata, the position and the
/// playback state of that snapshot; cover art that the snapshot leaves out stays.
pub proof fn law_snapshot_replaces_state(info: InfoView, state: PlayerView, elapsed: u64)
    ensures
        ({
            let updated = info.updated_with(state.snapshot_without_cover(elapsed));
            &&& updated.title == Some(state.title)
            &&& updated.artist == Some(state.artist)
            &&& updated.album_title == Some(state.album)
            &&& updated.position_ms == Some(state.estimated_position(elapsed) as u64)
            &&& updated.playback_status == Some(state.playback_status)
            &&& updated.cover_data == info.cover_data
            &&& updated.cover_data_hash == info.cover_data_hash
        }),
{
}

/// While nothing overflows, the estimate starts from the reported position, moves on by the time
/// since the report only while playback runs and there was a report, shifts by both offsets, and
/// stops at zero and at a known end.
pub proof fn law_estimate_starts_from_report(state: PlayerView, elapsed: u64, sum: int)
    requires
        sum == state.last_known_position_ms + (if state.playback_status == PlaybackStatus::Playing
            && state.last_known_position_report_time is Some {
            elapsed as int
        } else {
            0
        }) + state.apple_music_optimization_offset_ms + state.position_offset_ms,
        i64::MIN <= sum <= i64::MAX,
    ensures
        sum < 0 ==> state.estimated_position(elapsed) == 0,
        sum >= 0 && (state.song_duration_ms == 0 || sum <= state.song_duration_ms)
            ==> state.estimated_position(elapsed) == sum,
        state.song_duration_ms > 0 && sum > state.song_duration_ms ==> state.estimated_position(
            elapsed,
        ) == state.song_duration_ms,
{
}

/// The time that has passed is counted from the last report, and is none where there was none.
pub proof fn law_elapsed_counts_from_report(state: PlayerView, since: Instant, now: Instant)
    ensures
        state.last_known_position_report_time == Some(since) ==> state.elapsed_at(now)
            == crate::clock::whole_millis(crate::clock::time_between(since, now)) as int
            % 0x1_0000_0000_0000_0000,
        state.last_known_position_report_time is None ==> state.elapsed_at(now) == 0,
{
}

/// After a reset nothing is known of a track, its playback or its cover art.
pub proof fn law_reset_forgets_track(state: PlayerView)
    ensures
        ({
            let blank = state.reset();
            &&& blank.title.len() == 0 && blank.artist.len() == 0 && blank.album.len() == 0
            &&& blank.song_duration_ms == 0 && blank.last_known_position_ms == 0
            &&& blank.last_known_position_report_time is None
            &&& blank.playback_status == PlaybackStatus::Stopped
            &&& blank.controls.bits == 0 && !blank.is_shuffle_active
            &&& blank.repeat_mode == RepeatMode::Off
            &&& blank.cover_data is None && blank.cover_data_hash is None
            &&& blank.apple_music_optimization_offset_ms == 0
            &&& blank.is_waiting_for_initial_update
            &&& blank.position_offset_ms == state.position_offset_ms
        }),
{
}

/// A state of which nothing was reported waits for nothing and has no offset.
pub proof fn law_blank_state_is_blank()
    ensures
        ({
            let blank = PlayerView::blank();
            &&& blank.title.len() == 0 && blank.artist.len() == 0 && blank.album.len() == 0
            &&& blank.song_duration_ms == 0 && blank.last_known_position_ms == 0
            &&& blank.last_known_position_report_time is None
            &&& blank.playback_status == PlaybackStatus::Stopped
            &&& blank.controls.bits == 0 && !blank.is_shuffle_active
            &&& blank.repeat_mode == RepeatMode::Off
            &&& blank.cover_data is None && blank.cover_data_hash is None
            &&& blank.apple_music_optimization_offset_ms == 0 && blank.position_offset_ms == 0
            &&& !blank.is_waiting_for_initial_update
        }),
{
}

/// After an update every field that the newer information says nothing of holds what it held; the
/// hash of new cover art replaces that of the old even where there is none.
pub proof fn law_update_keeps_older_values(info: InfoView, other: InfoView)
    ensures
        ({
            let updated = info.updated_with(other);
            &&& other.title is None ==> updated.title == info.title
            &&& other.artist is None ==> updated.artist == info.artist
            &&& other.album_title is None ==> updated.album_title == info.album_title
            &&& other.duration_ms is None ==> updated.duration_ms == info.duration_ms
            &&& other.position_ms is None ==> updated.position_ms == info.position_ms
            &&& other.smtc_position_ms is None ==> updated.smtc_position_ms == info.smtc_position_ms
            &&& other.playback_status is None ==> updated.playback_status == info.playback_status
            &&& other.is_shuffle_active is None ==> updated.is_shuffle_active
                == info.is_shuffle_active
            &&& other.repeat_mode is None ==> updated.repeat_mode == info.repeat_mode
            &&& other.controls is None ==> updated.controls == info.controls
            &&& other.cover_data is None ==> updated.cover_data == info.cover_data
            &&& other.cover_data is None && other.cover_data_hash is None
                ==> updated.cover_data_hash == info.cover_data_hash
            &&& other.cover_data is Some ==> updated.cover_data_hash == other.cover_data_hash
            &&& other.position_report_time is None ==> updated.position_report_time
                == info.position_report_time
        }),
{
}

/// A snapshot without cover art lacks nothing else.
pub proof fn law_bare_snapshot_lacks_only_cover(state: PlayerView, elapsed: u64)
    ensures
        ({
            let bare = state.snapshot_without_cover(elapsed);
            let full = state.snapshot(elapsed);
            &&& bare.cover_data is None && bare.cover_data_hash is None
            &&& bare.title == full.title && bare.artist == full.artist
            &&& bare.album_title == full.album_title && bare.duration_ms == full.duration_ms
            &&& bare.position_ms == full.position_ms
            &&& bare.smtc_position_ms == full.smtc_position_ms
            &&& bare.playback_status == full.playback_status
            &&& bare.is_shuffle_active == full.is_shuffle_active
            &&& bare.repeat_mode == full.repeat_mode && bare.controls == full.controls
            &&& bare.position_report_time == full.position_report_time
        }),
{
}

/// Operations that were made available are, and the others stay as they were.
pub proof fn law_inserted_operations_are_available(
    before: Controls,
    after: Controls,
    flags: u8,
    other: u8,
)
    requires
        after.bits == before.bits | flags,
    ensures
        after.has(flags),
        other & flags == 0 ==> after.has(other) == before.has(other),
        before.bits == 0 && flags != 0 ==> !before.has(flags),
{
    let bits = before.bits;
    assert((bits | flags) & flags == flags) by (bit_vector);
    assert(other & flags == 0 ==> ((bits | flags) & other == other <==> bits & other == other))
        by (bit_vector);
    assert(0u8 & flags == 0) by (bit_vector);
}

/// Every operation has a bit of its own.
pub proof fn law_operations_have_their_bits()
    ensures
        CAN_PLAY == 1 && CAN_PAUSE == 2 && CAN_SKIP_NEXT == 4 && CAN_SKIP_PREVIOUS == 8
            && CAN_SEEK == 16 && CAN_CHANGE_SHUFFLE == 32 && CAN_CHANGE_REPEAT == 64,
{
}

/// A mode from C means what its name says.
pub proof fn law_modes_from_c_keep_their_meaning()
    ensures
        repeat_mode_of(CRepeatMode::Off) == RepeatMode::Off,
        repeat_mode_of(CRepeatMode::One) == RepeatMode::One,
        repeat_mode_of(CRepeatMode::All) == RepeatMode::All,
        text_conversion_mode_of(CTextConversionMode::Off) == TextConversionMode::Off,
        text_conversion_mode_of(CTextConversionMode::TraditionalToSimplified)
            == TextConversionMode::TraditionalToSimplified,
        text_conversion_mode_of(CTextConversionMode::SimplifiedToTraditional)
            == TextConversionMode::SimplifiedToTraditional,
        text_conversion_mode_of(CTextConversionMode::SimplifiedToTaiwan)
            == TextConversionMode::SimplifiedToTaiwan,
        text_conversion_mode_of(CTextConversionMode::TaiwanToSimplified)
            == TextConversionMode::TaiwanToSimplified,
        text_conversion_mode_of(CTextConversionMode::SimplifiedToHongKong)
            == TextConversionMode::SimplifiedToHongKong,
        text_conversion_mode_of(CTextConversionMode::HongKongToSimplified)
            == TextConversionMode::HongKongToSimplified,
{
}

/// Where position and offsets together do not fit 64 signed bits, they wrap round, and the
/// estimate is made from what is left.
pub proof fn law_estimate_wraps_round(state: PlayerView, elapsed: u64, sum: int, wrapped: int)
    requires
        sum == state.last_known_position_ms + (if state.playback_status == PlaybackStatus::Playing
            && state.last_known_position_report_time is Some {
            elapsed as int
        } else {
            0
        }) + state.apple_music_optimization_offset_ms + state.position_offset_ms,
        i64::MIN <= wrapped <= i64::MAX,
        (sum - wrapped) % 0x1_0000_0000_0000_0000 == 0,
    ensures
        wrapped < 0 ==> state.estimated_position(elapsed) == 0,
        wrapped >= 0 && (state.song_duration_ms == 0 || wrapped <= state.song_duration_ms)
            ==> state.estimated_position(elapsed) == wrapped,
        state.song_duration_ms > 0 && wrapped > state.song_duration_ms
            ==> state.estimated_position(elapsed) == state.song_duration_ms,
{
}

/// Several operations are available exactly where each of them is, and one by its own bit.
pub proof fn law_available_operations_have_their_bit(controls: Controls, a: u8, b: u8)
    ensures
        controls.has(a | b) <==> controls.has(a) && controls.has(b),
        controls.has(1) <==> controls.bits % 2 == 1,
        controls.has(2) <==> (controls.bits / 2) % 2 == 1,
        controls.has(4) <==> (controls.bits / 4) % 2 == 1,
        controls.has(8) <==> (controls.bits / 8) % 2 == 1,
        controls.has(16) <==> (controls.bits / 16) % 2 == 1,
        controls.has(32) <==> (controls.bits / 32) % 2 == 1,
        controls.has(64) <==> (controls.bits / 64) % 2 == 1,
{
    let bits = controls.bits;
    assert(bits & (a | b) == a | b <==> bits & a == a && bits & b == b) by (bit_vector);
    assert((bits & 1 == 1 <==> bits % 2 == 1) && (bits & 2 == 2 <==> (bits / 2) % 2 == 1) && (bits
        & 4 == 4 <==> (bits / 4) % 2 == 1) && (bits & 8 == 8 <==> (bits / 8) % 2 == 1) && (bits & 16
        == 16 <==> (bits / 16) % 2 == 1) && (bits & 32 == 32 <==> (bits / 32) % 2 == 1) && (bits
        & 64 == 64 <==> (bits / 64) % 2 == 1)) by (bit_vector);
}

/// Of blank information nothing is known, and it takes over whatever is: an update with it changes
/// nothing.
pub proof fn law_blank_information_says_nothing(info: InfoView)
    ensures
        ({
            let blank = InfoView::blank();
            &&& blank.title is None && blank.artist is None && blank.album_title is None
            &&& blank.duration_ms is None && blank.position_ms is None
            &&& blank.smtc_position_ms is None && blank.playback_status is None
            &&& blank.is_shuffle_active is None && blank.repeat_mode is None
            &&& blank.controls is None && blank.cover_data is None
            &&& blank.cover_data_hash is None && blank.position_report_time is None
            &&& info.updated_with(blank) == info
            &&& blank.updated_with(info) == info
        }),
{
}

} // verus!
