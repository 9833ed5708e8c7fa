//! Playback information and timelines: how they are read from what a media session reports, and
//! how they change the player state.
use crate::api::{
    Controls, PlaybackStatus, PlayerView, RepeatMode, SharedPlayerState, CAN_CHANGE_REPEAT,
    CAN_CHANGE_SHUFFLE, CAN_PAUSE, CAN_PLAY, CAN_SEEK, CAN_SKIP_NEXT, CAN_SKIP_PREVIOUS,
};
use crate::clock::{as_signed, difference_signed, sum_unsigned, ticks_to_ms};
use std::time::Instant;
use vstd::prelude::*;

verus! {

/// A report that differs from the estimate by more than this many milliseconds is a seek.
pub const SEEK_DETECTION_THRESHOLD_MS: u64 = 2000;

/// The code of a playing session.
pub const STATUS_PLAYING: i32 = 4;

/// The code of a paused session.
pub const STATUS_PAUSED: i32 = 5;

/// The code of a session that does not repeat.
pub const REPEAT_NONE: i32 = 0;

/// The code of a session that repeats the current track.
pub const REPEAT_TRACK: i32 = 1;

/// The code of a session that repeats its list.
pub const REPEAT_LIST: i32 = 2;

/// Which control operations a media session reports as enabled. One that could not be read is
/// missing.
#[derive(Debug, Clone, Copy, PartialEq, Eq, Structural)]
pub struct RawControls {
    pub play: Option<bool>,
    pub pause: Option<bool>,
    pub next: Option<bool>,
    pub previous: Option<bool>,
    pub position: Option<bool>,
    pub shuffle: Option<bool>,
    pub repeat: Option<bool>,
}

/// What a media session reports of its playback. What could not be read is missing.
#[derive(Debug, Clone, Copy, PartialEq, Eq, Structural)]
pub struct RawPlaybackInfo {
    pub status: Option<i32>,
    pub is_shuffle_active: Option<bool>,
    pub repeat_mode: Option<i32>,
    pub controls: Option<RawControls>,
}

/// The playback information of a session.
#[derive(Debug, Clone, Copy, PartialEq, Eq, Structural)]
pub struct PlaybackInfoUpdate {
    pub playback_status: PlaybackStatus,
    pub is_shuffle_active: bool,
    pub repeat_mode: RepeatMode,
    pub controls: Controls,
}

/// The playback status that a code stands for.
pub open spec fn status_of_code(code: i32) -> PlaybackStatus {
    if code == STATUS_PLAYING {
        PlaybackStatus::Playing
    } else if code == STATUS_PAUSED {
        PlaybackStatus::Paused
    } else {
        PlaybackStatus::Stopped
    }
}

/// The repeat mode that a code stands for; off where there is none.
pub open spec fn repeat_of_code(code: Option<i32>) -> RepeatMode {
    if code == Some(REPEAT_TRACK) {
        RepeatMode::One
    } else if code == Some(REPEAT_LIST) {
        RepeatMode::All
    } else {
        RepeatMode::Off
    }
}

/// The code that stands for a repeat mode.
pub open spec fn code_of_repeat(mode: RepeatMode) -> i32 {
    match mode {
        RepeatMode::Off => REPEAT_NONE,
        RepeatMode::One => REPEAT_TRACK,
        RepeatMode::All => REPEAT_LIST,
    }
}

/// The bits in `flag` where an operation is reported as enabled, else none.
pub open spec fn flag_if(enabled: Option<bool>, flag: u8) -> u8 {
    if enabled == Some(true) {
        flag
    } else {
        0
    }
}

/// The control operations that are reported as enabled.
pub open spec fn controls_of(raw: RawControls) -> Controls {
    Controls {
        bits: flag_if(raw.play, CAN_PLAY) | flag_if(raw.pause, CAN_PAUSE) | flag_if(
            raw.next,
            CAN_SKIP_NEXT,
        ) | flag_if(raw.previous, CAN_SKIP_PREVIOUS) | flag_if(raw.position, CAN_SEEK) | flag_if(
            raw.shuffle,
            CAN_CHANGE_SHUFFLE,
        ) | flag_if(raw.repeat, CAN_CHANGE_REPEAT),
    }
}

/// The playback information that a report amounts to; none where it lacks the status or the
/// controls.
pub open spec fn playback_info_of(raw: RawPlaybackInfo) -> Option<PlaybackInfoUpdate> {
    match (raw.status, raw.controls) {
        (Some(status), Some(controls)) => Some(
            PlaybackInfoUpdate {
                playback_status: status_of_code(status),
                is_shuffle_active: raw.is_shuffle_active == Some(true),
                repeat_mode: repeat_of_code(raw.repeat_mode),
                controls: controls_of(controls),
            },
        ),
        _ => None,
    }
}

/// Adds an operation to the controls where it is reported as enabled.
fn add_control(controls: &mut Controls, flag: u8, enabled: Option<bool>)
    ensures
        final(controls).bits == old(controls).bits | flag_if(enabled, flag),
{
    if let Some(true) = enabled {
        controls.insert(flag);
    } else {
        let bits: u8 = controls.bits;
        assert(bits | 0u8 == bits) by (bit_vector);
    }
}

/// Reads the control operations that are reported as enabled.
pub fn extract_controls(raw: &RawControls) -> (controls: Controls)
    ensures
        controls == controls_of(*raw),
{
    let mut controls: Controls = Controls::empty();
    proof {
        let bits: u8 = flag_if(raw.play, CAN_PLAY);
        assert(0u8 | bits == bits) by (bit_vector);
    }
    add_control(&mut controls, CAN_PLAY, raw.play);
    add_control(&mut controls, CAN_PAUSE, raw.pause);
    add_control(&mut controls, CAN_SKIP_NEXT, raw.next);
    add_control(&mut controls, CAN_SKIP_PREVIOUS, raw.previous);
    add_control(&mut controls, CAN_SEEK, raw.position);
    add_control(&mut controls, CAN_CHANGE_SHUFFLE, raw.shuffle);
    add_control(&mut controls, CAN_CHANGE_REPEAT, raw.repeat);
    controls
}

/// Reads the playback information of a session.
pub fn extract_playback_info(raw: &RawPlaybackInfo) -> (info: Option<PlaybackInfoUpdate>)
    ensures
        info == playback_info_of(*raw),
{
    let status: i32 = match raw.status {
        Some(code) => code,
        None => {
            return None;
        },
    };
    let playback_status: PlaybackStatus = if status == STATUS_PLAYING {
        PlaybackStatus::Playing
    } else if status == STATUS_PAUSED {
        PlaybackStatus::Paused
    } else {
        PlaybackStatus::Stopped
    };
    let is_shuffle_active: bool = match raw.is_shuffle_active {
        Some(active) => active,
        None => false,
    };
    let repeat_mode: RepeatMode = match raw.repeat_mode {
        Some(code) => if code == REPEAT_TRACK {
            RepeatMode::One
        } else if code == REPEAT_LIST {
            RepeatMode::All
        } else {
            RepeatMode::Off
        },
        None => RepeatMode::Off,
    };
    match &raw.controls {
        Some(c) => {
            let controls: Controls = extract_controls(c);
            Some(PlaybackInfoUpdate { playback_status, is_shuffle_active, repeat_mode, controls })
        },
        None => None,
    }
}

/// Finds the code that stands for a repeat mode.
pub fn repeat_mode_code(mode: RepeatMode) -> (code: i32)
    ensures
        code == code_of_repeat(mode),
{
    match mode {
        RepeatMode::Off => REPEAT_NONE,
        RepeatMode::One => REPEAT_TRACK,
        RepeatMode::All => REPEAT_LIST,
    }
}

/// The player state with the given playback information.
pub open spec fn player_with_playback(player: PlayerView, update: PlaybackInfoUpdate) -> PlayerView {
    PlayerView {
        playback_status: update.playback_status,
        is_shuffle_active: update.is_shuffle_active,
        repeat_mode: update.repeat_mode,
        controls: update.controls,
        ..player
    }
}

/// Takes playback information over into the player state.
pub fn apply_playback_info(player: &mut SharedPlayerState, update: &PlaybackInfoUpdate)
    ensures
        final(player)@ == player_with_playback(old(player)@, *update),
{
    player.playback_status = update.playback_status;
    player.is_shuffle_active = update.is_shuffle_active;
    player.repeat_mode = update.repeat_mode;
    player.controls = update.controls;
}

/// What a media session reports of its timeline, in units of 100 nanoseconds. What could not be
/// read is missing.
#[derive(Debug, Clone, Copy, PartialEq, Eq, Structural)]
pub struct RawTimeline {
    pub position_ticks: Option<i64>,
    pub end_time_ticks: Option<i64>,
}

/// Position and duration of a session in milliseconds.
#[derive(Debug, Clone, Copy, PartialEq, Eq, Structural)]
pub struct Timeline {
    pub position_ms: u64,
    pub duration_ms: u64,
}

/// The timeline that a report amounts to; none where it lacks the position or the end.
pub open spec fn timeline_of(raw: RawTimeline) -> Option<Timeline> {
    match (raw.position_ticks, raw.end_time_ticks) {
        (Some(position), Some(end)) => Some(
            Timeline {
                position_ms: crate::clock::millis_of_ticks(position as int) as u64,
                duration_ms: crate::clock::millis_of_ticks(end as int) as u64,
            },
        ),
        _ => None,
    }
}

/// Reads the timeline of a session.
pub fn extract_timeline(raw: &RawTimeline) -> (timeline: Option<Timeline>)
    ensures
        timeline == timeline_of(*raw),
{
    match (raw.position_ticks, raw.end_time_ticks) {
        (Some(position), Some(end)) => {
            let position_ms: u64 = ticks_to_ms(position);
            let duration_ms: u64 = ticks_to_ms(end);
            Some(Timeline { position_ms, duration_ms })
        },
        _ => None,
    }
}

/// Whether a reported position, `elapsed_ms` after the last report, is too far from where
/// playback would have got to by itself.
pub open spec fn is_seek(player: PlayerView, position_ms: u64, elapsed_ms: u64) -> bool {
    let jump = crate::clock::signed64(position_ms - player.advanced_position(elapsed_ms));
    jump > SEEK_DETECTION_THRESHOLD_MS || -jump > SEEK_DETECTION_THRESHOLD_MS
}

/// Whether a reported position is taken over: after a seek, or where it lies ahead of the last
/// one.
pub open spec fn takes_position(player: PlayerView, position_ms: u64, elapsed_ms: u64) -> bool {
    is_seek(player, position_ms, elapsed_ms) || position_ms > player.last_known_position_ms
}

/// Whether a reported duration is taken over: where it is known and new.
pub open spec fn takes_duration(player: PlayerView, duration_ms: u64) -> bool {
    duration_ms > 0 && player.song_duration_ms != duration_ms
}

/// The player state after a timeline was reported at `now`, `elapsed_ms` after the last report.
pub open spec fn player_with_timeline(
    player: PlayerView,
    timeline: Timeline,
    elapsed_ms: u64,
    now: Instant,
) -> PlayerView {
    let timed = if takes_duration(player, timeline.duration_ms) {
        PlayerView { song_duration_ms: timeline.duration_ms, ..player }
    } else {
        player
    };
    if takes_position(player, timeline.position_ms, elapsed_ms) {
        PlayerView {
            last_known_position_ms: timeline.position_ms,
            last_known_position_report_time: Some(now),
            is_waiting_for_initial_update: false,
            ..timed
        }
    } else {
        timed
    }
}

/// Whether a reported timeline changes anything.
pub open spec fn timeline_changes(player: PlayerView, timeline: Timeline, elapsed_ms: u64) -> bool {
    takes_duration(player, timeline.duration_ms) || takes_position(
        player,
        timeline.position_ms,
        elapsed_ms,
    )
}

/// How far a reported position, `elapsed` milliseconds after the last report, lies ahead of where
/// playback would have got to by itself.
fn position_jump(player: &SharedPlayerState, position_ms: u64, elapsed: u64) -> (jump: i64)
    ensures
        jump == crate::clock::signed64(position_ms - player@.advanced_position(elapsed)),
{
    let estimated: u64 = if player.playback_status == PlaybackStatus::Playing
        && player.last_known_position_report_time.is_some() {
        sum_unsigned(player.last_known_position_ms, elapsed)
    } else {
        player.last_known_position_ms
    };
    proof {
        let advanced = player@.advanced_position(elapsed);
        assert(crate::clock::signed64(estimated as int) == crate::clock::signed64(advanced));
        crate::clock::lemma_signed64_difference(position_ms as int, advanced);
    }
    difference_signed(as_signed(position_ms), as_signed(estimated))
}

/// Takes a timeline over that was reported at `now`, `elapsed` milliseconds after the last
/// report. Returns whether anything has changed.
pub fn apply_timeline_at(
    player: &mut SharedPlayerState,
    timeline: &Timeline,
    elapsed: u64,
    now: Instant,
) -> (changed: bool)
    ensures
        changed == timeline_changes(old(player)@, *timeline, elapsed),
        final(player)@ == player_with_timeline(old(player)@, *timeline, elapsed, now),
{
    let jump: i64 = position_jump(player, timeline.position_ms, elapsed);
    let threshold: i64 = SEEK_DETECTION_THRESHOLD_MS as i64;
    let seek: bool = jump > threshold || jump < -threshold;
    let mut changed: bool = false;
    if timeline.duration_ms > 0 && player.song_duration_ms != timeline.duration_ms {
        player.song_duration_ms = timeline.duration_ms;
        changed = true;
    }
    if seek || timeline.position_ms > player.last_known_position_ms {
        player.last_known_position_ms = timeline.position_ms;
        player.last_known_position_report_time = Some(now);
        player.is_waiting_for_initial_update = false;
        changed = true;
    }
    changed
}

/// The player state of a session that has just been taken up.
pub open spec fn player_initialized(
    player: PlayerView,
    playback: Option<PlaybackInfoUpdate>,
    timeline: Option<Timeline>,
    now: Instant,
) -> PlayerView {
    let playing = match playback {
        Some(update) => player_with_playback(player, update),
        None => player,
    };
    match timeline {
        Some(t) => PlayerView {
            last_known_position_ms: t.position_ms,
            last_known_position_report_time: Some(now),
            song_duration_ms: t.duration_ms,
            ..playing
        },
        None => playing,
    }
}

/// Takes over what a session reports at `now`, when it is taken up.
pub fn initialize_player_at(
    player: &mut SharedPlayerState,
    playback: &Option<PlaybackInfoUpdate>,
    timeline: &Option<Timeline>,
    now: Instant,
)
    ensures
        final(player)@ == player_initialized(old(player)@, *playback, *timeline, now),
{
    if let Some(update) = playback {
        apply_playback_info(player, update);
    }
    if let Some(t) = timeline {
        player.last_known_position_ms = t.position_ms;
        player.last_known_position_report_time = Some(now);
        player.song_duration_ms = t.duration_ms;
    }
}

/// Each control operation is available exactly where it was reported as enabled.
pub proof fn law_controls_mirror_report(raw: RawControls)
    ensures
        controls_of(raw).has(CAN_PLAY) <==> raw.play == Some(true),
        controls_of(raw).has(CAN_PAUSE) <==> raw.pause == Some(true),
        controls_of(raw).has(CAN_SKIP_NEXT) <==> raw.next == Some(true),
        controls_of(raw).has(CAN_SKIP_PREVIOUS) <==> raw.previous == Some(true),
        controls_of(raw).has(CAN_SEEK) <==> raw.position == Some(true),
        controls_of(raw).has(CAN_CHANGE_SHUFFLE) <==> raw.shuffle == Some(true),
        controls_of(raw).has(CAN_CHANGE_REPEAT) <==> raw.repeat == Some(true),
{
    let a: u8 = flag_if(raw.play, CAN_PLAY);
    let b: u8 = flag_if(raw.pause, CAN_PAUSE);
    let c: u8 = flag_if(raw.next, CAN_SKIP_NEXT);
    let d: u8 = flag_if(raw.previous, CAN_SKIP_PREVIOUS);
    let e: u8 = flag_if(raw.position, CAN_SEEK);
    let f: u8 = flag_if(raw.shuffle, CAN_CHANGE_SHUFFLE);
    let g: u8 = flag_if(raw.repeat, CAN_CHANGE_REPEAT);
    let all: u8 = a | b | c | d | e | f | g;
    assert((all & 1 == 1 <==> a == 1) && (all & 2 == 2 <==> b == 2) && (all & 4 == 4 <==> c == 4)
        && (all & 8 == 8 <==> d == 8) && (all & 16 == 16 <==> e == 16) && (all & 32 == 32 <==> f
        == 32) && (all & 64 == 64 <==> g == 64)) by (bit_vector)
        requires
            all == a | b | c | d | e | f | g,
            a == 0 || a == 1,
            b == 0 || b == 2,
            c == 0 || c == 4,
            d == 0 || d == 8,
            e == 0 || e == 16,
            f == 0 || f == 32,
            g == 0 || g == 64,
    ;
}

/// A repeat mode survives being sent as a code and reported back.
pub proof fn law_repeat_mode_round_trip(mode: RepeatMode)
    ensures
        repeat_of_code(Some(code_of_repeat(mode))) == mode,
{
}

/// While nothing overflows, a report that lags behind by no more than the threshold moves
/// nothing back: the position and the time of its report stay.
pub proof fn law_jitter_does_not_move_back(
    player: PlayerView,
    timeline: Timeline,
    elapsed: u64,
    now: Instant,
)
    requires
        player.advanced_position(elapsed) <= i64::MAX,
        timeline.position_ms <= player.last_known_position_ms,
        player.advanced_position(elapsed) - timeline.position_ms <= SEEK_DETECTION_THRESHOLD_MS,
    ensures
        ({
            let after = player_with_timeline(player, timeline, elapsed, now);
            &&& after.last_known_position_ms == player.last_known_position_ms
            &&& after.last_known_position_report_time == player.last_known_position_report_time
        }),
{
}

/// While nothing overflows, a jump of more than the threshold in either direction is taken over.
pub proof fn law_seek_is_taken_over(
    player: PlayerView,
    timeline: Timeline,
    elapsed: u64,
    now: Instant,
)
    requires
        player.advanced_position(elapsed) <= i64::MAX,
        timeline.position_ms <= i64::MAX,
        timeline.position_ms - player.advanced_position(elapsed) > SEEK_DETECTION_THRESHOLD_MS
            || player.advanced_position(elapsed) - timeline.position_ms
            > SEEK_DETECTION_THRESHOLD_MS,
    ensures
        ({
            let after = player_with_timeline(player, timeline, elapsed, now);
            &&& after.last_known_position_ms == timeline.position_ms
            &&& after.last_known_position_report_time == Some(now)
            &&& !after.is_waiting_for_initial_update
        }),
{
}

/// A report that changes nothing leaves the player state as it is.
pub proof fn law_unchanged_timeline_keeps_state(
    player: PlayerView,
    timeline: Timeline,
    elapsed: u64,
    now: Instant,
)
    requires
        !timeline_changes(player, timeline, elapsed),
    ensures
        player_with_timeline(player, timeline, elapsed, now) == player,
{
}

/// Whenever a report moves the position, it also sets the time that later estimates count from,
/// and the player no longer waits: the position was right at `now`.
pub proof fn law_moved_position_is_dated(
    player: PlayerView,
    timeline: Timeline,
    elapsed: u64,
    now: Instant,
)
    ensures
        ({
            let after = player_with_timeline(player, timeline, elapsed, now);
            &&& after.last_known_position_ms != player.last_known_position_ms
                ==> after.last_known_position_ms == timeline.position_ms
                && after.last_known_position_report_time == Some(now)
                && !after.is_waiting_for_initial_update
            &&& timeline.position_ms > player.last_known_position_ms
                ==> after.last_known_position_ms == timeline.position_ms
                && after.last_known_position_report_time == Some(now)
                && !after.is_waiting_for_initial_update
            &&& after.last_known_position_report_time != player.last_known_position_report_time
                ==> after.last_known_position_ms == timeline.position_ms
                && after.last_known_position_report_time == Some(now)
        }),
{
}

/// Some time after a report was taken over, a playing session has got just that much further
/// than what was reported.
pub proof fn law_playback_goes_on_from_report(
    player: PlayerView,
    timeline: Timeline,
    elapsed: u64,
    now: Instant,
    later: Instant,
)
    requires
        player.playback_status == PlaybackStatus::Playing,
        timeline.position_ms > player.last_known_position_ms,
    ensures
        ({
            let after = player_with_timeline(player, timeline, elapsed, now);
            let since = crate::clock::whole_millis(crate::clock::time_between(now, later));
            &&& forall|d: u64| #[trigger] after.advanced_position(d) == timeline.position_ms + d
            &&& after.elapsed_at(later) == since as int % 0x1_0000_0000_0000_0000
            &&& since < 0x1_0000_0000_0000_0000 ==> after.advanced_position(since as u64)
                == timeline.position_ms + since
        }),
{
}

/// While nothing overflows, a position is taken over exactly where it lies ahead of the last one
/// or more than two seconds away from where playback would have got to by itself; a duration
/// exactly where it is known and new. Nothing else changes, and a change is reported exactly
/// where one of the two was taken over.
pub proof fn law_timeline_report_is_weighed(
    player: PlayerView,
    timeline: Timeline,
    elapsed: u64,
    now: Instant,
    reached: int,
)
    requires
        reached == player.last_known_position_ms + if player.playback_status
            == PlaybackStatus::Playing && player.last_known_position_report_time is Some {
            elapsed as int
        } else {
            0
        },
        reached <= i64::MAX,
        timeline.position_ms <= i64::MAX,
    ensures
        ({
            let after = player_with_timeline(player, timeline, elapsed, now);
            let moves = timeline.position_ms > player.last_known_position_ms
                || timeline.position_ms - reached > 2000 || reached - timeline.position_ms > 2000;
            let lasts = timeline.duration_ms > 0 && timeline.duration_ms
                != player.song_duration_ms;
            &&& moves ==> after.last_known_position_ms == timeline.position_ms
                && after.last_known_position_report_time == Some(now)
                && !after.is_waiting_for_initial_update
            &&& !moves ==> after.last_known_position_ms == player.last_known_position_ms
                && after.last_known_position_report_time == player.last_known_position_report_time
                && after.is_waiting_for_initial_update == player.is_waiting_for_initial_update
            &&& lasts ==> after.song_duration_ms == timeline.duration_ms
            &&& !lasts ==> after.song_duration_ms == player.song_duration_ms
            &&& timeline_changes(player, timeline, elapsed) <==> moves || lasts
        }),
{
}

/// A timeline says nothing of the track, its cover art, the playback status, the controls and the
/// offsets: they stay.
pub proof fn law_timeline_keeps_the_rest(
    player: PlayerView,
    timeline: Timeline,
    elapsed: u64,
    now: Instant,
)
    ensures
        ({
            let after = player_with_timeline(player, timeline, elapsed, now);
            &&& after.title == player.title && after.artist == player.artist
            &&& after.album == player.album && after.playback_status == player.playback_status
            &&& after.controls == player.controls
            &&& after.is_shuffle_active == player.is_shuffle_active
            &&& after.repeat_mode == player.repeat_mode
            &&& after.cover_data == player.cover_data
            &&& after.cover_data_hash == player.cover_data_hash
            &&& after.position_offset_ms == player.position_offset_ms
            &&& after.apple_music_optimization_offset_ms
                == player.apple_music_optimization_offset_ms
            &&& timeline.duration_ms == 0 ==> after.song_duration_ms == player.song_duration_ms
            &&& timeline.duration_ms > 0 ==> after.song_duration_ms == timeline.duration_ms
        }),
{
}

/// Of the codes of a playback status only two stand for a session that has not stopped, and of
/// those of a repeat mode only two for one that repeats.
pub proof fn law_codes_are_read_as_meant(code: i32)
    ensures
        code == 4 ==> status_of_code(code) == PlaybackStatus::Playing,
        code == 5 ==> status_of_code(code) == PlaybackStatus::Paused,
        code != 4 && code != 5 ==> status_of_code(code) == PlaybackStatus::Stopped,
        code == 1 ==> repeat_of_code(Some(code)) == RepeatMode::One,
        code == 2 ==> repeat_of_code(Some(code)) == RepeatMode::All,
        code != 1 && code != 2 ==> repeat_of_code(Some(code)) == RepeatMode::Off,
        repeat_of_code(None) == RepeatMode::Off,
        code_of_repeat(RepeatMode::Off) == 0,
        code_of_repeat(RepeatMode::One) == 1,
        code_of_repeat(RepeatMode::All) == 2,
{
}

/// A playback report needs its status and its controls, and nothing else: shuffle counts as off
/// where it could not be read, and so does repeating.
pub proof fn law_playback_report_is_read(raw: RawPlaybackInfo)
    ensures
        playback_info_of(raw) is Some <==> raw.status is Some && raw.controls is Some,
        playback_info_of(raw) matches Some(info) ==> {
            &&& raw.status == Some(4i32) <==> info.playback_status == PlaybackStatus::Playing
            &&& raw.status == Some(5i32) <==> info.playback_status == PlaybackStatus::Paused
            &&& info.is_shuffle_active <==> raw.is_shuffle_active == Some(true)
            &&& info.repeat_mode == RepeatMode::One <==> raw.repeat_mode == Some(1i32)
            &&& info.repeat_mode == RepeatMode::All <==> raw.repeat_mode == Some(2i32)
            &&& raw.controls matches Some(c) ==> info.controls == controls_of(c)
        },
{
}

/// Each operation that is reported as enabled sets its own bit, and no other bit is ever set.
pub proof fn law_reported_controls_set_their_bits(raw: RawControls)
    ensures
        ({
            let bits = controls_of(raw).bits;
            &&& bits & 1 == 1 <==> raw.play == Some(true)
            &&& bits & 2 == 2 <==> raw.pause == Some(true)
            &&& bits & 4 == 4 <==> raw.next == Some(true)
            &&& bits & 8 == 8 <==> raw.previous == Some(true)
            &&& bits & 16 == 16 <==> raw.position == Some(true)
            &&& bits & 32 == 32 <==> raw.shuffle == Some(true)
            &&& bits & 64 == 64 <==> raw.repeat == Some(true)
            &&& bits < 128
        }),
{
    law_controls_mirror_report(raw);
    let a: u8 = flag_if(raw.play, CAN_PLAY);
    let b: u8 = flag_if(raw.pause, CAN_PAUSE);
    let c: u8 = flag_if(raw.next, CAN_SKIP_NEXT);
    let d: u8 = flag_if(raw.previous, CAN_SKIP_PREVIOUS);
    let e: u8 = flag_if(raw.position, CAN_SEEK);
    let f: u8 = flag_if(raw.shuffle, CAN_CHANGE_SHUFFLE);
    let g: u8 = flag_if(raw.repeat, CAN_CHANGE_REPEAT);
    assert(a | b | c | d | e | f | g < 128) by (bit_vector)
        requires
            a < 128 && b < 128 && c < 128 && d < 128 && e < 128 && f < 128 && g < 128,
    ;
}

/// Playback information replaces the status, the modes and the controls, and nothing else.
pub proof fn law_playback_is_taken_over(player: PlayerView, update: PlaybackInfoUpdate)
    ensures
        ({
            let after = player_with_playback(player, update);
            &&& after.playback_status == update.playback_status
            &&& after.is_shuffle_active == update.is_shuffle_active
            &&& after.repeat_mode == update.repeat_mode && after.controls == update.controls
            &&& after.title == player.title && after.artist == player.artist
            &&& after.album == player.album && after.song_duration_ms == player.song_duration_ms
            &&& after.last_known_position_ms == player.last_known_position_ms
            &&& after.last_known_position_report_time == player.last_known_position_report_time
            &&& after.cover_data == player.cover_data
            &&& after.cover_data_hash == player.cover_data_hash
            &&& after.is_waiting_for_initial_update == player.is_waiting_for_initial_update
            &&& after.position_offset_ms == player.position_offset_ms
            &&& after.apple_music_optimization_offset_ms
                == player.apple_music_optimization_offset_ms
        }),
{
}

/// A timeline report needs both of its times, which it gives in units of a ten-thousandth of a
/// millisecond: the position becomes the position and the end the duration.
pub proof fn law_timeline_report_is_read(raw: RawTimeline)
    ensures
        timeline_of(raw) is Some <==> raw.position_ticks is Some && raw.end_time_ticks is Some,
        timeline_of(raw) matches Some(t) ==> {
            &&& raw.position_ticks matches Some(p) ==> p >= 0 ==> t.position_ms * 10000 <= p
                < t.position_ms * 10000 + 10000
            &&& raw.end_time_ticks matches Some(e) ==> e >= 0 ==> t.duration_ms * 10000 <= e
                < t.duration_ms * 10000 + 10000
        },
{
}

/// A session that is taken up starts from what it reports at that time, whatever the player knew
/// before; of what it does not report, nothing changes.
pub proof fn law_session_starts_from_its_report(
    player: PlayerView,
    playback: Option<PlaybackInfoUpdate>,
    timeline: Option<Timeline>,
    now: Instant,
)
    ensures
        ({
            let after = player_initialized(player, playback, timeline, now);
            &&& timeline matches Some(t) ==> after.last_known_position_ms == t.position_ms
                && after.song_duration_ms == t.duration_ms
                && after.last_known_position_report_time == Some(now)
            &&& timeline is None ==> after.last_known_position_ms == player.last_known_position_ms
                && after.song_duration_ms == player.song_duration_ms
                && after.last_known_position_report_time == player.last_known_position_report_time
            &&& playback matches Some(p) ==> after.playback_status == p.playback_status
                && after.is_shuffle_active == p.is_shuffle_active && after.repeat_mode
                == p.repeat_mode && after.controls == p.controls
            &&& playback is None ==> after.playback_status == player.playback_status
                && after.is_shuffle_active == player.is_shuffle_active && after.repeat_mode
                == player.repeat_mode && after.controls == player.controls
            &&& after.title == player.title && after.artist == player.artist
            &&& after.album == player.album && after.cover_data == player.cover_data
            &&& after.cover_data_hash == player.cover_data_hash
            &&& after.is_waiting_for_initial_update == player.is_waiting_for_initial_update
            &&& after.position_offset_ms == player.position_offset_ms
            &&& after.apple_music_optimization_offset_ms
                == player.apple_music_optimization_offset_ms
        }),
{
}

/// Where the distance between a report and the expected position does not fit 64 signed bits, it
/// wraps round, and what is left of it decides whether the report is a seek.
pub proof fn law_timeline_distance_wraps_round(
    player: PlayerView,
    timeline: Timeline,
    elapsed: u64,
    now: Instant,
    reached: int,
    distance: int,
)
    requires
        reached == player.last_known_position_ms + if player.playback_status
            == PlaybackStatus::Playing && player.last_known_position_report_time is Some {
            elapsed as int
        } else {
            0
        },
        i64::MIN <= distance <= i64::MAX,
        (timeline.position_ms - reached - distance) % 0x1_0000_0000_0000_0000 == 0,
    ensures
        ({
            let after = player_with_timeline(player, timeline, elapsed, now);
            let moves = timeline.position_ms > player.last_known_position_ms || distance > 2000
                || distance < -2000;
            &&& moves ==> after.last_known_position_ms == timeline.position_ms
                && after.last_known_position_report_time == Some(now)
                && !after.is_waiting_for_initial_update
            &&& !moves ==> after.last_known_position_ms == player.last_known_position_ms
                && after.last_known_position_report_time == player.last_known_position_report_time
                && after.is_waiting_for_initial_update == player.is_waiting_for_initial_update
            &&& timeline_changes(player, timeline, elapsed) <==> moves || (timeline.duration_ms > 0
                && timeline.duration_ms != player.song_duration_ms)
        }),
{
}

/// Times before zero are rounded towards zero too, and kept in 64 bits.
pub proof fn law_negative_times_are_kept_in_bits(raw: RawTimeline, position: i64, end: i64)
    requires
        raw.position_ticks == Some(position),
        raw.end_time_ticks == Some(end),
    ensures
        timeline_of(raw) matches Some(t) && {
            let position_ms = if t.position_ms == 0 {
                0
            } else {
                t.position_ms - 0x1_0000_0000_0000_0000
            };
            let duration_ms = if t.duration_ms == 0 {
                0
            } else {
                t.duration_ms - 0x1_0000_0000_0000_0000
            };
            &&& position < 0 ==> position_ms * 10000 - 10000 < position <= position_ms * 10000
            &&& end < 0 ==> duration_ms * 10000 - 10000 < end <= duration_ms * 10000
        },
{
}

} // verus!
