use smtc_suite::api::{
    Controls, MediaCommand, NowPlayingInfo, PlaybackStatus, RepeatMode, SharedPlayerState,
    TextConversionMode, CAN_PAUSE, CAN_PLAY, CAN_SEEK,
};
use smtc_suite::api::{CRepeatMode, CTextConversionMode};
use smtc_suite::clock::{as_signed, as_unsigned, difference_signed, ms_to_ticks, ticks_to_ms};
use std::time::{Duration, Instant};

fn wait(span: Duration) {
    let start = Instant::now();
    while start.elapsed() < span {
        std::hint::spin_loop();
    }
}

#[test]
fn test_get_estimated_current_position_ms() {
    let mut state = SharedPlayerState {
        last_known_position_ms: 10000,
        song_duration_ms: 60000,
        ..Default::default()
    };

    state.playback_status = PlaybackStatus::Paused;
    state.last_known_position_report_time = Some(Instant::now());
    wait(Duration::from_millis(150));
    assert_eq!(
        state.get_estimated_current_position_ms(),
        10000,
        "Position should not advance when paused"
    );

    state.playback_status = PlaybackStatus::Playing;
    state.last_known_position_report_time = Some(Instant::now());
    wait(Duration::from_millis(500));
    let estimated_pos = state.get_estimated_current_position_ms();
    assert!(
        (10490..=10700).contains(&estimated_pos),
        "Expected position to be around 10500, but it was {estimated_pos}"
    );

    state.position_offset_ms = -2000;
    state.last_known_position_report_time = Some(Instant::now());
    wait(Duration::from_millis(100));
    let estimated_pos_with_offset = state.get_estimated_current_position_ms();
    assert!(
        (8090..=8300).contains(&estimated_pos_with_offset),
        "Expected position with offset to be around 8100, but it was {estimated_pos_with_offset}"
    );

    state.position_offset_ms = 3000;
    state.last_known_position_report_time = Some(Instant::now());
    let estimated_pos_with_positive_offset = state.get_estimated_current_position_ms();
    assert!(
        (12990..=13200).contains(&estimated_pos_with_positive_offset),
        "Expected position with positive offset to be around 13000, but it was {estimated_pos_with_positive_offset}"
    );

    state.position_offset_ms = 0;
    state.last_known_position_ms = 59800;
    state.last_known_position_report_time = Some(Instant::now());
    wait(Duration::from_millis(500));
    assert_eq!(
        state.get_estimated_current_position_ms(),
        60000,
        "Position should be capped at song duration"
    );
}

fn playing_at(position: u64) -> SharedPlayerState {
    SharedPlayerState {
        title: "Solaris".to_string(),
        artist: "Stellardrone".to_string(),
        album: "Light Years".to_string(),
        last_known_position_ms: position,
        song_duration_ms: 60000,
        playback_status: PlaybackStatus::Playing,
        last_known_position_report_time: Some(Instant::now()),
        ..Default::default()
    }
}

#[test]
fn estimate_is_exact_for_a_given_span() {
    let mut state = playing_at(10000);
    assert_eq!(state.position_after_ms(1234), 11234);
    state.apple_music_optimization_offset_ms = -500;
    assert_eq!(state.position_after_ms(1234), 10734);
    state.position_offset_ms = 100;
    assert_eq!(state.position_after_ms(1234), 10834);
}

#[test]
fn estimate_stays_between_zero_and_the_end() {
    let mut state = playing_at(10000);
    state.position_offset_ms = -20000;
    assert_eq!(state.position_after_ms(0), 0);
    state.position_offset_ms = 90000;
    assert_eq!(state.position_after_ms(0), 60000);
    state.song_duration_ms = 0;
    assert_eq!(state.position_after_ms(0), 100000);
}

#[test]
fn estimate_stands_still_without_a_report() {
    let mut state = playing_at(10000);
    state.last_known_position_report_time = None;
    assert_eq!(state.position_after_ms(5000), 10000);
    assert_eq!(state.get_estimated_current_position_ms(), 10000);
}

#[test]
fn reset_keeps_only_the_user_offset() {
    let mut state = playing_at(10000);
    state.position_offset_ms = -250;
    state.apple_music_optimization_offset_ms = -500;
    state.cover_data = Some(vec![1, 2, 3]);
    state.cover_data_hash = Some(7);
    state.reset_to_empty();
    assert_eq!(state.title, "");
    assert_eq!(state.last_known_position_ms, 0);
    assert_eq!(state.song_duration_ms, 0);
    assert_eq!(state.playback_status, PlaybackStatus::Stopped);
    assert_eq!(state.cover_data, None);
    assert_eq!(state.cover_data_hash, None);
    assert_eq!(state.apple_music_optimization_offset_ms, 0);
    assert_eq!(state.position_offset_ms, -250);
    assert!(state.is_waiting_for_initial_update);
}

#[test]
fn snapshots_hold_the_state() {
    let mut state = playing_at(10000);
    state.cover_data = Some(vec![9, 8]);
    state.cover_data_hash = Some(42);
    let full = state.snapshot_after_ms(500);
    assert_eq!(full.title.as_deref(), Some("Solaris"));
    assert_eq!(full.artist.as_deref(), Some("Stellardrone"));
    assert_eq!(full.album_title.as_deref(), Some("Light Years"));
    assert_eq!(full.duration_ms, Some(60000));
    assert_eq!(full.position_ms, Some(10500));
    assert_eq!(full.smtc_position_ms, Some(10000));
    assert_eq!(full.playback_status, Some(PlaybackStatus::Playing));
    assert_eq!(full.cover_data, Some(vec![9, 8]));
    assert_eq!(full.cover_data_hash, Some(42));
    let bare = state.snapshot_without_cover_after_ms(500);
    assert_eq!(bare.cover_data, None);
    assert_eq!(bare.cover_data_hash, None);
    assert_eq!(bare.position_ms, Some(10500));

    state.playback_status = PlaybackStatus::Paused;
    let from = NowPlayingInfo::from(&state);
    assert_eq!(from.position_ms, Some(10000));
    assert_eq!(from.cover_data, Some(vec![9, 8]));
    assert_eq!(state.snapshot(false).cover_data, None);
}

#[test]
fn snapshots_show_the_estimate() {
    let mut state = playing_at(10000);
    for elapsed in [0, 1, 500, 70000] {
        let shown = state.snapshot_after_ms(elapsed).position_ms;
        assert_eq!(shown, Some(state.position_after_ms(elapsed)));
    }
    state.song_duration_ms = 60000;
    state.last_known_position_report_time =
        Some(Instant::now().checked_sub(Duration::from_millis(5000)).unwrap());
    for info in [state.snapshot(true), state.snapshot(false), NowPlayingInfo::from(&state)] {
        let shown = info.position_ms.unwrap();
        assert!((15000..=15500).contains(&shown), "Expected about 15000, but it was {shown}");
    }
}

#[test]
fn updates_take_newer_values_only() {
    let mut info = NowPlayingInfo {
        title: Some("Old".to_string()),
        artist: Some("Somebody".to_string()),
        duration_ms: Some(1000),
        cover_data: Some(vec![1]),
        cover_data_hash: Some(1),
        ..Default::default()
    };
    let newer = NowPlayingInfo {
        title: Some("New".to_string()),
        repeat_mode: Some(RepeatMode::All),
        is_shuffle_active: Some(true),
        cover_data: Some(vec![2]),
        ..Default::default()
    };
    info.update_with(&newer);
    assert_eq!(info.title.as_deref(), Some("New"));
    assert_eq!(info.artist.as_deref(), Some("Somebody"));
    assert_eq!(info.duration_ms, Some(1000));
    assert_eq!(info.repeat_mode, Some(RepeatMode::All));
    assert_eq!(info.is_shuffle_active, Some(true));
    assert_eq!(info.cover_data, Some(vec![2]));
    assert_eq!(info.cover_data_hash, None);
    info.update_with(&NowPlayingInfo {
        cover_data_hash: Some(5),
        ..Default::default()
    });
    assert_eq!(info.cover_data, Some(vec![2]));
    assert_eq!(info.cover_data_hash, Some(5));
}

#[test]
fn controls_are_flags() {
    let mut controls = Controls::empty();
    assert!(!controls.contains(CAN_PLAY));
    controls.insert(CAN_PLAY);
    controls.insert(CAN_SEEK);
    assert_eq!(controls.bits, 0x11);
    assert!(controls.contains(CAN_PLAY | CAN_SEEK));
    assert!(!controls.contains(CAN_PAUSE));
    assert_eq!(Controls::default(), Controls::empty());
}

#[test]
fn defaults_are_the_first_variants() {
    assert_eq!(PlaybackStatus::default(), PlaybackStatus::Stopped);
    assert_eq!(RepeatMode::default(), RepeatMode::Off);
    assert_eq!(TextConversionMode::default(), TextConversionMode::Off);
    assert!(matches!(MediaCommand::SetProgressOffset(-1), MediaCommand::SetProgressOffset(-1)));
}

#[test]
fn modes_from_c_keep_their_meaning() {
    assert_eq!(RepeatMode::from(CRepeatMode::Off), RepeatMode::Off);
    assert_eq!(RepeatMode::from(CRepeatMode::One), RepeatMode::One);
    assert_eq!(RepeatMode::from(CRepeatMode::All), RepeatMode::All);
    assert_eq!(
        TextConversionMode::from(CTextConversionMode::TaiwanToSimplified),
        TextConversionMode::TaiwanToSimplified
    );
    assert_eq!(
        TextConversionMode::from(CTextConversionMode::HongKongToSimplified),
        TextConversionMode::HongKongToSimplified
    );
    assert_eq!(
        TextConversionMode::from(CTextConversionMode::Off),
        TextConversionMode::Off
    );
}

#[test]
fn spans_convert_between_ticks_and_milliseconds() {
    assert_eq!(ticks_to_ms(1234567), 123);
    assert_eq!(ticks_to_ms(-19999), u64::MAX);
    assert_eq!(ms_to_ticks(123), 1230000);
    assert_eq!(ticks_to_ms(ms_to_ticks(98765)), 98765);
}

#[test]
fn sixty_four_bits_keep_their_pattern() {
    assert_eq!(as_signed(u64::MAX), -1);
    assert_eq!(as_signed(0x8000_0000_0000_0000), i64::MIN);
    assert_eq!(as_unsigned(-1), u64::MAX);
    assert_eq!(difference_signed(i64::MIN, 1), i64::MAX);
}
