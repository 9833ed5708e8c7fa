use smtc_suite::api::{
    Controls, DiagnosticLevel, PlaybackStatus, RepeatMode, SharedPlayerState, SmtcControlCommand,
    TextConversionMode, VolumeLevel, CAN_CHANGE_REPEAT, CAN_PAUSE, CAN_PLAY, CAN_SEEK,
};
use smtc_suite::conversion::{
    config_name, converter_config, load_failure_message, ConverterConfig,
};
use smtc_suite::playback::{
    apply_timeline_at, extract_controls, extract_playback_info, extract_timeline,
    repeat_mode_code, PlaybackInfoUpdate, RawControls, RawPlaybackInfo, RawTimeline, Timeline,
};
use smtc_suite::sessions::{choose_session, list_candidates, Selection};
use smtc_suite::smtc_handler::{
    calculate_cover_hash, playback_info_signal, session_call, timeline_signal, CoverOutcome,
    RunnerEvent, SessionCall, SmtcAction, SmtcEventSignal, SmtcState, TaskControlSignal,
};
use smtc_suite::track_info::{
    find_merged_artist_and_album, show_track, track_from_converted, try_parse_apple_music_format,
    RawMediaProperties, TrackInfo,
};
use smtc_suite::utils::convert_text;
use smtc_suite::worker::{InternalCommand, InternalUpdate};
use std::collections::hash_map::DefaultHasher;
use std::hash::{Hash, Hasher};
use std::time::{Duration, Instant};

const APPLE: &str = "AppleInc.AppleMusicWin_nzyj5cx40ttqa!App";

fn id(text: &str) -> Option<String> {
    Some(text.to_string())
}

fn monitoring() -> SmtcState {
    let mut state = SmtcState::new();
    state.on_manager_ready(true, true);
    let mut player = SharedPlayerState::default();
    state.initialize_new_session(&mut player, &id("spotify"), &None, &None);
    state
}

fn track(title: &str, artist: &str, album: &str, duration_ms: u64) -> TrackInfo {
    TrackInfo {
        title: title.to_string(),
        artist: artist.to_string(),
        album: album.to_string(),
        duration_ms,
    }
}

fn is_refresh(action: &SmtcAction, expected: &str) -> bool {
    matches!(action, SmtcAction::Signal(SmtcEventSignal::MediaProperties(id)) if id == expected)
}

#[test]
fn seeks_are_told_by_the_time_since_the_report() {
    let state = monitoring();
    let current = id("spotify");
    let timeline = Timeline { position_ms: 9999, duration_ms: 60000 };
    let playing = |since: Duration| SharedPlayerState {
        last_known_position_ms: 10000,
        song_duration_ms: 60000,
        playback_status: PlaybackStatus::Playing,
        last_known_position_report_time: Some(Instant::now().checked_sub(since).unwrap()),
        ..Default::default()
    };

    let mut recent = playing(Duration::from_millis(0));
    let actions =
        state.handle_timeline_properties_update(&mut recent, &current, "spotify", &timeline);
    assert!(actions.is_empty());
    assert_eq!(recent.last_known_position_ms, 10000);

    let mut long_ago = playing(Duration::from_millis(10000));
    let actions =
        state.handle_timeline_properties_update(&mut long_ago, &current, "spotify", &timeline);
    assert!(matches!(actions[0], SmtcAction::PublishTrack { with_cover: false }));
    assert_eq!(long_ago.last_known_position_ms, 9999);
}

#[test]
fn cover_hash_is_that_of_the_standard_hasher() {
    let data: Vec<u8> = vec![1, 2, 3, 250];
    let mut hasher = DefaultHasher::new();
    data.as_slice().hash(&mut hasher);
    assert_eq!(calculate_cover_hash(&data), hasher.finish());
    assert_eq!(calculate_cover_hash(&data), calculate_cover_hash(&data.clone()));
    assert_ne!(calculate_cover_hash(&data), calculate_cover_hash(&[1, 2, 3]));
}

#[test]
fn new_state_is_blank() {
    let state = SmtcState::new();
    assert!(!state.has_session && !state.has_manager && !state.is_manager_ready);
    assert_eq!(state.target_session_id, None);
    assert_eq!(state.text_conversion_mode, TextConversionMode::Off);
    assert!(state.is_apple_music_optimization_enabled);
    assert_eq!(state.next_easing_task_id, 0);
}

#[test]
fn conversion_modes_have_configurations() {
    assert_eq!(converter_config(TextConversionMode::Off), None);
    assert_eq!(
        converter_config(TextConversionMode::TraditionalToSimplified),
        Some(ConverterConfig::T2s)
    );
    assert_eq!(
        converter_config(TextConversionMode::SimplifiedToTraditional),
        Some(ConverterConfig::S2t)
    );
    assert_eq!(
        converter_config(TextConversionMode::SimplifiedToTaiwan),
        Some(ConverterConfig::S2tw)
    );
    assert_eq!(
        converter_config(TextConversionMode::TaiwanToSimplified),
        Some(ConverterConfig::Tw2s)
    );
    assert_eq!(
        converter_config(TextConversionMode::SimplifiedToHongKong),
        Some(ConverterConfig::S2hk)
    );
    assert_eq!(
        converter_config(TextConversionMode::HongKongToSimplified),
        Some(ConverterConfig::Hk2s)
    );
    assert_eq!(config_name(ConverterConfig::S2tw), "S2tw");
}

#[test]
fn switching_the_conversion_loads_a_converter() {
    let mut state = SmtcState::new();
    let actions =
        state.on_set_text_conversion(TextConversionMode::SimplifiedToTraditional, &id("spotify"));
    assert_eq!(actions.len(), 1);
    assert!(is_refresh(&actions[0], "spotify"));
    assert_eq!(convert_text("一个项目", state.text_converter.as_ref()), "一個項目");
    assert!(state
        .on_set_text_conversion(TextConversionMode::SimplifiedToTraditional, &id("spotify"))
        .is_empty());
    let actions = state.on_set_text_conversion(TextConversionMode::TraditionalToSimplified, &None);
    assert!(actions.is_empty());
    assert_eq!(convert_text("一個項目", state.text_converter.as_ref()), "一个项目");
    state.on_set_text_conversion(TextConversionMode::Off, &None);
    assert!(state.text_converter.is_none());
}

#[test]
fn every_conversion_mode_can_be_loaded() {
    let modes = [
        TextConversionMode::TraditionalToSimplified,
        TextConversionMode::SimplifiedToTraditional,
        TextConversionMode::SimplifiedToTaiwan,
        TextConversionMode::TaiwanToSimplified,
        TextConversionMode::SimplifiedToHongKong,
        TextConversionMode::HongKongToSimplified,
    ];
    for mode in modes {
        let mut state = SmtcState::new();
        state.on_set_text_conversion(mode, &None);
        assert!(state.text_converter.is_some());
    }
}

#[test]
fn a_failed_conversion_is_reported() {
    let mut state = SmtcState::new();
    let actions = state.apply_text_conversion(
        TextConversionMode::SimplifiedToTaiwan,
        None,
        "no such file",
        &id("spotify"),
    );
    assert_eq!(actions.len(), 2);
    match &actions[0] {
        SmtcAction::Diagnose { severity, message } => {
            assert_eq!(*severity, DiagnosticLevel::Error);
            assert_eq!(message, "Failed to load OpenCC config 'S2tw': no such file");
        }
        _ => panic!("a diagnostic message was expected"),
    }
    assert!(is_refresh(&actions[1], "spotify"));
    assert!(state.text_converter.is_none());
    assert_eq!(state.text_conversion_mode, TextConversionMode::SimplifiedToTaiwan);
    assert_eq!(
        load_failure_message(ConverterConfig::Hk2s, "x"),
        "Failed to load OpenCC config 'Hk2s': x"
    );
}

#[test]
fn selecting_a_session_looks_for_it() {
    let mut state = SmtcState::new();
    let actions = state.on_select_session("spotify".to_string());
    assert_eq!(state.target_session_id.as_deref(), Some("spotify"));
    assert_eq!(actions.len(), 1);
    assert!(matches!(actions[0], SmtcAction::Signal(SmtcEventSignal::Sessions)));
    state.on_select_session(String::new());
    assert_eq!(state.target_session_id, None);
}

#[test]
fn a_request_needs_a_manager() {
    let mut state = SmtcState::new();
    assert!(state.on_request_state_update().is_empty());
    state.on_manager_ready(true, false);
    assert!(state.on_request_state_update().is_empty());
    let mut state = monitoring();
    let actions = state.on_request_state_update();
    assert_eq!(actions.len(), 2);
    assert!(matches!(actions[0], SmtcAction::DropSession));
    assert!(matches!(actions[1], SmtcAction::RefreshSessions { requested: true }));
    assert!(!state.has_session);
}

#[test]
fn a_request_is_answered_without_a_session_too() {
    let mut state = monitoring();
    state.on_request_state_update();
    let mut player = SharedPlayerState::default();
    player.title = "Solaris".to_string();
    player.position_offset_ms = 5;
    let actions = state.update_monitoring_session(&mut player, &None, false, None, true);
    assert_eq!(actions.len(), 3);
    assert!(matches!(actions[0], SmtcAction::NotifyActiveSession(None)));
    assert!(matches!(actions[1], SmtcAction::PublishTrack { with_cover: true }));
    assert!(matches!(actions[2], SmtcAction::ApplyOptimizations));
    assert_eq!(player.title, "");
    assert_eq!(player.position_offset_ms, 5);
}

#[test]
fn the_manager_is_listened_to_once_it_answers() {
    let mut state = SmtcState::new();
    assert!(state.on_manager_ready(false, false).is_empty());
    assert!(!state.is_manager_ready);
    let actions = state.on_manager_ready(true, true);
    assert!(state.is_manager_ready && state.has_manager);
    assert!(matches!(actions[0], SmtcAction::Signal(SmtcEventSignal::Sessions)));
}

#[test]
fn the_progress_timer_runs_once() {
    let mut state = SmtcState::new();
    assert!(matches!(state.on_set_progress_timer(true)[0], SmtcAction::StartProgressTimer));
    assert!(state.on_set_progress_timer(true).is_empty());
    assert!(matches!(state.on_set_progress_timer(false)[0], SmtcAction::StopProgressTimer));
    assert!(state.on_set_progress_timer(false).is_empty());
}

#[test]
fn the_offset_is_published_without_the_cover() {
    let state = SmtcState::new();
    let mut player = SharedPlayerState::default();
    let actions = state.on_set_progress_offset(&mut player, -750);
    assert_eq!(player.position_offset_ms, -750);
    assert_eq!(actions.len(), 1);
    assert!(matches!(actions[0], SmtcAction::PublishTrack { with_cover: false }));
}

#[test]
fn optimizations_are_for_apple_music() {
    let mut state = SmtcState::new();
    let mut player = SharedPlayerState::default();
    let actions = state.apply_or_reset_optimizations(&mut player, &id(APPLE));
    assert_eq!(player.apple_music_optimization_offset_ms, -500);
    assert_eq!(actions.len(), 2);
    assert!(is_refresh(&actions[0], APPLE));
    assert!(matches!(actions[1], SmtcAction::PublishTrack { with_cover: true }));
    assert!(state.apply_or_reset_optimizations(&mut player, &id(APPLE)).is_empty());
    state.apply_or_reset_optimizations(&mut player, &id("spotify"));
    assert_eq!(player.apple_music_optimization_offset_ms, 0);
    let actions = state.on_set_apple_music_optimization(&mut player, false, &id(APPLE));
    assert!(actions.is_empty());
    assert_eq!(player.apple_music_optimization_offset_ms, 0);
    state.on_set_apple_music_optimization(&mut player, true, &id(APPLE));
    assert_eq!(player.apple_music_optimization_offset_ms, -500);
}

#[test]
fn events_of_other_sessions_are_ignored() {
    let mut state = monitoring();
    let mut player = SharedPlayerState::default();
    let update = PlaybackInfoUpdate {
        playback_status: PlaybackStatus::Playing,
        is_shuffle_active: true,
        repeat_mode: RepeatMode::All,
        controls: Controls { bits: 3 },
    };
    let timeline = Timeline { position_ms: 9000, duration_ms: 10000 };
    let signals = vec![
        SmtcEventSignal::MediaProperties("other".to_string()),
        SmtcEventSignal::PlaybackInfoUpdated("other".to_string(), update),
        SmtcEventSignal::TimelinePropertiesUpdated("other".to_string(), timeline),
    ];
    for signal in signals {
        assert!(state.handle_smtc_event(&mut player, &id("spotify"), signal).is_empty());
    }
    assert_eq!(player.playback_status, PlaybackStatus::Stopped);
    assert_eq!(player.last_known_position_ms, 0);
    let signal = SmtcEventSignal::PlaybackInfoUpdated("spotify".to_string(), update);
    let actions = state.handle_smtc_event(&mut player, &id("spotify"), signal);
    assert!(matches!(actions[0], SmtcAction::PublishTrack { with_cover: false }));
    assert_eq!(player.playback_status, PlaybackStatus::Playing);
    assert_eq!(player.repeat_mode, RepeatMode::All);
    assert!(player.is_shuffle_active);
    assert_eq!(player.controls.bits, 3);
}

#[test]
fn new_media_properties_replace_the_running_task() {
    let mut state = monitoring();
    let actions = state.handle_media_properties_signal("spotify".to_string(), &id("spotify"));
    assert_eq!(actions.len(), 1);
    assert!(matches!(&actions[0], SmtcAction::StartMediaPropertiesTask(id) if id == "spotify"));
    let actions = state.handle_media_properties_signal("spotify".to_string(), &id("spotify"));
    assert_eq!(actions.len(), 2);
    assert!(matches!(actions[0], SmtcAction::AbortMediaPropertiesTask));
    assert!(state.wants_media_properties("spotify", &id("spotify")));
    assert!(!state.wants_media_properties("spotify", &id("other")));
}

#[test]
fn the_event_loop_dispatches() {
    let mut state = monitoring();
    let mut player = SharedPlayerState::default();
    let step = state.handle_event(&mut player, &id("spotify"), RunnerEvent::Shutdown);
    assert!(step.stop);
    assert!(matches!(step.actions[0], SmtcAction::CloseExecutor));
    let event = RunnerEvent::Task(TaskControlSignal::ResetSessions);
    let step = state.handle_event(&mut player, &id("spotify"), event);
    assert!(!step.stop);
    assert!(matches!(step.actions[0], SmtcAction::Signal(SmtcEventSignal::Sessions)));
    let event = RunnerEvent::Signal(SmtcEventSignal::Sessions);
    let step = state.handle_event(&mut player, &id("spotify"), event);
    assert!(matches!(step.actions[0], SmtcAction::RefreshSessions { requested: false }));
    let event = RunnerEvent::Command(InternalCommand::MediaControl(SmtcControlCommand::Play));
    let step = state.handle_event(&mut player, &id("spotify"), event);
    assert!(matches!(step.actions[0], SmtcAction::Execute(SmtcControlCommand::Play)));
    let step = state.handle_event(&mut player, &id("spotify"), RunnerEvent::Progress);
    assert!(step.actions.is_empty());
    player.playback_status = PlaybackStatus::Playing;
    let step = state.handle_event(&mut player, &id("spotify"), RunnerEvent::Progress);
    assert!(matches!(step.actions[0], SmtcAction::PublishTrack { with_cover: false }));
}

#[test]
fn control_commands_become_calls() {
    assert_eq!(session_call(SmtcControlCommand::SeekTo(1500)), Some(SessionCall::ChangePosition(15000000)));
    assert_eq!(
        session_call(SmtcControlCommand::SetRepeatMode(RepeatMode::One)),
        Some(SessionCall::ChangeRepeatMode(1))
    );
    assert_eq!(
        session_call(SmtcControlCommand::SetShuffle(true)),
        Some(SessionCall::ChangeShuffle(true))
    );
    assert_eq!(session_call(SmtcControlCommand::SetVolume(VolumeLevel { bits: 0 })), None);
    let mut state = monitoring();
    let actions = state.process_media_control_command(SmtcControlCommand::Pause, id("spotify"));
    assert!(matches!(actions[0], SmtcAction::CallSession(SessionCall::Pause)));
    let mut idle = SmtcState::new();
    assert!(idle.process_media_control_command(SmtcControlCommand::Pause, None).is_empty());
}

#[test]
fn volume_changes_replace_each_other() {
    let mut state = monitoring();
    let level = VolumeLevel { bits: 0.5f32.to_bits() };
    let command = SmtcControlCommand::SetVolume(level);
    let actions = state.process_media_control_command(command, id("spotify"));
    assert_eq!(actions.len(), 1);
    match &actions[0] {
        SmtcAction::StartVolumeEasing { task_id, level: l, session_id } => {
            assert_eq!(*task_id, 0);
            assert_eq!(*l, level);
            assert_eq!(session_id, "spotify");
        }
        _ => panic!("a volume change was expected"),
    }
    let actions = state.process_media_control_command(command, id("spotify"));
    assert_eq!(actions.len(), 2);
    assert!(matches!(actions[0], SmtcAction::CancelVolumeEasing));
    assert!(matches!(actions[1], SmtcAction::StartVolumeEasing { task_id: 1, .. }));
    assert!(state.process_media_control_command(command, id("")).is_empty());
    assert!(state.process_media_control_command(command, None).is_empty());
    assert!(SmtcState::new().process_media_control_command(command, id("x")).is_empty());
}

#[test]
fn merged_artists_are_split() {
    let split = try_parse_apple_music_format(track("T", "Artist \u{2014} Album", "", 7));
    assert_eq!(split.artist, "Artist");
    assert_eq!(split.album, "Album");
    assert_eq!(split.title, "T");
    assert_eq!(split.duration_ms, 7);
    let split = try_parse_apple_music_format(track("T", "A \u{2014} B \u{2014} A", "", 0));
    assert_eq!((split.artist.as_str(), split.album.as_str()), ("A", "B"));
    let whole = try_parse_apple_music_format(track("T", "A \u{2014} B \u{2014} C", "", 0));
    assert_eq!(whole.artist, "A \u{2014} B \u{2014} C");
    let plain = try_parse_apple_music_format(track("T", "A - B", "", 0));
    assert_eq!(plain.artist, "A - B");
    assert_eq!(find_merged_artist_and_album(&vec!["a", "b"]), Some(("a", "b")));
    assert_eq!(find_merged_artist_and_album(&vec!["a"]), None);
}

#[test]
fn placeholder_titles_are_no_tracks() {
    for title in ["正在连接…", "Connecting…"] {
        let read = track_from_converted(title.to_string(), String::new(), String::new(), None, false);
        assert!(read.is_none());
    }
    let read = track_from_converted(
        "Solaris".to_string(),
        "A \u{2014} B".to_string(),
        String::new(),
        Some(2_000_000_000),
        true,
    )
    .unwrap();
    assert_eq!(read.duration_ms, 200000);
    assert_eq!(read.album, "B");
    let read = track_from_converted(
        "Solaris".to_string(),
        "A \u{2014} B".to_string(),
        "C".to_string(),
        None,
        true,
    )
    .unwrap();
    assert_eq!(read.artist, "A \u{2014} B");
    assert_eq!(read.album, "C");
    assert_eq!(read.duration_ms, 0);
}

#[test]
fn a_first_track_takes_its_duration() {
    let mut player = SharedPlayerState::default();
    assert!(show_track(&mut player, &track("Solaris", "Stellardrone", "Light Years", 200000)));
    assert_eq!(player.song_duration_ms, 200000);
    assert!(player.is_waiting_for_initial_update);
    assert!(!show_track(&mut player, &track("Solaris", "Stellardrone", "Other", 100)));
    assert_eq!(player.album, "Other");
    assert_eq!(player.song_duration_ms, 200000);
}

#[test]
fn another_track_drops_cover_and_position() {
    let mut player = SharedPlayerState::default();
    show_track(&mut player, &track("Solaris", "Stellardrone", "", 200000));
    player.cover_data = Some(vec![1]);
    player.cover_data_hash = Some(1);
    player.last_known_position_ms = 5000;
    player.last_known_position_report_time = Some(Instant::now());
    assert!(show_track(&mut player, &track("Eternity", "Stellardrone", "", 100)));
    assert_eq!(player.cover_data, None);
    assert_eq!(player.cover_data_hash, None);
    assert_eq!(player.last_known_position_ms, 0);
    assert!(player.last_known_position_report_time.is_none());
    assert_eq!(player.song_duration_ms, 0);
}

#[test]
fn media_properties_are_converted_and_shown() {
    let mut state = monitoring();
    state.on_set_text_conversion(TextConversionMode::SimplifiedToTraditional, &None);
    let mut player = SharedPlayerState::default();
    let raw = RawMediaProperties {
        title: id("一个项目"),
        artist: None,
        album_title: None,
        end_time_ticks: Some(30_000_000),
    };
    let actions = state.process_media_properties_update(&mut player, &id("spotify"), &raw);
    assert_eq!(player.title, "一個項目");
    assert_eq!(player.artist, "");
    assert_eq!(player.song_duration_ms, 3000);
    assert_eq!(actions.len(), 2);
    assert!(matches!(actions[0], SmtcAction::PublishTrack { with_cover: true }));
    assert!(matches!(actions[1], SmtcAction::FetchCover));
    player.cover_data = Some(vec![1]);
    player.cover_data_hash = Some(1);
    let actions = state.process_media_properties_update(&mut player, &id("spotify"), &raw);
    assert_eq!(actions.len(), 1);
    let mut idle = SmtcState::new();
    assert!(idle.process_media_properties_update(&mut player, &id("spotify"), &raw).is_empty());
}

#[test]
fn only_apple_music_artists_are_split() {
    let raw = RawMediaProperties {
        title: id("T"),
        artist: id("A \u{2014} B"),
        album_title: None,
        end_time_ticks: None,
    };
    let mut state = monitoring();
    let mut player = SharedPlayerState::default();
    state.process_media_properties_update(&mut player, &id("spotify"), &raw);
    assert_eq!(player.artist, "A \u{2014} B");
    state.process_media_properties_update(&mut player, &id(APPLE), &raw);
    assert_eq!((player.artist.as_str(), player.album.as_str()), ("A", "B"));
    let mut off = monitoring();
    let mut player = SharedPlayerState::default();
    off.on_set_apple_music_optimization(&mut player, false, &id(APPLE));
    off.process_media_properties_update(&mut player, &id(APPLE), &raw);
    assert_eq!(player.artist, "A \u{2014} B");
}

#[test]
fn cover_art_is_fetched_again_when_asked() {
    let mut state = monitoring();
    assert!(state.spawn_cover_fetch_task(false).is_empty());
    assert_eq!(state.spawn_cover_fetch_task(true).len(), 1);
    let actions = state.spawn_cover_fetch_task(true);
    assert!(matches!(actions[0], SmtcAction::AbortCoverTask));
    assert!(matches!(actions[1], SmtcAction::StartCoverTask));
}

#[test]
fn cover_art_follows_its_outcome() {
    let mut state = monitoring();
    let mut player = SharedPlayerState::default();
    show_track(&mut player, &track("Solaris", "Stellardrone", "", 0));
    let actions = state.on_cover_data_ready(&mut player, CoverOutcome::Loaded(vec![5, 6]));
    assert_eq!(player.cover_data, Some(vec![5, 6]));
    assert_eq!(player.cover_data_hash, Some(calculate_cover_hash(&[5, 6])));
    assert!(matches!(actions[0], SmtcAction::PublishTrack { with_cover: true }));
    let actions = state.on_cover_data_ready(&mut player, CoverOutcome::Missing);
    assert_eq!(player.cover_data, None);
    assert_eq!(player.cover_data_hash, None);
    assert_eq!(actions.len(), 1);
    assert!(state.on_cover_data_ready(&mut player, CoverOutcome::Missing).is_empty());
    let actions = state.on_cover_data_ready(&mut player, CoverOutcome::Failed);
    assert_eq!(actions.len(), 2);
    assert!(matches!(actions[1], SmtcAction::ResetSessions));
    let failed = state.last_failed_cover_track.clone();
    assert_eq!(failed, Some(("Stellardrone".to_string(), "Solaris".to_string())));
    state.update_track_state(&mut player, &track("Eternity", "Stellardrone", "", 0));
    assert_eq!(state.last_failed_cover_track, None);
}

#[test]
fn sessions_without_a_name_are_not_listed() {
    let ids = vec![id("Spotify.exe"), None, id(""), id(APPLE)];
    let state = monitoring();
    let listing = state.get_sessions(&ids);
    assert_eq!(listing.candidates.len(), 2);
    assert_eq!(listing.candidates[1].id, APPLE);
    assert_eq!(listing.candidates[1].index, 3);
    match &listing.actions[0] {
        SmtcAction::Emit(InternalUpdate::SmtcSessionListChanged(infos)) => {
            assert_eq!(infos.len(), 2);
            assert_eq!(infos[0].session_id, "Spotify.exe");
            assert_eq!(infos[0].source_app_user_model_id, "Spotify.exe");
            assert_eq!(infos[1].display_name, "Apple Music");
        }
        _ => panic!("a session list was expected"),
    }
}

#[test]
fn the_selected_session_is_monitored_until_it_vanishes() {
    let candidates = list_candidates(&vec![id("a"), id("b"), id("b")]);
    assert_eq!(choose_session(&None, &candidates), Selection::Current);
    assert_eq!(choose_session(&id("b"), &candidates), Selection::Listed(1));
    let mut state = monitoring();
    state.on_select_session("gone".to_string());
    let choice = state.select_session_to_monitor(&candidates);
    assert_eq!(choice.selection, Selection::Vanished);
    assert!(matches!(
        &choice.actions[0],
        SmtcAction::Emit(InternalUpdate::SelectedSmtcSessionVanished(id)) if id == "gone"
    ));
    assert_eq!(state.target_session_id, None);
    let choice = state.select_session_to_monitor(&candidates);
    assert_eq!(choice.selection, Selection::Current);
    assert!(choice.actions.is_empty());
}

#[test]
fn the_same_session_is_only_notified_again() {
    let mut state = monitoring();
    let mut player = SharedPlayerState::default();
    player.title = "Solaris".to_string();
    let actions =
        state.update_monitoring_session(&mut player, &id("spotify"), true, id("spotify"), false);
    assert_eq!(actions.len(), 1);
    assert!(matches!(&actions[0], SmtcAction::NotifyActiveSession(Some(id)) if id == "spotify"));
    assert_eq!(player.title, "Solaris");
    assert!(state.update_monitoring_session(&mut player, &None, false, None, false).is_empty());
}

#[test]
fn another_session_is_taken_up_anew() {
    let mut state = monitoring();
    let mut player = SharedPlayerState::default();
    player.title = "Solaris".to_string();
    let actions =
        state.update_monitoring_session(&mut player, &id("spotify"), true, id(APPLE), false);
    assert_eq!(actions.len(), 4);
    assert!(matches!(actions[0], SmtcAction::DropSession));
    assert!(matches!(&actions[1], SmtcAction::NotifyActiveSession(Some(id)) if id == APPLE));
    assert!(matches!(actions[2], SmtcAction::InitializeSession));
    assert!(matches!(actions[3], SmtcAction::ApplyOptimizations));
    assert_eq!(player.title, "");
    assert!(!state.has_session);
    let playback = Some(PlaybackInfoUpdate {
        playback_status: PlaybackStatus::Paused,
        is_shuffle_active: false,
        repeat_mode: RepeatMode::One,
        controls: Controls { bits: CAN_PLAY },
    });
    let timeline = Some(Timeline { position_ms: 4000, duration_ms: 9000 });
    let actions = state.initialize_new_session(&mut player, &id(APPLE), &playback, &timeline);
    assert!(state.has_session);
    assert!(is_refresh(&actions[0], APPLE));
    assert!(matches!(actions[1], SmtcAction::PublishTrack { with_cover: true }));
    assert_eq!(player.last_known_position_ms, 4000);
    assert_eq!(player.song_duration_ms, 9000);
    assert_eq!(player.playback_status, PlaybackStatus::Paused);
    assert!(player.last_known_position_report_time.is_some());
}

#[test]
fn shutting_down_ends_what_runs() {
    let mut state = monitoring();
    state.on_set_progress_timer(true);
    state.spawn_cover_fetch_task(true);
    let actions = state.shut_down();
    assert_eq!(actions.len(), 2);
    assert!(matches!(actions[0], SmtcAction::AbortCoverTask));
    assert!(matches!(actions[1], SmtcAction::StopProgressTimer));
    assert!(state.shut_down().is_empty());
}

fn raw_controls() -> RawControls {
    RawControls {
        play: Some(true),
        pause: Some(true),
        next: Some(false),
        previous: None,
        position: Some(true),
        shuffle: None,
        repeat: Some(true),
    }
}

#[test]
fn playback_reports_are_read() {
    assert_eq!(
        extract_controls(&raw_controls()).bits,
        CAN_PLAY | CAN_PAUSE | CAN_SEEK | CAN_CHANGE_REPEAT
    );
    let raw = RawPlaybackInfo {
        status: Some(4),
        is_shuffle_active: None,
        repeat_mode: Some(2),
        controls: Some(raw_controls()),
    };
    let info = extract_playback_info(&raw).unwrap();
    assert_eq!(info.playback_status, PlaybackStatus::Playing);
    assert!(!info.is_shuffle_active);
    assert_eq!(info.repeat_mode, RepeatMode::All);
    let paused = RawPlaybackInfo { status: Some(5), ..raw };
    assert_eq!(extract_playback_info(&paused).unwrap().playback_status, PlaybackStatus::Paused);
    let closed = RawPlaybackInfo { status: Some(0), repeat_mode: None, ..raw };
    let info = extract_playback_info(&closed).unwrap();
    assert_eq!(info.playback_status, PlaybackStatus::Stopped);
    assert_eq!(info.repeat_mode, RepeatMode::Off);
    assert!(extract_playback_info(&RawPlaybackInfo { status: None, ..raw }).is_none());
    assert!(extract_playback_info(&RawPlaybackInfo { controls: None, ..raw }).is_none());
    assert!(matches!(
        playback_info_signal("s", &raw),
        Some(SmtcEventSignal::PlaybackInfoUpdated(id, _)) if id == "s"
    ));
    for mode in [RepeatMode::Off, RepeatMode::One, RepeatMode::All] {
        let raw = RawPlaybackInfo { repeat_mode: Some(repeat_mode_code(mode)), ..raw };
        assert_eq!(extract_playback_info(&raw).unwrap().repeat_mode, mode);
    }
}

#[test]
fn timelines_are_read() {
    let raw = RawTimeline { position_ticks: Some(15_000_000), end_time_ticks: Some(600_000_000) };
    let timeline = extract_timeline(&raw).unwrap();
    assert_eq!(timeline, Timeline { position_ms: 1500, duration_ms: 60000 });
    assert!(extract_timeline(&RawTimeline { end_time_ticks: None, ..raw }).is_none());
    assert!(matches!(
        timeline_signal("s", &raw),
        Some(SmtcEventSignal::TimelinePropertiesUpdated(_, t)) if t == timeline
    ));
    assert!(timeline_signal("s", &RawTimeline { position_ticks: None, ..raw }).is_none());
}

#[test]
fn jitter_does_not_move_playback_back() {
    let mut player = SharedPlayerState {
        last_known_position_ms: 10000,
        song_duration_ms: 60000,
        playback_status: PlaybackStatus::Playing,
        last_known_position_report_time: Some(Instant::now()),
        is_waiting_for_initial_update: true,
        ..Default::default()
    };
    let now = Instant::now();
    let late = Timeline { position_ms: 9500, duration_ms: 60000 };
    assert!(!apply_timeline_at(&mut player, &late, 1000, now));
    assert_eq!(player.last_known_position_ms, 10000);
    assert!(player.is_waiting_for_initial_update);
    let edge = Timeline { position_ms: 9000, duration_ms: 0 };
    assert!(!apply_timeline_at(&mut player, &edge, 1000, now));
    let seek = Timeline { position_ms: 8999, duration_ms: 0 };
    assert!(apply_timeline_at(&mut player, &seek, 1000, now));
    assert_eq!(player.last_known_position_ms, 8999);
    assert!(!player.is_waiting_for_initial_update);
    assert_eq!(player.song_duration_ms, 60000);
    let longer = Timeline { position_ms: 8999, duration_ms: 70000 };
    assert!(apply_timeline_at(&mut player, &longer, 0, now));
    assert_eq!(player.song_duration_ms, 70000);
    let ahead = Timeline { position_ms: 9100, duration_ms: 70000 };
    assert!(apply_timeline_at(&mut player, &ahead, 100, now));
    assert_eq!(player.last_known_position_ms, 9100);
}
