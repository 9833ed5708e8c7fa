use smtc_suite::api::{
    CControlCommandType, CRepeatMode, CSmtcControlCommand, CTextConversionMode,
    ControlCommandData, DiagnosticInfo, DiagnosticLevel, MediaCommand, MediaUpdate,
    NowPlayingInfo, PlaybackStatus, RepeatMode, SharedPlayerState, SmtcControlCommand,
    SmtcSessionInfo, TextConversionMode, UtcTimestamp, VolumeLevel,
};
use smtc_suite::audio_capture::{
    capture_error_update, check_mix_format, last_packet, packet_has_audio, packet_samples,
    packet_send_error, process_audio_data, resampler_chunk_size, wait_decision, AudioCapturer,
    CaptureAction, CaptureEvent, CaptureLoop, MixFormat, StopPlan, WaitDecision,
};
use smtc_suite::audio_session_monitor::{
    find_session_of_process, on_session_disconnected, on_simple_volume_changed, on_state_changed,
    AudioMonitorCommand, AudioSessionMonitor, AudioSessionState, SessionSearch,
};
use smtc_suite::error::{AudioCaptureError, SmtcError};
use smtc_suite::ffi::{
    c_diagnostic_info, convert_to_c_now_playing_info, convert_update, decode_control_command,
    handle_try_send_result, keeps_waiting, listener_action, log_enabled, log_level_from_number,
    log_level_number, Logging, smtc_suite_control_command, smtc_suite_create, smtc_suite_destroy,
    smtc_suite_get_version, smtc_suite_init_logging, smtc_suite_register_update_callback,
    smtc_suite_request_update, smtc_suite_select_session,
    smtc_suite_set_high_frequency_progress_updates, smtc_suite_set_text_conversion_mode,
    smtc_suite_start_audio_capture, smtc_suite_stop_audio_capture, to_c_text, update_type,
    CDiagnosticLevel, CLogLevel, CUpdate, CUpdateType, ListenerAction, ListenerEvent,
    SendOutcome, SmtcResult,
};
use smtc_suite::samples::{
    bytes_to_samples, convert_channels, interleave, samples_to_bytes, PlanarBuffer,
};
use smtc_suite::smtc_handler::CoverOutcome;
use smtc_suite::tasks::{cover_bytes_to_read, fetch_outcome, signals_progress, FetchEnd};
use smtc_suite::volume_control::{
    derive_executable_name_from_aumid, find_pid, find_session_control,
    get_pid_from_executable_name, get_pid_from_identifier, parse_uwp_identifier, session_belongs,
    split_package, volume_report, AudioSessionEntry, EasingAction, EasingEvent, ProcessEntry,
    VolumeEasing, VOLUME_EASING_STEP_MS,
};
use smtc_suite::worker::{
    InternalCommand, InternalUpdate, MediaWorker, WorkerAction, WorkerEvent,
};
use smtc_suite::{MediaManager, WorkerThread};

#[test]
fn errors_say_what_happened() {
    let e = |text: &str| text.to_string();
    let cases = vec![
        (SmtcError::WorkerThread(e("x")), "Unable to start worker thread: x"),
        (SmtcError::Windows(e("x")), "Windows API call failed: x"),
        (SmtcError::Resample(e("x")), "Audio resampling process failed: x"),
        (SmtcError::ResamplerConstruction(e("x")), "Audio resampler creation failed: x"),
        (SmtcError::CommandSendError, "Failed to send external command to worker thread"),
        (SmtcError::VolumeControl(e("x")), "Volume control failed: x"),
        (SmtcError::TokioRuntime(e("x")), "Tokio runtime creation failed: x"),
        (
            SmtcError::AlreadyRunning,
            "The media service is already running and cannot be started again.",
        ),
        (SmtcError::MutexPoisoned(e("x")), "The lock has been poisoned: x"),
        (
            SmtcError::AudioCapture(AudioCaptureError::ComError(e("x"))),
            "Audio capture failed: COM Error: x",
        ),
    ];
    for (error, text) in cases {
        assert_eq!(error.message(), text);
    }
    let cases = vec![
        (AudioCaptureError::ResamplerConstructionError(e("x")), "Resampler construction error: x"),
        (AudioCaptureError::ResamplerProcessingError(e("x")), "Resampler processing error: x"),
        (AudioCaptureError::SendError(e("x")), "Channel Send Error: x"),
        (
            AudioCaptureError::UnsupportedFormat { format_tag: 65534, bits_per_sample: 16 },
            "Unsupported audio format: tag=65534, bits=16",
        ),
        (
            AudioCaptureError::UnsupportedFormat { format_tag: 0, bits_per_sample: 8 },
            "Unsupported audio format: tag=0, bits=8",
        ),
        (AudioCaptureError::GetMixFormatReturnedNull, "GetMixFormat returned a null pointer"),
        (AudioCaptureError::BytesToSampleConversion, "Failed to convert byte slice to f32 sample"),
    ];
    for (error, text) in cases {
        assert_eq!(error.message(), text);
    }
}

#[test]
fn the_service_is_started_once() {
    assert!(MediaManager::start(WorkerThread::NeverStarted).is_ok());
    assert!(MediaManager::start(WorkerThread::Finished).is_ok());
    assert!(matches!(
        MediaManager::start(WorkerThread::Running),
        Err(SmtcError::AlreadyRunning)
    ));
    assert!(matches!(
        MediaManager::start(WorkerThread::Unknown("why".to_string())),
        Err(SmtcError::MutexPoisoned(text)) if text == "why"
    ));
}

#[test]
fn the_worker_forwards_commands() {
    let mut worker = MediaWorker::new();
    let step = worker.handle_event(WorkerEvent::Command(MediaCommand::SetProgressOffset(9)));
    assert!(!step.stop);
    assert!(matches!(
        step.actions[0],
        WorkerAction::SendCommand(InternalCommand::SetProgressOffset(9))
    ));
    let step = worker.handle_event(WorkerEvent::Command(MediaCommand::SelectSession("s".to_string())));
    assert!(matches!(
        &step.actions[0],
        WorkerAction::SendCommand(InternalCommand::SelectSmtcSession(id)) if id == "s"
    ));
    let step = worker.handle_event(WorkerEvent::Command(MediaCommand::Shutdown));
    assert!(step.stop && step.actions.is_empty());
}

#[test]
fn the_end_of_diagnostics_changes_nothing() {
    let mut worker = MediaWorker::new();
    let step = worker.handle_event(WorkerEvent::Diagnostic(None));
    assert!(!step.stop && step.actions.is_empty());
    assert_eq!(worker, MediaWorker::new());
}

#[test]
fn the_worker_publishes_updates() {
    let mut worker = MediaWorker::new();
    let update = InternalUpdate::AudioDataPacket(vec![1, 2]);
    let step = worker.handle_event(WorkerEvent::Update(update));
    assert!(matches!(
        &step.actions[0],
        WorkerAction::Publish(MediaUpdate::AudioData(data)) if data == &vec![1, 2]
    ));
    let update = InternalUpdate::ActiveSmtcSessionChanged { pid: Some(7) };
    let step = worker.handle_event(WorkerEvent::Update(update));
    assert_eq!(step.actions.len(), 1);
    assert!(matches!(
        step.actions[0],
        WorkerAction::SendMonitorCommand(AudioMonitorCommand::StartMonitoring(7))
    ));
    let update = InternalUpdate::ActiveSmtcSessionChanged { pid: None };
    let step = worker.handle_event(WorkerEvent::Update(update));
    assert!(matches!(
        step.actions[0],
        WorkerAction::SendMonitorCommand(AudioMonitorCommand::StopMonitoring)
    ));
    let update = on_session_disconnected("s");
    let step = worker.handle_event(WorkerEvent::Update(update));
    assert!(matches!(
        step.actions[0],
        WorkerAction::SendMonitorCommand(AudioMonitorCommand::StopMonitoring)
    ));
    let update = on_state_changed("s", 0).unwrap();
    assert!(worker.handle_event(WorkerEvent::Update(update)).actions.is_empty());
}

#[test]
fn the_worker_captures_once() {
    let mut worker = MediaWorker::new();
    let step = worker.handle_event(WorkerEvent::Command(MediaCommand::StartAudioCapture));
    assert!(matches!(step.actions[0], WorkerAction::StartCapture));
    worker.capture_started(true);
    let step = worker.handle_event(WorkerEvent::Command(MediaCommand::StartAudioCapture));
    assert!(step.actions.is_empty());
    let step = worker.handle_event(WorkerEvent::AudioUpdate(None));
    assert_eq!(step.actions.len(), 3);
    assert!(matches!(
        &step.actions[0],
        WorkerAction::Publish(MediaUpdate::Error(text)) if text == "Audio capture failure"
    ));
    assert!(matches!(step.actions[1], WorkerAction::StopCapture));
    assert!(matches!(step.actions[2], WorkerAction::CloseAudioChannel));
    assert!(!worker.capturing);
}

#[test]
fn the_worker_shuts_everything_down_in_order() {
    let mut worker = MediaWorker::new();
    worker.capture_started(true);
    assert!(worker.dropped_unexpectedly());
    let actions = worker.shutdown_all_subsystems();
    assert_eq!(actions.len(), 8);
    assert!(matches!(actions[0], WorkerAction::CloseCommandChannel));
    assert!(matches!(actions[3], WorkerAction::SignalListenerShutdown));
    assert!(matches!(actions[4], WorkerAction::AwaitMonitor));
    assert!(matches!(actions[7], WorkerAction::CloseAudioChannel));
    assert!(worker.shutdown_all_subsystems().is_empty());
    assert!(!worker.dropped_unexpectedly());
}

fn processes() -> Vec<ProcessEntry> {
    let entry = |name: &str, pid: u32| ProcessEntry { name: name.to_string(), pid };
    vec![entry("System", 4), entry("spotify.EXE", 100), entry("AppleMusic.exe", 200)]
}

#[test]
fn executable_names_are_derived() {
    assert_eq!(
        derive_executable_name_from_aumid("AppleInc.AppleMusicWin_nzyj5cx40ttqa!App"),
        "AppleMusic.exe"
    );
    assert_eq!(
        derive_executable_name_from_aumid("Microsoft.ZuneMusic_8wekyb3d8bbwe!Microsoft.ZuneMusic"),
        "ZuneMusic.exe"
    );
    assert_eq!(derive_executable_name_from_aumid("a.PlayerDesktopUwp_x!y"), "Player.exe");
}

#[test]
fn processes_are_found_by_identifier() {
    let all = processes();
    assert_eq!(get_pid_from_executable_name(&all, "Spotify.exe"), Some(100));
    assert_eq!(get_pid_from_executable_name(&all, "Spotify"), None);
    assert_eq!(get_pid_from_identifier(&all, "Spotify.exe"), Some(100));
    assert_eq!(get_pid_from_identifier(&all, "Spotify"), Some(100));
    assert_eq!(
        get_pid_from_identifier(&all, "AppleInc.AppleMusicWin_nzyj5cx40ttqa!App"),
        Some(200)
    );
    assert_eq!(get_pid_from_identifier(&all, "nothing"), None);
    assert_eq!(find_pid(&all, "Spotify", "spotify.exe"), None);
}

#[test]
fn package_names_are_split() {
    assert_eq!(split_package("A.B_c_d!App"), Some(("A.B_c", "d")));
    assert_eq!(split_package("A.B!App"), None);
    assert_eq!(split_package("A.B_c"), None);
    assert_eq!(
        parse_uwp_identifier("Apple.Music_NZY!App"),
        Some(("apple.music".to_string(), "nzy".to_string()))
    );
}

fn session(state: i32, pid: u32, identifier: &str, icon: &str) -> AudioSessionEntry {
    AudioSessionEntry {
        state: Some(state),
        pid: Some(pid),
        identifier: Some(identifier.to_string()),
        icon_path: Some(icon.to_string()),
    }
}

#[test]
fn audio_sessions_are_found() {
    let all = processes();
    let sessions = vec![
        session(0, 100, "", ""),
        session(1, 300, "", ""),
        session(1, 100, "", ""),
    ];
    assert_eq!(find_session_control("Spotify", &all, &sessions).unwrap(), 2);
    let sessions = vec![
        session(1, 0, "{x}\\Apple.MUSIC_nzy", ""),
        session(1, 0, "", "C:\\Apple.Music_1.0_NZY\\icon"),
    ];
    assert_eq!(find_session_control("Apple.Music_nzy!App", &all, &sessions).unwrap(), 0);
    let icons = vec![session(1, 0, "", "C:\\Apple.Music_1.0_NZY\\icon")];
    assert_eq!(find_session_control("Apple.Music_nzy!App", &all, &icons).unwrap(), 0);
    match find_session_control("Vendor.App_id!x", &all, &sessions) {
        Err(SmtcError::VolumeControl(text)) => {
            assert_eq!(text, "未能为标识符 'Vendor.App_id!x' 找到匹配的活动音频会话。");
        }
        _ => panic!("no session was expected"),
    }
    assert!(!session_belongs(Some(0), &None, Some(0), &None, &None));
}

#[test]
fn volume_changes_run_step_by_step() {
    assert_eq!(VOLUME_EASING_STEP_MS, 16);
    let target = VolumeLevel { bits: 9 };
    let begin = || VolumeEasing::new("s".to_string(), target);
    let mut easing = begin();
    let mut action = easing.next(EasingEvent::Measured(Some(false)));
    for step in 0..16 {
        assert!(matches!(action, EasingAction::Wait));
        assert!(matches!(easing.next(EasingEvent::Waited), EasingAction::SetStep(s) if s == step));
        action = easing.next(EasingEvent::VolumeSet(true));
    }
    assert!(matches!(action, EasingAction::SetFinal));
    let read = easing.next(EasingEvent::VolumeSet(false));
    assert!(matches!(read, EasingAction::ReadVolumeAndMute));
    let reached = EasingEvent::Read {
        volume: Some(VolumeLevel { bits: 8 }),
        is_muted: Some(true),
    };
    assert!(matches!(
        easing.next(reached),
        EasingAction::Report(InternalUpdate::AudioSessionVolumeChanged {
            session_id,
            volume: VolumeLevel { bits: 8 },
            is_muted: true,
        }) if session_id == "s"
    ));
    assert!(matches!(easing.next(EasingEvent::Waited), EasingAction::Finish));

    let mut close = begin();
    let set = close.next(EasingEvent::Measured(Some(true)));
    assert!(matches!(set, EasingAction::SetTarget));
    assert!(matches!(close.next(EasingEvent::VolumeSet(false)), EasingAction::ReadMute));
    let muted = EasingEvent::Read { volume: None, is_muted: Some(false) };
    assert!(matches!(
        close.next(muted),
        EasingAction::Report(InternalUpdate::AudioSessionVolumeChanged {
            volume: VolumeLevel { bits: 9 },
            is_muted: false,
            ..
        })
    ));

    let mut cancelled = begin();
    cancelled.next(EasingEvent::Measured(Some(false)));
    assert!(matches!(cancelled.next(EasingEvent::Cancelled), EasingAction::SetFinal));
    cancelled.next(EasingEvent::VolumeSet(true));
    let unread = EasingEvent::Read { volume: None, is_muted: Some(false) };
    assert!(matches!(cancelled.next(unread), EasingAction::Finish));

    let mut failed = begin();
    failed.next(EasingEvent::Measured(Some(false)));
    failed.next(EasingEvent::Waited);
    assert!(matches!(failed.next(EasingEvent::VolumeSet(false)), EasingAction::SetFinal));

    let mut unmeasured = begin();
    assert!(matches!(unmeasured.next(EasingEvent::Measured(None)), EasingAction::Finish));

    let level = VolumeLevel { bits: 1 };
    assert!(volume_report("s".to_string(), Some(level), None).is_none());
    assert!(matches!(
        volume_report("s".to_string(), Some(level), Some(true)),
        Some(InternalUpdate::AudioSessionVolumeChanged { is_muted: true, .. })
    ));
}

#[test]
fn one_audio_session_is_monitored() {
    let mut monitor = AudioSessionMonitor::new();
    let plan = monitor.handle_command(AudioMonitorCommand::StartMonitoring(5));
    assert!(!plan.unregister);
    assert_eq!(plan.search, Some(5));
    monitor.session_registered();
    let plan = monitor.handle_command(AudioMonitorCommand::StopMonitoring);
    assert!(plan.unregister);
    assert_eq!(plan.search, None);
    assert!(!monitor.stop_monitoring_internal());
    assert_eq!(find_session_of_process(&vec![Some(1), Some(5)], 5), SessionSearch::Found(1));
    assert_eq!(find_session_of_process(&vec![Some(1)], 5), SessionSearch::NotFound);
    assert_eq!(find_session_of_process(&vec![None, Some(5)], 5), SessionSearch::Failed);
    assert!(on_state_changed("s", 1).is_none());
    assert!(matches!(
        on_state_changed("s", 2),
        Some(InternalUpdate::AudioSessionStateChanged {
            new_state: AudioSessionState::Expired,
            ..
        })
    ));
    assert!(matches!(
        on_simple_volume_changed("s", VolumeLevel { bits: 3 }, false),
        InternalUpdate::AudioSessionVolumeChanged { volume: VolumeLevel { bits: 3 }, .. }
    ));
}

#[test]
fn cover_tasks_decide() {
    assert_eq!(cover_bytes_to_read(0), None);
    assert_eq!(cover_bytes_to_read(20971520), Some(20971520));
    assert_eq!(cover_bytes_to_read(20971521), None);
    assert!(matches!(fetch_outcome(FetchEnd::Cancelled), CoverOutcome::Failed));
    assert!(matches!(fetch_outcome(FetchEnd::TimedOut), CoverOutcome::Failed));
    assert!(matches!(fetch_outcome(FetchEnd::Error), CoverOutcome::Failed));
    assert!(matches!(fetch_outcome(FetchEnd::Done(None)), CoverOutcome::Missing));
    assert!(matches!(
        fetch_outcome(FetchEnd::Done(Some(vec![1]))),
        CoverOutcome::Loaded(data) if data == vec![1]
    ));
    let mut player = SharedPlayerState::default();
    assert!(!signals_progress(&player));
    player.playback_status = PlaybackStatus::Playing;
    assert!(signals_progress(&player));
    player.is_waiting_for_initial_update = true;
    assert!(!signals_progress(&player));
}

fn mix_format() -> MixFormat {
    MixFormat {
        format_tag: 0xFFFE,
        channels: 2,
        samples_per_sec: 48000,
        bits_per_sample: 32,
        extension_size: 22,
        extension_is_float: true,
    }
}

#[test]
fn mix_formats_are_checked() {
    assert!(check_mix_format(Some(mix_format())).is_ok());
    assert!(check_mix_format(Some(MixFormat { format_tag: 3, ..mix_format() })).is_ok());
    let refused = vec![
        MixFormat { format_tag: 1, ..mix_format() },
        MixFormat { extension_size: 21, ..mix_format() },
        MixFormat { extension_is_float: false, ..mix_format() },
        MixFormat { bits_per_sample: 16, ..mix_format() },
    ];
    for format in refused {
        assert!(matches!(
            check_mix_format(Some(format)),
            Err(AudioCaptureError::UnsupportedFormat { format_tag, bits_per_sample })
                if format_tag == format.format_tag && bits_per_sample == format.bits_per_sample
        ));
    }
    assert!(matches!(
        check_mix_format(None),
        Err(AudioCaptureError::GetMixFormatReturnedNull)
    ));
    assert_eq!(resampler_chunk_size(48000), None);
    assert_eq!(resampler_chunk_size(44100), Some(4410));
    assert_eq!(resampler_chunk_size(2000), Some(256));
}

#[test]
fn captured_packets_are_read() {
    assert_eq!(wait_decision(0), WaitDecision::Stop);
    assert_eq!(wait_decision(1), WaitDecision::Drain);
    assert_eq!(wait_decision(258), WaitDecision::Fail);
    assert!(packet_has_audio(480, 1, true));
    assert!(!packet_has_audio(480, 3, true));
    assert!(!packet_has_audio(0, 0, true));
    assert!(!packet_has_audio(480, 0, false));
    let bytes = 1.5f32.to_le_bytes();
    assert_eq!(packet_samples(&bytes, 32).unwrap(), vec![1.5f32.to_bits()]);
    assert!(matches!(
        packet_samples(&bytes, 16),
        Err(AudioCaptureError::BytesToSampleConversion)
    ));
    assert_eq!(packet_samples(&[1], 16).unwrap(), Vec::<u32>::new());
}

#[test]
fn samples_are_bytes_of_numbers() {
    let numbers = [0.25f32, -1.0, 3.5e10];
    let bits: Vec<u32> = numbers.iter().map(|x| x.to_bits()).collect();
    let bytes = samples_to_bytes(&bits);
    let expected: Vec<u8> = numbers.iter().flat_map(|x| x.to_le_bytes()).collect();
    assert_eq!(bytes, expected);
    assert_eq!(bytes_to_samples(&bytes), bits);
    assert_eq!(bytes_to_samples(&bytes[..5]), bits[..1].to_vec());
}

#[test]
fn channels_are_converted() {
    assert_eq!(convert_channels(vec![1, 2, 3, 4], 2, 2), vec![1, 2, 3, 4]);
    assert_eq!(convert_channels(vec![1, 2], 1, 2), vec![1, 1, 2, 2]);
    assert_eq!(convert_channels(vec![1, 2, 3, 4, 5, 6, 7], 3, 2), vec![1, 2, 4, 5]);
    assert_eq!(convert_channels(vec![1, 2, 3], 3, 4), vec![1, 2, 3]);
    assert!(process_audio_data(Vec::new(), 2).is_none());
    assert!(process_audio_data(vec![1, 2], 3).is_none());
    assert!(matches!(
        process_audio_data(vec![1, 256], 2),
        Some(InternalUpdate::AudioDataPacket(data)) if data == vec![1, 0, 0, 0, 0, 1, 0, 0]
    ));
}

#[test]
fn channels_are_dealt_out_and_put_together() {
    let mut buffer: PlanarBuffer<u32> = PlanarBuffer::new(2);
    buffer.push_interleaved(&[1, 10, 2, 20, 3]);
    assert_eq!(buffer.channels, vec![vec![1, 2, 3], vec![10, 20]]);
    assert!(buffer.chunk_ready(2));
    assert!(!buffer.chunk_ready(3));
    let chunk = buffer.take_chunk(2);
    assert_eq!(chunk, vec![vec![1, 2], vec![10, 20]]);
    assert_eq!(buffer.channels, vec![vec![3], vec![]]);
    assert_eq!(interleave(&chunk, 2), vec![1, 10, 2, 20]);
    assert!(buffer.pad_last(3, 9));
    assert_eq!(buffer.channels, vec![vec![3, 9, 9], vec![9, 9, 9]]);
    let mut empty: PlanarBuffer<u32> = PlanarBuffer::new(2);
    assert!(!empty.pad_last(3, 9));
    assert_eq!(empty.channels[0].len(), 0);
}

fn packet(samples: &[u32]) -> CaptureEvent {
    CaptureEvent::Packet {
        frames: samples.len() as u32,
        flags: 0,
        bytes: Some(samples_to_bytes(&samples.to_vec())),
    }
}

#[test]
fn capture_without_resampling() {
    let mut capture = CaptureLoop::new(2, 32, None);
    assert!(matches!(capture.advance(CaptureEvent::Waited(1)), CaptureAction::AskPacketSize));
    assert!(matches!(capture.advance(CaptureEvent::PacketSize(2)), CaptureAction::FetchPacket));
    match capture.advance(packet(&[1, 2])) {
        CaptureAction::Send(InternalUpdate::AudioDataPacket(data)) => {
            assert_eq!(data, vec![1, 0, 0, 0, 2, 0, 0, 0]);
        }
        _ => panic!("a packet was expected"),
    }
    assert!(matches!(capture.advance(CaptureEvent::Sent(true)), CaptureAction::AskPacketSize));
    let silent = CaptureEvent::Packet { frames: 2, flags: 2, bytes: Some(vec![1; 8]) };
    assert!(matches!(capture.advance(silent), CaptureAction::AskPacketSize));
    let nothing = CaptureEvent::Packet { frames: 2, flags: 0, bytes: None };
    assert!(matches!(capture.advance(nothing), CaptureAction::AskPacketSize));
    assert!(matches!(capture.advance(CaptureEvent::PacketSize(0)), CaptureAction::Wait));
    assert!(matches!(capture.advance(CaptureEvent::Waited(5)), CaptureAction::FailWait));
    assert!(matches!(capture.advance(CaptureEvent::Waited(0)), CaptureAction::Finish));
    match capture.advance(CaptureEvent::Sent(false)) {
        CaptureAction::Fail(error) => assert_eq!(
            error.message(),
            "Audio capture failed: Channel Send Error: Failed to send audio packet. The channel may be closed."
        ),
        _ => panic!("an error was expected"),
    }
    assert!(capture.last_chunk().is_none());
}

#[test]
fn capture_with_resampling() {
    let mut capture = CaptureLoop::new(2, 32, Some(2));
    assert!(matches!(capture.advance(packet(&[1, 10])), CaptureAction::AskPacketSize));
    match capture.advance(packet(&[2, 20, 3, 30])) {
        CaptureAction::Resample(chunk) => assert_eq!(chunk, vec![vec![1, 2], vec![10, 20]]),
        _ => panic!("a chunk was expected"),
    }
    let resampled = CaptureEvent::Resampled {
        channels: vec![vec![7, 8, 0], vec![70, 80, 0]],
        valid_frames: 2,
    };
    match capture.advance(resampled) {
        CaptureAction::Send(InternalUpdate::AudioDataPacket(data)) => {
            assert_eq!(bytes_to_samples(&data), vec![7, 70, 8, 80]);
        }
        _ => panic!("a packet was expected"),
    }
    assert_eq!(capture.last_chunk(), Some(vec![vec![3, 0], vec![30, 0]]));
    assert_eq!(capture.last_chunk(), None);
    assert!(matches!(
        last_packet(vec![vec![5], vec![6]], 1),
        Some(InternalUpdate::AudioDataPacket(data)) if data == vec![5, 0, 0, 0, 6, 0, 0, 0]
    ));
    assert!(last_packet(vec![vec![5], vec![6]], 0).is_none());
    let mut odd = CaptureLoop::new(2, 16, None);
    assert!(matches!(
        odd.advance(packet(&[1])),
        CaptureAction::Fail(SmtcError::AudioCapture(AudioCaptureError::BytesToSampleConversion))
    ));
}

#[test]
fn a_capture_is_started_and_stopped() {
    let mut capturer = AudioCapturer::new();
    assert_eq!(capturer.stop_capture(), StopPlan { signal: false, join: false });
    assert!(capturer.start_capture());
    capturer.capture_started(true);
    assert!(!capturer.start_capture());
    assert_eq!(capturer.stop_capture(), StopPlan { signal: true, join: true });
    assert!(capturer.start_capture());
    assert!(matches!(
        capture_error_update(&packet_send_error()),
        InternalUpdate::AudioCaptureError(text)
            if text == "Audio capture failed: Channel Send Error: Failed to send audio packet. The channel may be closed."
    ));
}

#[test]
fn c_texts_hold_no_zero() {
    assert_eq!(to_c_text("Solaris"), "Solaris");
    assert_eq!(to_c_text("a\0b"), "");
}

#[test]
fn tracks_are_told_to_c() {
    let info = NowPlayingInfo {
        title: Some("Solaris".to_string()),
        artist: Some("bad\0artist".to_string()),
        duration_ms: Some(5),
        playback_status: Some(PlaybackStatus::Playing),
        ..Default::default()
    };
    let c = convert_to_c_now_playing_info(&info);
    assert_eq!(c.title, "Solaris");
    assert_eq!(c.artist, "");
    assert_eq!(c.album_title, "");
    assert_eq!(c.duration_ms, 5);
    assert_eq!(c.position_ms, 0);
    assert!(c.is_playing);
    let c = convert_to_c_now_playing_info(&NowPlayingInfo::default());
    assert!(!c.is_playing);
}

fn diagnostic(secs: i64, nanos: u32) -> DiagnosticInfo {
    DiagnosticInfo {
        level: DiagnosticLevel::Warning,
        message: "careful".to_string(),
        timestamp: UtcTimestamp { secs, nanos },
    }
}

#[test]
fn updates_are_told_to_c() {
    let sessions = vec![SmtcSessionInfo {
        session_id: "s".to_string(),
        source_app_user_model_id: "s".to_string(),
        display_name: "S".to_string(),
    }];
    let c = convert_update(MediaUpdate::SessionsChanged(sessions)).unwrap();
    assert_eq!(update_type(&c), CUpdateType::SessionsChanged);
    assert!(matches!(&c, CUpdate::SessionsChanged(list)
        if list.count == 1 && list.sessions[0].display_name == "S"));
    let c = convert_update(MediaUpdate::AudioData(vec![1, 2, 3])).unwrap();
    assert!(matches!(&c, CUpdate::AudioData(p) if p.len == 3 && p.data == vec![1, 2, 3]));
    let c = convert_update(MediaUpdate::Error("e".to_string())).unwrap();
    assert_eq!(update_type(&c), CUpdateType::Error);
    let c = convert_update(MediaUpdate::SelectedSessionVanished("v".to_string())).unwrap();
    assert!(matches!(&c, CUpdate::SelectedSessionVanished(id) if id == "v"));
    let c = convert_update(MediaUpdate::VolumeChanged {
        session_id: "s".to_string(),
        volume: VolumeLevel { bits: 7 },
        is_muted: true,
    })
    .unwrap();
    assert!(matches!(&c, CUpdate::VolumeChanged(e) if e.volume.bits == 7 && e.is_muted));
    let c = convert_update(MediaUpdate::TrackChanged(NowPlayingInfo::default())).unwrap();
    assert_eq!(update_type(&c), CUpdateType::TrackChanged);
    let c = convert_update(MediaUpdate::Diagnostic(diagnostic(1431648000, 0))).unwrap();
    assert!(matches!(&c, CUpdate::Diagnostic(d) if d.level == CDiagnosticLevel::Warning
        && d.message == "careful" && d.timestamp_str == "2015-05-15T00:00:00+00:00"));
    assert!(convert_update(MediaUpdate::Diagnostic(diagnostic(0, 3_000_000_000))).is_none());
    let c = c_diagnostic_info(&diagnostic(0, 0), "then");
    assert_eq!(c.timestamp_str, "then");
}

#[test]
fn moments_end_where_the_calendar_ends() {
    let told = |secs: i64, nanos: u32| {
        convert_update(MediaUpdate::Diagnostic(diagnostic(secs, nanos))).is_some()
    };
    assert!(told(-8334601228800, 0));
    assert!(!told(-8334601228801, 0));
    assert!(told(8210266876799, 999_999_999));
    assert!(!told(8210266876800, 0));
    assert!(told(59, 1_999_999_999));
    assert!(told(-1, 1_999_999_999));
    assert!(!told(59, 2_000_000_000));
    assert!(told(58, 1_999_999_999));
    assert!(!told(58, 2_000_000_000));
    assert!(told(8210266876799, 1_999_999_999));
    let leap = convert_update(MediaUpdate::Diagnostic(diagnostic(1431648000, 1_500_000_000)));
    assert!(matches!(leap, Some(CUpdate::Diagnostic(d))
        if d.timestamp_str == "2015-05-15T00:00:01.500+00:00"));
    let exact = convert_update(MediaUpdate::Diagnostic(diagnostic(1431648000, 1_000)));
    assert!(matches!(exact, Some(CUpdate::Diagnostic(d))
        if d.timestamp_str == "2015-05-15T00:00:00.000001+00:00"));
}

#[test]
fn calls_from_c_become_commands() {
    let handle = smtc_suite_create(true, true, true).unwrap();
    let h = Some(&handle);
    assert!(matches!(smtc_suite_request_update(h), Ok(MediaCommand::RequestUpdate)));
    assert!(matches!(
        smtc_suite_set_high_frequency_progress_updates(h, true),
        Ok(MediaCommand::SetHighFrequencyProgressUpdates(true))
    ));
    assert!(matches!(
        smtc_suite_select_session(h, Some("s".to_string())),
        Ok(MediaCommand::SelectSession(id)) if id == "s"
    ));
    assert!(matches!(
        smtc_suite_select_session(h, None),
        Ok(MediaCommand::SelectSession(id)) if id.is_empty()
    ));
    assert!(matches!(
        smtc_suite_set_text_conversion_mode(h, CTextConversionMode::SimplifiedToTaiwan),
        Ok(MediaCommand::SetTextConversion(TextConversionMode::SimplifiedToTaiwan))
    ));
    assert!(matches!(smtc_suite_start_audio_capture(h), Ok(MediaCommand::StartAudioCapture)));
    assert!(matches!(smtc_suite_stop_audio_capture(h), Ok(MediaCommand::StopAudioCapture)));
    assert!(matches!(smtc_suite_request_update(None), Err(SmtcResult::InvalidHandle)));
    let data = ControlCommandData {
        seek_to_ms: 77,
        volume_level: VolumeLevel { bits: 5 },
        is_shuffle_active: true,
        repeat_mode: CRepeatMode::All,
    };
    let command = |command_type| CSmtcControlCommand { command_type, data };
    let cases = vec![
        (CControlCommandType::Pause, SmtcControlCommand::Pause),
        (CControlCommandType::Play, SmtcControlCommand::Play),
        (CControlCommandType::SkipNext, SmtcControlCommand::SkipNext),
        (CControlCommandType::SkipPrevious, SmtcControlCommand::SkipPrevious),
        (CControlCommandType::SeekTo, SmtcControlCommand::SeekTo(77)),
        (CControlCommandType::SetVolume, SmtcControlCommand::SetVolume(VolumeLevel { bits: 5 })),
        (CControlCommandType::SetShuffle, SmtcControlCommand::SetShuffle(true)),
        (CControlCommandType::SetRepeatMode, SmtcControlCommand::SetRepeatMode(RepeatMode::All)),
    ];
    for (kind, expected) in cases {
        assert_eq!(decode_control_command(command(kind)), expected);
        assert!(matches!(
            smtc_suite_control_command(h, command(kind)),
            Ok(MediaCommand::Control(c)) if c == expected
        ));
    }
}

#[test]
fn handles_live_and_die() {
    assert_eq!(smtc_suite_create(false, true, true), Err(SmtcResult::InternalError));
    assert_eq!(smtc_suite_create(true, false, true), Err(SmtcResult::CreationFailed));
    assert_eq!(smtc_suite_create(true, true, false), Err(SmtcResult::CreationFailed));
    let mut handle = smtc_suite_create(true, true, true).unwrap();
    let first = smtc_suite_register_update_callback(&mut handle, true, true, true);
    assert_eq!(first.result, SmtcResult::Success);
    assert!(first.start_listener && handle.has_callback);
    let second = smtc_suite_register_update_callback(&mut handle, true, true, true);
    assert!(second.store_callback && !second.start_listener);
    smtc_suite_register_update_callback(&mut handle, false, true, true);
    assert!(!handle.has_callback);
    let poisoned = smtc_suite_register_update_callback(&mut handle, true, false, true);
    assert_eq!(poisoned.result, SmtcResult::InternalError);
    let plan = smtc_suite_destroy(&mut handle);
    assert!(plan.cancel && plan.shut_down && plan.await_listener && plan.free);
    assert!(!smtc_suite_destroy(&mut handle).free);
    assert_eq!(smtc_suite_request_update(Some(&handle)).err(), Some(SmtcResult::InvalidHandle));
    let late = smtc_suite_register_update_callback(&mut handle, true, true, true);
    assert_eq!(late.result, SmtcResult::InvalidHandle);
    assert!(keeps_waiting(false, 4999));
    assert!(!keeps_waiting(false, 5000));
    assert!(!keeps_waiting(true, 0));
}

#[test]
fn calls_are_answered() {
    let start = MediaCommand::StartAudioCapture;
    assert_eq!(handle_try_send_result(&start, SendOutcome::Sent), SmtcResult::Success);
    assert_eq!(handle_try_send_result(&start, SendOutcome::Full), SmtcResult::ChannelFull);
    assert_eq!(handle_try_send_result(&start, SendOutcome::Closed), SmtcResult::InternalError);
    let progress = MediaCommand::SetHighFrequencyProgressUpdates(true);
    assert_eq!(handle_try_send_result(&progress, SendOutcome::Sent), SmtcResult::Success);
    assert_eq!(handle_try_send_result(&progress, SendOutcome::Full), SmtcResult::InternalError);
    assert_eq!(handle_try_send_result(&progress, SendOutcome::Closed), SmtcResult::InternalError);
    assert_eq!(listener_action(ListenerEvent::Update, true), ListenerAction::Invoke);
    assert_eq!(listener_action(ListenerEvent::Update, false), ListenerAction::Drop);
    assert_eq!(listener_action(ListenerEvent::Disconnected, true), ListenerAction::Exit);
    assert_eq!(listener_action(ListenerEvent::Shutdown, true), ListenerAction::Exit);
    assert_eq!(smtc_suite_get_version(), "0.1.0");
    let mut logging: Logging<u8> = Logging::new();
    assert_eq!(logging.receiver(CLogLevel::Error, Some(CLogLevel::Trace)), None);
    let plan = smtc_suite_init_logging(&mut logging, 1, CLogLevel::Info, true);
    assert_eq!(plan.result, SmtcResult::Success);
    assert_eq!(plan.set_level, Some(CLogLevel::Info));
    let plan = smtc_suite_init_logging(&mut logging, 2, CLogLevel::Trace, true);
    assert_eq!(plan.result, SmtcResult::InternalError);
    assert_eq!(plan.set_level, None);
    assert_eq!(logging.max_level, Some(CLogLevel::Info));
    assert_eq!(logging.receiver(CLogLevel::Warn, logging.max_level), Some(1));
    assert_eq!(logging.receiver(CLogLevel::Debug, logging.max_level), None);
    assert_eq!(logging.receiver(CLogLevel::Error, None), None);

    let mut refused: Logging<u8> = Logging::new();
    let plan = smtc_suite_init_logging(&mut refused, 1, CLogLevel::Info, false);
    assert_eq!(plan.result, SmtcResult::InternalError);
    assert_eq!(plan.set_level, None);
    assert_eq!(refused.receiver(CLogLevel::Error, Some(CLogLevel::Trace)), None);
    let plan = smtc_suite_init_logging(&mut refused, 2, CLogLevel::Info, true);
    assert_eq!(plan.result, SmtcResult::InternalError);
    assert_eq!(refused.target, Some(1));
}

#[test]
fn log_levels_are_numbers() {
    for number in 1..=5 {
        let level = log_level_from_number(number).unwrap();
        assert_eq!(log_level_number(level), number);
    }
    assert_eq!(log_level_from_number(0), None);
    assert_eq!(log_level_from_number(6), None);
    assert!(log_enabled(CLogLevel::Warn, CLogLevel::Info));
    assert!(!log_enabled(CLogLevel::Trace, CLogLevel::Info));
}
