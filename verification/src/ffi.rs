//! What C callers are given and what is taken from them, apart from the pointers: which commands
//! their calls stand for, what they are answered, and what their callbacks are handed.
use crate::api::{
    CControlCommandType, CSmtcControlCommand, CTextConversionMode, DiagnosticInfo,
    DiagnosticLevel, DiagnosticView, InfoView, MediaCommand, MediaCommandView, MediaUpdate,
    MediaUpdateView, NowPlayingInfo, PlaybackStatus, RepeatMode, SessionInfoView,
    SmtcControlCommand, SmtcSessionInfo, TextConversionMode, UtcTimestamp, VolumeLevel,
};
use crate::text::has_char;
use chrono::{DateTime, Timelike};
use vstd::prelude::*;

verus! {

/// How long the destruction of a handle waits for the callback thread, in milliseconds.
pub const LISTENER_TIMEOUT_MS: u64 = 5000;

/// What a call of a C caller is answered.
#[derive(Debug, Clone, Copy, PartialEq, Eq, Structural)]
pub enum SmtcResult {
    Success,
    InvalidHandle,
    CreationFailed,
    InternalError,
    ChannelFull,
}

/// The text that a C caller gets: C has no text with a zero inside, so such a text comes out
/// empty.
pub open spec fn c_text(s: Seq<char>) -> Seq<char> {
    if s.contains('\0') {
        Seq::empty()
    } else {
        s
    }
}

/// Makes the text that a C caller gets.
pub fn to_c_text(s: &str) -> (text: String)
    ensures
        text@ == c_text(s@),
        !text@.contains('\0'),
{
    if has_char(s, '\0') {
        String::new()
    } else {
        s.to_owned()
    }
}

/// The text that a C caller gets for an optional text; empty where there is none.
pub open spec fn c_text_or_empty(s: Option<Seq<char>>) -> Seq<char> {
    match s {
        Some(t) => c_text(t),
        None => Seq::empty(),
    }
}

/// Makes the text that a C caller gets for an optional text.
fn to_c_text_or_empty(s: &Option<String>) -> (text: String)
    ensures
        text@ == c_text_or_empty(crate::api::text_of(*s)),
{
    match s {
        Some(t) => to_c_text(t.as_str()),
        None => String::new(),
    }
}

/// What a C caller is told of the current track.
pub struct CNowPlayingInfo {
    pub title: String,
    pub artist: String,
    pub album_title: String,
    /// Total duration of the song in milliseconds.
    pub duration_ms: u64,
    /// Current playback position in milliseconds.
    pub position_ms: u64,
    /// Whether it is currently playing.
    pub is_playing: bool,
}

/// The contents of a `CNowPlayingInfo`.
#[verifier::ext_equal]
pub struct CNowPlayingView {
    pub title: Seq<char>,
    pub artist: Seq<char>,
    pub album_title: Seq<char>,
    pub duration_ms: u64,
    pub position_ms: u64,
    pub is_playing: bool,
}

impl View for CNowPlayingInfo {
    type V = CNowPlayingView;

    open spec fn view(&self) -> CNowPlayingView {
        CNowPlayingView {
            title: self.title@,
            artist: self.artist@,
            album_title: self.album_title@,
            duration_ms: self.duration_ms,
            position_ms: self.position_ms,
            is_playing: self.is_playing,
        }
    }
}

/// What a C caller is told of a media session.
pub struct CSessionInfo {
    pub session_id: String,
    pub source_app_user_model_id: String,
    pub display_name: String,
}

impl View for CSessionInfo {
    type V = SessionInfoView;

    open spec fn view(&self) -> SessionInfoView {
        SessionInfoView {
            session_id: self.session_id@,
            source_app_user_model_id: self.source_app_user_model_id@,
            display_name: self.display_name@,
        }
    }
}

impl DeepView for CSessionInfo {
    type V = SessionInfoView;

    open spec fn deep_view(&self) -> SessionInfoView {
        self@
    }
}

/// The media sessions that a C caller is told of.
pub struct CSessionList {
    pub sessions: Vec<CSessionInfo>,
    /// The number of sessions.
    pub count: usize,
}

/// The severity of a diagnostic message for a C caller.
#[derive(Debug, Clone, Copy, PartialEq, Eq, Structural)]
pub enum CDiagnosticLevel {
    Warning,
    Error,
}

/// A diagnostic message for a C caller.
pub struct CDiagnosticInfo {
    pub level: CDiagnosticLevel,
    pub message: String,
    /// When it happened, in the notation of RFC 3339.
    pub timestamp_str: String,
}

/// The contents of a `CDiagnosticInfo`.
#[verifier::ext_equal]
pub struct CDiagnosticView {
    pub level: CDiagnosticLevel,
    pub message: Seq<char>,
    pub timestamp_str: Seq<char>,
}

impl View for CDiagnosticInfo {
    type V = CDiagnosticView;

    open spec fn view(&self) -> CDiagnosticView {
        CDiagnosticView {
            level: self.level,
            message: self.message@,
            timestamp_str: self.timestamp_str@,
        }
    }
}

/// An audio packet for a C caller.
pub struct CAudioDataPacket {
    pub data: Vec<u8>,
    /// The length of the data in bytes.
    pub len: usize,
}

/// The news that a volume has changed, for a C caller.
pub struct CVolumeChangedEvent {
    pub session_id: String,
    pub volume: VolumeLevel,
    pub is_muted: bool,
}

/// The kinds of updates that C callers get.
#[derive(Debug, Clone, Copy, PartialEq, Eq, Structural)]
pub enum CUpdateType {
    TrackChanged,
    SessionsChanged,
    AudioData,
    Error,
    VolumeChanged,
    SelectedSessionVanished,
    Diagnostic,
}

/// An update that a C caller gets.
pub enum CUpdate {
    TrackChanged(CNowPlayingInfo),
    SessionsChanged(CSessionList),
    AudioData(CAudioDataPacket),
    Error(String),
    VolumeChanged(CVolumeChangedEvent),
    SelectedSessionVanished(String),
    Diagnostic(CDiagnosticInfo),
}

/// The contents of a `CUpdate`.
pub enum CUpdateView {
    TrackChanged(CNowPlayingView),
    SessionsChanged { sessions: Seq<SessionInfoView>, count: int },
    AudioData { data: Seq<u8>, len: int },
    Error(Seq<char>),
    VolumeChanged { session_id: Seq<char>, volume: VolumeLevel, is_muted: bool },
    SelectedSessionVanished(Seq<char>),
    Diagnostic(CDiagnosticView),
}

impl View for CUpdate {
    type V = CUpdateView;

    open spec fn view(&self) -> CUpdateView {
        match *self {
            CUpdate::TrackChanged(info) => CUpdateView::TrackChanged(info@),
            CUpdate::SessionsChanged(list) => CUpdateView::SessionsChanged {
                sessions: list.sessions.deep_view(),
                count: list.count as int,
            },
            CUpdate::AudioData(packet) => CUpdateView::AudioData {
                data: packet.data@,
                len: packet.len as int,
            },
            CUpdate::Error(message) => CUpdateView::Error(message@),
            CUpdate::VolumeChanged(event) => CUpdateView::VolumeChanged {
                session_id: event.session_id@,
                volume: event.volume,
                is_muted: event.is_muted,
            },
            CUpdate::SelectedSessionVanished(id) => CUpdateView::SelectedSessionVanished(id@),
            CUpdate::Diagnostic(info) => CUpdateView::Diagnostic(info@),
        }
    }
}

/// What a C caller is told of a track.
pub open spec fn c_now_playing(info: InfoView) -> CNowPlayingView {
    CNowPlayingView {
        title: c_text_or_empty(info.title),
        artist: c_text_or_empty(info.artist),
        album_title: c_text_or_empty(info.album_title),
        duration_ms: match info.duration_ms {
            Some(ms) => ms,
            None => 0,
        },
        position_ms: match info.position_ms {
            Some(ms) => ms,
            None => 0,
        },
        is_playing: info.playback_status == Some(PlaybackStatus::Playing),
    }
}

/// What a C caller is told of a session.
pub open spec fn c_session(info: SessionInfoView) -> SessionInfoView {
    SessionInfoView {
        session_id: c_text(info.session_id),
        source_app_user_model_id: c_text(info.source_app_user_model_id),
        display_name: c_text(info.display_name),
    }
}

/// What a C caller is told of sessions.
pub open spec fn c_sessions(infos: Seq<SessionInfoView>) -> Seq<SessionInfoView> {
    infos.map_values(|info: SessionInfoView| c_session(info))
}

/// The severity that a C caller is told.
pub open spec fn c_level(level: DiagnosticLevel) -> CDiagnosticLevel {
    match level {
        DiagnosticLevel::Warning => CDiagnosticLevel::Warning,
        DiagnosticLevel::Error => CDiagnosticLevel::Error,
    }
}

/// The diagnostic message that a C caller is told, with the given text for its time.
pub open spec fn c_diagnostic(info: DiagnosticView, timestamp: Seq<char>) -> CDiagnosticView {
    CDiagnosticView {
        level: c_level(info.level),
        message: c_text(info.message),
        timestamp_str: c_text(timestamp),
    }
}

/// The first moment that can be written down, in seconds since 1970: the year -262143 begins.
pub const FIRST_MOMENT_SECS: i64 = -8334601228800;

/// The last second that can be written down, in seconds since 1970: the year 262142 ends.
pub const LAST_MOMENT_SECS: i64 = 8210266876799;

/// Whether there is a moment so many seconds after the beginning of 1970 and so many nanoseconds
/// after that second. A second can be followed by a leap second, whose nanoseconds are counted on.
pub open spec fn is_moment(secs: i64, nanos: u32) -> bool {
    FIRST_MOMENT_SECS <= secs <= LAST_MOMENT_SECS && nanos < 2_000_000_000
}

/// A moment in the notation of RFC 3339, given by the seconds since 1970 and the nanoseconds of
/// that second.
pub uninterp spec fn rfc3339_text(secs: i64, nanos: u32) -> Seq<char>;

/// `DateTime::to_rfc3339` of `chrono` on the moment that the given numbers make, where they make
/// one: `DateTime::from_timestamp` makes a moment of the seconds, within its calendar, and
/// `with_nanosecond` gives it its nanoseconds, fewer than those of two seconds. The text depends
/// on these numbers alone: the time zone is always UTC.
#[verifier::external_body]
pub(crate) fn format_rfc3339(secs: i64, nanos: u32) -> (text: Option<String>)
    ensures
        match text {
            Some(t) => is_moment(secs, nanos) && t@ == rfc3339_text(secs, nanos),
            None => !is_moment(secs, nanos),
        },
{
    DateTime::from_timestamp(secs, 0)
        .and_then(|second| second.naive_utc().with_nanosecond(nanos))
        .map(|moment| moment.and_utc().to_rfc3339())
}

/// The update that a C caller gets; none for a diagnostic message from a time that there is not.
pub open spec fn c_update(update: MediaUpdateView) -> Option<CUpdateView> {
    match update {
        MediaUpdateView::TrackChanged(info) => Some(CUpdateView::TrackChanged(c_now_playing(info))),
        MediaUpdateView::SessionsChanged(infos) => Some(
            CUpdateView::SessionsChanged {
                sessions: c_sessions(infos),
                count: infos.len() as int,
            },
        ),
        MediaUpdateView::AudioData(bytes) => Some(
            CUpdateView::AudioData { data: bytes, len: bytes.len() as int },
        ),
        MediaUpdateView::Error(message) => Some(CUpdateView::Error(c_text(message))),
        MediaUpdateView::VolumeChanged { session_id, volume, is_muted } => Some(
            CUpdateView::VolumeChanged { session_id: c_text(session_id), volume, is_muted },
        ),
        MediaUpdateView::SelectedSessionVanished(id) => Some(
            CUpdateView::SelectedSessionVanished(c_text(id)),
        ),
        MediaUpdateView::Diagnostic(info) => if is_moment(
            info.timestamp.secs,
            info.timestamp.nanos,
        ) {
            Some(
                CUpdateView::Diagnostic(
                    c_diagnostic(info, rfc3339_text(info.timestamp.secs, info.timestamp.nanos)),
                ),
            )
        } else {
            None
        },
    }
}

/// Tells a C caller of a track.
pub fn convert_to_c_now_playing_info(info: &NowPlayingInfo) -> (c_info: CNowPlayingInfo)
    ensures
        c_info@ == c_now_playing(info@),
{
    let is_playing: bool = match info.playback_status {
        Some(status) => status == PlaybackStatus::Playing,
        None => false,
    };
    CNowPlayingInfo {
        title: to_c_text_or_empty(&info.title),
        artist: to_c_text_or_empty(&info.artist),
        album_title: to_c_text_or_empty(&info.album_title),
        duration_ms: match info.duration_ms {
            Some(ms) => ms,
            None => 0,
        },
        position_ms: match info.position_ms {
            Some(ms) => ms,
            None => 0,
        },
        is_playing,
    }
}

/// Tells a C caller of a session.
pub fn convert_to_c_session_info(info: &SmtcSessionInfo) -> (c_info: CSessionInfo)
    ensures
        c_info@ == c_session(info@),
{
    CSessionInfo {
        session_id: to_c_text(info.session_id.as_str()),
        source_app_user_model_id: to_c_text(info.source_app_user_model_id.as_str()),
        display_name: to_c_text(info.display_name.as_str()),
    }
}

/// Tells a C caller of sessions.
pub fn convert_to_c_session_list(infos: &Vec<SmtcSessionInfo>) -> (list: CSessionList)
    ensures
        list.sessions.deep_view() == c_sessions(infos.deep_view()),
        list.count == infos@.len(),
{
    let mut sessions: Vec<CSessionInfo> = Vec::new();
    for i in 0..infos.len()
        invariant
            sessions@.len() == i,
            forall|j: int| 0 <= j < i ==> (#[trigger] sessions@[j])@ == c_session(infos@[j]@),
    {
        sessions.push(convert_to_c_session_info(&infos[i]));
    }
    assert(sessions.deep_view() =~= c_sessions(infos.deep_view())) by {
        assert forall|j: int| 0 <= j < sessions@.len() implies sessions.deep_view()[j]
            == c_sessions(infos.deep_view())[j] by {
            assert(sessions.deep_view()[j] == sessions@[j]@);
            assert(infos.deep_view()[j] == infos@[j]@);
        }
    }
    let count: usize = sessions.len();
    CSessionList { sessions, count }
}

/// Tells a C caller of a diagnostic message, with the given text for its time.
pub fn c_diagnostic_info(info: &DiagnosticInfo, timestamp: &str) -> (c_info: CDiagnosticInfo)
    ensures
        c_info@ == c_diagnostic(info@, timestamp@),
{
    let level: CDiagnosticLevel = match info.level {
        DiagnosticLevel::Warning => CDiagnosticLevel::Warning,
        DiagnosticLevel::Error => CDiagnosticLevel::Error,
    };
    CDiagnosticInfo {
        level,
        message: to_c_text(info.message.as_str()),
        timestamp_str: to_c_text(timestamp),
    }
}

/// Tells a C caller of a diagnostic message; not where its time is none that there is.
pub fn convert_to_c_diagnostic_info(info: &DiagnosticInfo) -> (c_info: Option<CDiagnosticInfo>)
    ensures
        match c_info {
            Some(c) => is_moment(info.timestamp.secs, info.timestamp.nanos) && c@ == c_diagnostic(
                info@,
                rfc3339_text(info.timestamp.secs, info.timestamp.nanos),
            ),
            None => !is_moment(info.timestamp.secs, info.timestamp.nanos),
        },
{
    let timestamp: UtcTimestamp = info.timestamp;
    match format_rfc3339(timestamp.secs, timestamp.nanos) {
        Some(text) => Some(c_diagnostic_info(info, text.as_str())),
        None => None,
    }
}

/// Makes the update that the callback of a C caller is handed.
pub fn convert_update(update: MediaUpdate) -> (c: Option<CUpdate>)
    ensures
        match (c, c_update(update@)) {
            (Some(made), Some(expected)) => made@ == expected,
            (None, None) => true,
            _ => false,
        },
{
    match update {
        MediaUpdate::TrackChanged(info) => Some(
            CUpdate::TrackChanged(convert_to_c_now_playing_info(&info)),
        ),
        MediaUpdate::SessionsChanged(infos) => Some(
            CUpdate::SessionsChanged(convert_to_c_session_list(&infos)),
        ),
        MediaUpdate::AudioData(data) => {
            let len: usize = data.len();
            Some(CUpdate::AudioData(CAudioDataPacket { data, len }))
        },
        MediaUpdate::Error(message) => Some(CUpdate::Error(to_c_text(message.as_str()))),
        MediaUpdate::VolumeChanged { session_id, volume, is_muted } => Some(
            CUpdate::VolumeChanged(
                CVolumeChangedEvent {
                    session_id: to_c_text(session_id.as_str()),
                    volume,
                    is_muted,
                },
            ),
        ),
        MediaUpdate::SelectedSessionVanished(id) => Some(
            CUpdate::SelectedSessionVanished(to_c_text(id.as_str())),
        ),
        MediaUpdate::Diagnostic(info) => match convert_to_c_diagnostic_info(&info) {
            Some(c_info) => Some(CUpdate::Diagnostic(c_info)),
            None => None,
        },
    }
}

/// The kind of an update.
pub fn update_type(update: &CUpdate) -> (kind: CUpdateType)
    ensures
        kind == match *update {
            CUpdate::TrackChanged(_) => CUpdateType::TrackChanged,
            CUpdate::SessionsChanged(_) => CUpdateType::SessionsChanged,
            CUpdate::AudioData(_) => CUpdateType::AudioData,
            CUpdate::Error(_) => CUpdateType::Error,
            CUpdate::VolumeChanged(_) => CUpdateType::VolumeChanged,
            CUpdate::SelectedSessionVanished(_) => CUpdateType::SelectedSessionVanished,
            CUpdate::Diagnostic(_) => CUpdateType::Diagnostic,
        },
{
    match update {
        CUpdate::TrackChanged(_) => CUpdateType::TrackChanged,
        CUpdate::SessionsChanged(_) => CUpdateType::SessionsChanged,
        CUpdate::AudioData(_) => CUpdateType::AudioData,
        CUpdate::Error(_) => CUpdateType::Error,
        CUpdate::VolumeChanged(_) => CUpdateType::VolumeChanged,
        CUpdate::SelectedSessionVanished(_) => CUpdateType::SelectedSessionVanished,
        CUpdate::Diagnostic(_) => CUpdateType::Diagnostic,
    }
}

/// The handle of a C caller: which of its parts are still there.
#[derive(Debug, Clone, Copy, PartialEq, Eq, Structural)]
pub struct SmtcHandle {
    /// Commands can be sent to the service.
    pub has_controller: bool,
    /// Updates of the service wait for the callback thread.
    pub has_update_rx: bool,
    /// There is a runtime in which the service can be shut down.
    pub has_runtime: bool,
    /// The callback thread was started.
    pub has_listener: bool,
    /// A callback is registered.
    pub has_callback: bool,
    /// The handle was destroyed.
    pub is_destroyed: bool,
}

/// How an attempt to queue a command has ended.
#[derive(Debug, Clone, Copy, PartialEq, Eq, Structural)]
pub enum SendOutcome {
    Sent,
    Full,
    Closed,
}

/// What a call is answered by its command and by the way that was queued. A full queue is told
/// apart, but for the call that sets progress updates: that one only tells that it has failed.
pub open spec fn send_answer(command: MediaCommandView, outcome: SendOutcome) -> SmtcResult {
    match outcome {
        SendOutcome::Sent => SmtcResult::Success,
        SendOutcome::Full => if command is SetHighFrequencyProgressUpdates {
            SmtcResult::InternalError
        } else {
            SmtcResult::ChannelFull
        },
        SendOutcome::Closed => SmtcResult::InternalError,
    }
}

/// Answers a call by its command and by the way that was queued.
pub fn handle_try_send_result(command: &MediaCommand, outcome: SendOutcome) -> (result: SmtcResult)
    ensures
        result == send_answer(command@, outcome),
{
    match outcome {
        SendOutcome::Sent => SmtcResult::Success,
        SendOutcome::Full => match command {
            MediaCommand::SetHighFrequencyProgressUpdates(_) => SmtcResult::InternalError,
            _ => SmtcResult::ChannelFull,
        },
        SendOutcome::Closed => SmtcResult::InternalError,
    }
}

impl SmtcHandle {
    /// The callback thread takes the updates with it.
    pub open spec fn wf(self) -> bool {
        self.has_listener ==> !self.has_update_rx
    }

    /// A handle that has just been made.
    pub open spec fn fresh() -> SmtcHandle {
        SmtcHandle {
            has_controller: true,
            has_update_rx: true,
            has_runtime: true,
            has_listener: false,
            has_callback: false,
            is_destroyed: false,
        }
    }

    /// The handle after it was destroyed.
    pub open spec fn destroyed(self) -> SmtcHandle {
        if self.is_destroyed {
            self
        } else {
            SmtcHandle {
                has_controller: false,
                has_runtime: false,
                has_listener: false,
                is_destroyed: true,
                ..self
            }
        }
    }
}

/// Whether commands can be sent through a handle; a null pointer is no handle.
pub open spec fn accepts_commands(handle: Option<&SmtcHandle>) -> bool {
    handle matches Some(h) && !h.is_destroyed && h.has_controller
}

/// The answer to a call that stands for a command: the command to queue, or the refusal of a
/// handle through which none can be sent.
pub open spec fn command_or_refusal(
    handle: Option<&SmtcHandle>,
    command: MediaCommandView,
    answer: Result<MediaCommand, SmtcResult>,
) -> bool {
    match answer {
        Ok(c) => accepts_commands(handle) && c@ == command,
        Err(result) => !accepts_commands(handle) && result == SmtcResult::InvalidHandle,
    }
}

/// The control command that a command from C stands for.
pub open spec fn control_command_of(command: CSmtcControlCommand) -> SmtcControlCommand {
    match command.command_type {
        CControlCommandType::Pause => SmtcControlCommand::Pause,
        CControlCommandType::Play => SmtcControlCommand::Play,
        CControlCommandType::SkipNext => SmtcControlCommand::SkipNext,
        CControlCommandType::SkipPrevious => SmtcControlCommand::SkipPrevious,
        CControlCommandType::SeekTo => SmtcControlCommand::SeekTo(command.data.seek_to_ms),
        CControlCommandType::SetVolume => SmtcControlCommand::SetVolume(command.data.volume_level),
        CControlCommandType::SetShuffle => SmtcControlCommand::SetShuffle(
            command.data.is_shuffle_active,
        ),
        CControlCommandType::SetRepeatMode => SmtcControlCommand::SetRepeatMode(
            crate::api::repeat_mode_of(command.data.repeat_mode),
        ),
    }
}

/// Reads a control command from C.
pub fn decode_control_command(command: CSmtcControlCommand) -> (decoded: SmtcControlCommand)
    ensures
        decoded == control_command_of(command),
{
    match command.command_type {
        CControlCommandType::Pause => SmtcControlCommand::Pause,
        CControlCommandType::Play => SmtcControlCommand::Play,
        CControlCommandType::SkipNext => SmtcControlCommand::SkipNext,
        CControlCommandType::SkipPrevious => SmtcControlCommand::SkipPrevious,
        CControlCommandType::SeekTo => SmtcControlCommand::SeekTo(command.data.seek_to_ms),
        CControlCommandType::SetVolume => SmtcControlCommand::SetVolume(command.data.volume_level),
        CControlCommandType::SetShuffle => SmtcControlCommand::SetShuffle(
            command.data.is_shuffle_active,
        ),
        CControlCommandType::SetRepeatMode => SmtcControlCommand::SetRepeatMode(
            RepeatMode::from(command.data.repeat_mode),
        ),
    }
}

/// Hands a command on, or refuses it where none can be sent through the handle.
fn command_through(handle: Option<&SmtcHandle>, command: MediaCommand) -> (answer: Result<
    MediaCommand,
    SmtcResult,
>)
    ensures
        command_or_refusal(handle, command@, answer),
{
    match handle {
        Some(h) => if !h.is_destroyed && h.has_controller {
            Ok(command)
        } else {
            Err(SmtcResult::InvalidHandle)
        },
        None => Err(SmtcResult::InvalidHandle),
    }
}

/// Requests an update of the whole state.
pub fn smtc_suite_request_update(handle: Option<&SmtcHandle>) -> (answer: Result<
    MediaCommand,
    SmtcResult,
>)
    ensures
        command_or_refusal(handle, MediaCommandView::RequestUpdate, answer),
{
    command_through(handle, MediaCommand::RequestUpdate)
}

/// Sends a control command.
pub fn smtc_suite_control_command(
    handle: Option<&SmtcHandle>,
    command: CSmtcControlCommand,
) -> (answer: Result<MediaCommand, SmtcResult>)
    ensures
        command_or_refusal(
            handle,
            MediaCommandView::Control(control_command_of(command)),
            answer,
        ),
{
    command_through(handle, MediaCommand::Control(decode_control_command(command)))
}

/// Enables or disables high-frequency progress updates.
pub fn smtc_suite_set_high_frequency_progress_updates(
    handle: Option<&SmtcHandle>,
    enabled: bool,
) -> (answer: Result<MediaCommand, SmtcResult>)
    ensures
        command_or_refusal(
            handle,
            MediaCommandView::SetHighFrequencyProgressUpdates(enabled),
            answer,
        ),
{
    command_through(handle, MediaCommand::SetHighFrequencyProgressUpdates(enabled))
}

/// Selects a session to monitor; without a text the session is selected automatically, as with an
/// empty one.
pub fn smtc_suite_select_session(handle: Option<&SmtcHandle>, session_id: Option<String>) -> (answer:
    Result<MediaCommand, SmtcResult>)
    ensures
        command_or_refusal(
            handle,
            MediaCommandView::SelectSession(
                match session_id {
                    Some(id) => id@,
                    None => Seq::empty(),
                },
            ),
            answer,
        ),
{
    let id: String = match session_id {
        Some(id) => id,
        None => String::new(),
    };
    assert(session_id is None ==> id@ =~= Seq::<char>::empty());
    command_through(handle, MediaCommand::SelectSession(id))
}

/// Sets the text conversion mode.
pub fn smtc_suite_set_text_conversion_mode(
    handle: Option<&SmtcHandle>,
    mode: CTextConversionMode,
) -> (answer: Result<MediaCommand, SmtcResult>)
    ensures
        command_or_refusal(
            handle,
            MediaCommandView::SetTextConversion(crate::api::text_conversion_mode_of(mode)),
            answer,
        ),
{
    command_through(handle, MediaCommand::SetTextConversion(TextConversionMode::from(mode)))
}

/// Starts the audio capture.
pub fn smtc_suite_start_audio_capture(handle: Option<&SmtcHandle>) -> (answer: Result<
    MediaCommand,
    SmtcResult,
>)
    ensures
        command_or_refusal(handle, MediaCommandView::StartAudioCapture, answer),
{
    command_through(handle, MediaCommand::StartAudioCapture)
}

/// Stops the audio capture.
pub fn smtc_suite_stop_audio_capture(handle: Option<&SmtcHandle>) -> (answer: Result<
    MediaCommand,
    SmtcResult,
>)
    ensures
        command_or_refusal(handle, MediaCommandView::StopAudioCapture, answer),
{
    command_through(handle, MediaCommand::StopAudioCapture)
}

/// Makes a handle, where the caller has a place for it, the service was started, and a runtime
/// was made.
pub fn smtc_suite_create(has_place: bool, service_started: bool, runtime_made: bool) -> (created:
    Result<SmtcHandle, SmtcResult>)
    ensures
        created == if !has_place {
            Err::<SmtcHandle, SmtcResult>(SmtcResult::InternalError)
        } else if !service_started || !runtime_made {
            Err::<SmtcHandle, SmtcResult>(SmtcResult::CreationFailed)
        } else {
            Ok::<SmtcHandle, SmtcResult>(SmtcHandle::fresh())
        },
        created matches Ok(handle) ==> handle.wf(),
{
    if !has_place {
        Err(SmtcResult::InternalError)
    } else if !service_started || !runtime_made {
        Err(SmtcResult::CreationFailed)
    } else {
        Ok(
            SmtcHandle {
                has_controller: true,
                has_update_rx: true,
                has_runtime: true,
                has_listener: false,
                has_callback: false,
                is_destroyed: false,
            },
        )
    }
}

/// What the destruction of a handle calls for, in order.
#[derive(Debug, Clone, Copy, PartialEq, Eq, Structural)]
pub struct DestroyPlan {
    /// Tell the callback thread to end.
    pub cancel: bool,
    /// Shut the service down.
    pub shut_down: bool,
    /// Wait for the callback thread.
    pub await_listener: bool,
    /// Free the handle.
    pub free: bool,
}

/// What the destruction of a handle calls for: nothing where it was destroyed before.
pub open spec fn destroy_plan(handle: SmtcHandle) -> DestroyPlan {
    DestroyPlan {
        cancel: !handle.is_destroyed,
        shut_down: !handle.is_destroyed && handle.has_controller && handle.has_runtime,
        await_listener: !handle.is_destroyed && handle.has_listener,
        free: !handle.is_destroyed,
    }
}

/// Destroys a handle.
pub fn smtc_suite_destroy(handle: &mut SmtcHandle) -> (plan: DestroyPlan)
    ensures
        plan == destroy_plan(*old(handle)),
        *final(handle) == old(handle).destroyed(),
{
    if handle.is_destroyed {
        return DestroyPlan { cancel: false, shut_down: false, await_listener: false, free: false };
    }
    let plan = DestroyPlan {
        cancel: true,
        shut_down: handle.has_controller && handle.has_runtime,
        await_listener: handle.has_listener,
        free: true,
    };
    handle.is_destroyed = true;
    handle.has_controller = false;
    handle.has_runtime = false;
    handle.has_listener = false;
    plan
}

/// Whether to go on waiting for the callback thread: it has not ended, and there is time left.
pub fn keeps_waiting(finished: bool, waited_ms: u64) -> (yes: bool)
    ensures
        yes == (!finished && waited_ms < LISTENER_TIMEOUT_MS),
{
    !finished && waited_ms < LISTENER_TIMEOUT_MS
}

/// How a callback was registered.
#[derive(Debug, Clone, Copy, PartialEq, Eq, Structural)]
pub struct Registration {
    /// What the call is answered.
    pub result: SmtcResult,
    /// Take the callback over, or give up the one there was.
    pub store_callback: bool,
    /// Start the callback thread.
    pub start_listener: bool,
}

/// What the registration of a callback is answered and calls for. Without a callback the one
/// there was is given up. Only the first callback starts the callback thread.
pub open spec fn registration_of(
    handle: SmtcHandle,
    has_callback: bool,
    callback_lock_usable: bool,
    creation_lock_usable: bool,
) -> Registration {
    if handle.is_destroyed {
        Registration {
            result: SmtcResult::InvalidHandle,
            store_callback: false,
            start_listener: false,
        }
    } else if !callback_lock_usable {
        Registration {
            result: SmtcResult::InternalError,
            store_callback: false,
            start_listener: false,
        }
    } else if !has_callback || (creation_lock_usable && handle.has_listener) {
        Registration {
            result: SmtcResult::Success,
            store_callback: true,
            start_listener: false,
        }
    } else if creation_lock_usable && handle.has_update_rx {
        Registration {
            result: SmtcResult::Success,
            store_callback: true,
            start_listener: true,
        }
    } else {
        Registration {
            result: SmtcResult::InternalError,
            store_callback: true,
            start_listener: false,
        }
    }
}

/// The handle after the registration of a callback.
pub open spec fn handle_after_registration(
    handle: SmtcHandle,
    has_callback: bool,
    registration: Registration,
) -> SmtcHandle {
    SmtcHandle {
        has_callback: if registration.store_callback {
            has_callback
        } else {
            handle.has_callback
        },
        has_listener: handle.has_listener || registration.start_listener,
        has_update_rx: handle.has_update_rx && !registration.start_listener,
        ..handle
    }
}

/// Registers a callback, or gives up the one there was.
pub fn smtc_suite_register_update_callback(
    handle: &mut SmtcHandle,
    has_callback: bool,
    callback_lock_usable: bool,
    creation_lock_usable: bool,
) -> (registration: Registration)
    requires
        old(handle).wf(),
    ensures
        registration == registration_of(
            *old(handle),
            has_callback,
            callback_lock_usable,
            creation_lock_usable,
        ),
        *final(handle) == handle_after_registration(*old(handle), has_callback, registration),
        final(handle).wf(),
{
    let mut registration = Registration {
        result: SmtcResult::Success,
        store_callback: false,
        start_listener: false,
    };
    if handle.is_destroyed {
        registration.result = SmtcResult::InvalidHandle;
        return registration;
    }
    if !callback_lock_usable {
        registration.result = SmtcResult::InternalError;
        return registration;
    }
    registration.store_callback = true;
    handle.has_callback = has_callback;
    if has_callback {
        if !creation_lock_usable {
            registration.result = SmtcResult::InternalError;
        } else if !handle.has_listener {
            if handle.has_update_rx {
                handle.has_update_rx = false;
                handle.has_listener = true;
                registration.start_listener = true;
            } else {
                registration.result = SmtcResult::InternalError;
            }
        }
    }
    registration
}

/// What the callback thread waits for.
#[derive(Debug, Clone, Copy, PartialEq, Eq, Structural)]
pub enum ListenerEvent {
    /// An update has come.
    Update,
    /// No more updates come.
    Disconnected,
    /// The handle is being destroyed.
    Shutdown,
}

/// What the callback thread does after an event.
#[derive(Debug, Clone, Copy, PartialEq, Eq, Structural)]
pub enum ListenerAction {
    /// Hand the update to the callback.
    Invoke,
    /// Drop the update, as no callback is registered.
    Drop,
    /// End the thread.
    Exit,
}

/// Decides what the callback thread does after an event.
pub fn listener_action(event: ListenerEvent, has_callback: bool) -> (action: ListenerAction)
    ensures
        action == match event {
            ListenerEvent::Update => if has_callback {
                ListenerAction::Invoke
            } else {
                ListenerAction::Drop
            },
            _ => ListenerAction::Exit,
        },
{
    match event {
        ListenerEvent::Update => if has_callback {
            ListenerAction::Invoke
        } else {
            ListenerAction::Drop
        },
        ListenerEvent::Disconnected => ListenerAction::Exit,
        ListenerEvent::Shutdown => ListenerAction::Exit,
    }
}

/// The version of the library.
pub fn smtc_suite_get_version() -> (version: &'static str)
    ensures
        version@ == "0.1.0"@,
{
    "0.1.0"
}

/// The level of a log message for a C caller.
#[derive(Debug, Clone, Copy, PartialEq, Eq, Structural)]
pub enum CLogLevel {
    Error,
    Warn,
    Info,
    Debug,
    Trace,
}

/// The number of a log level: the more detail, the higher.
pub open spec fn number_of_level(level: CLogLevel) -> u32 {
    match level {
        CLogLevel::Error => 1,
        CLogLevel::Warn => 2,
        CLogLevel::Info => 3,
        CLogLevel::Debug => 4,
        CLogLevel::Trace => 5,
    }
}

/// Finds the number of a log level.
pub fn log_level_number(level: CLogLevel) -> (number: u32)
    ensures
        number == number_of_level(level),
{
    match level {
        CLogLevel::Error => 1,
        CLogLevel::Warn => 2,
        CLogLevel::Info => 3,
        CLogLevel::Debug => 4,
        CLogLevel::Trace => 5,
    }
}

/// Finds the log level with a number; none where there is no such level.
pub fn log_level_from_number(number: u32) -> (level: Option<CLogLevel>)
    ensures
        match level {
            Some(l) => number == number_of_level(l),
            None => number < 1 || number > 5,
        },
{
    if number == 1 {
        Some(CLogLevel::Error)
    } else if number == 2 {
        Some(CLogLevel::Warn)
    } else if number == 3 {
        Some(CLogLevel::Info)
    } else if number == 4 {
        Some(CLogLevel::Debug)
    } else if number == 5 {
        Some(CLogLevel::Trace)
    } else {
        None
    }
}

/// Whether a message of a level is passed on, where messages up to another level are captured.
pub fn log_enabled(level: CLogLevel, max_level: CLogLevel) -> (yes: bool)
    ensures
        yes == (number_of_level(level) <= number_of_level(max_level)),
{
    log_level_number(level) <= log_level_number(max_level)
}

/// The logging for a C caller: who gets the messages, and up to which level they are captured.
pub struct Logging<T> {
    /// Who was named first.
    pub target: Option<T>,
    /// The program logs through this library.
    pub installed: bool,
    /// The level that was set.
    pub max_level: Option<CLogLevel>,
}

/// What the initialization of logging is answered and calls for.
#[derive(Debug, Clone, Copy, PartialEq, Eq, Structural)]
pub struct LoggingPlan {
    /// What the call is answered.
    pub result: SmtcResult,
    /// Capture messages up to this level from now on.
    pub set_level: Option<CLogLevel>,
}

/// Who gets a message of a level while messages up to `max_level` are captured; nobody where the
/// program does not log through this library.
pub open spec fn receiver_of<T>(
    logging: Logging<T>,
    level: CLogLevel,
    max_level: Option<CLogLevel>,
) -> Option<T> {
    if logging.installed && max_level is Some && number_of_level(level) <= number_of_level(
        max_level->0,
    ) {
        logging.target
    } else {
        None
    }
}

/// Whether an initialization of logging succeeds: it is the first one, and no other logger was
/// installed.
pub open spec fn logging_succeeds<T>(logging: Logging<T>, accepted: bool) -> bool {
    logging.target is None && accepted
}

/// The logging after an initialization, where the program accepts this library as its logger or
/// does not. Only the first one counts.
pub open spec fn logging_after<T>(
    logging: Logging<T>,
    target: T,
    max_level: CLogLevel,
    accepted: bool,
) -> Logging<T> {
    if logging.target is Some {
        logging
    } else {
        Logging {
            target: Some(target),
            installed: accepted,
            max_level: if accepted {
                Some(max_level)
            } else {
                logging.max_level
            },
        }
    }
}

impl<T: Copy> Logging<T> {
    /// The logging before any initialization.
    pub fn new() -> (logging: Self)
        ensures
            logging == (Logging::<T> { target: None, installed: false, max_level: None }),
    {
        Logging { target: None, installed: false, max_level: None }
    }

    /// Finds who gets a message of a level, while messages up to `max_level` are captured.
    pub fn receiver(&self, level: CLogLevel, max_level: Option<CLogLevel>) -> (target: Option<T>)
        ensures
            target == receiver_of(*self, level, max_level),
    {
        match max_level {
            Some(max) => if self.installed && log_enabled(level, max) {
                self.target
            } else {
                None
            },
            None => None,
        }
    }
}

/// Initializes logging, where the program accepts this library as its logger or does not.
pub fn smtc_suite_init_logging<T: Copy>(
    logging: &mut Logging<T>,
    target: T,
    max_level: CLogLevel,
    accepted: bool,
) -> (plan: LoggingPlan)
    ensures
        plan == if logging_succeeds(*old(logging), accepted) {
            LoggingPlan { result: SmtcResult::Success, set_level: Some(max_level) }
        } else {
            LoggingPlan { result: SmtcResult::InternalError, set_level: None }
        },
        *final(logging) == logging_after(*old(logging), target, max_level, accepted),
{
    if logging.target.is_some() {
        return LoggingPlan { result: SmtcResult::InternalError, set_level: None };
    }
    logging.target = Some(target);
    logging.installed = accepted;
    if !accepted {
        return LoggingPlan { result: SmtcResult::InternalError, set_level: None };
    }
    logging.max_level = Some(max_level);
    LoggingPlan { result: SmtcResult::Success, set_level: Some(max_level) }
}

/// Logging is initialized once: after an initialization that has succeeded every further one is
/// refused and changes nothing, so that messages still go to the first target, up to the first
/// level.
pub proof fn law_first_logging_stays<T>(
    logging: Logging<T>,
    first: T,
    first_level: CLogLevel,
    second: T,
    second_level: CLogLevel,
    accepted: bool,
    level: CLogLevel,
)
    requires
        logging_succeeds(logging, true),
    ensures
        ({
            let once = logging_after(logging, first, first_level, true);
            let twice = logging_after(once, second, second_level, accepted);
            &&& !logging_succeeds(once, accepted)
            &&& twice == once
            &&& twice.max_level == Some(first_level)
            &&& receiver_of(twice, level, twice.max_level) == if number_of_level(level)
                <= number_of_level(first_level) {
                Some(first)
            } else {
                None
            }
        }),
{
}

/// No text that a C caller gets holds a zero, and a text that holds none arrives unchanged.
pub proof fn law_c_text_is_whole(s: Seq<char>)
    ensures
        !c_text(s).contains('\0'),
        !s.contains('\0') ==> c_text(s) == s,
        c_text(c_text(s)) == c_text(s),
{
}

/// Every update reaches the callback of a C caller, but for a diagnostic message without a moment
/// to tell.
pub proof fn law_updates_reach_c_callers(update: MediaUpdateView)
    ensures
        c_update(update) is None ==> (update matches MediaUpdateView::Diagnostic(info)
            && !is_moment(info.timestamp.secs, info.timestamp.nanos)),
{
}

/// A destroyed handle refuses every command, and destroying it again does nothing.
pub proof fn law_destroyed_handle_is_refused(handle: SmtcHandle)
    ensures
        !accepts_commands(Some(&handle.destroyed())),
        destroy_plan(handle.destroyed()) == (DestroyPlan {
            cancel: false,
            shut_down: false,
            await_listener: false,
            free: false,
        }),
        handle.destroyed().destroyed() == handle.destroyed(),
        handle.wf() ==> handle.destroyed().wf(),
        !accepts_commands(None),
{
}

/// The callback thread is started at most once: replacing a callback, or giving one up and
/// registering another, starts no second thread.
pub proof fn law_one_callback_thread(
    handle: SmtcHandle,
    first: bool,
    second: bool,
    lock_a: bool,
    lock_b: bool,
    lock_c: bool,
    lock_d: bool,
)
    requires
        handle.wf(),
    ensures
        ({
            let a = registration_of(handle, first, lock_a, lock_b);
            let between = handle_after_registration(handle, first, a);
            let b = registration_of(between, second, lock_c, lock_d);
            a.start_listener ==> !b.start_listener
        }),
{
}

/// A command is queued exactly where the call is answered with success.
pub proof fn law_success_means_queued(command: MediaCommandView, outcome: SendOutcome)
    ensures
        send_answer(command, outcome) == SmtcResult::Success <==> outcome == SendOutcome::Sent,
        send_answer(command, outcome) != SmtcResult::InvalidHandle,
{
}

/// Setting progress updates succeeds exactly where its command was queued, and is answered with
/// an internal error wherever it was not.
pub proof fn law_progress_updates_are_answered(enabled: bool, outcome: SendOutcome)
    ensures
        send_answer(MediaCommandView::SetHighFrequencyProgressUpdates(enabled), outcome)
            == if outcome == SendOutcome::Sent {
            SmtcResult::Success
        } else {
            SmtcResult::InternalError
        },
{
}

/// Every update reaches a C caller as an update of its own kind, with its numbers and bytes as
/// they are and its texts as C can hold them.
pub proof fn law_updates_keep_their_kind(
    info: InfoView,
    infos: Seq<SessionInfoView>,
    bytes: Seq<u8>,
    text: Seq<char>,
    volume: VolumeLevel,
    is_muted: bool,
)
    requires
        !text.contains('\0'),
    ensures
        c_update(MediaUpdateView::TrackChanged(info)) matches Some(CUpdateView::TrackChanged(_)),
        c_update(MediaUpdateView::SessionsChanged(infos)) matches Some(
            CUpdateView::SessionsChanged { sessions, count },
        ) && count == infos.len() && sessions.len() == infos.len(),
        c_update(MediaUpdateView::AudioData(bytes)) == Some(
            (CUpdateView::AudioData { data: bytes, len: bytes.len() as int }),
        ),
        c_update(MediaUpdateView::Error(text)) == Some(CUpdateView::Error(text)),
        c_update((MediaUpdateView::VolumeChanged { session_id: text, volume, is_muted })) == Some(
            (CUpdateView::VolumeChanged { session_id: text, volume, is_muted }),
        ),
        c_update(MediaUpdateView::SelectedSessionVanished(text)) == Some(
            CUpdateView::SelectedSessionVanished(text),
        ),
{
}

/// A text that C cannot hold, as there is a zero in it, reaches a C caller empty; a text that is
/// missing does too, and every other is passed on whole.
pub proof fn law_texts_reach_c_callers(text: Seq<char>)
    ensures
        text.contains('\0') ==> c_text(text).len() == 0 && c_text_or_empty(Some(text)).len() == 0,
        !text.contains('\0') ==> c_text(text) == text && c_text_or_empty(Some(text)) == text,
        c_text_or_empty(None).len() == 0,
{
}

/// A C caller sees title, artist and album, and duration and position, of what is playing, each
/// as it is known and else empty or zero, and that it is playing only while it is.
pub proof fn law_now_playing_reaches_c_callers(info: InfoView)
    ensures
        ({
            let c = c_now_playing(info);
            &&& info.title matches Some(t) ==> !t.contains('\0') ==> c.title == t
            &&& info.artist matches Some(t) ==> !t.contains('\0') ==> c.artist == t
            &&& info.album_title matches Some(t) ==> !t.contains('\0') ==> c.album_title == t
            &&& info.title is None ==> c.title.len() == 0
            &&& info.artist is None ==> c.artist.len() == 0
            &&& info.album_title is None ==> c.album_title.len() == 0
            &&& info.duration_ms matches Some(ms) ==> c.duration_ms == ms
            &&& info.duration_ms is None ==> c.duration_ms == 0
            &&& info.position_ms matches Some(ms) ==> c.position_ms == ms
            &&& info.position_ms is None ==> c.position_ms == 0
            &&& c.is_playing <==> info.playback_status == Some(PlaybackStatus::Playing)
            &&& c_update(MediaUpdateView::TrackChanged(info)) == Some(CUpdateView::TrackChanged(c))
        }),
{
}

/// A C caller gets every session of the list, in order, with each of its texts in its own place.
pub proof fn law_sessions_reach_c_callers(infos: Seq<SessionInfoView>, i: int)
    requires
        0 <= i < infos.len(),
        !infos[i].session_id.contains('\0'),
        !infos[i].source_app_user_model_id.contains('\0'),
        !infos[i].display_name.contains('\0'),
    ensures
        c_update(MediaUpdateView::SessionsChanged(infos)) matches Some(
            CUpdateView::SessionsChanged { sessions, count },
        ) && count == infos.len() && sessions.len() == infos.len() && sessions[i].session_id
            == infos[i].session_id && sessions[i].source_app_user_model_id
            == infos[i].source_app_user_model_id && sessions[i].display_name
            == infos[i].display_name,
{
}

/// A diagnostic message reaches a C caller with its level, its text and the time it tells, unless
/// there is no such time.
pub proof fn law_diagnostics_reach_c_callers(info: DiagnosticView)
    ensures
        ({
            let secs = info.timestamp.secs;
            let nanos = info.timestamp.nanos;
            let tells = -8334601228800 <= secs <= 8210266876799 && nanos < 2_000_000_000;
            let update = c_update(MediaUpdateView::Diagnostic(info));
            &&& update is Some <==> tells
            &&& tells ==> (update matches Some(CUpdateView::Diagnostic(c)) && {
                &&& c.level is Warning <==> info.level is Warning
                &&& c.level is Error <==> info.level is Error
                &&& !info.message.contains('\0') ==> c.message == info.message
                &&& info.message.contains('\0') ==> c.message.len() == 0
                &&& !rfc3339_text(secs, nanos).contains('\0') ==> c.timestamp_str == rfc3339_text(
                    secs,
                    nanos,
                )
            })
        }),
{
}

/// A control command of a C caller means what its type says, with the one piece of its data that
/// belongs to that type.
pub proof fn law_c_commands_keep_their_meaning(command: CSmtcControlCommand)
    ensures
        ({
            let data = command.data;
            let decoded = control_command_of(command);
            &&& command.command_type is Play ==> decoded == SmtcControlCommand::Play
            &&& command.command_type is Pause ==> decoded == SmtcControlCommand::Pause
            &&& command.command_type is SkipNext ==> decoded == SmtcControlCommand::SkipNext
            &&& command.command_type is SkipPrevious ==> decoded
                == SmtcControlCommand::SkipPrevious
            &&& command.command_type is SeekTo ==> decoded == SmtcControlCommand::SeekTo(
                data.seek_to_ms,
            )
            &&& command.command_type is SetVolume ==> decoded == SmtcControlCommand::SetVolume(
                data.volume_level,
            )
            &&& command.command_type is SetShuffle ==> decoded == SmtcControlCommand::SetShuffle(
                data.is_shuffle_active,
            )
            &&& command.command_type is SetRepeatMode ==> (decoded matches
                SmtcControlCommand::SetRepeatMode(mode) && {
                &&& data.repeat_mode is Off <==> mode is Off
                &&& data.repeat_mode is One <==> mode is One
                &&& data.repeat_mode is All <==> mode is All
            })
        }),
{
}

/// A command that was queued has succeeded; a full queue and a closed one are told apart, but for
/// progress updates.
pub proof fn law_sending_is_answered(command: MediaCommandView, outcome: SendOutcome)
    ensures
        outcome == SendOutcome::Sent ==> send_answer(command, outcome) == SmtcResult::Success,
        outcome == SendOutcome::Closed ==> send_answer(command, outcome)
            == SmtcResult::InternalError,
        outcome == SendOutcome::Full ==> ((command matches
            MediaCommandView::SetHighFrequencyProgressUpdates(_) ==> send_answer(command, outcome)
            == SmtcResult::InternalError) && (!(command matches
            MediaCommandView::SetHighFrequencyProgressUpdates(_)) ==> send_answer(command, outcome)
            == SmtcResult::ChannelFull)),
{
}

/// Commands are taken exactly through a handle that is there, was not destroyed, and leads to the
/// service; then the command is handed on as it is, and else the handle is refused.
pub proof fn law_commands_need_a_live_handle(
    handle: SmtcHandle,
    command: MediaCommandView,
    answer: Result<MediaCommand, SmtcResult>,
)
    ensures
        command_or_refusal(Some(&handle), command, answer) ==> {
            &&& answer is Ok <==> !handle.is_destroyed && handle.has_controller
            &&& answer matches Ok(c) ==> c@ == command
            &&& answer matches Err(r) ==> r == SmtcResult::InvalidHandle
        },
        command_or_refusal(None, command, answer) ==> answer == Err::<MediaCommand, SmtcResult>(
            SmtcResult::InvalidHandle,
        ),
{
}

/// A handle that has just been made takes commands, has updates waiting and no callback yet.
pub proof fn law_fresh_handle_is_ready()
    ensures
        ({
            let handle = SmtcHandle::fresh();
            &&& handle.has_controller && handle.has_update_rx && handle.has_runtime
            &&& !handle.has_listener && !handle.has_callback && !handle.is_destroyed
            &&& accepts_commands(Some(&handle))
        }),
{
}

/// Destroying a handle ends the callback thread, shuts the service down where that can be done,
/// waits for the thread where there is one, and frees the handle; what it led to is gone then.
pub proof fn law_destroying_ends_everything(handle: SmtcHandle)
    requires
        !handle.is_destroyed,
    ensures
        ({
            let plan = destroy_plan(handle);
            &&& plan.cancel && plan.free
            &&& plan.shut_down <==> handle.has_controller && handle.has_runtime
            &&& plan.await_listener <==> handle.has_listener
        }),
        ({
            let gone = handle.destroyed();
            &&& gone.is_destroyed
            &&& !gone.has_controller && !gone.has_runtime && !gone.has_listener
            &&& gone.has_update_rx == handle.has_update_rx
            &&& gone.has_callback == handle.has_callback
        }),
{
}

/// The callback of a registration is stored unless the handle was destroyed or cannot be locked;
/// the first one starts the callback thread, which takes the updates with it.
pub proof fn law_callback_is_registered(
    handle: SmtcHandle,
    has_callback: bool,
    callback_lock_usable: bool,
    creation_lock_usable: bool,
)
    requires
        handle.wf(),
    ensures
        ({
            let r = registration_of(
                handle,
                has_callback,
                callback_lock_usable,
                creation_lock_usable,
            );
            let after = handle_after_registration(handle, has_callback, r);
            &&& r.store_callback <==> !handle.is_destroyed && callback_lock_usable
            &&& r.start_listener <==> !handle.is_destroyed && callback_lock_usable
                && creation_lock_usable && has_callback && !handle.has_listener
                && handle.has_update_rx
            &&& r.result == SmtcResult::InvalidHandle <==> handle.is_destroyed
            &&& r.result == SmtcResult::Success <==> !handle.is_destroyed && callback_lock_usable
                && (!has_callback || (creation_lock_usable && (handle.has_listener
                || handle.has_update_rx)))
            &&& r.result == SmtcResult::InvalidHandle || r.result == SmtcResult::Success || r.result
                == SmtcResult::InternalError
            &&& r.store_callback ==> after.has_callback == has_callback
            &&& !r.store_callback ==> after.has_callback == handle.has_callback
            &&& r.start_listener ==> after.has_listener && !after.has_update_rx
            &&& !r.start_listener ==> after.has_listener == handle.has_listener
                && after.has_update_rx == handle.has_update_rx
            &&& after.has_controller == handle.has_controller
            &&& after.has_runtime == handle.has_runtime
            &&& after.is_destroyed == handle.is_destroyed
        }),
{
}

/// The levels are numbered by how much detail they let through.
pub proof fn law_levels_are_numbered()
    ensures
        number_of_level(CLogLevel::Error) == 1,
        number_of_level(CLogLevel::Warn) == 2,
        number_of_level(CLogLevel::Info) == 3,
        number_of_level(CLogLevel::Debug) == 4,
        number_of_level(CLogLevel::Trace) == 5,
        LISTENER_TIMEOUT_MS == 5000,
{
}

/// A message reaches who was named first, where the program logs through this library and the
/// message is no more detailed than what is captured; else it reaches nobody.
pub proof fn law_messages_reach_first_named<T>(
    logging: Logging<T>,
    level: CLogLevel,
    max_level: CLogLevel,
)
    ensures
        ({
            let told = receiver_of(logging, level, Some(max_level));
            let captured = {
                ||| max_level is Trace
                ||| max_level is Debug && !(level is Trace)
                ||| max_level is Info && (level is Error || level is Warn || level is Info)
                ||| max_level is Warn && (level is Error || level is Warn)
                ||| max_level is Error && level is Error
            };
            &&& logging.installed && captured ==> told == logging.target
            &&& !logging.installed || !captured ==> told is None
        }),
        receiver_of(logging, level, None) is None,
{
}

/// Logging starts for the first who asks for it, if the program agrees; who asks first is
/// remembered either way, and whoever asks later changes nothing.
pub proof fn law_logging_starts_once<T>(
    logging: Logging<T>,
    target: T,
    max_level: CLogLevel,
    accepted: bool,
)
    ensures
        logging_succeeds(logging, accepted) <==> logging.target is None && accepted,
        ({
            let after = logging_after(logging, target, max_level, accepted);
            &&& logging.target is Some ==> after == logging
            &&& logging.target is None ==> after.target == Some(target) && after.installed
                == accepted
            &&& logging.target is None && accepted ==> after.max_level == Some(max_level)
            &&& logging.target is None && !accepted ==> after.max_level == logging.max_level
        }),
{
}

} // verus!
