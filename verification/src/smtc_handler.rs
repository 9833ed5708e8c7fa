//! The media session handler: its state, and how it reacts to commands and events.
use crate::api::{
    DiagnosticLevel, PlaybackStatus, PlayerView, SharedPlayerState, SmtcControlCommand,
    TextConversionMode, VolumeLevel,
};
use crate::clock::{ms_to_ticks, sum_unsigned};
use crate::conversion::{
    converter_config, load_converter, load_error_text, load_failure_message,
};
use crate::playback::{
    apply_playback_info, apply_timeline_at, extract_playback_info, extract_timeline,
    initialize_player_at, repeat_mode_code, PlaybackInfoUpdate, RawPlaybackInfo, RawTimeline,
    Timeline,
};
use crate::sessions::{
    choose_session, describe_sessions, list_candidates, Selection, SessionCandidate,
};
use crate::text::{same_text, text_starts_with};
use crate::track_info::{parse_and_convert_properties, show_track, RawMediaProperties, TrackInfo};
use crate::worker::{InternalCommand, InternalCommandView, InternalUpdate, InternalUpdateView};
use ferrous_opencc::OpenCC;
use std::collections::hash_map::DefaultHasher;
use std::hash::{Hash, Hasher};
use std::time::Instant;
use vstd::prelude::*;
use vstd::std_specs::hash::DefaultHasherAdditionalSpecFns;

verus! {

/// How much later Apple Music plays than it reports, in milliseconds.
pub const APPLE_MUSIC_OFFSET_MS: i64 = -500;

/// What the hash of a block of data feeds to a hasher, on a machine with words of the given size
/// and with the given order of the bytes in a word.
pub uninterp spec fn hashed_writes(data: Seq<u8>, word_bits: int, little_endian: bool) -> Seq<
    Seq<u8>,
>;

/// What the hash of a block of data feeds to a hasher on this machine.
pub open spec fn writes_here(data: Seq<u8>) -> Seq<Seq<u8>> {
    hashed_writes(
        data,
        usize::BITS as int,
        vstd::endian::endianness() == vstd::endian::Endian::Little,
    )
}

/// `Hash::hash` of the standard library on a block of data: what it feeds to the hasher follows
/// what was fed before. It depends on the data, and, as the standard library documents for all
/// hashing, on the size and the byte order of the machine's words.
#[verifier::external_body]
pub(crate) fn feed_hasher(data: &[u8], hasher: &mut DefaultHasher)
    ensures
        final(hasher)@ == old(hasher)@ + hashed_writes(
            data@,
            usize::BITS as int,
            vstd::endian::endianness() == vstd::endian::Endian::Little,
        ),
{
    data.hash(hasher);
}

/// The hash of cover art.
pub open spec fn cover_hash(data: Seq<u8>) -> u64 {
    DefaultHasher::spec_finish(writes_here(data))
}

/// Calculates a hash of cover art, by which changes are detected.
pub fn calculate_cover_hash(data: &[u8]) -> (hash: u64)
    ensures
        hash == cover_hash(data@),
{
    let mut hasher = DefaultHasher::new();
    feed_hasher(data, &mut hasher);
    assert(hasher@ =~= writes_here(data@));
    hasher.finish()
}

/// An event of the session manager or of the monitored session.
#[derive(Debug, Clone, PartialEq, Eq)]
pub enum SmtcEventSignal {
    /// The media properties of a session have changed.
    MediaProperties(String),
    /// The sessions, or the current one among them, have changed.
    Sessions,
    /// The playback information of a session has changed.
    PlaybackInfoUpdated(String, PlaybackInfoUpdate),
    /// The timeline of a session has changed.
    TimelinePropertiesUpdated(String, Timeline),
}

/// The contents of a `SmtcEventSignal`.
pub enum SignalView {
    MediaProperties(Seq<char>),
    Sessions,
    PlaybackInfoUpdated(Seq<char>, PlaybackInfoUpdate),
    TimelinePropertiesUpdated(Seq<char>, Timeline),
}

impl View for SmtcEventSignal {
    type V = SignalView;

    open spec fn view(&self) -> SignalView {
        match *self {
            SmtcEventSignal::MediaProperties(id) => SignalView::MediaProperties(id@),
            SmtcEventSignal::Sessions => SignalView::Sessions,
            SmtcEventSignal::PlaybackInfoUpdated(id, update) => SignalView::PlaybackInfoUpdated(
                id@,
                update,
            ),
            SmtcEventSignal::TimelinePropertiesUpdated(id, timeline) =>
                SignalView::TimelinePropertiesUpdated(id@, timeline),
        }
    }
}

/// A request that a background task makes of the handler.
#[derive(Debug, Clone, Copy, PartialEq, Eq, Structural)]
pub enum TaskControlSignal {
    ResetSessions,
}

/// A call on the monitored session.
#[derive(Debug, Clone, Copy, PartialEq, Eq, Structural)]
pub enum SessionCall {
    Play,
    Pause,
    SkipNext,
    SkipPrevious,
    /// Change the position, in units of 100 nanoseconds.
    ChangePosition(i64),
    ChangeShuffle(bool),
    /// Change the repeat mode, given by its code.
    ChangeRepeatMode(i32),
}

/// What the handler has to do next.
pub enum SmtcAction {
    /// Queue an event.
    Signal(SmtcEventSignal),
    /// Send a snapshot of the player state to the worker.
    PublishTrack { with_cover: bool },
    /// Send an update to the worker.
    Emit(InternalUpdate),
    /// Send a diagnostic message to the worker.
    Diagnose { severity: DiagnosticLevel, message: String },
    /// Ask the event loop to look for sessions again.
    ResetSessions,
    /// List the sessions and find the one to monitor.
    RefreshSessions { requested: bool },
    /// Stop listening to the monitored session.
    DropSession,
    /// Look up the process of a session and report it as the active one.
    NotifyActiveSession(Option<String>),
    /// Listen to the new session; its first report is handed to `initialize_new_session`.
    InitializeSession,
    /// Bring the optimizations in line with the monitored session.
    ApplyOptimizations,
    /// Queue a control command.
    Execute(SmtcControlCommand),
    /// Call the monitored session.
    CallSession(SessionCall),
    /// Cancel the running volume change.
    CancelVolumeEasing,
    /// Change the volume of a session step by step.
    StartVolumeEasing { task_id: u64, level: VolumeLevel, session_id: String },
    /// Start the progress timer.
    StartProgressTimer,
    /// Cancel the progress timer.
    StopProgressTimer,
    /// Abort the task that reads media properties.
    AbortMediaPropertiesTask,
    /// Read the media properties of a session.
    StartMediaPropertiesTask(String),
    /// Fetch the cover art, where the media properties name any.
    FetchCover,
    /// Abort the task that fetches cover art.
    AbortCoverTask,
    /// Start to fetch cover art.
    StartCoverTask,
    /// Let the executor of control commands run out of commands.
    CloseExecutor,
}

/// The contents of a `SmtcAction`.
pub enum SmtcActionView {
    Signal(SignalView),
    PublishTrack { with_cover: bool },
    Emit(InternalUpdateView),
    Diagnose { severity: DiagnosticLevel, message: Seq<char> },
    ResetSessions,
    RefreshSessions { requested: bool },
    DropSession,
    NotifyActiveSession(Option<Seq<char>>),
    InitializeSession,
    ApplyOptimizations,
    Execute(SmtcControlCommand),
    CallSession(SessionCall),
    CancelVolumeEasing,
    StartVolumeEasing { task_id: u64, level: VolumeLevel, session_id: Seq<char> },
    StartProgressTimer,
    StopProgressTimer,
    AbortMediaPropertiesTask,
    StartMediaPropertiesTask(Seq<char>),
    FetchCover,
    AbortCoverTask,
    StartCoverTask,
    CloseExecutor,
}

impl View for SmtcAction {
    type V = SmtcActionView;

    open spec fn view(&self) -> SmtcActionView {
        match *self {
            SmtcAction::Signal(signal) => SmtcActionView::Signal(signal@),
            SmtcAction::PublishTrack { with_cover } => SmtcActionView::PublishTrack { with_cover },
            SmtcAction::Emit(update) => SmtcActionView::Emit(update@),
            SmtcAction::Diagnose { severity, message } => SmtcActionView::Diagnose {
                severity,
                message: message@,
            },
            SmtcAction::ResetSessions => SmtcActionView::ResetSessions,
            SmtcAction::RefreshSessions { requested } => SmtcActionView::RefreshSessions {
                requested,
            },
            SmtcAction::DropSession => SmtcActionView::DropSession,
            SmtcAction::NotifyActiveSession(id) => SmtcActionView::NotifyActiveSession(
                crate::api::text_of(id),
            ),
            SmtcAction::InitializeSession => SmtcActionView::InitializeSession,
            SmtcAction::ApplyOptimizations => SmtcActionView::ApplyOptimizations,
            SmtcAction::Execute(command) => SmtcActionView::Execute(command),
            SmtcAction::CallSession(call) => SmtcActionView::CallSession(call),
            SmtcAction::CancelVolumeEasing => SmtcActionView::CancelVolumeEasing,
            SmtcAction::StartVolumeEasing { task_id, level, session_id } =>
                SmtcActionView::StartVolumeEasing { task_id, level, session_id: session_id@ },
            SmtcAction::StartProgressTimer => SmtcActionView::StartProgressTimer,
            SmtcAction::StopProgressTimer => SmtcActionView::StopProgressTimer,
            SmtcAction::AbortMediaPropertiesTask => SmtcActionView::AbortMediaPropertiesTask,
            SmtcAction::StartMediaPropertiesTask(id) => SmtcActionView::StartMediaPropertiesTask(
                id@,
            ),
            SmtcAction::FetchCover => SmtcActionView::FetchCover,
            SmtcAction::AbortCoverTask => SmtcActionView::AbortCoverTask,
            SmtcAction::StartCoverTask => SmtcActionView::StartCoverTask,
            SmtcAction::CloseExecutor => SmtcActionView::CloseExecutor,
        }
    }
}

impl DeepView for SmtcAction {
    type V = SmtcActionView;

    open spec fn deep_view(&self) -> SmtcActionView {
        self@
    }
}

/// The state of the media session handler.
pub struct SmtcState {
    /// A session is monitored.
    pub has_session: bool,
    /// The events of the session manager are listened to.
    pub has_manager: bool,
    /// The session that the user has selected.
    pub target_session_id: Option<String>,
    /// The current text conversion mode.
    pub text_conversion_mode: TextConversionMode,
    /// The converter that was loaded for the current mode.
    pub text_converter: Option<OpenCC>,
    /// A task that changes the volume was started and not taken back.
    pub volume_easing_active: bool,
    /// A task that reads media properties was started and not taken back.
    pub media_properties_task_active: bool,
    /// A task that fetches cover art was started and not taken back.
    pub cover_task_active: bool,
    /// The progress timer runs.
    pub progress_timer_active: bool,
    /// The session manager has answered.
    pub is_manager_ready: bool,
    /// The number of the next task that changes the volume.
    pub next_easing_task_id: u64,
    /// Artist and title of the last track whose cover art could not be fetched.
    pub last_failed_cover_track: Option<(String, String)>,
    /// Whether the optimizations for Apple Music are enabled.
    pub is_apple_music_optimization_enabled: bool,
}

/// The contents of a `SmtcState`.
#[verifier::ext_equal]
pub struct StateView {
    pub has_session: bool,
    pub has_manager: bool,
    pub target_session_id: Option<Seq<char>>,
    pub text_conversion_mode: TextConversionMode,
    pub text_converter: Option<OpenCC>,
    pub volume_easing_active: bool,
    pub media_properties_task_active: bool,
    pub cover_task_active: bool,
    pub progress_timer_active: bool,
    pub is_manager_ready: bool,
    pub next_easing_task_id: u64,
    pub last_failed_cover_track: Option<(Seq<char>, Seq<char>)>,
    pub is_apple_music_optimization_enabled: bool,
}

/// The characters of an optional pair of texts.
pub open spec fn pair_of(pair: Option<(String, String)>) -> Option<(Seq<char>, Seq<char>)> {
    match pair {
        Some((a, b)) => Some((a@, b@)),
        None => None,
    }
}

impl View for SmtcState {
    type V = StateView;

    open spec fn view(&self) -> StateView {
        StateView {
            has_session: self.has_session,
            has_manager: self.has_manager,
            target_session_id: crate::api::text_of(self.target_session_id),
            text_conversion_mode: self.text_conversion_mode,
            text_converter: self.text_converter,
            volume_easing_active: self.volume_easing_active,
            media_properties_task_active: self.media_properties_task_active,
            cover_task_active: self.cover_task_active,
            progress_timer_active: self.progress_timer_active,
            is_manager_ready: self.is_manager_ready,
            next_easing_task_id: self.next_easing_task_id,
            last_failed_cover_track: pair_of(self.last_failed_cover_track),
            is_apple_music_optimization_enabled: self.is_apple_music_optimization_enabled,
        }
    }
}

/// How the handler goes on without touching the player state: its next state, and what it does,
/// in order.
#[verifier::ext_equal]
pub struct Step {
    pub state: StateView,
    pub actions: Seq<SmtcActionView>,
}

impl Step {
    /// This step as a reaction that leaves the player state as it is.
    pub open spec fn with(self, player: PlayerView) -> Reaction {
        Reaction { state: self.state, player, actions: self.actions }
    }
}

/// How the handler reacts: its next state, the next player state, and what it does, in order.
#[verifier::ext_equal]
pub struct Reaction {
    pub state: StateView,
    pub player: PlayerView,
    pub actions: Seq<SmtcActionView>,
}

/// The action where the condition holds, else none.
pub open spec fn only_if(condition: bool, action: SmtcActionView) -> Seq<SmtcActionView> {
    if condition {
        seq![action]
    } else {
        seq![]
    }
}

/// What makes the media properties of the monitored session be read again.
pub open spec fn refresh_actions(current: Option<Seq<char>>) -> Seq<SmtcActionView> {
    match current {
        Some(id) => seq![SmtcActionView::Signal(SignalView::MediaProperties(id))],
        None => seq![],
    }
}

/// Whether a session belongs to Apple Music.
pub open spec fn is_apple_music(session: Option<Seq<char>>) -> bool {
    match session {
        Some(id) => crate::text::starts_with(id, "AppleInc.AppleMusic"@),
        None => false,
    }
}

impl StateView {
    /// The state before anything has happened.
    pub open spec fn initial() -> StateView {
        StateView {
            has_session: false,
            has_manager: false,
            target_session_id: None,
            text_conversion_mode: TextConversionMode::Off,
            text_converter: None,
            volume_easing_active: false,
            media_properties_task_active: false,
            cover_task_active: false,
            progress_timer_active: false,
            is_manager_ready: false,
            next_easing_task_id: 0,
            last_failed_cover_track: None,
            is_apple_music_optimization_enabled: true,
        }
    }

    /// Events of the manager are listened to only once it has answered, and a converter is the one
    /// that the text conversion mode calls for: none while text conversion is off.
    pub open spec fn wf(self) -> bool {
        &&& self.has_manager ==> self.is_manager_ready
        &&& crate::conversion::can_load(self.text_conversion_mode, self.text_converter)
    }

    /// The step that does nothing.
    pub open spec fn idle(self) -> Step {
        Step { state: self, actions: seq![] }
    }

    /// No reaction at all.
    pub open spec fn ignoring(self, player: PlayerView) -> Reaction {
        self.idle().with(player)
    }

    /// The reaction to a new text conversion mode, for the converter that was loaded for it or
    /// for the reason why none was.
    pub open spec fn after_text_conversion(
        self,
        current: Option<Seq<char>>,
        mode: TextConversionMode,
        loaded: Option<OpenCC>,
        reason: Seq<char>,
    ) -> Step {
        if self.text_conversion_mode == mode {
            self.idle()
        } else {
            let config = crate::conversion::config_of_mode(mode);
            Step {
                state: StateView {
                    text_conversion_mode: mode,
                    text_converter: if config is Some {
                        loaded
                    } else {
                        None
                    },
                    ..self
                },
                actions: only_if(
                    config is Some && loaded is None,
                    SmtcActionView::Diagnose {
                        severity: DiagnosticLevel::Error,
                        message: crate::conversion::load_failure(config->0, reason),
                    },
                ) + refresh_actions(current),
            }
        }
    }

    /// The reaction to the selection of a session; an empty identifier selects none.
    pub open spec fn after_select(self, id: Seq<char>) -> Step {
        Step {
            state: StateView {
                target_session_id: if id.len() == 0 {
                    None
                } else {
                    Some(id)
                },
                ..self
            },
            actions: seq![SmtcActionView::Signal(SignalView::Sessions)],
        }
    }

    /// The reaction to a request for the whole state.
    pub open spec fn after_request(self) -> Step {
        if !self.is_manager_ready {
            self.idle()
        } else {
            Step {
                state: StateView { has_session: false, ..self },
                actions: only_if(self.has_session, SmtcActionView::DropSession) + only_if(
                    self.has_manager,
                    SmtcActionView::RefreshSessions { requested: true },
                ),
            }
        }
    }

    /// The reaction to turning the progress timer on or off.
    pub open spec fn after_progress_timer(self, enabled: bool) -> Step {
        Step {
            state: StateView { progress_timer_active: enabled, ..self },
            actions: only_if(
                enabled && !self.progress_timer_active,
                SmtcActionView::StartProgressTimer,
            ) + only_if(!enabled && self.progress_timer_active, SmtcActionView::StopProgressTimer),
        }
    }

    /// The reaction to a new position offset.
    pub open spec fn after_progress_offset(self, player: PlayerView, offset: i64) -> Reaction {
        Reaction {
            state: self,
            player: PlayerView { position_offset_ms: offset, ..player },
            actions: seq![SmtcActionView::PublishTrack { with_cover: false }],
        }
    }

    /// The offset that the optimizations call for.
    pub open spec fn optimization_offset(self, current: Option<Seq<char>>) -> i64 {
        if self.is_apple_music_optimization_enabled && is_apple_music(current) {
            APPLE_MUSIC_OFFSET_MS
        } else {
            0
        }
    }

    /// The reaction that brings the optimizations in line with the monitored session.
    pub open spec fn after_optimizations(
        self,
        player: PlayerView,
        current: Option<Seq<char>>,
    ) -> Reaction {
        let offset = self.optimization_offset(current);
        if player.apple_music_optimization_offset_ms == offset {
            self.ignoring(player)
        } else {
            Reaction {
                state: self,
                player: PlayerView { apple_music_optimization_offset_ms: offset, ..player },
                actions: refresh_actions(current) + seq![
                    SmtcActionView::PublishTrack { with_cover: true },
                ],
            }
        }
    }

    /// The reaction to turning the optimizations on or off.
    pub open spec fn after_set_optimization(
        self,
        player: PlayerView,
        current: Option<Seq<char>>,
        enabled: bool,
    ) -> Reaction {
        StateView {
            is_apple_music_optimization_enabled: enabled,
            ..self
        }.after_optimizations(player, current)
    }

    /// The reaction to a command, for the converter that is loaded where the command calls for
    /// one or for the reason why none was.
    pub open spec fn after_command(
        self,
        player: PlayerView,
        current: Option<Seq<char>>,
        command: InternalCommandView,
        loaded: Option<OpenCC>,
        reason: Seq<char>,
    ) -> Reaction {
        match command {
            InternalCommandView::SetTextConversion(mode) => self.after_text_conversion(
                current,
                mode,
                loaded,
                reason,
            ).with(player),
            InternalCommandView::SelectSmtcSession(id) => self.after_select(id).with(player),
            InternalCommandView::MediaControl(c) => Reaction {
                state: self,
                player,
                actions: seq![SmtcActionView::Execute(c)],
            },
            InternalCommandView::RequestStateUpdate => self.after_request().with(player),
            InternalCommandView::SetProgressTimer(enabled) => self.after_progress_timer(
                enabled,
            ).with(player),
            InternalCommandView::SetProgressOffset(offset) => self.after_progress_offset(
                player,
                offset,
            ),
            InternalCommandView::SetAppleMusicOptimization(enabled) => self.after_set_optimization(
                player,
                current,
                enabled,
            ),
        }
    }

    /// The reaction to an event, for a timeline that is reported at `now`, `elapsed` milliseconds
    /// after the last report. Events of other sessions than the monitored one are ignored.
    pub open spec fn after_signal(
        self,
        player: PlayerView,
        current: Option<Seq<char>>,
        signal: SignalView,
        elapsed: u64,
        now: Instant,
    ) -> Reaction {
        match signal {
            SignalView::Sessions => Reaction {
                state: self,
                player,
                actions: only_if(
                    self.has_manager,
                    SmtcActionView::RefreshSessions { requested: false },
                ),
            },
            SignalView::MediaProperties(id) => self.after_properties_signal(current, id).with(
                player,
            ),
            SignalView::PlaybackInfoUpdated(id, update) => self.after_playback(
                player,
                current,
                id,
                update,
            ),
            SignalView::TimelinePropertiesUpdated(id, timeline) => self.after_timeline(
                player,
                current,
                id,
                timeline,
                elapsed,
                now,
            ),
        }
    }

    /// The step after the media properties of a session have changed.
    pub open spec fn after_properties_signal(
        self,
        current: Option<Seq<char>>,
        id: Seq<char>,
    ) -> Step {
        if current != Some(id) {
            self.idle()
        } else {
            Step {
                state: StateView { media_properties_task_active: true, ..self },
                actions: only_if(
                    self.media_properties_task_active,
                    SmtcActionView::AbortMediaPropertiesTask,
                ) + seq![SmtcActionView::StartMediaPropertiesTask(id)],
            }
        }
    }

    /// The reaction to new playback information of a session.
    pub open spec fn after_playback(
        self,
        player: PlayerView,
        current: Option<Seq<char>>,
        id: Seq<char>,
        update: PlaybackInfoUpdate,
    ) -> Reaction {
        if current != Some(id) {
            self.ignoring(player)
        } else {
            Reaction {
                state: self,
                player: crate::playback::player_with_playback(player, update),
                actions: seq![SmtcActionView::PublishTrack { with_cover: false }],
            }
        }
    }

    /// The reaction to a timeline of a session that is reported at `now`, `elapsed` milliseconds
    /// after the last report.
    pub open spec fn after_timeline(
        self,
        player: PlayerView,
        current: Option<Seq<char>>,
        id: Seq<char>,
        timeline: Timeline,
        elapsed: u64,
        now: Instant,
    ) -> Reaction {
        if current != Some(id) {
            self.ignoring(player)
        } else {
            Reaction {
                state: self,
                player: crate::playback::player_with_timeline(player, timeline, elapsed, now),
                actions: only_if(
                    crate::playback::timeline_changes(player, timeline, elapsed),
                    SmtcActionView::PublishTrack { with_cover: false },
                ),
            }
        }
    }

    /// The reaction to a control command, where the monitored session has the given identifier.
    pub open spec fn after_control(
        self,
        command: SmtcControlCommand,
        session_id: Option<Seq<char>>,
    ) -> Step {
        match command {
            SmtcControlCommand::SetVolume(level) => match session_id {
                Some(id) => if self.has_session && id.len() > 0 {
                    Step {
                        state: StateView {
                            volume_easing_active: true,
                            next_easing_task_id: crate::clock::unsigned64(
                                self.next_easing_task_id + 1,
                            ) as u64,
                            ..self
                        },
                        actions: only_if(
                            self.volume_easing_active,
                            SmtcActionView::CancelVolumeEasing,
                        ) + seq![
                            SmtcActionView::StartVolumeEasing {
                                task_id: self.next_easing_task_id,
                                level,
                                session_id: id,
                            },
                        ],
                    }
                } else {
                    self.idle()
                },
                None => self.idle(),
            },
            _ => match session_call_of(command) {
                Some(call) => Step {
                    state: self,
                    actions: only_if(self.has_session, SmtcActionView::CallSession(call)),
                },
                None => self.idle(),
            },
        }
    }

    /// The reaction to the answer of the session manager: whether there is one, and whether its
    /// events can be listened to.
    pub open spec fn after_manager(
        self,
        answered: bool,
        listening: bool,
    ) -> Step {
        if answered {
            Step {
                state: StateView {
                    is_manager_ready: true,
                    has_manager: self.has_manager || listening,
                    ..self
                },
                actions: only_if(listening, SmtcActionView::Signal(SignalView::Sessions)),
            }
        } else {
            self.idle()
        }
    }

    /// Whether the album is split off the artist of a track.
    pub open spec fn splits_artist(self, current: Option<Seq<char>>) -> bool {
        self.is_apple_music_optimization_enabled && is_apple_music(current)
    }

    /// The reaction to a track.
    pub open spec fn after_track(
        self,
        player: PlayerView,
        track: crate::track_info::TrackView,
    ) -> Reaction {
        let is_new = crate::track_info::is_new_track(player, track);
        let shown = crate::track_info::player_showing(player, track);
        Reaction {
            state: StateView {
                last_failed_cover_track: if is_new && self.last_failed_cover_track != Some(
                    (track.artist, track.title),
                ) {
                    None
                } else {
                    self.last_failed_cover_track
                },
                ..self
            },
            player: shown,
            actions: seq![SmtcActionView::PublishTrack { with_cover: true }] + only_if(
                is_new || shown.cover_data_hash is None,
                SmtcActionView::FetchCover,
            ),
        }
    }

    /// The reaction to media properties.
    pub open spec fn after_media_properties(
        self,
        player: PlayerView,
        current: Option<Seq<char>>,
        raw: RawMediaProperties,
    ) -> Reaction {
        let track = crate::track_info::parsed_properties(
            raw,
            self.text_converter,
            self.splits_artist(current),
        );
        match track {
            Some(t) => if self.has_session {
                self.after_track(player, t)
            } else {
                self.ignoring(player)
            },
            None => self.ignoring(player),
        }
    }

    /// The reaction to the media properties naming cover art or not.
    pub open spec fn after_thumbnail(self, available: bool) -> Step {
        if available {
            Step {
                state: StateView { cover_task_active: true, ..self },
                actions: only_if(self.cover_task_active, SmtcActionView::AbortCoverTask) + seq![
                    SmtcActionView::StartCoverTask,
                ],
            }
        } else {
            self.idle()
        }
    }

    /// The reaction to the outcome of fetching cover art.
    pub open spec fn after_cover(self, player: PlayerView, outcome: CoverView) -> Reaction {
        let bare = PlayerView { cover_data: None, cover_data_hash: None, ..player };
        match outcome {
            CoverView::Loaded(bytes) => Reaction {
                state: self,
                player: PlayerView {
                    cover_data: Some(bytes),
                    cover_data_hash: Some(cover_hash(bytes)),
                    ..player
                },
                actions: seq![SmtcActionView::PublishTrack { with_cover: true }],
            },
            CoverView::Missing => if player.cover_data is Some {
                Reaction {
                    state: self,
                    player: bare,
                    actions: seq![SmtcActionView::PublishTrack { with_cover: true }],
                }
            } else {
                self.ignoring(player)
            },
            CoverView::Failed => Reaction {
                state: StateView {
                    last_failed_cover_track: if player.artist.len() > 0 || player.title.len() > 0 {
                        Some((player.artist, player.title))
                    } else {
                        self.last_failed_cover_track
                    },
                    ..self
                },
                player: bare,
                actions: seq![
                    SmtcActionView::PublishTrack { with_cover: true },
                    SmtcActionView::ResetSessions,
                ],
            },
        }
    }

    /// The reaction to a tick of the progress timer.
    pub open spec fn after_progress(self, player: PlayerView) -> Reaction {
        Reaction {
            state: self,
            player,
            actions: only_if(
                player.playback_status == PlaybackStatus::Playing,
                SmtcActionView::PublishTrack { with_cover: false },
            ),
        }
    }

    /// The reaction to the choice of a session among those that are listed.
    pub open spec fn after_selection(self, selection: Selection) -> Step {
        match (selection, self.target_session_id) {
            (Selection::Vanished, Some(target)) => Step {
                state: StateView { target_session_id: None, ..self },
                actions: seq![
                    SmtcActionView::Emit(InternalUpdateView::SelectedSmtcSessionVanished(target)),
                ],
            },
            _ => self.idle(),
        }
    }

    /// The reaction to the session that is to be monitored from now on, if there is one. Where it
    /// is the monitored one already, nothing changes but that its process is looked up again,
    /// unless the whole state was requested.
    pub open spec fn after_session_found(
        self,
        player: PlayerView,
        current: Option<Seq<char>>,
        found: bool,
        found_id: Option<Seq<char>>,
        requested: bool,
    ) -> Reaction {
        if found_id == current && !requested {
            Reaction {
                state: self,
                player,
                actions: only_if(
                    found_id is Some,
                    SmtcActionView::NotifyActiveSession(found_id),
                ),
            }
        } else {
            Reaction {
                state: StateView { has_session: false, ..self },
                player: player.reset(),
                actions: only_if(self.has_session, SmtcActionView::DropSession) + seq![
                    SmtcActionView::NotifyActiveSession(found_id),
                ] + (if found {
                    seq![SmtcActionView::InitializeSession]
                } else {
                    seq![SmtcActionView::PublishTrack { with_cover: true }]
                }) + seq![SmtcActionView::ApplyOptimizations],
            }
        }
    }

    /// The reaction to the first report of a new session, made at `now`.
    pub open spec fn after_initialize(
        self,
        player: PlayerView,
        session_id: Option<Seq<char>>,
        playback: Option<PlaybackInfoUpdate>,
        timeline: Option<Timeline>,
        now: Instant,
    ) -> Reaction {
        Reaction {
            state: StateView { has_session: true, ..self },
            player: crate::playback::player_initialized(player, playback, timeline, now),
            actions: refresh_actions(session_id) + seq![
                SmtcActionView::PublishTrack { with_cover: true },
            ],
        }
    }

    /// The reaction to the end of the event loop: whatever still runs is ended.
    pub open spec fn after_shutdown(self) -> Step {
        Step {
            state: StateView {
                volume_easing_active: false,
                cover_task_active: false,
                media_properties_task_active: false,
                progress_timer_active: false,
                ..self
            },
            actions: only_if(self.volume_easing_active, SmtcActionView::CancelVolumeEasing)
                + only_if(self.cover_task_active, SmtcActionView::AbortCoverTask) + only_if(
                self.media_properties_task_active,
                SmtcActionView::AbortMediaPropertiesTask,
            ) + only_if(self.progress_timer_active, SmtcActionView::StopProgressTimer),
        }
    }
}

/// The call on the session that a control command stands for; none for a volume change.
pub open spec fn session_call_of(command: SmtcControlCommand) -> Option<SessionCall> {
    match command {
        SmtcControlCommand::Play => Some(SessionCall::Play),
        SmtcControlCommand::Pause => Some(SessionCall::Pause),
        SmtcControlCommand::SkipNext => Some(SessionCall::SkipNext),
        SmtcControlCommand::SkipPrevious => Some(SessionCall::SkipPrevious),
        SmtcControlCommand::SeekTo(ms) => Some(
            SessionCall::ChangePosition(crate::clock::signed64(ms * 10000) as i64),
        ),
        SmtcControlCommand::SetShuffle(active) => Some(SessionCall::ChangeShuffle(active)),
        SmtcControlCommand::SetRepeatMode(mode) => Some(
            SessionCall::ChangeRepeatMode(crate::playback::code_of_repeat(mode)),
        ),
        SmtcControlCommand::SetVolume(_) => None,
    }
}

/// The outcome of fetching cover art.
pub enum CoverOutcome {
    /// There is cover art.
    Loaded(Vec<u8>),
    /// There is none.
    Missing,
    /// It could not be fetched.
    Failed,
}

/// The contents of a `CoverOutcome`.
pub enum CoverView {
    Loaded(Seq<u8>),
    Missing,
    Failed,
}

impl View for CoverOutcome {
    type V = CoverView;

    open spec fn view(&self) -> CoverView {
        match *self {
            CoverOutcome::Loaded(bytes) => CoverView::Loaded(bytes@),
            CoverOutcome::Missing => CoverView::Missing,
            CoverOutcome::Failed => CoverView::Failed,
        }
    }
}

/// Appends an action where the condition holds.
fn push_if(actions: &mut Vec<SmtcAction>, condition: bool, action: SmtcAction)
    ensures
        final(actions).deep_view() == old(actions).deep_view() + only_if(condition, action@),
{
    let ghost before = actions.deep_view();
    if condition {
        actions.push(action);
        assert(actions.deep_view() =~= before.push(action@));
        assert(before.push(action@) =~= before + only_if(condition, action@));
    } else {
        assert(before =~= before + only_if(condition, action@));
    }
}

/// Appends what makes the media properties of the monitored session be read again.
fn push_refresh(actions: &mut Vec<SmtcAction>, current: &Option<String>)
    ensures
        final(actions).deep_view() == old(actions).deep_view() + refresh_actions(
            crate::api::text_of(*current),
        ),
{
    let ghost before = actions.deep_view();
    if let Some(id) = current {
        let signal = SmtcAction::Signal(SmtcEventSignal::MediaProperties(id.clone()));
        actions.push(signal);
        assert(actions.deep_view() =~= before.push(signal@));
        assert(actions.deep_view() =~= before + refresh_actions(crate::api::text_of(*current)));
    } else {
        assert(before =~= before + refresh_actions(crate::api::text_of(*current)));
    }
}

/// Whether the monitored session is the one with the given identifier.
fn is_current(current: &Option<String>, id: &str) -> (yes: bool)
    ensures
        yes == (crate::api::text_of(*current) == Some(id@)),
{
    match current {
        Some(current_id) => same_text(current_id.as_str(), id),
        None => false,
    }
}

/// Whether a session belongs to Apple Music.
fn belongs_to_apple_music(session: &Option<String>) -> (yes: bool)
    ensures
        yes == is_apple_music(crate::api::text_of(*session)),
{
    match session {
        Some(id) => text_starts_with(id.as_str(), "AppleInc.AppleMusic"),
        None => false,
    }
}

/// The call on the session that a control command stands for; none for a volume change.
pub fn session_call(command: SmtcControlCommand) -> (call: Option<SessionCall>)
    ensures
        call == session_call_of(command),
{
    match command {
        SmtcControlCommand::Play => Some(SessionCall::Play),
        SmtcControlCommand::Pause => Some(SessionCall::Pause),
        SmtcControlCommand::SkipNext => Some(SessionCall::SkipNext),
        SmtcControlCommand::SkipPrevious => Some(SessionCall::SkipPrevious),
        SmtcControlCommand::SeekTo(ms) => Some(SessionCall::ChangePosition(ms_to_ticks(ms))),
        SmtcControlCommand::SetShuffle(active) => Some(SessionCall::ChangeShuffle(active)),
        SmtcControlCommand::SetRepeatMode(mode) => Some(
            SessionCall::ChangeRepeatMode(repeat_mode_code(mode)),
        ),
        SmtcControlCommand::SetVolume(_) => None,
    }
}

/// The event for new playback information of a session; none where it could not be read.
pub fn playback_info_signal(session_id: &str, raw: &RawPlaybackInfo) -> (signal: Option<
    SmtcEventSignal,
>)
    ensures
        match (signal, crate::playback::playback_info_of(*raw)) {
            (Some(s), Some(update)) => s@ == SignalView::PlaybackInfoUpdated(session_id@, update),
            (None, None) => true,
            _ => false,
        },
{
    match extract_playback_info(raw) {
        Some(update) => Some(SmtcEventSignal::PlaybackInfoUpdated(session_id.to_owned(), update)),
        None => None,
    }
}

/// The event for a new timeline of a session; none where it could not be read.
pub fn timeline_signal(session_id: &str, raw: &RawTimeline) -> (signal: Option<SmtcEventSignal>)
    ensures
        match (signal, crate::playback::timeline_of(*raw)) {
            (Some(s), Some(timeline)) => s@ == SignalView::TimelinePropertiesUpdated(
                session_id@,
                timeline,
            ),
            (None, None) => true,
            _ => false,
        },
{
    match extract_timeline(raw) {
        Some(timeline) => Some(
            SmtcEventSignal::TimelinePropertiesUpdated(session_id.to_owned(), timeline),
        ),
        None => None,
    }
}

impl SmtcState {
    /// The state before anything has happened.
    pub fn new() -> (state: Self)
        ensures
            state@ == StateView::initial(),
            state@.wf(),
    {
        SmtcState {
            has_session: false,
            has_manager: false,
            target_session_id: None,
            text_conversion_mode: TextConversionMode::Off,
            text_converter: None,
            volume_easing_active: false,
            media_properties_task_active: false,
            cover_task_active: false,
            progress_timer_active: false,
            is_manager_ready: false,
            next_easing_task_id: 0,
            last_failed_cover_track: None,
            is_apple_music_optimization_enabled: true,
        }
    }

    /// Switches to a text conversion mode, given the converter that was loaded for it or the
    /// reason why none was.
    pub fn apply_text_conversion(
        &mut self,
        mode: TextConversionMode,
        loaded: Option<OpenCC>,
        reason: &str,
        current: &Option<String>,
    ) -> (actions: Vec<SmtcAction>)
        ensures
            (Step { state: final(self)@, actions: actions.deep_view() })
                == old(self)@.after_text_conversion(
                crate::api::text_of(*current),
                mode,
                loaded,
                reason@,
            ),
    {
        let mut actions: Vec<SmtcAction> = Vec::new();
        if self.text_conversion_mode == mode {
            assert(actions.deep_view() =~= Seq::<SmtcActionView>::empty());
            return actions;
        }
        self.text_conversion_mode = mode;
        match converter_config(mode) {
            Some(config) => {
                let failed: bool = loaded.is_none();
                let message: String = load_failure_message(config, reason);
                push_if(
                    &mut actions,
                    failed,
                    SmtcAction::Diagnose { severity: DiagnosticLevel::Error, message },
                );
                self.text_converter = loaded;
            },
            None => {
                self.text_converter = None;
            },
        }
        push_refresh(&mut actions, current);
        actions
    }

    /// Switches to a text conversion mode. Whether its converter can be loaded is up to the
    /// machine.
    pub fn on_set_text_conversion(
        &mut self,
        mode: TextConversionMode,
        current: &Option<String>,
    ) -> (actions: Vec<SmtcAction>)
        ensures
            exists|loaded: Option<OpenCC>, reason: Seq<char>|
                crate::conversion::can_load(mode, loaded) && (Step {
                    state: final(self)@,
                    actions: actions.deep_view(),
                }) == #[trigger] old(self)@.after_text_conversion(
                    crate::api::text_of(*current),
                    mode,
                    loaded,
                    reason,
                ),
    {
        let mut loaded: Option<OpenCC> = None;
        let mut reason: String = String::new();
        if self.text_conversion_mode != mode {
            if let Some(config) = converter_config(mode) {
                match load_converter(config) {
                    Ok(converter) => {
                        loaded = Some(converter);
                    },
                    Err(error) => {
                        reason = load_error_text(&error);
                    },
                }
            }
        }
        let ghost made = loaded;
        assert(crate::conversion::can_load(mode, made));
        self.apply_text_conversion(mode, loaded, reason.as_str(), current)
    }

    /// Selects the session to monitor; an empty identifier selects none.
    pub fn on_select_session(&mut self, id: String) -> (actions: Vec<SmtcAction>)
        ensures
            (Step { state: final(self)@, actions: actions.deep_view() }) == old(self)@.after_select(
                id@,
            ),
    {
        let mut actions: Vec<SmtcAction> = Vec::new();
        self.target_session_id = if id.as_str().is_empty() {
            None
        } else {
            Some(id)
        };
        actions.push(SmtcAction::Signal(SmtcEventSignal::Sessions));
        assert(actions.deep_view() =~= seq![SmtcActionView::Signal(SignalView::Sessions)]);
        actions
    }

    /// Starts to fetch the whole state again. Without a session manager there is nothing to
    /// fetch.
    pub fn on_request_state_update(&mut self) -> (actions: Vec<SmtcAction>)
        ensures
            (Step { state: final(self)@, actions: actions.deep_view() })
                == old(self)@.after_request(),
    {
        let mut actions: Vec<SmtcAction> = Vec::new();
        if self.is_manager_ready {
            push_if(&mut actions, self.has_session, SmtcAction::DropSession);
            push_if(
                &mut actions,
                self.has_manager,
                SmtcAction::RefreshSessions { requested: true },
            );
            self.has_session = false;
        }
        assert(actions.deep_view() =~= old(self)@.after_request().actions);
        actions
    }

    /// Turns the progress timer on or off.
    pub fn on_set_progress_timer(&mut self, enabled: bool) -> (actions: Vec<SmtcAction>)
        ensures
            (Step { state: final(self)@, actions: actions.deep_view() })
                == old(self)@.after_progress_timer(enabled),
    {
        let mut actions: Vec<SmtcAction> = Vec::new();
        push_if(
            &mut actions,
            enabled && !self.progress_timer_active,
            SmtcAction::StartProgressTimer,
        );
        push_if(
            &mut actions,
            !enabled && self.progress_timer_active,
            SmtcAction::StopProgressTimer,
        );
        self.progress_timer_active = enabled;
        assert(actions.deep_view() =~= old(self)@.after_progress_timer(enabled).actions);
        actions
    }

    /// Sets the position offset.
    pub fn on_set_progress_offset(&self, player: &mut SharedPlayerState, offset: i64) -> (actions:
        Vec<SmtcAction>)
        ensures
            (Reaction { state: self@, player: final(player)@, actions: actions.deep_view() })
                == self@.after_progress_offset(old(player)@, offset),
    {
        let mut actions: Vec<SmtcAction> = Vec::new();
        player.position_offset_ms = offset;
        actions.push(SmtcAction::PublishTrack { with_cover: false });
        assert(actions.deep_view() =~= seq![SmtcActionView::PublishTrack { with_cover: false }]);
        actions
    }

    /// Brings the optimizations in line with the monitored session.
    pub fn apply_or_reset_optimizations(
        &self,
        player: &mut SharedPlayerState,
        current: &Option<String>,
    ) -> (actions: Vec<SmtcAction>)
        ensures
            (Reaction { state: self@, player: final(player)@, actions: actions.deep_view() })
                == self@.after_optimizations(old(player)@, crate::api::text_of(*current)),
    {
        let mut actions: Vec<SmtcAction> = Vec::new();
        let offset: i64 = if self.is_apple_music_optimization_enabled && belongs_to_apple_music(
            current,
        ) {
            APPLE_MUSIC_OFFSET_MS
        } else {
            0
        };
        if player.apple_music_optimization_offset_ms != offset {
            player.apple_music_optimization_offset_ms = offset;
            push_refresh(&mut actions, current);
            push_if(&mut actions, true, SmtcAction::PublishTrack { with_cover: true });
        }
        assert(actions.deep_view() =~= self@.after_optimizations(
            old(player)@,
            crate::api::text_of(*current),
        ).actions);
        actions
    }

    /// Turns the optimizations for Apple Music on or off.
    pub fn on_set_apple_music_optimization(
        &mut self,
        player: &mut SharedPlayerState,
        enabled: bool,
        current: &Option<String>,
    ) -> (actions: Vec<SmtcAction>)
        ensures
            (Reaction {
                state: final(self)@,
                player: final(player)@,
                actions: actions.deep_view(),
            }) == old(self)@.after_set_optimization(
                old(player)@,
                crate::api::text_of(*current),
                enabled,
            ),
    {
        self.is_apple_music_optimization_enabled = enabled;
        self.apply_or_reset_optimizations(player, current)
    }

    /// Handles a command of the worker.
    pub fn handle_internal_command(
        &mut self,
        player: &mut SharedPlayerState,
        current: &Option<String>,
        command: InternalCommand,
    ) -> (actions: Vec<SmtcAction>)
        ensures
            exists|loaded: Option<OpenCC>, reason: Seq<char>|
                can_load_for(command@, loaded) && (Reaction {
                    state: final(self)@,
                    player: final(player)@,
                    actions: actions.deep_view(),
                }) == #[trigger] old(self)@.after_command(
                    old(player)@,
                    crate::api::text_of(*current),
                    command@,
                    loaded,
                    reason,
                ),
    {
        let ghost view = command@;
        let ghost id = crate::api::text_of(*current);
        let ghost mut made: Option<OpenCC> = None;
        let ghost mut why: Seq<char> = Seq::empty();
        let actions: Vec<SmtcAction> = match command {
            InternalCommand::SetTextConversion(mode) => {
                let switched = self.on_set_text_conversion(mode, current);
                proof {
                    let (l, r) = choose|loaded: Option<OpenCC>, reason: Seq<char>|
                        crate::conversion::can_load(mode, loaded) && (Step {
                            state: self@,
                            actions: switched.deep_view(),
                        }) == #[trigger] old(self)@.after_text_conversion(
                            id,
                            mode,
                            loaded,
                            reason,
                        );
                    made = l;
                    why = r;
                }
                switched
            },
            InternalCommand::SelectSmtcSession(target) => self.on_select_session(target),
            InternalCommand::MediaControl(control) => {
                let mut queued: Vec<SmtcAction> = Vec::new();
                queued.push(SmtcAction::Execute(control));
                assert(queued.deep_view() =~= seq![SmtcActionView::Execute(control)]);
                queued
            },
            InternalCommand::RequestStateUpdate => self.on_request_state_update(),
            InternalCommand::SetProgressTimer(enabled) => self.on_set_progress_timer(enabled),
            InternalCommand::SetProgressOffset(offset) => self.on_set_progress_offset(
                player,
                offset,
            ),
            InternalCommand::SetAppleMusicOptimization(
                enabled,
            ) => self.on_set_apple_music_optimization(player, enabled, current),
        };
        assert((Reaction { state: self@, player: player@, actions: actions.deep_view() })
            =~= old(self)@.after_command(old(player)@, id, view, made, why));
        actions
    }

    /// Handles the news that the media properties of a session have changed.
    pub fn handle_media_properties_signal(
        &mut self,
        session_id: String,
        current: &Option<String>,
    ) -> (actions: Vec<SmtcAction>)
        ensures
            (Step { state: final(self)@, actions: actions.deep_view() })
                == old(self)@.after_properties_signal(crate::api::text_of(*current), session_id@),
    {
        let mut actions: Vec<SmtcAction> = Vec::new();
        let ghost id = session_id@;
        if !is_current(current, session_id.as_str()) {
            assert(actions.deep_view() =~= Seq::<SmtcActionView>::empty());
            return actions;
        }
        push_if(
            &mut actions,
            self.media_properties_task_active,
            SmtcAction::AbortMediaPropertiesTask,
        );
        push_if(&mut actions, true, SmtcAction::StartMediaPropertiesTask(session_id));
        self.media_properties_task_active = true;
        assert(actions.deep_view() =~= only_if(
            old(self)@.media_properties_task_active,
            SmtcActionView::AbortMediaPropertiesTask,
        ) + seq![SmtcActionView::StartMediaPropertiesTask(id)]);
        actions
    }

    /// Handles new playback information of a session.
    pub fn handle_playback_info_update(
        &self,
        player: &mut SharedPlayerState,
        current: &Option<String>,
        session_id: &str,
        update: &PlaybackInfoUpdate,
    ) -> (actions: Vec<SmtcAction>)
        ensures
            (Reaction { state: self@, player: final(player)@, actions: actions.deep_view() })
                == self@.after_playback(
                old(player)@,
                crate::api::text_of(*current),
                session_id@,
                *update,
            ),
    {
        let mut actions: Vec<SmtcAction> = Vec::new();
        if is_current(current, session_id) {
            apply_playback_info(player, update);
            actions.push(SmtcAction::PublishTrack { with_cover: false });
            assert(actions.deep_view() =~= seq![
                SmtcActionView::PublishTrack { with_cover: false },
            ]);
        } else {
            assert(actions.deep_view() =~= Seq::<SmtcActionView>::empty());
        }
        actions
    }

    /// Handles a timeline of a session that is reported at `now`, `elapsed` milliseconds after
    /// the last report.
    pub fn handle_timeline_at(
        &self,
        player: &mut SharedPlayerState,
        current: &Option<String>,
        session_id: &str,
        timeline: &Timeline,
        elapsed: u64,
        now: Instant,
    ) -> (actions: Vec<SmtcAction>)
        ensures
            (Reaction { state: self@, player: final(player)@, actions: actions.deep_view() })
                == self@.after_timeline(
                old(player)@,
                crate::api::text_of(*current),
                session_id@,
                *timeline,
                elapsed,
                now,
            ),
    {
        let mut actions: Vec<SmtcAction> = Vec::new();
        if is_current(current, session_id) {
            let changed: bool = apply_timeline_at(player, timeline, elapsed, now);
            push_if(&mut actions, changed, SmtcAction::PublishTrack { with_cover: false });
        }
        assert(actions.deep_view() =~= self@.after_timeline(
            old(player)@,
            crate::api::text_of(*current),
            session_id@,
            *timeline,
            elapsed,
            now,
        ).actions);
        actions
    }

    /// Handles a timeline of a session that is reported now: the time since the last report is
    /// read first, the time of the new report after it. Both are up to the clock.
    pub fn handle_timeline_properties_update(
        &self,
        player: &mut SharedPlayerState,
        current: &Option<String>,
        session_id: &str,
        timeline: &Timeline,
    ) -> (actions: Vec<SmtcAction>)
        ensures
            exists|at: Instant, now: Instant|
                (Reaction { state: self@, player: final(player)@, actions: actions.deep_view() })
                    == #[trigger] self@.after_timeline(
                    old(player)@,
                    crate::api::text_of(*current),
                    session_id@,
                    *timeline,
                    old(player)@.elapsed_at(at),
                    now,
                ),
    {
        let elapsed: u64 = player.elapsed_since_report_ms();
        let now: Instant = Instant::now();
        self.handle_timeline_at(player, current, session_id, timeline, elapsed, now)
    }

    /// Handles an event.
    pub fn handle_smtc_event(
        &mut self,
        player: &mut SharedPlayerState,
        current: &Option<String>,
        signal: SmtcEventSignal,
    ) -> (actions: Vec<SmtcAction>)
        ensures
            exists|at: Instant, now: Instant|
                (Reaction {
                    state: final(self)@,
                    player: final(player)@,
                    actions: actions.deep_view(),
                }) == #[trigger] old(self)@.after_signal(
                    old(player)@,
                    crate::api::text_of(*current),
                    signal@,
                    old(player)@.elapsed_at(at),
                    now,
                ),
    {
        let ghost id = crate::api::text_of(*current);
        let ghost view = signal@;
        let ghost mut read: Instant = arbitrary();
        let ghost mut moment: Instant = arbitrary();
        let actions: Vec<SmtcAction> = match signal {
            SmtcEventSignal::Sessions => self.handle_sessions_signal(),
            SmtcEventSignal::MediaProperties(session_id) => self.handle_media_properties_signal(
                session_id,
                current,
            ),
            SmtcEventSignal::PlaybackInfoUpdated(
                session_id,
                update,
            ) => self.handle_playback_info_update(player, current, session_id.as_str(), &update),
            SmtcEventSignal::TimelinePropertiesUpdated(session_id, timeline) => {
                let actions: Vec<SmtcAction> = self.handle_timeline_properties_update(
                    player,
                    current,
                    session_id.as_str(),
                    &timeline,
                );
                proof {
                    let (r, m) = choose|at: Instant, now: Instant|
                        (Reaction {
                            state: self@,
                            player: player@,
                            actions: actions.deep_view(),
                        }) == #[trigger] self@.after_timeline(
                            old(player)@,
                            id,
                            session_id@,
                            timeline,
                            old(player)@.elapsed_at(at),
                            now,
                        );
                    read = r;
                    moment = m;
                }
                actions
            },
        };
        assert((Reaction { state: self@, player: player@, actions: actions.deep_view() })
            =~= old(self)@.after_signal(
            old(player)@,
            id,
            view,
            old(player)@.elapsed_at(read),
            moment,
        ));
        actions
    }

    /// Handles the news that the sessions have changed.
    pub fn handle_sessions_signal(&self) -> (actions: Vec<SmtcAction>)
        ensures
            actions.deep_view() == only_if(
                self.has_manager,
                SmtcActionView::RefreshSessions { requested: false },
            ),
    {
        let mut actions: Vec<SmtcAction> = Vec::new();
        push_if(&mut actions, self.has_manager, SmtcAction::RefreshSessions { requested: false });
        assert(actions.deep_view() =~= only_if(
            self.has_manager,
            SmtcActionView::RefreshSessions { requested: false },
        ));
        actions
    }

    /// Handles a control command, where the monitored session has the given identifier.
    pub fn process_media_control_command(
        &mut self,
        command: SmtcControlCommand,
        session_id: Option<String>,
    ) -> (actions: Vec<SmtcAction>)
        ensures
            (Step { state: final(self)@, actions: actions.deep_view() })
                == old(self)@.after_control(command, crate::api::text_of(session_id)),
    {
        let mut actions: Vec<SmtcAction> = Vec::new();
        let ghost id_view = crate::api::text_of(session_id);
        if let SmtcControlCommand::SetVolume(level) = command {
            if let Some(id) = session_id {
                if self.has_session && !id.as_str().is_empty() {
                    push_if(
                        &mut actions,
                        self.volume_easing_active,
                        SmtcAction::CancelVolumeEasing,
                    );
                    let task_id: u64 = self.next_easing_task_id;
                    self.next_easing_task_id = sum_unsigned(task_id, 1);
                    push_if(
                        &mut actions,
                        true,
                        SmtcAction::StartVolumeEasing { task_id, level, session_id: id },
                    );
                    self.volume_easing_active = true;
                }
            }
        } else if let Some(call) = session_call(command) {
            push_if(&mut actions, self.has_session, SmtcAction::CallSession(call));
        }
        assert(actions.deep_view() =~= old(self)@.after_control(command, id_view).actions);
        actions
    }

    /// Handles the answer of the session manager: whether there is one, and whether its events
    /// can be listened to.
    pub fn on_manager_ready(&mut self, answered: bool, listening: bool) -> (actions: Vec<
        SmtcAction,
    >)
        ensures
            (Step { state: final(self)@, actions: actions.deep_view() })
                == old(self)@.after_manager(answered, listening),
    {
        let mut actions: Vec<SmtcAction> = Vec::new();
        if answered {
            self.is_manager_ready = true;
            if listening {
                self.has_manager = true;
            }
            push_if(&mut actions, listening, SmtcAction::Signal(SmtcEventSignal::Sessions));
        }
        assert(actions.deep_view() =~= old(self)@.after_manager(answered, listening).actions);
        actions
    }

    /// Whether the media properties of a session are still of interest.
    pub fn wants_media_properties(&self, session_id: &str, current: &Option<String>) -> (yes: bool)
        ensures
            yes == (self.has_session && crate::api::text_of(*current) == Some(session_id@)),
    {
        self.has_session && is_current(current, session_id)
    }

    /// Takes a track over. The failure to fetch the cover art of another track is forgotten.
    pub fn update_track_state(
        &mut self,
        player: &mut SharedPlayerState,
        track: &TrackInfo,
    ) -> (actions: Vec<SmtcAction>)
        ensures
            (Reaction {
                state: final(self)@,
                player: final(player)@,
                actions: actions.deep_view(),
            }) == old(self)@.after_track(old(player)@, track@),
    {
        let mut actions: Vec<SmtcAction> = Vec::new();
        let is_new: bool = show_track(player, track);
        if is_new {
            let keep: bool = match &self.last_failed_cover_track {
                Some((artist, title)) => same_text(artist.as_str(), track.artist.as_str())
                    && same_text(title.as_str(), track.title.as_str()),
                None => false,
            };
            if !keep {
                self.last_failed_cover_track = None;
            }
        }
        push_if(&mut actions, true, SmtcAction::PublishTrack { with_cover: true });
        push_if(
            &mut actions,
            is_new || player.cover_data_hash.is_none(),
            SmtcAction::FetchCover,
        );
        assert(actions.deep_view() =~= old(self)@.after_track(old(player)@, track@).actions);
        actions
    }

    /// Handles the media properties of the monitored session.
    pub fn process_media_properties_update(
        &mut self,
        player: &mut SharedPlayerState,
        current: &Option<String>,
        raw: &RawMediaProperties,
    ) -> (actions: Vec<SmtcAction>)
        ensures
            (Reaction {
                state: final(self)@,
                player: final(player)@,
                actions: actions.deep_view(),
            }) == old(self)@.after_media_properties(
                old(player)@,
                crate::api::text_of(*current),
                *raw,
            ),
    {
        if self.has_session {
            let split_artist: bool = self.is_apple_music_optimization_enabled
                && belongs_to_apple_music(current);
            let track: Option<TrackInfo> = parse_and_convert_properties(
                raw,
                self.text_converter.as_ref(),
                split_artist,
            );
            if let Some(info) = track {
                return self.update_track_state(player, &info);
            }
        }
        let actions: Vec<SmtcAction> = Vec::new();
        assert(actions.deep_view() =~= Seq::<SmtcActionView>::empty());
        actions
    }

    /// Starts to fetch cover art, where the media properties name any.
    pub fn spawn_cover_fetch_task(&mut self, available: bool) -> (actions: Vec<SmtcAction>)
        ensures
            (Step { state: final(self)@, actions: actions.deep_view() })
                == old(self)@.after_thumbnail(available),
    {
        let mut actions: Vec<SmtcAction> = Vec::new();
        if available {
            push_if(&mut actions, self.cover_task_active, SmtcAction::AbortCoverTask);
            push_if(&mut actions, true, SmtcAction::StartCoverTask);
            self.cover_task_active = true;
        }
        assert(actions.deep_view() =~= old(self)@.after_thumbnail(available).actions);
        actions
    }

    /// Handles the outcome of fetching cover art.
    pub fn on_cover_data_ready(
        &mut self,
        player: &mut SharedPlayerState,
        outcome: CoverOutcome,
    ) -> (actions: Vec<SmtcAction>)
        ensures
            (Reaction {
                state: final(self)@,
                player: final(player)@,
                actions: actions.deep_view(),
            }) == old(self)@.after_cover(old(player)@, outcome@),
    {
        let mut actions: Vec<SmtcAction> = Vec::new();
        let ghost view = outcome@;
        match outcome {
            CoverOutcome::Loaded(bytes) => {
                let hash: u64 = calculate_cover_hash(bytes.as_slice());
                player.cover_data = Some(bytes);
                player.cover_data_hash = Some(hash);
                push_if(&mut actions, true, SmtcAction::PublishTrack { with_cover: true });
            },
            CoverOutcome::Missing => {
                if player.cover_data.is_some() {
                    player.cover_data = None;
                    player.cover_data_hash = None;
                    push_if(&mut actions, true, SmtcAction::PublishTrack { with_cover: true });
                }
            },
            CoverOutcome::Failed => {
                if !player.artist.as_str().is_empty() || !player.title.as_str().is_empty() {
                    self.last_failed_cover_track = Some(
                        (player.artist.clone(), player.title.clone()),
                    );
                }
                player.cover_data = None;
                player.cover_data_hash = None;
                push_if(&mut actions, true, SmtcAction::PublishTrack { with_cover: true });
                push_if(&mut actions, true, SmtcAction::ResetSessions);
            },
        }
        assert(actions.deep_view() =~= old(self)@.after_cover(old(player)@, view).actions);
        actions
    }

    /// Handles a tick of the progress timer.
    pub fn handle_progress_update_signal(&self, player: &SharedPlayerState) -> (actions: Vec<
        SmtcAction,
    >)
        ensures
            (Reaction { state: self@, player: player@, actions: actions.deep_view() })
                == self@.after_progress(player@),
    {
        let mut actions: Vec<SmtcAction> = Vec::new();
        push_if(
            &mut actions,
            player.playback_status == PlaybackStatus::Playing,
            SmtcAction::PublishTrack { with_cover: false },
        );
        assert(actions.deep_view() =~= self@.after_progress(player@).actions);
        actions
    }

    /// Lists the sessions that can be monitored, and tells the worker of them.
    pub fn get_sessions(&self, ids: &Vec<Option<String>>) -> (listing: SessionListing)
        ensures
            listing.candidates.deep_view() == crate::sessions::candidates_of(
                crate::sessions::identifiers(ids@),
            ),
            listing.actions.deep_view() == seq![
                SmtcActionView::Emit(
                    InternalUpdateView::SmtcSessionListChanged(
                        crate::sessions::session_infos_of(listing.candidates.deep_view()),
                    ),
                ),
            ],
    {
        let candidates: Vec<SessionCandidate> = list_candidates(ids);
        let infos = describe_sessions(&candidates);
        let mut actions: Vec<SmtcAction> = Vec::new();
        let update = SmtcAction::Emit(InternalUpdate::SmtcSessionListChanged(infos));
        actions.push(update);
        assert(actions.deep_view() =~= seq![update@]);
        SessionListing { candidates, actions }
    }

    /// Chooses the session to monitor. A selection that has vanished is reported and forgotten.
    pub fn select_session_to_monitor(&mut self, candidates: &Vec<SessionCandidate>) -> (choice:
        SessionChoice)
        ensures
            choice.selection == crate::sessions::selection_of(
                old(self)@.target_session_id,
                candidates.deep_view(),
            ),
            (Step { state: final(self)@, actions: choice.actions.deep_view() })
                == old(self)@.after_selection(choice.selection),
    {
        let mut actions: Vec<SmtcAction> = Vec::new();
        let selection: Selection = choose_session(&self.target_session_id, candidates);
        if let Selection::Vanished = selection {
            if let Some(target) = &self.target_session_id {
                push_if(
                    &mut actions,
                    true,
                    SmtcAction::Emit(InternalUpdate::SelectedSmtcSessionVanished(target.clone())),
                );
            }
            self.target_session_id = None;
        }
        assert(actions.deep_view() =~= old(self)@.after_selection(selection).actions);
        SessionChoice { selection, actions }
    }

    /// Handles the session that is to be monitored from now on, if there is one.
    pub fn update_monitoring_session(
        &mut self,
        player: &mut SharedPlayerState,
        current: &Option<String>,
        found: bool,
        found_id: Option<String>,
        requested: bool,
    ) -> (actions: Vec<SmtcAction>)
        ensures
            (Reaction {
                state: final(self)@,
                player: final(player)@,
                actions: actions.deep_view(),
            }) == old(self)@.after_session_found(
                old(player)@,
                crate::api::text_of(*current),
                found,
                crate::api::text_of(found_id),
                requested,
            ),
    {
        let mut actions: Vec<SmtcAction> = Vec::new();
        let ghost found_view = crate::api::text_of(found_id);
        let ghost expected = old(self)@.after_session_found(
            old(player)@,
            crate::api::text_of(*current),
            found,
            found_view,
            requested,
        );
        let same: bool = match &found_id {
            Some(id) => is_current(current, id.as_str()),
            None => current.is_none(),
        };
        if same && !requested {
            push_if(
                &mut actions,
                found_id.is_some(),
                SmtcAction::NotifyActiveSession(found_id),
            );
            assert(actions.deep_view() =~= expected.actions);
            return actions;
        }
        push_if(&mut actions, self.has_session, SmtcAction::DropSession);
        self.has_session = false;
        player.reset_to_empty();
        push_if(&mut actions, true, SmtcAction::NotifyActiveSession(found_id));
        push_if(
            &mut actions,
            true,
            if found {
                SmtcAction::InitializeSession
            } else {
                SmtcAction::PublishTrack { with_cover: true }
            },
        );
        push_if(&mut actions, true, SmtcAction::ApplyOptimizations);
        assert(actions.deep_view() =~= expected.actions);
        actions
    }

    /// Takes over the first report of a new session, made at `now`.
    pub fn initialize_new_session_at(
        &mut self,
        player: &mut SharedPlayerState,
        session_id: &Option<String>,
        playback: &Option<PlaybackInfoUpdate>,
        timeline: &Option<Timeline>,
        now: Instant,
    ) -> (actions: Vec<SmtcAction>)
        ensures
            (Reaction {
                state: final(self)@,
                player: final(player)@,
                actions: actions.deep_view(),
            }) == old(self)@.after_initialize(
                old(player)@,
                crate::api::text_of(*session_id),
                *playback,
                *timeline,
                now,
            ),
    {
        let mut actions: Vec<SmtcAction> = Vec::new();
        self.has_session = true;
        push_refresh(&mut actions, session_id);
        initialize_player_at(player, playback, timeline, now);
        push_if(&mut actions, true, SmtcAction::PublishTrack { with_cover: true });
        assert(actions.deep_view() =~= old(self)@.after_initialize(
            old(player)@,
            crate::api::text_of(*session_id),
            *playback,
            *timeline,
            now,
        ).actions);
        actions
    }

    /// Takes over the first report of a new session.
    pub fn initialize_new_session(
        &mut self,
        player: &mut SharedPlayerState,
        session_id: &Option<String>,
        playback: &Option<PlaybackInfoUpdate>,
        timeline: &Option<Timeline>,
    ) -> (actions: Vec<SmtcAction>)
        ensures
            exists|now: Instant|
                (Reaction {
                    state: final(self)@,
                    player: final(player)@,
                    actions: actions.deep_view(),
                }) == #[trigger] old(self)@.after_initialize(
                    old(player)@,
                    crate::api::text_of(*session_id),
                    *playback,
                    *timeline,
                    now,
                ),
    {
        let now: Instant = Instant::now();
        self.initialize_new_session_at(player, session_id, playback, timeline, now)
    }

    /// Ends whatever still runs when the event loop has ended.
    pub fn shut_down(&mut self) -> (actions: Vec<SmtcAction>)
        ensures
            (Step { state: final(self)@, actions: actions.deep_view() })
                == old(self)@.after_shutdown(),
    {
        let mut actions: Vec<SmtcAction> = Vec::new();
        assert(actions.deep_view() + only_if(
            self.volume_easing_active,
            SmtcActionView::CancelVolumeEasing,
        ) =~= only_if(self.volume_easing_active, SmtcActionView::CancelVolumeEasing));
        push_if(&mut actions, self.volume_easing_active, SmtcAction::CancelVolumeEasing);
        push_if(&mut actions, self.cover_task_active, SmtcAction::AbortCoverTask);
        push_if(
            &mut actions,
            self.media_properties_task_active,
            SmtcAction::AbortMediaPropertiesTask,
        );
        push_if(&mut actions, self.progress_timer_active, SmtcAction::StopProgressTimer);
        self.volume_easing_active = false;
        self.cover_task_active = false;
        self.media_properties_task_active = false;
        self.progress_timer_active = false;
        actions
    }

    /// Handles one event of the event loop. Only a shutdown ends the loop.
    pub fn handle_event(
        &mut self,
        player: &mut SharedPlayerState,
        current: &Option<String>,
        event: RunnerEvent,
    ) -> (step: RunnerStep)
        ensures
            step.stop == (event is Shutdown),
            exists|loaded: Option<OpenCC>, reason: Seq<char>, at: Instant, now: Instant|
                can_load_in(event@, loaded) && (Reaction {
                    state: final(self)@,
                    player: final(player)@,
                    actions: step.actions.deep_view(),
                }) == #[trigger] old(self)@.after_event(
                    old(player)@,
                    crate::api::text_of(*current),
                    event@,
                    loaded,
                    reason,
                    old(player)@.elapsed_at(at),
                    now,
                ),
    {
        let ghost id = crate::api::text_of(*current);
        let ghost view = event@;
        let ghost mut made: Option<OpenCC> = None;
        let ghost mut why: Seq<char> = Seq::empty();
        let ghost mut read: Instant = arbitrary();
        let ghost mut moment: Instant = arbitrary();
        let mut stop: bool = false;
        let actions: Vec<SmtcAction> = match event {
            RunnerEvent::Shutdown => {
                stop = true;
                let mut actions: Vec<SmtcAction> = Vec::new();
                actions.push(SmtcAction::CloseExecutor);
                assert(actions.deep_view() =~= seq![SmtcActionView::CloseExecutor]);
                actions
            },
            RunnerEvent::Task(TaskControlSignal::ResetSessions) => {
                let mut actions: Vec<SmtcAction> = Vec::new();
                actions.push(SmtcAction::Signal(SmtcEventSignal::Sessions));
                assert(actions.deep_view() =~= seq![SmtcActionView::Signal(SignalView::Sessions)]);
                actions
            },
            RunnerEvent::Command(command) => {
                let actions: Vec<SmtcAction> = self.handle_internal_command(
                    player,
                    current,
                    command,
                );
                proof {
                    let (l, r) = choose|loaded: Option<OpenCC>, reason: Seq<char>|
                        can_load_for(command@, loaded) && (Reaction {
                            state: self@,
                            player: player@,
                            actions: actions.deep_view(),
                        }) == #[trigger] old(self)@.after_command(
                            old(player)@,
                            id,
                            command@,
                            loaded,
                            reason,
                        );
                    made = l;
                    why = r;
                }
                actions
            },
            RunnerEvent::Signal(signal) => {
                let actions: Vec<SmtcAction> = self.handle_smtc_event(player, current, signal);
                proof {
                    let (r, m) = choose|at: Instant, now: Instant|
                        (Reaction {
                            state: self@,
                            player: player@,
                            actions: actions.deep_view(),
                        }) == #[trigger] old(self)@.after_signal(
                            old(player)@,
                            id,
                            signal@,
                            old(player)@.elapsed_at(at),
                            now,
                        );
                    read = r;
                    moment = m;
                }
                actions
            },
            RunnerEvent::Progress => self.handle_progress_update_signal(player),
        };
        assert((Reaction { state: self@, player: player@, actions: actions.deep_view() })
            =~= old(self)@.after_event(
            old(player)@,
            id,
            view,
            made,
            why,
            old(player)@.elapsed_at(read),
            moment,
        ));
        RunnerStep { stop, actions }
    }
}

/// What the event loop of the handler waits for.
pub enum RunnerEvent {
    /// The handler is told to shut down, or nobody is left who could.
    Shutdown,
    /// A background task makes a request.
    Task(TaskControlSignal),
    /// A command of the worker.
    Command(InternalCommand),
    /// An event of the session manager or of the monitored session.
    Signal(SmtcEventSignal),
    /// A tick of the progress timer.
    Progress,
}

/// The contents of a `RunnerEvent`.
pub enum RunnerEventView {
    Shutdown,
    Task(TaskControlSignal),
    Command(InternalCommandView),
    Signal(SignalView),
    Progress,
}

impl View for RunnerEvent {
    type V = RunnerEventView;

    open spec fn view(&self) -> RunnerEventView {
        match *self {
            RunnerEvent::Shutdown => RunnerEventView::Shutdown,
            RunnerEvent::Task(signal) => RunnerEventView::Task(signal),
            RunnerEvent::Command(command) => RunnerEventView::Command(command@),
            RunnerEvent::Signal(signal) => RunnerEventView::Signal(signal@),
            RunnerEvent::Progress => RunnerEventView::Progress,
        }
    }
}

/// How the event loop goes on after an event.
pub struct RunnerStep {
    /// Whether the loop ends.
    pub stop: bool,
    /// What to do, in order.
    pub actions: Vec<SmtcAction>,
}

impl StateView {
    /// The reaction to an event of the event loop. What is up to the world are the converter that
    /// was loaded or the reason why none was, and the time at which a timeline is reported,
    /// `elapsed` milliseconds after the last report.
    pub open spec fn after_event(
        self,
        player: PlayerView,
        current: Option<Seq<char>>,
        event: RunnerEventView,
        loaded: Option<OpenCC>,
        reason: Seq<char>,
        elapsed: u64,
        now: Instant,
    ) -> Reaction {
        match event {
            RunnerEventView::Shutdown => Reaction {
                state: self,
                player,
                actions: seq![SmtcActionView::CloseExecutor],
            },
            RunnerEventView::Task(TaskControlSignal::ResetSessions) => Reaction {
                state: self,
                player,
                actions: seq![SmtcActionView::Signal(SignalView::Sessions)],
            },
            RunnerEventView::Command(command) => self.after_command(
                player,
                current,
                command,
                loaded,
                reason,
            ),
            RunnerEventView::Signal(signal) => self.after_signal(
                player,
                current,
                signal,
                elapsed,
                now,
            ),
            RunnerEventView::Progress => self.after_progress(player),
        }
    }
}

/// The sessions that can be monitored, and how the worker is told of them.
pub struct SessionListing {
    pub candidates: Vec<SessionCandidate>,
    pub actions: Vec<SmtcAction>,
}

/// The session to monitor, and what its choice calls for.
pub struct SessionChoice {
    pub selection: Selection,
    pub actions: Vec<SmtcAction>,
}

/// Whether this can be what loading a converter for a command has come to. Only a command that
/// sets the text conversion mode loads one.
pub open spec fn can_load_for(command: InternalCommandView, loaded: Option<OpenCC>) -> bool {
    match command {
        InternalCommandView::SetTextConversion(mode) => crate::conversion::can_load(mode, loaded),
        _ => loaded is None,
    }
}

/// Whether this can be what loading a converter in an event has come to. Only a command loads
/// one.
pub open spec fn can_load_in(event: RunnerEventView, loaded: Option<OpenCC>) -> bool {
    match event {
        RunnerEventView::Command(command) => can_load_for(command, loaded),
        _ => loaded is None,
    }
}

/// The hash of the cover art is known exactly where there is cover art, and is its hash.
pub open spec fn cover_is_hashed(player: PlayerView) -> bool {
    match player.cover_data {
        Some(bytes) => player.cover_data_hash == Some(cover_hash(bytes)),
        None => player.cover_data_hash is None,
    }
}

/// The state stays well formed in every event, whatever the world can add.
pub proof fn law_events_keep_state_well_formed(
    state: StateView,
    player: PlayerView,
    current: Option<Seq<char>>,
    event: RunnerEventView,
    loaded: Option<OpenCC>,
    reason: Seq<char>,
    elapsed: u64,
    now: Instant,
)
    requires
        state.wf(),
        can_load_in(event, loaded),
    ensures
        state.after_event(player, current, event, loaded, reason, elapsed, now).state.wf(),
{
}

/// The state stays well formed in everything else that happens to the handler.
pub proof fn law_reactions_keep_state_well_formed(
    state: StateView,
    player: PlayerView,
    current: Option<Seq<char>>,
    other: Option<Seq<char>>,
    flag: bool,
    second: bool,
)
    requires
        state.wf(),
    ensures
        StateView::initial().wf(),
        state.after_manager(flag, second).state.wf(),
        state.after_thumbnail(flag).state.wf(),
        state.after_shutdown().state.wf(),
        state.after_session_found(player, current, flag, other, second).state.wf(),
        forall|command: SmtcControlCommand| #[trigger]
            state.after_control(command, current).state.wf(),
        forall|track: crate::track_info::TrackView| #[trigger]
            state.after_track(player, track).state.wf(),
        forall|outcome: CoverView| #[trigger] state.after_cover(player, outcome).state.wf(),
        forall|selection: Selection| #[trigger] state.after_selection(selection).state.wf(),
        forall|
            playback: Option<PlaybackInfoUpdate>,
            timeline: Option<Timeline>,
            now: Instant,
        | #[trigger]
            state.after_initialize(player, current, playback, timeline, now).state.wf(),
{
}

/// Whatever happens, the hash that clients compare belongs to the cover art that they are shown.
pub proof fn law_cover_hash_belongs_to_cover(
    state: StateView,
    player: PlayerView,
    current: Option<Seq<char>>,
    event: RunnerEventView,
    loaded: Option<OpenCC>,
    reason: Seq<char>,
    elapsed: u64,
    now: Instant,
)
    requires
        cover_is_hashed(player),
    ensures
        cover_is_hashed(PlayerView::blank()),
        cover_is_hashed(player.reset()),
        cover_is_hashed(
            state.after_event(player, current, event, loaded, reason, elapsed, now).player,
        ),
        cover_is_hashed(state.after_optimizations(player, current).player),
        forall|track: crate::track_info::TrackView|
            cover_is_hashed(#[trigger] state.after_track(player, track).player),
        forall|outcome: CoverView|
            cover_is_hashed(#[trigger] state.after_cover(player, outcome).player),
        forall|found: bool, found_id: Option<Seq<char>>, requested: bool|
            cover_is_hashed(
                #[trigger] state.after_session_found(
                    player,
                    current,
                    found,
                    found_id,
                    requested,
                ).player,
            ),
        forall|playback: Option<PlaybackInfoUpdate>, timeline: Option<Timeline>|
            cover_is_hashed(
                #[trigger] state.after_initialize(player, current, playback, timeline, now).player,
            ),
{
}

/// Events of other sessions than the monitored one change nothing and cause nothing.
pub proof fn law_foreign_events_are_ignored(
    state: StateView,
    player: PlayerView,
    current: Option<Seq<char>>,
    signal: SignalView,
    elapsed: u64,
    now: Instant,
)
    requires
        match signal {
            SignalView::Sessions => false,
            SignalView::MediaProperties(id) => current != Some(id),
            SignalView::PlaybackInfoUpdated(id, _) => current != Some(id),
            SignalView::TimelinePropertiesUpdated(id, _) => current != Some(id),
        },
    ensures
        state.after_signal(player, current, signal, elapsed, now) == state.ignoring(player),
{
}

/// The optimizations only take effect for Apple Music, and only while they are enabled: then the
/// timeline is shifted, else it is not; and only then an artist is split.
pub proof fn law_optimizations_are_for_apple_music(
    state: StateView,
    player: PlayerView,
    current: Option<Seq<char>>,
)
    ensures
        state.is_apple_music_optimization_enabled && is_apple_music(current)
            ==> state.after_optimizations(
            player,
            current,
        ).player.apple_music_optimization_offset_ms == APPLE_MUSIC_OFFSET_MS,
        !(state.is_apple_music_optimization_enabled && is_apple_music(current)) ==> {
            &&& state.after_optimizations(
                player,
                current,
            ).player.apple_music_optimization_offset_ms == 0
            &&& !state.splits_artist(current)
        },
        StateView::initial().is_apple_music_optimization_enabled,
{
}

/// Optimizations that are in line with the session stay as they are, without another update.
pub proof fn law_optimizations_settle(
    state: StateView,
    player: PlayerView,
    current: Option<Seq<char>>,
)
    ensures
        ({
            let settled = state.after_optimizations(player, current).player;
            state.after_optimizations(settled, current) == state.ignoring(settled)
        }),
{
}

/// A request for the whole state ends in an update of the session list and of the track: once the
/// manager is listened to, the sessions are listed again, and whichever session is found then, the
/// monitored one is taken up anew or the blank state is published.
pub proof fn law_request_is_answered(
    state: StateView,
    player: PlayerView,
    found: bool,
    found_id: Option<Seq<char>>,
)
    requires
        state.wf(),
        state.has_manager,
    ensures
        ({
            let asked = state.after_request();
            let answered = asked.state.after_session_found(player, None, found, found_id, true);
            &&& asked.actions.last() == SmtcActionView::RefreshSessions { requested: true }
            &&& !asked.state.has_session
            &&& answered.player == player.reset()
            &&& found ==> answered.actions.contains(SmtcActionView::InitializeSession)
            &&& !found ==> answered.actions.contains(
                SmtcActionView::PublishTrack { with_cover: true },
            )
        }),
{
    let asked = state.after_request();
    let answered = asked.state.after_session_found(player, None, found, found_id, true);
    assert(!asked.state.has_session);
    assert(answered.actions[1] == if found {
        SmtcActionView::InitializeSession
    } else {
        SmtcActionView::PublishTrack { with_cover: true }
    });
}

/// A session that is taken up is published at once, and its media properties are read.
pub proof fn law_new_session_is_published(
    state: StateView,
    player: PlayerView,
    id: Seq<char>,
    playback: Option<PlaybackInfoUpdate>,
    timeline: Option<Timeline>,
    now: Instant,
)
    ensures
        state.after_initialize(player, Some(id), playback, timeline, now).actions == seq![
            SmtcActionView::Signal(SignalView::MediaProperties(id)),
            SmtcActionView::PublishTrack { with_cover: true },
        ],
        state.after_initialize(player, Some(id), playback, timeline, now).state.has_session,
{
    assert(refresh_actions(Some(id)) + seq![SmtcActionView::PublishTrack { with_cover: true }]
        =~= seq![
        SmtcActionView::Signal(SignalView::MediaProperties(id)),
        SmtcActionView::PublishTrack { with_cover: true },
    ]);
}

/// Nothing of the old track survives the switch to another session, but the user's offset.
pub proof fn law_session_switch_forgets_track(
    state: StateView,
    player: PlayerView,
    current: Option<Seq<char>>,
    found: bool,
    found_id: Option<Seq<char>>,
    requested: bool,
)
    requires
        found_id != current,
    ensures
        state.after_session_found(player, current, found, found_id, requested).player
            == player.reset(),
        !state.after_session_found(player, current, found, found_id, requested).state.has_session,
{
}

/// A selection that has vanished is reported once: after that the current session is monitored.
pub proof fn law_vanished_selection_is_forgotten(
    state: StateView,
    target: Seq<char>,
    candidates: Seq<crate::sessions::CandidateView>,
)
    requires
        state.target_session_id == Some(target),
        crate::sessions::selection_of(Some(target), candidates) == Selection::Vanished,
    ensures
        ({
            let after = state.after_selection(Selection::Vanished);
            &&& after.actions == seq![
                SmtcActionView::Emit(InternalUpdateView::SelectedSmtcSessionVanished(target)),
            ]
            &&& crate::sessions::selection_of(after.state.target_session_id, candidates)
                == Selection::Current
        }),
{
}

/// The progress timer is never started twice, nor stopped without having been started.
pub proof fn law_progress_timer_runs_once(state: StateView, enabled: bool)
    ensures
        ({
            let first = state.after_progress_timer(enabled);
            first.state.after_progress_timer(enabled).actions == Seq::<SmtcActionView>::empty()
        }),
        state.after_progress_timer(enabled).actions.contains(SmtcActionView::StartProgressTimer)
            ==> !state.progress_timer_active,
        state.after_progress_timer(enabled).actions.contains(SmtcActionView::StopProgressTimer)
            ==> state.progress_timer_active,
{
    let first = state.after_progress_timer(enabled);
    assert(first.state.after_progress_timer(enabled).actions =~= Seq::<SmtcActionView>::empty());
}

/// Two volume changes in a row get different numbers, and the second cancels the first.
pub proof fn law_volume_changes_do_not_overlap(
    state: StateView,
    a: VolumeLevel,
    b: VolumeLevel,
    id: Seq<char>,
)
    requires
        state.has_session,
        id.len() > 0,
    ensures
        ({
            let first = state.after_control(SmtcControlCommand::SetVolume(a), Some(id));
            let second = first.state.after_control(SmtcControlCommand::SetVolume(b), Some(id));
            &&& second.actions == seq![
                SmtcActionView::CancelVolumeEasing,
                SmtcActionView::StartVolumeEasing {
                    task_id: first.state.next_easing_task_id,
                    level: b,
                    session_id: id,
                },
            ]
            &&& first.state.next_easing_task_id != state.next_easing_task_id
        }),
{
    let first = state.after_control(SmtcControlCommand::SetVolume(a), Some(id));
    let second = first.state.after_control(SmtcControlCommand::SetVolume(b), Some(id));
    assert(second.actions =~= seq![
        SmtcActionView::CancelVolumeEasing,
        SmtcActionView::StartVolumeEasing {
            task_id: first.state.next_easing_task_id,
            level: b,
            session_id: id,
        },
    ]);
}

/// Without a monitored session no control command has any effect.
pub proof fn law_controls_need_a_session(
    state: StateView,
    command: SmtcControlCommand,
    id: Option<Seq<char>>,
)
    requires
        !state.has_session,
    ensures
        state.after_control(command, id) == state.idle(),
{
}

/// Text that comes after the conversion was turned off is not converted.
pub proof fn law_conversion_off_keeps_text(
    state: StateView,
    current: Option<Seq<char>>,
    text: Seq<char>,
    reason: Seq<char>,
)
    requires
        state.wf(),
    ensures
        ({
            let off = state.after_text_conversion(
                current,
                TextConversionMode::Off,
                None,
                reason,
            ).state;
            crate::utils::text_after_conversion(text, off.text_converter) == text
        }),
{
}

/// Progress ticks are only passed on while playback is running.
pub proof fn law_progress_needs_playback(state: StateView, player: PlayerView)
    ensures
        player.playback_status != PlaybackStatus::Playing ==> state.after_progress(player)
            == state.ignoring(player),
{
}

/// After a shutdown nothing is left to end.
pub proof fn law_shutdown_leaves_nothing(state: StateView)
    ensures
        state.after_shutdown().state.after_shutdown().actions == Seq::<SmtcActionView>::empty(),
{
    assert(state.after_shutdown().state.after_shutdown().actions =~= Seq::<
        SmtcActionView,
    >::empty());
}

/// On a monitored session each control command calls the operation of its own name, with what the
/// command asks for and once; nothing else is done, and the handler stays as it is.
pub proof fn law_controls_call_their_operation(
    state: StateView,
    id: Option<Seq<char>>,
    ms: u64,
    on: bool,
)
    requires
        state.has_session,
    ensures
        state.after_control(SmtcControlCommand::Play, id).actions == seq![
            SmtcActionView::CallSession(SessionCall::Play),
        ],
        state.after_control(SmtcControlCommand::Pause, id).actions == seq![
            SmtcActionView::CallSession(SessionCall::Pause),
        ],
        state.after_control(SmtcControlCommand::SkipNext, id).actions == seq![
            SmtcActionView::CallSession(SessionCall::SkipNext),
        ],
        state.after_control(SmtcControlCommand::SkipPrevious, id).actions == seq![
            SmtcActionView::CallSession(SessionCall::SkipPrevious),
        ],
        ms * 10000 <= i64::MAX ==> state.after_control(
            SmtcControlCommand::SeekTo(ms),
            id,
        ).actions == seq![
            SmtcActionView::CallSession(SessionCall::ChangePosition((ms * 10000) as i64)),
        ],
        state.after_control(SmtcControlCommand::SetShuffle(on), id).actions == seq![
            SmtcActionView::CallSession(SessionCall::ChangeShuffle(on)),
        ],
        state.after_control(
            SmtcControlCommand::SetRepeatMode(crate::api::RepeatMode::Off),
            id,
        ).actions == seq![SmtcActionView::CallSession(SessionCall::ChangeRepeatMode(0))],
        state.after_control(
            SmtcControlCommand::SetRepeatMode(crate::api::RepeatMode::One),
            id,
        ).actions == seq![SmtcActionView::CallSession(SessionCall::ChangeRepeatMode(1))],
        state.after_control(
            SmtcControlCommand::SetRepeatMode(crate::api::RepeatMode::All),
            id,
        ).actions == seq![SmtcActionView::CallSession(SessionCall::ChangeRepeatMode(2))],
        forall|command: SmtcControlCommand|
            !(command is SetVolume) ==> (#[trigger] state.after_control(command, id)).state
                == state,
{
}

/// A position that does not fit wraps round: the call differs from ten thousand units for each
/// millisecond by a multiple of 2^64.
pub proof fn law_seek_counts_in_ticks(state: StateView, id: Option<Seq<char>>, ms: u64)
    requires
        state.has_session,
    ensures
        ({
            let actions = state.after_control(SmtcControlCommand::SeekTo(ms), id).actions;
            &&& actions.len() == 1
            &&& actions[0] matches SmtcActionView::CallSession(SessionCall::ChangePosition(ticks))
                && (ms * 10000 - ticks) % 0x1_0000_0000_0000_0000 == 0
        }),
{
}

/// A volume command starts a change for the monitored session and the wanted level, under a new
/// number and in place of the one that runs. Without a session, or one without a name, nothing
/// happens.
pub proof fn law_volume_change_is_started(
    state: StateView,
    level: VolumeLevel,
    id: Seq<char>,
)
    ensures
        ({
            let step = state.after_control(SmtcControlCommand::SetVolume(level), Some(id));
            let start = SmtcActionView::StartVolumeEasing {
                task_id: state.next_easing_task_id,
                level,
                session_id: id,
            };
            &&& state.has_session && id.len() > 0 && state.volume_easing_active ==> step.actions
                == seq![SmtcActionView::CancelVolumeEasing, start]
            &&& state.has_session && id.len() > 0 && !state.volume_easing_active ==> step.actions
                == seq![start]
            &&& state.has_session && id.len() > 0 ==> {
                &&& step.state.volume_easing_active
                &&& state.next_easing_task_id < u64::MAX ==> step.state.next_easing_task_id
                    == state.next_easing_task_id + 1
                &&& state.next_easing_task_id == u64::MAX ==> step.state.next_easing_task_id == 0
                &&& step.state == (StateView {
                    volume_easing_active: true,
                    next_easing_task_id: step.state.next_easing_task_id,
                    ..state
                })
            }
            &&& !state.has_session || id.len() == 0 ==> step.actions.len() == 0 && step.state
                == state
        }),
        ({
            let step = state.after_control(SmtcControlCommand::SetVolume(level), None);
            step.actions.len() == 0 && step.state == state
        }),
{
}

/// A control command from the worker is queued as it came.
pub proof fn law_control_is_queued(
    state: StateView,
    player: PlayerView,
    current: Option<Seq<char>>,
    control: SmtcControlCommand,
    reason: Seq<char>,
    elapsed: u64,
    now: Instant,
)
    ensures
        ({
            let after = state.after_event(
                player,
                current,
                RunnerEventView::Command(InternalCommandView::MediaControl(control)),
                None,
                reason,
                elapsed,
                now,
            );
            &&& after.state == state && after.player == player
            &&& after.actions == seq![SmtcActionView::Execute(control)]
        }),
{
}

/// A selection is kept, an empty one means none, and the sessions are looked through again.
pub proof fn law_selection_is_kept(
    state: StateView,
    player: PlayerView,
    current: Option<Seq<char>>,
    id: Seq<char>,
    reason: Seq<char>,
    elapsed: u64,
    now: Instant,
)
    ensures
        ({
            let after = state.after_event(
                player,
                current,
                RunnerEventView::Command(InternalCommandView::SelectSmtcSession(id)),
                None,
                reason,
                elapsed,
                now,
            );
            &&& id.len() > 0 ==> after.state.target_session_id == Some(id)
            &&& id.len() == 0 ==> after.state.target_session_id is None
            &&& after.state == (StateView {
                target_session_id: after.state.target_session_id,
                ..state
            })
            &&& after.player == player
            &&& after.actions == seq![SmtcActionView::Signal(SignalView::Sessions)]
        }),
{
}

/// The progress timer runs after it was turned on and not after it was turned off; it is started
/// or stopped only where that changes anything.
pub proof fn law_progress_timer_follows_command(
    state: StateView,
    player: PlayerView,
    current: Option<Seq<char>>,
    on: bool,
    reason: Seq<char>,
    elapsed: u64,
    now: Instant,
)
    ensures
        ({
            let after = state.after_event(
                player,
                current,
                RunnerEventView::Command(InternalCommandView::SetProgressTimer(on)),
                None,
                reason,
                elapsed,
                now,
            );
            &&& after.state == (StateView { progress_timer_active: on, ..state })
            &&& after.player == player
            &&& on == state.progress_timer_active ==> after.actions.len() == 0
            &&& on && !state.progress_timer_active ==> after.actions == seq![
                SmtcActionView::StartProgressTimer,
            ]
            &&& !on && state.progress_timer_active ==> after.actions == seq![
                SmtcActionView::StopProgressTimer,
            ]
        }),
{
}

/// A position offset is taken over and published, without cover art.
pub proof fn law_offset_is_taken_over(
    state: StateView,
    player: PlayerView,
    current: Option<Seq<char>>,
    offset: i64,
    reason: Seq<char>,
    elapsed: u64,
    now: Instant,
)
    ensures
        ({
            let after = state.after_event(
                player,
                current,
                RunnerEventView::Command(InternalCommandView::SetProgressOffset(offset)),
                None,
                reason,
                elapsed,
                now,
            );
            &&& after.state == state
            &&& after.player == (PlayerView { position_offset_ms: offset, ..player })
            &&& after.actions == seq![SmtcActionView::PublishTrack { with_cover: false }]
        }),
{
}

/// A request for the whole state waits until the manager has answered; then the monitored session
/// is let go, and the sessions are listed anew where the manager is listened to.
pub proof fn law_request_lets_session_go(
    state: StateView,
    player: PlayerView,
    current: Option<Seq<char>>,
    reason: Seq<char>,
    elapsed: u64,
    now: Instant,
)
    ensures
        ({
            let after = state.after_event(
                player,
                current,
                RunnerEventView::Command(InternalCommandView::RequestStateUpdate),
                None,
                reason,
                elapsed,
                now,
            );
            let refresh = SmtcActionView::RefreshSessions { requested: true };
            &&& after.player == player
            &&& !state.is_manager_ready ==> after.state == state && after.actions.len() == 0
            &&& state.is_manager_ready ==> {
                &&& after.state == (StateView { has_session: false, ..state })
                &&& state.has_session && state.has_manager ==> after.actions == seq![
                    SmtcActionView::DropSession,
                    refresh,
                ]
                &&& state.has_session && !state.has_manager ==> after.actions == seq![
                    SmtcActionView::DropSession,
                ]
                &&& !state.has_session && state.has_manager ==> after.actions == seq![refresh]
                &&& !state.has_session && !state.has_manager ==> after.actions.len() == 0
            }
        }),
{
}

/// A new text conversion mode is kept with the converter that was loaded for it, and the monitored
/// session is read again. A mode that is set already changes nothing.
pub proof fn law_text_conversion_is_taken_over(
    state: StateView,
    player: PlayerView,
    current: Option<Seq<char>>,
    mode: TextConversionMode,
    loaded: Option<OpenCC>,
    reason: Seq<char>,
    elapsed: u64,
    now: Instant,
)
    ensures
        ({
            let after = state.after_event(
                player,
                current,
                RunnerEventView::Command(InternalCommandView::SetTextConversion(mode)),
                loaded,
                reason,
                elapsed,
                now,
            );
            &&& after.player == player
            &&& mode == state.text_conversion_mode ==> after.state == state && after.actions.len()
                == 0
            &&& mode != state.text_conversion_mode ==> {
                &&& after.state.text_conversion_mode == mode
                &&& mode == TextConversionMode::Off ==> after.state.text_converter is None
                &&& mode != TextConversionMode::Off ==> after.state.text_converter == loaded
                &&& after.state == (StateView {
                    text_conversion_mode: mode,
                    text_converter: after.state.text_converter,
                    ..state
                })
                &&& mode == TextConversionMode::Off || loaded is Some ==> {
                    &&& current matches Some(id) ==> after.actions == seq![
                        SmtcActionView::Signal(SignalView::MediaProperties(id)),
                    ]
                    &&& current is None ==> after.actions.len() == 0
                }
                &&& mode != TextConversionMode::Off && loaded is None ==> {
                    &&& after.actions.len() == if current is Some {
                        2int
                    } else {
                        1
                    }
                    &&& after.actions[0] matches SmtcActionView::Diagnose { severity, message }
                        && severity == DiagnosticLevel::Error && exists|before: Seq<char>|
                        message == #[trigger] (before + reason)
                    &&& current matches Some(id) ==> after.actions[1] == SmtcActionView::Signal(
                        SignalView::MediaProperties(id),
                    )
                }
            }
        }),
{
    let after = state.after_event(
        player,
        current,
        RunnerEventView::Command(InternalCommandView::SetTextConversion(mode)),
        loaded,
        reason,
        elapsed,
        now,
    );
    if mode != state.text_conversion_mode && mode != TextConversionMode::Off && loaded is None {
        let config = crate::conversion::config_of_mode(mode)->0;
        let message = crate::conversion::load_failure(config, reason);
        let before = message.take(message.len() - reason.len());
        assert(message =~= before + reason);
    }
}

/// The optimizations shift the timeline of a session of Apple Music by half a second back, and no
/// other: where the shift changes, the session is read again and published with its cover art, and
/// where it does not, nothing happens.
pub proof fn law_apple_music_is_shifted(
    state: StateView,
    player: PlayerView,
    current: Option<Seq<char>>,
    on: bool,
    reason: Seq<char>,
    elapsed: u64,
    now: Instant,
)
    ensures
        ({
            let after = state.after_event(
                player,
                current,
                RunnerEventView::Command(InternalCommandView::SetAppleMusicOptimization(on)),
                None,
                reason,
                elapsed,
                now,
            );
            let prefix = "AppleInc.AppleMusic"@;
            let named = current matches Some(id) && id.len() >= prefix.len() && id.subrange(
                0,
                prefix.len() as int,
            ) == prefix;
            let shift = (if on && named {
                -500int
            } else {
                0
            }) as i64;
            &&& after.state == (StateView { is_apple_music_optimization_enabled: on, ..state })
            &&& after.player == (PlayerView {
                apple_music_optimization_offset_ms: shift,
                ..player
            })
            &&& player.apple_music_optimization_offset_ms == shift ==> after.actions.len() == 0
            &&& player.apple_music_optimization_offset_ms != shift ==> {
                &&& current matches Some(id) ==> after.actions == seq![
                    SmtcActionView::Signal(SignalView::MediaProperties(id)),
                    SmtcActionView::PublishTrack { with_cover: true },
                ]
                &&& current is None ==> after.actions == seq![
                    SmtcActionView::PublishTrack { with_cover: true },
                ]
            }
            &&& state.splits_artist(current) <==> state.is_apple_music_optimization_enabled && named
        }),
{
    let prefix = "AppleInc.AppleMusic"@;
    if let Some(id) = current {
        if id.len() >= prefix.len() {
            assert(id.take(prefix.len() as int) =~= id.subrange(0, prefix.len() as int));
        }
    }
}

/// The optimizations are brought in line with the session that is monitored now.
pub proof fn law_optimizations_follow_session(
    state: StateView,
    player: PlayerView,
    rest: Seq<char>,
    other: Option<Seq<char>>,
)
    requires
        other matches Some(id) ==> !crate::text::starts_with(id, "AppleInc.AppleMusic"@),
    ensures
        ({
            let music = state.after_optimizations(player, Some("AppleInc.AppleMusic"@ + rest));
            let plain = state.after_optimizations(player, other);
            &&& state.is_apple_music_optimization_enabled
                ==> music.player.apple_music_optimization_offset_ms == -500
            &&& !state.is_apple_music_optimization_enabled
                ==> music.player.apple_music_optimization_offset_ms == 0
            &&& plain.player.apple_music_optimization_offset_ms == 0
            &&& music.state == state && plain.state == state
            &&& plain.player.apple_music_optimization_offset_ms
                == player.apple_music_optimization_offset_ms ==> plain.actions.len() == 0
            &&& plain.player.apple_music_optimization_offset_ms
                != player.apple_music_optimization_offset_ms ==> plain.actions.last()
                == (SmtcActionView::PublishTrack { with_cover: true })
        }),
{
    let id = "AppleInc.AppleMusic"@ + rest;
    assert(id.take("AppleInc.AppleMusic"@.len() as int) =~= "AppleInc.AppleMusic"@);
}

/// A change of the sessions has them listed again, where the manager is listened to; a task that
/// asks for it is heeded the same way, and the end of the loop only closes the executor.
pub proof fn law_sessions_are_listed_again(
    state: StateView,
    player: PlayerView,
    current: Option<Seq<char>>,
    reason: Seq<char>,
    elapsed: u64,
    now: Instant,
)
    ensures
        ({
            let changed = state.after_event(
                player,
                current,
                RunnerEventView::Signal(SignalView::Sessions),
                None,
                reason,
                elapsed,
                now,
            );
            let asked = state.after_event(
                player,
                current,
                RunnerEventView::Task(TaskControlSignal::ResetSessions),
                None,
                reason,
                elapsed,
                now,
            );
            let ended = state.after_event(
                player,
                current,
                RunnerEventView::Shutdown,
                None,
                reason,
                elapsed,
                now,
            );
            &&& changed.state == state && changed.player == player
            &&& state.has_manager ==> changed.actions == seq![
                SmtcActionView::RefreshSessions { requested: false },
            ]
            &&& !state.has_manager ==> changed.actions.len() == 0
            &&& asked.state == state && asked.player == player
            &&& asked.actions == seq![SmtcActionView::Signal(SignalView::Sessions)]
            &&& ended.state == state && ended.player == player
            &&& ended.actions == seq![SmtcActionView::CloseExecutor]
        }),
{
}

/// New media properties of the monitored session are read, by one task at a time.
pub proof fn law_media_properties_are_read(
    state: StateView,
    player: PlayerView,
    id: Seq<char>,
    reason: Seq<char>,
    elapsed: u64,
    now: Instant,
)
    ensures
        ({
            let after = state.after_event(
                player,
                Some(id),
                RunnerEventView::Signal(SignalView::MediaProperties(id)),
                None,
                reason,
                elapsed,
                now,
            );
            &&& after.player == player
            &&& after.state == (StateView { media_properties_task_active: true, ..state })
            &&& state.media_properties_task_active ==> after.actions == seq![
                SmtcActionView::AbortMediaPropertiesTask,
                SmtcActionView::StartMediaPropertiesTask(id),
            ]
            &&& !state.media_properties_task_active ==> after.actions == seq![
                SmtcActionView::StartMediaPropertiesTask(id),
            ]
        }),
{
}

/// Playback information of the monitored session is taken over and published, without cover art.
pub proof fn law_playback_is_published(
    state: StateView,
    player: PlayerView,
    id: Seq<char>,
    update: PlaybackInfoUpdate,
    reason: Seq<char>,
    elapsed: u64,
    now: Instant,
)
    ensures
        ({
            let after = state.after_event(
                player,
                Some(id),
                RunnerEventView::Signal(SignalView::PlaybackInfoUpdated(id, update)),
                None,
                reason,
                elapsed,
                now,
            );
            &&& after.state == state
            &&& after.player == (PlayerView {
                playback_status: update.playback_status,
                is_shuffle_active: update.is_shuffle_active,
                repeat_mode: update.repeat_mode,
                controls: update.controls,
                ..player
            })
            &&& after.actions == seq![SmtcActionView::PublishTrack { with_cover: false }]
        }),
{
}

/// A timeline of the monitored session is published, without cover art, exactly where it changes
/// what the player knows of position and duration. A report that lies ahead is dated by the time
/// it is handled.
pub proof fn law_timeline_is_published(
    state: StateView,
    player: PlayerView,
    id: Seq<char>,
    timeline: Timeline,
    reason: Seq<char>,
    elapsed: u64,
    now: Instant,
)
    ensures
        ({
            let after = state.after_event(
                player,
                Some(id),
                RunnerEventView::Signal(SignalView::TimelinePropertiesUpdated(id, timeline)),
                None,
                reason,
                elapsed,
                now,
            );
            &&& after.state == state
            &&& timeline.position_ms > player.last_known_position_ms ==> {
                &&& after.player.last_known_position_ms == timeline.position_ms
                &&& after.player.last_known_position_report_time == Some(now)
                &&& !after.player.is_waiting_for_initial_update
            }
            &&& after.player.last_known_position_ms != player.last_known_position_ms
                ==> after.player.last_known_position_report_time == Some(now)
            &&& timeline.duration_ms > 0 ==> after.player.song_duration_ms == timeline.duration_ms
            &&& timeline.duration_ms == 0 ==> after.player.song_duration_ms
                == player.song_duration_ms
            &&& after.player != player ==> after.actions == seq![
                SmtcActionView::PublishTrack { with_cover: false },
            ]
            &&& timeline.position_ms > player.last_known_position_ms ==> after.actions == seq![
                SmtcActionView::PublishTrack { with_cover: false },
            ]
            &&& after.actions.len() == 0 || after.actions == seq![
                SmtcActionView::PublishTrack { with_cover: false },
            ]
            &&& after.actions.len() == 0 ==> after.player == player
        }),
{
}

/// What is reported of a session that is not monitored changes nothing.
pub proof fn law_other_sessions_change_nothing(
    state: StateView,
    player: PlayerView,
    current: Option<Seq<char>>,
    id: Seq<char>,
    update: PlaybackInfoUpdate,
    timeline: Timeline,
    elapsed: u64,
    now: Instant,
)
    requires
        current is None || current != Some(id),
    ensures
        ({
            let a = state.after_signal(
                player,
                current,
                SignalView::MediaProperties(id),
                elapsed,
                now,
            );
            let b = state.after_signal(
                player,
                current,
                SignalView::PlaybackInfoUpdated(id, update),
                elapsed,
                now,
            );
            let c = state.after_signal(
                player,
                current,
                SignalView::TimelinePropertiesUpdated(id, timeline),
                elapsed,
                now,
            );
            &&& a.state == state && a.player == player && a.actions.len() == 0
            &&& b.state == state && b.player == player && b.actions.len() == 0
            &&& c.state == state && c.player == player && c.actions.len() == 0
        }),
{
}

/// A tick of the progress timer publishes the track, without cover art, while it plays, and does
/// nothing else.
pub proof fn law_ticks_publish_progress(
    state: StateView,
    player: PlayerView,
    current: Option<Seq<char>>,
    reason: Seq<char>,
    elapsed: u64,
    now: Instant,
)
    ensures
        ({
            let after = state.after_event(
                player,
                current,
                RunnerEventView::Progress,
                None,
                reason,
                elapsed,
                now,
            );
            &&& after.state == state && after.player == player
            &&& player.playback_status == PlaybackStatus::Playing ==> after.actions == seq![
                SmtcActionView::PublishTrack { with_cover: false },
            ]
            &&& player.playback_status != PlaybackStatus::Playing ==> after.actions.len() == 0
        }),
{
}

/// A track is shown and published with its cover art, whatever it is; its cover art is fetched
/// where the track is new or has none. Only a new track that is not the one whose cover art could
/// not be fetched makes that failure forgotten.
pub proof fn law_track_is_published(
    state: StateView,
    player: PlayerView,
    track: crate::track_info::TrackView,
)
    ensures
        ({
            let after = state.after_track(player, track);
            let publish = SmtcActionView::PublishTrack { with_cover: true };
            let new = if player.title.len() == 0 {
                track.title.len() > 0
            } else {
                player.title != track.title || player.artist != track.artist
            };
            &&& after.player.title == track.title && after.player.artist == track.artist
            &&& after.player.album == track.album
            &&& new || player.cover_data_hash is None ==> after.actions == seq![
                publish,
                SmtcActionView::FetchCover,
            ]
            &&& !new && player.cover_data_hash is Some ==> after.actions == seq![publish]
            &&& new && state.last_failed_cover_track != Some((track.artist, track.title))
                ==> after.state.last_failed_cover_track is None
            &&& !new || state.last_failed_cover_track == Some((track.artist, track.title))
                ==> after.state.last_failed_cover_track == state.last_failed_cover_track
            &&& after.state == (StateView {
                last_failed_cover_track: after.state.last_failed_cover_track,
                ..state
            })
        }),
{
}

/// Media properties have their track shown where a session is monitored and they describe one;
/// else they change nothing. Artist and album are only told apart for Apple Music, while the
/// optimizations are on.
pub proof fn law_media_properties_are_shown(
    state: StateView,
    player: PlayerView,
    current: Option<Seq<char>>,
    raw: RawMediaProperties,
)
    ensures
        ({
            let after = state.after_media_properties(player, current, raw);
            let split = state.is_apple_music_optimization_enabled && (current matches Some(id)
                && crate::text::starts_with(id, "AppleInc.AppleMusic"@));
            let parsed = crate::track_info::parsed_properties(raw, state.text_converter, split);
            &&& !state.has_session || parsed is None ==> after.state == state && after.player
                == player && after.actions.len() == 0
            &&& state.has_session ==> (parsed matches Some(track) ==> {
                &&& after.player.title == track.title
                &&& after.player.artist == track.artist
                &&& after.player.album == track.album
                &&& after.actions.len() > 0
                &&& after.actions[0] == (SmtcActionView::PublishTrack { with_cover: true })
            })
        }),
{
}

/// Cover art is fetched by one task at a time, and only where there is any.
pub proof fn law_cover_is_fetched_where_available(state: StateView)
    ensures
        ({
            let step = state.after_thumbnail(true);
            &&& step.state == (StateView { cover_task_active: true, ..state })
            &&& state.cover_task_active ==> step.actions == seq![
                SmtcActionView::AbortCoverTask,
                SmtcActionView::StartCoverTask,
            ]
            &&& !state.cover_task_active ==> step.actions == seq![SmtcActionView::StartCoverTask]
        }),
        ({
            let step = state.after_thumbnail(false);
            step.state == state && step.actions.len() == 0
        }),
{
}

/// Cover art that was loaded is shown under its hash and published. Cover art that is missing is
/// dropped, and published where there was any. Cover art that could not be fetched is dropped too,
/// the track is remembered for it where it has a name, and the sessions are looked for again.
pub proof fn law_cover_outcome_is_shown(state: StateView, player: PlayerView, bytes: Seq<u8>)
    ensures
        ({
            let after = state.after_cover(player, CoverView::Loaded(bytes));
            &&& after.state == state
            &&& after.player == (PlayerView {
                cover_data: Some(bytes),
                cover_data_hash: Some(cover_hash(bytes)),
                ..player
            })
            &&& after.actions == seq![SmtcActionView::PublishTrack { with_cover: true }]
        }),
        ({
            let after = state.after_cover(player, CoverView::Missing);
            &&& after.state == state
            &&& after.player.cover_data is None
            &&& player.cover_data is Some ==> after.player.cover_data_hash is None
                && after.actions == seq![SmtcActionView::PublishTrack { with_cover: true }]
            &&& player.cover_data is None ==> after.player == player && after.actions.len() == 0
            &&& after.player == (PlayerView {
                cover_data: None,
                cover_data_hash: after.player.cover_data_hash,
                ..player
            })
        }),
        ({
            let after = state.after_cover(player, CoverView::Failed);
            &&& after.player == (PlayerView { cover_data: None, cover_data_hash: None, ..player })
            &&& player.artist.len() > 0 || player.title.len() > 0
                ==> after.state.last_failed_cover_track == Some((player.artist, player.title))
            &&& player.artist.len() == 0 && player.title.len() == 0 ==> after.state == state
            &&& after.state == (StateView {
                last_failed_cover_track: after.state.last_failed_cover_track,
                ..state
            })
            &&& after.actions == seq![
                SmtcActionView::PublishTrack { with_cover: true },
                SmtcActionView::ResetSessions,
            ]
        }),
{
}

/// A selection that has vanished is reported by its identifier and forgotten; every other choice
/// leaves the selection alone and says nothing.
pub proof fn law_only_vanished_selection_is_reported(
    state: StateView,
    selection: Selection,
    target: Seq<char>,
)
    ensures
        ({
            let step = state.after_selection(selection);
            &&& !(selection is Vanished) || state.target_session_id is None ==> step.state == state
                && step.actions.len() == 0
            &&& selection is Vanished && state.target_session_id == Some(target) ==> step.state == (
            StateView { target_session_id: None, ..state }) && step.actions == seq![
                SmtcActionView::Emit(InternalUpdateView::SelectedSmtcSessionVanished(target)),
            ]
        }),
{
}

/// A session that is monitored already is only looked up again, unless the whole state was
/// requested. Any other choice lets the old session go, forgets its track, reports the new one,
/// takes it up or publishes that there is none, and brings the optimizations in line, in this
/// order.
pub proof fn law_session_is_taken_up(
    state: StateView,
    player: PlayerView,
    current: Option<Seq<char>>,
    found: bool,
    found_id: Option<Seq<char>>,
    requested: bool,
)
    ensures
        ({
            let after = state.after_session_found(player, current, found, found_id, requested);
            let notify = SmtcActionView::NotifyActiveSession(found_id);
            let take_up = if found {
                SmtcActionView::InitializeSession
            } else {
                SmtcActionView::PublishTrack { with_cover: true }
            };
            let same = found_id == current && !requested;
            &&& same ==> after.state == state && after.player == player
            &&& same && found_id is Some ==> after.actions == seq![notify]
            &&& same && found_id is None ==> after.actions.len() == 0
            &&& !same ==> after.state == (StateView { has_session: false, ..state })
                && after.player == player.reset()
            &&& !same && state.has_session ==> after.actions == seq![
                SmtcActionView::DropSession,
                notify,
                take_up,
                SmtcActionView::ApplyOptimizations,
            ]
            &&& !same && !state.has_session ==> after.actions == seq![
                notify,
                take_up,
                SmtcActionView::ApplyOptimizations,
            ]
        }),
{
}

/// A session that is taken up starts from its own report, made at `now`, and is published with
/// cover art; its media properties are read where it has a name.
pub proof fn law_taken_up_session_is_published(
    state: StateView,
    player: PlayerView,
    session_id: Option<Seq<char>>,
    playback: Option<PlaybackInfoUpdate>,
    timeline: Option<Timeline>,
    now: Instant,
)
    ensures
        ({
            let after = state.after_initialize(player, session_id, playback, timeline, now);
            let publish = SmtcActionView::PublishTrack { with_cover: true };
            &&& after.state == (StateView { has_session: true, ..state })
            &&& timeline matches Some(t) ==> after.player.last_known_position_ms == t.position_ms
                && after.player.song_duration_ms == t.duration_ms
                && after.player.last_known_position_report_time == Some(now)
            &&& playback matches Some(p) ==> after.player.playback_status == p.playback_status
                && after.player.controls == p.controls && after.player.repeat_mode == p.repeat_mode
                && after.player.is_shuffle_active == p.is_shuffle_active
            &&& playback is None && timeline is None ==> after.player == player
            &&& session_id matches Some(id) ==> after.actions == seq![
                SmtcActionView::Signal(SignalView::MediaProperties(id)),
                publish,
            ]
            &&& session_id is None ==> after.actions == seq![publish]
        }),
{
}

/// At the end everything that runs is ended, each by its own action and nothing that does not run.
pub proof fn law_shutdown_ends_what_runs(state: StateView)
    ensures
        ({
            let step = state.after_shutdown();
            &&& step.state == (StateView {
                volume_easing_active: false,
                cover_task_active: false,
                media_properties_task_active: false,
                progress_timer_active: false,
                ..state
            })
            &&& step.actions.contains(SmtcActionView::CancelVolumeEasing)
                <==> state.volume_easing_active
            &&& step.actions.contains(SmtcActionView::AbortCoverTask) <==> state.cover_task_active
            &&& step.actions.contains(SmtcActionView::AbortMediaPropertiesTask)
                <==> state.media_properties_task_active
            &&& step.actions.contains(SmtcActionView::StopProgressTimer)
                <==> state.progress_timer_active
            &&& step.actions.len() <= 4
        }),
{
    let a = only_if(state.volume_easing_active, SmtcActionView::CancelVolumeEasing);
    let b = only_if(state.cover_task_active, SmtcActionView::AbortCoverTask);
    let c = only_if(
        state.media_properties_task_active,
        SmtcActionView::AbortMediaPropertiesTask,
    );
    let d = only_if(state.progress_timer_active, SmtcActionView::StopProgressTimer);
    let all = a + b + c + d;
    if state.volume_easing_active {
        assert(all[0] == SmtcActionView::CancelVolumeEasing);
    }
    if state.cover_task_active {
        assert(all[a.len() as int] == SmtcActionView::AbortCoverTask);
    }
    if state.media_properties_task_active {
        assert(all[(a.len() + b.len()) as int] == SmtcActionView::AbortMediaPropertiesTask);
    }
    if state.progress_timer_active {
        assert(all[(a.len() + b.len() + c.len()) as int] == SmtcActionView::StopProgressTimer);
    }
}

/// A manager that answers is ready; one that is also listened to has the sessions looked through.
/// One that does not answer changes nothing.
pub proof fn law_manager_answer_is_kept(state: StateView, listening: bool)
    ensures
        ({
            let step = state.after_manager(true, listening);
            &&& step.state.is_manager_ready
            &&& listening ==> step.state.has_manager && step.actions == seq![
                SmtcActionView::Signal(SignalView::Sessions),
            ]
            &&& !listening ==> step.state.has_manager == state.has_manager && step.actions.len()
                == 0
            &&& step.state == (StateView {
                is_manager_ready: true,
                has_manager: step.state.has_manager,
                ..state
            })
        }),
        ({
            let step = state.after_manager(false, listening);
            step.state == state && step.actions.len() == 0
        }),
{
}

/// At first nothing runs, nothing is selected, no text is converted, and the optimizations are on.
pub proof fn law_initial_state_is_quiet()
    ensures
        ({
            let state = StateView::initial();
            &&& !state.has_session && !state.has_manager && !state.is_manager_ready
            &&& state.target_session_id is None && state.text_converter is None
            &&& state.text_conversion_mode == TextConversionMode::Off
            &&& !state.volume_easing_active && !state.media_properties_task_active
            &&& !state.cover_task_active && !state.progress_timer_active
            &&& state.next_easing_task_id == 0 && state.last_failed_cover_track is None
            &&& state.is_apple_music_optimization_enabled
        }),
{
}

/// The hash of cover art comes of nothing but its bytes, fed to a new hasher once.
pub proof fn law_cover_hash_comes_of_bytes(data: Seq<u8>)
    ensures
        cover_hash(data) == DefaultHasher::spec_finish(
            hashed_writes(
                data,
                usize::BITS as int,
                vstd::endian::endianness() == vstd::endian::Endian::Little,
            ),
        ),
{
}

} // verus!
