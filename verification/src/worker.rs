//! The coordinator between clients, the media session handler and the audio modules.
use crate::api::{
    DiagnosticInfo, InfoView, MediaCommand, MediaCommandView, MediaUpdate, MediaUpdateView,
    NowPlayingInfo, SessionInfoView, SmtcControlCommand, SmtcSessionInfo, TextConversionMode,
    VolumeLevel,
};
use crate::audio_session_monitor::{AudioMonitorCommand, AudioSessionState};
use vstd::prelude::*;

verus! {

/// Commands to the media session handler.
#[derive(Debug, Clone)]
pub enum InternalCommand {
    /// Switch to the specified media session.
    SelectSmtcSession(String),
    /// Send a control command to the session.
    MediaControl(SmtcControlCommand),
    /// Fetch and broadcast the current state again.
    RequestStateUpdate,
    /// Set the text conversion mode.
    SetTextConversion(TextConversionMode),
    /// Start or stop the progress timer.
    SetProgressTimer(bool),
    /// Set the progress offset.
    SetProgressOffset(i64),
    /// Enable or disable the Apple Music optimizations.
    SetAppleMusicOptimization(bool),
}

/// The contents of an `InternalCommand`.
pub enum InternalCommandView {
    SelectSmtcSession(Seq<char>),
    MediaControl(SmtcControlCommand),
    RequestStateUpdate,
    SetTextConversion(TextConversionMode),
    SetProgressTimer(bool),
    SetProgressOffset(i64),
    SetAppleMusicOptimization(bool),
}

impl View for InternalCommand {
    type V = InternalCommandView;

    open spec fn view(&self) -> InternalCommandView {
        match *self {
            InternalCommand::SelectSmtcSession(id) => InternalCommandView::SelectSmtcSession(id@),
            InternalCommand::MediaControl(command) => InternalCommandView::MediaControl(command),
            InternalCommand::RequestStateUpdate => InternalCommandView::RequestStateUpdate,
            InternalCommand::SetTextConversion(mode) => InternalCommandView::SetTextConversion(
                mode,
            ),
            InternalCommand::SetProgressTimer(on) => InternalCommandView::SetProgressTimer(on),
            InternalCommand::SetProgressOffset(offset) => InternalCommandView::SetProgressOffset(
                offset,
            ),
            InternalCommand::SetAppleMusicOptimization(on) =>
                InternalCommandView::SetAppleMusicOptimization(on),
        }
    }
}

/// Updates from the modules that the worker coordinates.
#[derive(Debug)]
pub enum InternalUpdate {
    /// The current track information has been updated.
    TrackChanged(Box<NowPlayingInfo>),
    /// The active media session has changed; its process where that is known.
    ActiveSmtcSessionChanged { pid: Option<u32> },
    /// The state of the monitored audio session has changed.
    AudioSessionStateChanged { session_id: String, new_state: AudioSessionState },
    /// The list of available media sessions has changed.
    SmtcSessionListChanged(Vec<SmtcSessionInfo>),
    /// The selected session has vanished.
    SelectedSmtcSessionVanished(String),
    /// A captured audio data packet.
    AudioDataPacket(Vec<u8>),
    /// An error of the audio capture.
    AudioCaptureError(String),
    /// The volume of an application has changed.
    AudioSessionVolumeChanged { session_id: String, volume: VolumeLevel, is_muted: bool },
}

/// The contents of an `InternalUpdate`.
pub enum InternalUpdateView {
    TrackChanged(InfoView),
    ActiveSmtcSessionChanged { pid: Option<u32> },
    AudioSessionStateChanged { session_id: Seq<char>, new_state: AudioSessionState },
    SmtcSessionListChanged(Seq<SessionInfoView>),
    SelectedSmtcSessionVanished(Seq<char>),
    AudioDataPacket(Seq<u8>),
    AudioCaptureError(Seq<char>),
    AudioSessionVolumeChanged { session_id: Seq<char>, volume: VolumeLevel, is_muted: bool },
}

impl View for InternalUpdate {
    type V = InternalUpdateView;

    open spec fn view(&self) -> InternalUpdateView {
        match *self {
            InternalUpdate::TrackChanged(info) => InternalUpdateView::TrackChanged(info@),
            InternalUpdate::ActiveSmtcSessionChanged { pid } =>
                InternalUpdateView::ActiveSmtcSessionChanged { pid },
            InternalUpdate::AudioSessionStateChanged { session_id, new_state } =>
                InternalUpdateView::AudioSessionStateChanged { session_id: session_id@, new_state },
            InternalUpdate::SmtcSessionListChanged(list) =>
                InternalUpdateView::SmtcSessionListChanged(list.deep_view()),
            InternalUpdate::SelectedSmtcSessionVanished(id) =>
                InternalUpdateView::SelectedSmtcSessionVanished(id@),
            InternalUpdate::AudioDataPacket(bytes) => InternalUpdateView::AudioDataPacket(bytes@),
            InternalUpdate::AudioCaptureError(message) => InternalUpdateView::AudioCaptureError(
                message@,
            ),
            InternalUpdate::AudioSessionVolumeChanged { session_id, volume, is_muted } =>
                InternalUpdateView::AudioSessionVolumeChanged {
                    session_id: session_id@,
                    volume,
                    is_muted,
                },
        }
    }
}

/// What the worker has to do next.
pub enum WorkerAction {
    /// Send a command to the media session handler.
    SendCommand(InternalCommand),
    /// Send a command to the audio session monitor.
    SendMonitorCommand(AudioMonitorCommand),
    /// Send an update to the client.
    Publish(MediaUpdate),
    /// Start the audio capture; its outcome is handed to `capture_started`.
    StartCapture,
    /// Stop the audio capture.
    StopCapture,
    /// Drop the receiving end of the audio updates.
    CloseAudioChannel,
    /// Drop the sending end of the commands to the media session handler.
    CloseCommandChannel,
    /// Drop the sending end of the commands to the audio session monitor.
    CloseMonitorChannel,
    /// Tell the audio session monitor to shut down.
    SignalMonitorShutdown,
    /// Wait for the audio session monitor, and abort it where that takes too long.
    AwaitMonitor,
    /// Tell the media session handler to shut down.
    SignalListenerShutdown,
    /// Wait for the media session handler, and abort it where that takes too long.
    AwaitListener,
}

/// The contents of a `WorkerAction`.
pub enum WorkerActionView {
    SendCommand(InternalCommandView),
    SendMonitorCommand(AudioMonitorCommand),
    Publish(MediaUpdateView),
    StartCapture,
    StopCapture,
    CloseAudioChannel,
    CloseCommandChannel,
    CloseMonitorChannel,
    SignalMonitorShutdown,
    AwaitMonitor,
    SignalListenerShutdown,
    AwaitListener,
}

impl View for WorkerAction {
    type V = WorkerActionView;

    open spec fn view(&self) -> WorkerActionView {
        match *self {
            WorkerAction::SendCommand(command) => WorkerActionView::SendCommand(command@),
            WorkerAction::SendMonitorCommand(command) => WorkerActionView::SendMonitorCommand(
                command,
            ),
            WorkerAction::Publish(update) => WorkerActionView::Publish(update@),
            WorkerAction::StartCapture => WorkerActionView::StartCapture,
            WorkerAction::StopCapture => WorkerActionView::StopCapture,
            WorkerAction::CloseAudioChannel => WorkerActionView::CloseAudioChannel,
            WorkerAction::CloseCommandChannel => WorkerActionView::CloseCommandChannel,
            WorkerAction::CloseMonitorChannel => WorkerActionView::CloseMonitorChannel,
            WorkerAction::SignalMonitorShutdown => WorkerActionView::SignalMonitorShutdown,
            WorkerAction::AwaitMonitor => WorkerActionView::AwaitMonitor,
            WorkerAction::SignalListenerShutdown => WorkerActionView::SignalListenerShutdown,
            WorkerAction::AwaitListener => WorkerActionView::AwaitListener,
        }
    }
}

impl DeepView for WorkerAction {
    type V = WorkerActionView;

    open spec fn deep_view(&self) -> WorkerActionView {
        self@
    }
}

/// What the worker waits for.
pub enum WorkerEvent {
    /// A command from the client.
    Command(MediaCommand),
    /// An update from the media session handler or the audio session monitor.
    Update(InternalUpdate),
    /// A diagnostic message, or the end of that channel.
    Diagnostic(Option<DiagnosticInfo>),
    /// An update of the audio capture, or the end of that channel.
    AudioUpdate(Option<InternalUpdate>),
}

/// How the worker goes on after an event.
pub struct WorkerStep {
    /// Whether the event loop ends.
    pub stop: bool,
    /// What to do, in order.
    pub actions: Vec<WorkerAction>,
}

/// The worker: which of its channels are open, and which of its modules run.
#[derive(Debug, Clone, Copy, PartialEq, Eq, Structural)]
pub struct MediaWorker {
    /// Commands to the media session handler can be sent.
    pub command_channel_open: bool,
    /// Commands to the audio session monitor can be sent.
    pub monitor_channel_open: bool,
    /// The media session handler can be told to shut down.
    pub listener_shutdown_open: bool,
    /// The media session handler has not been waited for.
    pub listener_running: bool,
    /// The audio session monitor can be told to shut down.
    pub monitor_shutdown_open: bool,
    /// The audio session monitor has not been waited for.
    pub monitor_running: bool,
    /// Audio is captured.
    pub capturing: bool,
    /// Audio updates can be received.
    pub audio_channel_open: bool,
}

/// The update for the client that an update from a module stands for, if it is one for clients.
pub open spec fn public_update(update: InternalUpdateView) -> Option<MediaUpdateView> {
    match update {
        InternalUpdateView::TrackChanged(info) => Some(MediaUpdateView::TrackChanged(info)),
        InternalUpdateView::ActiveSmtcSessionChanged { pid } => None,
        InternalUpdateView::AudioSessionStateChanged { session_id, new_state } => None,
        InternalUpdateView::SmtcSessionListChanged(list) => Some(
            MediaUpdateView::SessionsChanged(list),
        ),
        InternalUpdateView::SelectedSmtcSessionVanished(id) => Some(
            MediaUpdateView::SelectedSessionVanished(id),
        ),
        InternalUpdateView::AudioDataPacket(bytes) => Some(MediaUpdateView::AudioData(bytes)),
        InternalUpdateView::AudioCaptureError(message) => Some(MediaUpdateView::Error(message)),
        InternalUpdateView::AudioSessionVolumeChanged { session_id, volume, is_muted } => Some(
            MediaUpdateView::VolumeChanged { session_id, volume, is_muted },
        ),
    }
}

/// The command to the audio session monitor that an update calls for, if any.
pub open spec fn monitor_command(update: InternalUpdateView) -> Option<AudioMonitorCommand> {
    match update {
        InternalUpdateView::ActiveSmtcSessionChanged { pid } => Some(
            match pid {
                Some(p) => AudioMonitorCommand::StartMonitoring(p),
                None => AudioMonitorCommand::StopMonitoring,
            },
        ),
        InternalUpdateView::AudioSessionStateChanged { session_id, new_state } => if new_state
            == AudioSessionState::Expired {
            Some(AudioMonitorCommand::StopMonitoring)
        } else {
            None
        },
        _ => None,
    }
}

/// The command to the media session handler that a command of the client stands for, if any.
pub open spec fn internal_command(command: MediaCommandView) -> Option<InternalCommandView> {
    match command {
        MediaCommandView::SelectSession(id) => Some(InternalCommandView::SelectSmtcSession(id)),
        MediaCommandView::Control(c) => Some(InternalCommandView::MediaControl(c)),
        MediaCommandView::SetTextConversion(mode) => Some(
            InternalCommandView::SetTextConversion(mode),
        ),
        MediaCommandView::RequestUpdate => Some(InternalCommandView::RequestStateUpdate),
        MediaCommandView::SetHighFrequencyProgressUpdates(on) => Some(
            InternalCommandView::SetProgressTimer(on),
        ),
        MediaCommandView::SetProgressOffset(offset) => Some(
            InternalCommandView::SetProgressOffset(offset),
        ),
        MediaCommandView::SetAppleMusicOptimization(on) => Some(
            InternalCommandView::SetAppleMusicOptimization(on),
        ),
        MediaCommandView::StartAudioCapture => None,
        MediaCommandView::StopAudioCapture => None,
        MediaCommandView::Shutdown => None,
    }
}

/// The action where the condition holds, else none.
pub open spec fn when(condition: bool, action: WorkerActionView) -> Seq<WorkerActionView> {
    if condition {
        seq![action]
    } else {
        seq![]
    }
}

/// Appends an action where the condition holds.
fn push_when(actions: &mut Vec<WorkerAction>, condition: bool, action: WorkerAction)
    ensures
        final(actions).deep_view() == old(actions).deep_view() + when(condition, action@),
{
    let ghost before = actions.deep_view();
    if condition {
        actions.push(action);
        assert(actions.deep_view() =~= before.push(action@));
        assert(before.push(action@) =~= before + when(condition, action@));
    } else {
        assert(before =~= before + when(condition, action@));
    }
}

impl MediaWorker {
    /// Audio updates can be received exactly while audio is captured.
    pub open spec fn wf(self) -> bool {
        self.capturing == self.audio_channel_open
    }

    /// This worker without audio capture.
    pub open spec fn without_capture(self) -> MediaWorker {
        MediaWorker { capturing: false, audio_channel_open: false, ..self }
    }

    /// What ends the audio capture.
    pub open spec fn capture_stop_actions(self) -> Seq<WorkerActionView> {
        when(self.capturing, WorkerActionView::StopCapture) + when(
            self.audio_channel_open,
            WorkerActionView::CloseAudioChannel,
        )
    }

    /// What a command of the client calls for.
    pub open spec fn command_actions(self, command: MediaCommandView) -> Seq<WorkerActionView> {
        match command {
            MediaCommandView::StartAudioCapture => if self.capturing {
                seq![]
            } else {
                seq![WorkerActionView::StartCapture]
            },
            MediaCommandView::StopAudioCapture => self.capture_stop_actions(),
            _ => match internal_command(command) {
                Some(c) => if self.command_channel_open {
                    seq![WorkerActionView::SendCommand(c)]
                } else {
                    seq![]
                },
                None => seq![],
            },
        }
    }

    /// The worker after a command of the client.
    pub open spec fn after_command(self, command: MediaCommandView) -> MediaWorker {
        if command == MediaCommandView::StopAudioCapture {
            self.without_capture()
        } else {
            self
        }
    }

    /// What an update from a module calls for.
    pub open spec fn update_actions(self, update: InternalUpdateView) -> Seq<WorkerActionView> {
        (match monitor_command(update) {
            Some(c) => if self.monitor_channel_open {
                seq![WorkerActionView::SendMonitorCommand(c)]
            } else {
                seq![]
            },
            None => seq![],
        }) + (match public_update(update) {
            Some(u) => seq![WorkerActionView::Publish(u)],
            None => seq![],
        })
    }

    /// What ends the sending of commands.
    pub open spec fn closing_actions(self) -> Seq<WorkerActionView> {
        when(self.command_channel_open, WorkerActionView::CloseCommandChannel) + when(
            self.monitor_channel_open,
            WorkerActionView::CloseMonitorChannel,
        )
    }

    /// What tells the tasks to end.
    pub open spec fn telling_actions(self) -> Seq<WorkerActionView> {
        when(self.monitor_shutdown_open, WorkerActionView::SignalMonitorShutdown) + when(
            self.listener_shutdown_open,
            WorkerActionView::SignalListenerShutdown,
        )
    }

    /// What waits for the tasks.
    pub open spec fn awaiting_actions(self) -> Seq<WorkerActionView> {
        when(self.monitor_running, WorkerActionView::AwaitMonitor) + when(
            self.listener_running,
            WorkerActionView::AwaitListener,
        )
    }

    /// What shuts every module down: no more commands are sent, both tasks are told to end and
    /// then waited for, and the audio capture ends last.
    pub open spec fn shutdown_actions(self) -> Seq<WorkerActionView> {
        self.closing_actions() + self.telling_actions() + self.awaiting_actions()
            + self.capture_stop_actions()
    }

    /// The worker with every module shut down.
    pub open spec fn shut_down(self) -> MediaWorker {
        MediaWorker {
            command_channel_open: false,
            monitor_channel_open: false,
            listener_shutdown_open: false,
            listener_running: false,
            monitor_shutdown_open: false,
            monitor_running: false,
            capturing: false,
            audio_channel_open: false,
        }
    }

    /// A worker whose modules have just been started.
    pub fn new() -> (worker: Self)
        ensures
            worker.wf(),
            worker == (MediaWorker {
                command_channel_open: true,
                monitor_channel_open: true,
                listener_shutdown_open: true,
                listener_running: true,
                monitor_shutdown_open: true,
                monitor_running: true,
                capturing: false,
                audio_channel_open: false,
            }),
    {
        MediaWorker {
            command_channel_open: true,
            monitor_channel_open: true,
            listener_shutdown_open: true,
            listener_running: true,
            monitor_shutdown_open: true,
            monitor_running: true,
            capturing: false,
            audio_channel_open: false,
        }
    }

    /// Handles one event of the main loop. Only a shutdown command ends the loop.
    pub fn handle_event(&mut self, event: WorkerEvent) -> (step: WorkerStep)
        requires
            old(self).wf(),
        ensures
            final(self).wf(),
            match event {
                WorkerEvent::Command(command) => {
                    &&& step.stop == (command@ == MediaCommandView::Shutdown)
                    &&& step.actions.deep_view() == old(self).command_actions(command@)
                    &&& *final(self) == old(self).after_command(command@)
                },
                WorkerEvent::Update(update) => {
                    &&& !step.stop
                    &&& step.actions.deep_view() == old(self).update_actions(update@)
                    &&& *final(self) == *old(self)
                },
                WorkerEvent::Diagnostic(Some(info)) => {
                    &&& !step.stop
                    &&& step.actions.deep_view() == seq![
                        WorkerActionView::Publish(MediaUpdateView::Diagnostic(info@)),
                    ]
                    &&& *final(self) == *old(self)
                },
                WorkerEvent::Diagnostic(None) => {
                    &&& !step.stop
                    &&& step.actions.deep_view() == Seq::<WorkerActionView>::empty()
                    &&& *final(self) == *old(self)
                },
                WorkerEvent::AudioUpdate(Some(update)) => {
                    &&& !step.stop
                    &&& step.actions.deep_view() == old(self).update_actions(update@)
                    &&& *final(self) == *old(self)
                },
                WorkerEvent::AudioUpdate(None) => {
                    &&& !step.stop
                    &&& step.actions.deep_view() == seq![
                        WorkerActionView::Publish(
                            MediaUpdateView::Error("Audio capture failure"@),
                        ),
                    ] + old(self).capture_stop_actions()
                    &&& *final(self) == old(self).without_capture()
                },
            },
    {
        match event {
            WorkerEvent::Command(MediaCommand::Shutdown) => {
                let actions: Vec<WorkerAction> = Vec::new();
                assert(actions.deep_view() =~= Seq::<WorkerActionView>::empty());
                WorkerStep { stop: true, actions }
            },
            WorkerEvent::Command(command) => {
                let actions: Vec<WorkerAction> = self.handle_command_from_app(command);
                WorkerStep { stop: false, actions }
            },
            WorkerEvent::Update(update) => {
                let actions: Vec<WorkerAction> = self.handle_internal_update(update);
                WorkerStep { stop: false, actions }
            },
            WorkerEvent::Diagnostic(Some(info)) => {
                let mut actions: Vec<WorkerAction> = Vec::new();
                actions.push(WorkerAction::Publish(MediaUpdate::Diagnostic(info)));
                assert(actions.deep_view() =~= seq![
                    WorkerActionView::Publish(MediaUpdateView::Diagnostic(info@)),
                ]);
                WorkerStep { stop: false, actions }
            },
            WorkerEvent::Diagnostic(None) => {
                let actions: Vec<WorkerAction> = Vec::new();
                assert(actions.deep_view() =~= Seq::<WorkerActionView>::empty());
                WorkerStep { stop: false, actions }
            },
            WorkerEvent::AudioUpdate(Some(update)) => {
                let actions: Vec<WorkerAction> = self.handle_internal_update(update);
                WorkerStep { stop: false, actions }
            },
            WorkerEvent::AudioUpdate(None) => {
                let mut actions: Vec<WorkerAction> = Vec::new();
                actions.push(
                    WorkerAction::Publish(MediaUpdate::Error("Audio capture failure".to_owned())),
                );
                assert(actions.deep_view() =~= seq![
                    WorkerActionView::Publish(MediaUpdateView::Error("Audio capture failure"@)),
                ]);
                self.stop_audio_capture_internal(&mut actions);
                WorkerStep { stop: false, actions }
            },
        }
    }

    /// Translates a command of the client.
    pub fn handle_command_from_app(&mut self, command: MediaCommand) -> (actions: Vec<WorkerAction>)
        ensures
            actions.deep_view() == old(self).command_actions(command@),
            *final(self) == old(self).after_command(command@),
    {
        let mut actions: Vec<WorkerAction> = Vec::new();
        assert(actions.deep_view() =~= Seq::<WorkerActionView>::empty());
        let ghost view = command@;
        let internal: Option<InternalCommand> = match command {
            MediaCommand::SelectSession(id) => Some(InternalCommand::SelectSmtcSession(id)),
            MediaCommand::Control(c) => Some(InternalCommand::MediaControl(c)),
            MediaCommand::SetTextConversion(mode) => Some(InternalCommand::SetTextConversion(mode)),
            MediaCommand::RequestUpdate => Some(InternalCommand::RequestStateUpdate),
            MediaCommand::SetHighFrequencyProgressUpdates(on) => Some(
                InternalCommand::SetProgressTimer(on),
            ),
            MediaCommand::SetProgressOffset(offset) => Some(
                InternalCommand::SetProgressOffset(offset),
            ),
            MediaCommand::SetAppleMusicOptimization(on) => Some(
                InternalCommand::SetAppleMusicOptimization(on),
            ),
            MediaCommand::StartAudioCapture => {
                if !self.capturing {
                    actions.push(WorkerAction::StartCapture);
                    assert(actions.deep_view() =~= seq![WorkerActionView::StartCapture]);
                }
                None
            },
            MediaCommand::StopAudioCapture => {
                self.stop_audio_capture_internal(&mut actions);
                assert(actions.deep_view() =~= old(self).capture_stop_actions());
                None
            },
            MediaCommand::Shutdown => None,
        };
        if let Some(c) = internal {
            if self.command_channel_open {
                actions.push(WorkerAction::SendCommand(c));
                assert(actions.deep_view() =~= seq![WorkerActionView::SendCommand(c@)]);
            }
        }
        actions
    }

    /// Translates an update from a module.
    pub fn handle_internal_update(&self, update: InternalUpdate) -> (actions: Vec<WorkerAction>)
        ensures
            actions.deep_view() == self.update_actions(update@),
    {
        let mut actions: Vec<WorkerAction> = Vec::new();
        let public: Option<MediaUpdate> = match update {
            InternalUpdate::ActiveSmtcSessionChanged { pid } => {
                let command: AudioMonitorCommand = match pid {
                    Some(p) => AudioMonitorCommand::StartMonitoring(p),
                    None => AudioMonitorCommand::StopMonitoring,
                };
                if self.monitor_channel_open {
                    actions.push(WorkerAction::SendMonitorCommand(command));
                }
                None
            },
            InternalUpdate::AudioSessionStateChanged { session_id: _, new_state } => {
                if new_state == AudioSessionState::Expired && self.monitor_channel_open {
                    actions.push(
                        WorkerAction::SendMonitorCommand(AudioMonitorCommand::StopMonitoring),
                    );
                }
                None
            },
            InternalUpdate::TrackChanged(info) => Some(MediaUpdate::TrackChanged(*info)),
            InternalUpdate::SmtcSessionListChanged(list) => Some(
                MediaUpdate::SessionsChanged(list),
            ),
            InternalUpdate::AudioDataPacket(bytes) => Some(MediaUpdate::AudioData(bytes)),
            InternalUpdate::AudioSessionVolumeChanged { session_id, volume, is_muted } => Some(
                MediaUpdate::VolumeChanged { session_id, volume, is_muted },
            ),
            InternalUpdate::SelectedSmtcSessionVanished(id) => Some(
                MediaUpdate::SelectedSessionVanished(id),
            ),
            InternalUpdate::AudioCaptureError(message) => Some(MediaUpdate::Error(message)),
        };
        if let Some(u) = public {
            actions.push(WorkerAction::Publish(u));
        }
        assert(actions.deep_view() =~= self.update_actions(update@));
        actions
    }

    /// Records the outcome of starting the audio capture.
    pub fn capture_started(&mut self, succeeded: bool)
        ensures
            *final(self) == (MediaWorker {
                capturing: succeeded,
                audio_channel_open: succeeded,
                ..*old(self)
            }),
            final(self).wf(),
    {
        self.capturing = succeeded;
        self.audio_channel_open = succeeded;
    }

    /// Ends the audio capture, and forgets its channel.
    pub fn stop_audio_capture_internal(&mut self, actions: &mut Vec<WorkerAction>)
        ensures
            final(actions).deep_view() == old(actions).deep_view()
                + old(self).capture_stop_actions(),
            *final(self) == old(self).without_capture(),
            final(self).wf(),
    {
        let ghost before = actions.deep_view();
        push_when(actions, self.capturing, WorkerAction::StopCapture);
        push_when(actions, self.audio_channel_open, WorkerAction::CloseAudioChannel);
        assert(actions.deep_view() =~= before + self.capture_stop_actions());
        self.capturing = false;
        self.audio_channel_open = false;
    }

    /// Shuts every module down.
    pub fn shutdown_all_subsystems(&mut self) -> (actions: Vec<WorkerAction>)
        ensures
            actions.deep_view() == old(self).shutdown_actions(),
            *final(self) == old(self).shut_down(),
            final(self).wf(),
    {
        let mut actions: Vec<WorkerAction> = Vec::new();
        push_when(&mut actions, self.command_channel_open, WorkerAction::CloseCommandChannel);
        push_when(&mut actions, self.monitor_channel_open, WorkerAction::CloseMonitorChannel);
        assert(actions.deep_view() =~= self.closing_actions());
        push_when(&mut actions, self.monitor_shutdown_open, WorkerAction::SignalMonitorShutdown);
        push_when(&mut actions, self.listener_shutdown_open, WorkerAction::SignalListenerShutdown);
        assert(actions.deep_view() =~= self.closing_actions() + self.telling_actions());
        let ghost before = actions.deep_view();
        push_when(&mut actions, self.monitor_running, WorkerAction::AwaitMonitor);
        push_when(&mut actions, self.listener_running, WorkerAction::AwaitListener);
        assert(actions.deep_view() =~= before + self.awaiting_actions());
        self.command_channel_open = false;
        self.monitor_channel_open = false;
        self.monitor_shutdown_open = false;
        self.listener_shutdown_open = false;
        self.monitor_running = false;
        self.listener_running = false;
        self.stop_audio_capture_internal(&mut actions);
        actions
    }

    /// Whether the worker goes away without having been shut down.
    pub fn dropped_unexpectedly(&self) -> (yes: bool)
        ensures
            yes == self.command_channel_open,
    {
        self.command_channel_open
    }
}

/// Every command of the client that is meant for the media session handler reaches it unchanged,
/// and alone.
pub proof fn law_commands_are_forwarded(worker: MediaWorker, command: MediaCommandView)
    requires
        worker.command_channel_open,
        internal_command(command) is Some,
    ensures
        worker.command_actions(command) == seq![
            WorkerActionView::SendCommand(internal_command(command)->0),
        ],
        worker.after_command(command) == worker,
{
}

/// Every update that clients are meant to see is published once, and none that they are not meant
/// to see is published.
pub proof fn law_updates_are_published(worker: MediaWorker, update: InternalUpdateView)
    ensures
        public_update(update) matches Some(u) ==> worker.update_actions(update) == seq![
            WorkerActionView::Publish(u),
        ],
        public_update(update) is None ==> forall|u: MediaUpdateView|
            !(#[trigger] worker.update_actions(update).contains(WorkerActionView::Publish(u))),
{
    if public_update(update) is Some {
        assert(worker.update_actions(update) =~= seq![
            WorkerActionView::Publish(public_update(update)->0),
        ]);
    }
}

/// Whether audio is captured follows the client's commands: it starts once, and stopping it leaves
/// nothing to stop.
pub proof fn law_capture_follows_commands(worker: MediaWorker)
    requires
        worker.wf(),
    ensures
        worker.command_actions(MediaCommandView::StartAudioCapture) == when(
            !worker.capturing,
            WorkerActionView::StartCapture,
        ),
        ({
            let stopped = worker.after_command(MediaCommandView::StopAudioCapture);
            &&& stopped.wf()
            &&& !stopped.capturing
            &&& stopped.command_actions(MediaCommandView::StopAudioCapture) == Seq::<
                WorkerActionView,
            >::empty()
        }),
{
    let stopped = worker.after_command(MediaCommandView::StopAudioCapture);
    assert(stopped.capture_stop_actions() =~= Seq::<WorkerActionView>::empty());
}

/// After a shutdown nothing runs, nothing is left to shut down, and the worker may go away.
pub proof fn law_shutdown_is_complete(worker: MediaWorker)
    ensures
        ({
            let down = worker.shut_down();
            &&& down.shutdown_actions() == Seq::<WorkerActionView>::empty()
            &&& !down.listener_running && !down.monitor_running && !down.capturing
            &&& !down.command_channel_open
        }),
{
    assert(worker.shut_down().shutdown_actions() =~= Seq::<WorkerActionView>::empty());
}

/// Whether an action tells a task to end.
pub open spec fn is_telling(action: WorkerActionView) -> bool {
    action is SignalMonitorShutdown || action is SignalListenerShutdown
}

/// Whether an action waits for a task.
pub open spec fn is_awaiting(action: WorkerActionView) -> bool {
    action is AwaitMonitor || action is AwaitListener
}

/// A worker tells every task to end before it waits for any.
#[verifier::rlimit(50)]
pub proof fn law_tasks_are_told_before_awaited(worker: MediaWorker, i: int, j: int)
    requires
        0 <= i < worker.shutdown_actions().len(),
        0 <= j < worker.shutdown_actions().len(),
        is_telling(worker.shutdown_actions()[i]),
        is_awaiting(worker.shutdown_actions()[j]),
    ensures
        i < j,
{
    lemma_groups(worker);
    lemma_told_before_awaited(
        worker.closing_actions(),
        worker.telling_actions(),
        worker.awaiting_actions(),
        worker.capture_stop_actions(),
        i,
        j,
    );
}

/// What the groups of a shutdown do not hold.
proof fn lemma_groups(worker: MediaWorker)
    ensures
        forall|k: int|
            0 <= k < worker.closing_actions().len() ==> !is_awaiting(
                #[trigger] worker.closing_actions()[k],
            ),
        forall|k: int|
            0 <= k < worker.telling_actions().len() ==> !is_awaiting(
                #[trigger] worker.telling_actions()[k],
            ),
        forall|k: int|
            0 <= k < worker.awaiting_actions().len() ==> !is_telling(
                #[trigger] worker.awaiting_actions()[k],
            ),
        forall|k: int|
            0 <= k < worker.capture_stop_actions().len() ==> !is_telling(
                #[trigger] worker.capture_stop_actions()[k],
            ),
{
}

/// Of four groups in a row, what is only in the second comes before what is only in the third.
proof fn lemma_told_before_awaited(
    closing: Seq<WorkerActionView>,
    telling: Seq<WorkerActionView>,
    awaiting: Seq<WorkerActionView>,
    stopping: Seq<WorkerActionView>,
    i: int,
    j: int,
)
    requires
        forall|k: int| 0 <= k < closing.len() ==> !is_awaiting(#[trigger] closing[k]),
        forall|k: int| 0 <= k < telling.len() ==> !is_awaiting(#[trigger] telling[k]),
        forall|k: int| 0 <= k < awaiting.len() ==> !is_telling(#[trigger] awaiting[k]),
        forall|k: int| 0 <= k < stopping.len() ==> !is_telling(#[trigger] stopping[k]),
        0 <= i < (closing + telling + awaiting + stopping).len(),
        0 <= j < (closing + telling + awaiting + stopping).len(),
        is_telling((closing + telling + awaiting + stopping)[i]),
        is_awaiting((closing + telling + awaiting + stopping)[j]),
    ensures
        i < j,
{
}

/// What a module reports for clients is published just as it was reported, whatever state the
/// worker is in, and nothing else is done about it.
pub proof fn law_reports_reach_clients_unchanged(
    worker: MediaWorker,
    info: InfoView,
    list: Seq<SessionInfoView>,
    text: Seq<char>,
    bytes: Seq<u8>,
    volume: VolumeLevel,
    is_muted: bool,
)
    ensures
        worker.update_actions(InternalUpdateView::TrackChanged(info)) == seq![
            WorkerActionView::Publish(MediaUpdateView::TrackChanged(info)),
        ],
        worker.update_actions(InternalUpdateView::SmtcSessionListChanged(list)) == seq![
            WorkerActionView::Publish(MediaUpdateView::SessionsChanged(list)),
        ],
        worker.update_actions(InternalUpdateView::SelectedSmtcSessionVanished(text)) == seq![
            WorkerActionView::Publish(MediaUpdateView::SelectedSessionVanished(text)),
        ],
        worker.update_actions(InternalUpdateView::AudioDataPacket(bytes)) == seq![
            WorkerActionView::Publish(MediaUpdateView::AudioData(bytes)),
        ],
        worker.update_actions(InternalUpdateView::AudioCaptureError(text)) == seq![
            WorkerActionView::Publish(MediaUpdateView::Error(text)),
        ],
        worker.update_actions(
            (InternalUpdateView::AudioSessionVolumeChanged { session_id: text, volume, is_muted }),
        ) == seq![
            WorkerActionView::Publish(
                (MediaUpdateView::VolumeChanged { session_id: text, volume, is_muted }),
            ),
        ],
{
}

/// The audio session monitor follows the active media session: it watches the process of that
/// session, and nothing where there is no such process or its audio session has expired. Clients
/// see nothing of it, and without a monitor nothing happens.
pub proof fn law_monitor_follows_active_session(
    worker: MediaWorker,
    pid: u32,
    session_id: Seq<char>,
    state: AudioSessionState,
)
    ensures
        worker.monitor_channel_open ==> {
            &&& worker.update_actions(
                (InternalUpdateView::ActiveSmtcSessionChanged { pid: Some(pid) }),
            ) == seq![
                WorkerActionView::SendMonitorCommand(AudioMonitorCommand::StartMonitoring(pid)),
            ]
            &&& worker.update_actions((InternalUpdateView::ActiveSmtcSessionChanged { pid: None }))
                == seq![WorkerActionView::SendMonitorCommand(AudioMonitorCommand::StopMonitoring)]
            &&& state is Expired ==> worker.update_actions(
                (InternalUpdateView::AudioSessionStateChanged { session_id, new_state: state }),
            ) == seq![WorkerActionView::SendMonitorCommand(AudioMonitorCommand::StopMonitoring)]
        },
        !worker.monitor_channel_open ==> {
            &&& worker.update_actions(
                (InternalUpdateView::ActiveSmtcSessionChanged { pid: Some(pid) }),
            ).len() == 0
            &&& worker.update_actions(
                (InternalUpdateView::ActiveSmtcSessionChanged { pid: None }),
            ).len() == 0
        },
        state is Active || state is Inactive || !worker.monitor_channel_open
            ==> worker.update_actions(
            (InternalUpdateView::AudioSessionStateChanged { session_id, new_state: state }),
        ).len() == 0,
{
}

/// Each command for the media session handler is sent on with what it holds, and alone; without
/// a handler nothing happens. None of them changes what the worker runs.
pub proof fn law_handler_commands_are_sent_on(
    worker: MediaWorker,
    id: Seq<char>,
    control: SmtcControlCommand,
    mode: TextConversionMode,
    on: bool,
    offset: i64,
)
    ensures
        worker.command_channel_open ==> {
            &&& worker.command_actions(MediaCommandView::SelectSession(id)) == seq![
                WorkerActionView::SendCommand(InternalCommandView::SelectSmtcSession(id)),
            ]
            &&& worker.command_actions(MediaCommandView::Control(control)) == seq![
                WorkerActionView::SendCommand(InternalCommandView::MediaControl(control)),
            ]
            &&& worker.command_actions(MediaCommandView::SetTextConversion(mode)) == seq![
                WorkerActionView::SendCommand(InternalCommandView::SetTextConversion(mode)),
            ]
            &&& worker.command_actions(MediaCommandView::RequestUpdate) == seq![
                WorkerActionView::SendCommand(InternalCommandView::RequestStateUpdate),
            ]
            &&& worker.command_actions(MediaCommandView::SetHighFrequencyProgressUpdates(on))
                == seq![WorkerActionView::SendCommand(InternalCommandView::SetProgressTimer(on))]
            &&& worker.command_actions(MediaCommandView::SetProgressOffset(offset)) == seq![
                WorkerActionView::SendCommand(InternalCommandView::SetProgressOffset(offset)),
            ]
            &&& worker.command_actions(MediaCommandView::SetAppleMusicOptimization(on)) == seq![
                WorkerActionView::SendCommand(InternalCommandView::SetAppleMusicOptimization(on)),
            ]
        },
        !worker.command_channel_open ==> {
            &&& worker.command_actions(MediaCommandView::SelectSession(id)).len() == 0
            &&& worker.command_actions(MediaCommandView::Control(control)).len() == 0
            &&& worker.command_actions(MediaCommandView::SetTextConversion(mode)).len() == 0
            &&& worker.command_actions(MediaCommandView::RequestUpdate).len() == 0
            &&& worker.command_actions(
                MediaCommandView::SetHighFrequencyProgressUpdates(on),
            ).len() == 0
            &&& worker.command_actions(MediaCommandView::SetProgressOffset(offset)).len() == 0
            &&& worker.command_actions(MediaCommandView::SetAppleMusicOptimization(on)).len() == 0
        },
        worker.after_command(MediaCommandView::SelectSession(id)) == worker,
        worker.after_command(MediaCommandView::Control(control)) == worker,
        worker.after_command(MediaCommandView::SetTextConversion(mode)) == worker,
        worker.after_command(MediaCommandView::RequestUpdate) == worker,
        worker.after_command(MediaCommandView::SetHighFrequencyProgressUpdates(on)) == worker,
        worker.after_command(MediaCommandView::SetProgressOffset(offset)) == worker,
        worker.after_command(MediaCommandView::SetAppleMusicOptimization(on)) == worker,
        worker.after_command(MediaCommandView::StartAudioCapture) == worker,
        worker.after_command(MediaCommandView::Shutdown) == worker,
        worker.command_actions(MediaCommandView::Shutdown).len() == 0,
{
}

/// A capture that runs is not started again, one that does not is not stopped; one that is
/// stopped loses its channel too, and nothing else of the worker changes.
pub proof fn law_capture_runs_once(worker: MediaWorker)
    requires
        worker.wf(),
    ensures
        worker.capturing ==> {
            &&& worker.command_actions(MediaCommandView::StartAudioCapture).len() == 0
            &&& worker.command_actions(MediaCommandView::StopAudioCapture) == seq![
                WorkerActionView::StopCapture,
                WorkerActionView::CloseAudioChannel,
            ]
        },
        !worker.capturing ==> {
            &&& worker.command_actions(MediaCommandView::StartAudioCapture) == seq![
                WorkerActionView::StartCapture,
            ]
            &&& worker.command_actions(MediaCommandView::StopAudioCapture).len() == 0
            &&& worker.after_command(MediaCommandView::StopAudioCapture) == worker
        },
        ({
            let stopped = worker.after_command(MediaCommandView::StopAudioCapture);
            &&& !stopped.capturing && !stopped.audio_channel_open
            &&& stopped.command_channel_open == worker.command_channel_open
            &&& stopped.monitor_channel_open == worker.monitor_channel_open
            &&& stopped.listener_shutdown_open == worker.listener_shutdown_open
            &&& stopped.listener_running == worker.listener_running
            &&& stopped.monitor_shutdown_open == worker.monitor_shutdown_open
            &&& stopped.monitor_running == worker.monitor_running
        }),
{
}

/// A shutdown does exactly what is left to do: each channel that is open is closed, each task
/// that can be told is told, each one that runs is waited for, and a capture that runs is
/// stopped.
pub proof fn law_shutdown_leaves_nothing_out(worker: MediaWorker)
    ensures
        ({
            let actions = worker.shutdown_actions();
            &&& actions.contains(WorkerActionView::CloseCommandChannel)
                <==> worker.command_channel_open
            &&& actions.contains(WorkerActionView::CloseMonitorChannel)
                <==> worker.monitor_channel_open
            &&& actions.contains(WorkerActionView::SignalMonitorShutdown)
                <==> worker.monitor_shutdown_open
            &&& actions.contains(WorkerActionView::SignalListenerShutdown)
                <==> worker.listener_shutdown_open
            &&& actions.contains(WorkerActionView::AwaitMonitor) <==> worker.monitor_running
            &&& actions.contains(WorkerActionView::AwaitListener) <==> worker.listener_running
            &&& actions.contains(WorkerActionView::StopCapture) <==> worker.capturing
            &&& actions.contains(WorkerActionView::CloseAudioChannel) <==> worker.audio_channel_open
        }),
{
    lemma_shutdown_holds(worker, WorkerActionView::CloseCommandChannel);
    lemma_shutdown_holds(worker, WorkerActionView::CloseMonitorChannel);
    lemma_shutdown_holds(worker, WorkerActionView::SignalMonitorShutdown);
    lemma_shutdown_holds(worker, WorkerActionView::SignalListenerShutdown);
    lemma_shutdown_holds(worker, WorkerActionView::AwaitMonitor);
    lemma_shutdown_holds(worker, WorkerActionView::AwaitListener);
    lemma_shutdown_holds(worker, WorkerActionView::StopCapture);
    lemma_shutdown_holds(worker, WorkerActionView::CloseAudioChannel);
}

/// Two pieces in a row hold what one of them holds.
proof fn lemma_either_holds(
    a: Seq<WorkerActionView>,
    b: Seq<WorkerActionView>,
    action: WorkerActionView,
)
    ensures
        (a + b).contains(action) <==> a.contains(action) || b.contains(action),
{
    if a.contains(action) {
        let i = choose|i: int| 0 <= i < a.len() && a[i] == action;
        assert((a + b)[i] == action);
    }
    if b.contains(action) {
        let i = choose|i: int| 0 <= i < b.len() && b[i] == action;
        assert((a + b)[a.len() + i] == action);
    }
}

/// A conditional action is there where its condition holds.
proof fn lemma_when_holds(condition: bool, action: WorkerActionView, wanted: WorkerActionView)
    ensures
        condition && action == wanted <==> when(condition, action).contains(wanted),
{
    if condition {
        assert(when(condition, action)[0] == action);
    }
}

/// An action is in a shutdown where one of its parts holds it.
proof fn lemma_shutdown_holds(worker: MediaWorker, wanted: WorkerActionView)
    ensures
        worker.shutdown_actions().contains(wanted) <==> {
            ||| worker.command_channel_open && wanted == WorkerActionView::CloseCommandChannel
            ||| worker.monitor_channel_open && wanted == WorkerActionView::CloseMonitorChannel
            ||| worker.monitor_shutdown_open && wanted == WorkerActionView::SignalMonitorShutdown
            ||| worker.listener_shutdown_open && wanted == WorkerActionView::SignalListenerShutdown
            ||| worker.monitor_running && wanted == WorkerActionView::AwaitMonitor
            ||| worker.listener_running && wanted == WorkerActionView::AwaitListener
            ||| worker.capturing && wanted == WorkerActionView::StopCapture
            ||| worker.audio_channel_open && wanted == WorkerActionView::CloseAudioChannel
        },
{
    let a = worker.closing_actions();
    let b = worker.telling_actions();
    let c = worker.awaiting_actions();
    let d = worker.capture_stop_actions();
    lemma_either_holds(a + b + c, d, wanted);
    lemma_either_holds(a + b, c, wanted);
    lemma_either_holds(a, b, wanted);
    lemma_pair_holds(
        worker.command_channel_open,
        WorkerActionView::CloseCommandChannel,
        worker.monitor_channel_open,
        WorkerActionView::CloseMonitorChannel,
        wanted,
    );
    lemma_pair_holds(
        worker.monitor_shutdown_open,
        WorkerActionView::SignalMonitorShutdown,
        worker.listener_shutdown_open,
        WorkerActionView::SignalListenerShutdown,
        wanted,
    );
    lemma_pair_holds(
        worker.monitor_running,
        WorkerActionView::AwaitMonitor,
        worker.listener_running,
        WorkerActionView::AwaitListener,
        wanted,
    );
    lemma_pair_holds(
        worker.capturing,
        WorkerActionView::StopCapture,
        worker.audio_channel_open,
        WorkerActionView::CloseAudioChannel,
        wanted,
    );
}

/// Of two conditional actions in a row, each is there where its condition holds.
proof fn lemma_pair_holds(
    first: bool,
    a: WorkerActionView,
    second: bool,
    b: WorkerActionView,
    wanted: WorkerActionView,
)
    ensures
        (when(first, a) + when(second, b)).contains(wanted) <==> first && a == wanted || second
            && b == wanted,
{
    lemma_either_holds(when(first, a), when(second, b), wanted);
    lemma_when_holds(first, a, wanted);
    lemma_when_holds(second, b, wanted);
}

/// A worker with all its modules running shuts them down in this order, each step once, whether
/// or not audio is captured.
pub proof fn law_running_worker_shuts_down_in_order(worker: MediaWorker)
    requires
        worker.command_channel_open && worker.monitor_channel_open,
        worker.monitor_shutdown_open && worker.listener_shutdown_open,
        worker.monitor_running && worker.listener_running,
    ensures
        ({
            let actions = worker.shutdown_actions();
            &&& actions.take(6) == seq![
                WorkerActionView::CloseCommandChannel,
                WorkerActionView::CloseMonitorChannel,
                WorkerActionView::SignalMonitorShutdown,
                WorkerActionView::SignalListenerShutdown,
                WorkerActionView::AwaitMonitor,
                WorkerActionView::AwaitListener,
            ]
            &&& !worker.capturing && !worker.audio_channel_open ==> actions.len() == 6
            &&& worker.capturing && worker.audio_channel_open ==> actions.skip(6) == seq![
                WorkerActionView::StopCapture,
                WorkerActionView::CloseAudioChannel,
            ]
        }),
{
}

/// After a shutdown every channel is closed, and no task and no capture runs.
pub proof fn law_shut_down_worker_is_idle(worker: MediaWorker)
    ensures
        ({
            let down = worker.shut_down();
            &&& !down.command_channel_open && !down.monitor_channel_open
            &&& !down.listener_shutdown_open && !down.monitor_shutdown_open
            &&& !down.listener_running && !down.monitor_running
            &&& !down.capturing && !down.audio_channel_open
        }),
{
}

} // verus!
