//! Which process and which audio session belong to a media session, and how a volume change
//! proceeds step by step.
use crate::api::VolumeLevel;
use crate::error::SmtcError;
use crate::text::{
    has_char, start_after_last, text_after_last, text_before_first, text_contains, text_ends_with,
    text_equal_ignoring_ascii_case, text_trim_end_matches,
};
use crate::worker::{InternalUpdate, InternalUpdateView};
use vstd::prelude::*;
use vstd::string::*;

verus! {

/// How long a volume change takes, in milliseconds.
pub const VOLUME_EASING_DURATION_MS: u32 = 250;

/// In how many steps a volume changes.
pub const VOLUME_EASING_STEPS: u32 = 15;

/// How long to wait before each step, in milliseconds.
pub const VOLUME_EASING_STEP_MS: u32 = VOLUME_EASING_DURATION_MS / VOLUME_EASING_STEPS;

/// The code of an active audio session.
pub const SESSION_STATE_ACTIVE: i32 = 1;

/// A running process.
pub struct ProcessEntry {
    /// The name of its executable.
    pub name: String,
    pub pid: u32,
}

/// The contents of a `ProcessEntry`.
#[verifier::ext_equal]
pub struct ProcessView {
    pub name: Seq<char>,
    pub pid: u32,
}

impl View for ProcessEntry {
    type V = ProcessView;

    open spec fn view(&self) -> ProcessView {
        ProcessView { name: self.name@, pid: self.pid }
    }
}

impl DeepView for ProcessEntry {
    type V = ProcessView;

    open spec fn deep_view(&self) -> ProcessView {
        self@
    }
}

/// The first process whose executable has the given name, whatever the case of its letters.
pub open spec fn pid_named(processes: Seq<ProcessView>, name: Seq<char>) -> Option<u32>
    decreases processes.len(),
{
    if processes.len() == 0 {
        None
    } else if crate::text::equal_ignoring_ascii_case(processes[0].name, name) {
        Some(processes[0].pid)
    } else {
        pid_named(processes.skip(1), name)
    }
}

/// The executable name that an application identifier suggests: the last part of the package
/// name, without the usual suffixes.
pub open spec fn derived_executable_name(aumid: Seq<char>) -> Seq<char> {
    let package = crate::text::before_first(aumid, '!');
    let full_name = crate::text::before_first(package, '_');
    let app = crate::text::after_last(full_name, '.');
    let base = crate::text::trim_end_matches(
        crate::text::trim_end_matches(crate::text::trim_end_matches(app, "Win"@), "Uwp"@),
        "Desktop"@,
    );
    base + ".exe"@
}

/// The process that an identifier names, where `lower` is the identifier in lower case: the
/// identifier is tried as it stands, then with the suffix of an executable, then as an
/// application identifier.
pub open spec fn pid_of(
    processes: Seq<ProcessView>,
    identifier: Seq<char>,
    lower: Seq<char>,
) -> Option<u32> {
    let direct = pid_named(processes, identifier);
    let suffixed = if crate::text::ends_with(lower, ".exe"@) {
        None
    } else {
        pid_named(processes, identifier + ".exe"@)
    };
    let derived = if identifier.contains('!') {
        pid_named(processes, derived_executable_name(identifier))
    } else {
        None
    };
    if direct is Some {
        direct
    } else if suffixed is Some {
        suffixed
    } else {
        derived
    }
}

/// The name and the publisher in an application identifier.
pub open spec fn package_parts(identifier: Seq<char>) -> Option<(Seq<char>, Seq<char>)> {
    let package = crate::text::before_first(identifier, '!');
    if identifier.contains('!') && package.contains('_') {
        Some(
            (
                package.take(crate::text::last_index(package, '_')),
                crate::text::after_last(package, '_'),
            ),
        )
    } else {
        None
    }
}

/// The name and the publisher in an application identifier, in lower case.
pub open spec fn uwp_parts(identifier: Seq<char>) -> Option<(Seq<char>, Seq<char>)> {
    match package_parts(identifier) {
        Some((name, publisher)) => Some(
            (crate::letters::lowercased(name), crate::letters::lowercased(publisher)),
        ),
        None => None,
    }
}

/// An audio session. What could not be read is missing.
pub struct AudioSessionEntry {
    /// The code of its state.
    pub state: Option<i32>,
    pub pid: Option<u32>,
    pub identifier: Option<String>,
    pub icon_path: Option<String>,
}

/// The contents of an `AudioSessionEntry`.
#[verifier::ext_equal]
pub struct AudioSessionView {
    pub state: Option<i32>,
    pub pid: Option<u32>,
    pub identifier: Option<Seq<char>>,
    pub icon_path: Option<Seq<char>>,
}

impl View for AudioSessionEntry {
    type V = AudioSessionView;

    open spec fn view(&self) -> AudioSessionView {
        AudioSessionView {
            state: self.state,
            pid: self.pid,
            identifier: crate::api::text_of(self.identifier),
            icon_path: crate::api::text_of(self.icon_path),
        }
    }
}

impl DeepView for AudioSessionEntry {
    type V = AudioSessionView;

    open spec fn deep_view(&self) -> AudioSessionView {
        self@
    }
}

/// Whether a text in lower case names both the application and its publisher.
pub open spec fn mentions(text: Option<Seq<char>>, parts: (Seq<char>, Seq<char>)) -> bool {
    match text {
        Some(t) => crate::text::contains_run(t, parts.0) && crate::text::contains_run(t, parts.1),
        None => false,
    }
}

/// Whether a session belongs to a process, or to an application by what it says in lower case.
pub open spec fn belongs(
    target_pid: Option<u32>,
    parts: Option<(Seq<char>, Seq<char>)>,
    pid: Option<u32>,
    lower_identifier: Option<Seq<char>>,
    lower_icon_path: Option<Seq<char>>,
) -> bool {
    ||| target_pid is Some && pid == target_pid && pid->0 > 0
    ||| parts is Some && (mentions(lower_identifier, parts->0) || mentions(
        lower_icon_path,
        parts->0,
    ))
}

/// An optional text in lower case.
pub open spec fn lowered(text: Option<Seq<char>>) -> Option<Seq<char>> {
    match text {
        Some(t) => Some(crate::letters::lowercased(t)),
        None => None,
    }
}

/// Whether a session is active and belongs to a process or to an application.
pub open spec fn session_matches(
    target_pid: Option<u32>,
    parts: Option<(Seq<char>, Seq<char>)>,
    session: AudioSessionView,
) -> bool {
    session.state == Some(SESSION_STATE_ACTIVE) && belongs(
        target_pid,
        parts,
        session.pid,
        lowered(session.identifier),
        lowered(session.icon_path),
    )
}

/// The process that an identifier names, by its own letters.
pub open spec fn process_of(processes: Seq<ProcessView>, identifier: Seq<char>) -> Option<u32> {
    pid_of(processes, identifier, crate::letters::lowercased(identifier))
}

/// Whether a session is the one that a volume change of an identifier is about.
pub open spec fn is_session_of(
    identifier: Seq<char>,
    processes: Seq<ProcessView>,
    session: AudioSessionView,
) -> bool {
    session_matches(process_of(processes, identifier), uwp_parts(identifier), session)
}

/// What is said where no audio session belongs to an identifier.
pub open spec fn no_session_text(identifier: Seq<char>) -> Seq<char> {
    "未能为标识符 '"@ + identifier + "' 找到匹配的活动音频会话。"@
}

/// Finds the process whose executable has the given name.
pub fn get_pid_from_executable_name(processes: &Vec<ProcessEntry>, name: &str) -> (pid: Option<u32>)
    ensures
        pid == pid_named(processes.deep_view(), name@),
{
    let ghost all = processes.deep_view();
    assert(all.skip(0) =~= all);
    for i in 0..processes.len()
        invariant
            all == processes.deep_view(),
            pid_named(all, name@) == pid_named(all.skip(i as int), name@),
    {
        proof {
            let rest = all.skip(i as int);
            assert(rest[0] == processes@[i as int]@);
            assert(rest.skip(1) =~= all.skip(i + 1));
        }
        if text_equal_ignoring_ascii_case(processes[i].name.as_str(), name) {
            return Some(processes[i].pid);
        }
    }
    None
}

/// Guesses the executable name from an application identifier.
pub fn derive_executable_name_from_aumid(aumid: &str) -> (name: String)
    ensures
        name@ == derived_executable_name(aumid@),
{
    let package: &str = text_before_first(aumid, '!');
    let full_name: &str = text_before_first(package, '_');
    let app: &str = text_after_last(full_name, '.');
    let base: &str = text_trim_end_matches(
        text_trim_end_matches(text_trim_end_matches(app, "Win"), "Uwp"),
        "Desktop",
    );
    let mut name: String = base.to_owned();
    name.append(".exe");
    name
}

/// Finds the process that an identifier names, where `lower` is the identifier in lower case.
pub fn find_pid(processes: &Vec<ProcessEntry>, identifier: &str, lower: &str) -> (pid: Option<u32>)
    ensures
        pid == pid_of(processes.deep_view(), identifier@, lower@),
{
    let direct: Option<u32> = get_pid_from_executable_name(processes, identifier);
    if direct.is_some() {
        return direct;
    }
    if !text_ends_with(lower, ".exe") {
        let mut exe_name: String = identifier.to_owned();
        exe_name.append(".exe");
        let suffixed: Option<u32> = get_pid_from_executable_name(processes, exe_name.as_str());
        if suffixed.is_some() {
            return suffixed;
        }
    }
    if has_char(identifier, '!') {
        let derived: String = derive_executable_name_from_aumid(identifier);
        return get_pid_from_executable_name(processes, derived.as_str());
    }
    None
}

/// Finds the process that an identifier names: an executable name or an application identifier.
pub fn get_pid_from_identifier(processes: &Vec<ProcessEntry>, identifier: &str) -> (pid: Option<
    u32,
>)
    ensures
        pid == process_of(processes.deep_view(), identifier@),
{
    let lower: String = identifier.to_lowercase();
    find_pid(processes, identifier, lower.as_str())
}

/// Splits the name and the publisher off an application identifier.
pub fn split_package<'a>(identifier: &'a str) -> (parts: Option<(&'a str, &'a str)>)
    ensures
        match parts {
            Some(pair) => package_parts(identifier@) == Some((pair.0@, pair.1@)),
            None => package_parts(identifier@) is None,
        },
{
    if !has_char(identifier, '!') {
        return None;
    }
    let package: &str = text_before_first(identifier, '!');
    if !has_char(package, '_') {
        return None;
    }
    proof {
        crate::text::lemma_last_index(package@, '_');
    }
    let start: usize = start_after_last(package, '_');
    let name: &str = package.substring_char(0, start - 1);
    Some((name, text_after_last(package, '_')))
}

/// Reads the name and the publisher in an application identifier, in lower case.
pub fn parse_uwp_identifier(identifier: &str) -> (parts: Option<(String, String)>)
    ensures
        match parts {
            Some(pair) => uwp_parts(identifier@) == Some((pair.0@, pair.1@)),
            None => uwp_parts(identifier@) is None,
        },
{
    match split_package(identifier) {
        Some((name, publisher)) => Some((name.to_lowercase(), publisher.to_lowercase())),
        None => None,
    }
}

/// The contents of an optional pair of texts.
pub open spec fn parts_of(parts: Option<(String, String)>) -> Option<(Seq<char>, Seq<char>)> {
    match parts {
        Some((name, publisher)) => Some((name@, publisher@)),
        None => None,
    }
}

/// Whether a text in lower case names both the application and its publisher.
fn names_both(text: &Option<String>, name: &str, publisher: &str) -> (yes: bool)
    ensures
        yes == mentions(crate::api::text_of(*text), (name@, publisher@)),
{
    match text {
        Some(t) => text_contains(t.as_str(), name) && text_contains(t.as_str(), publisher),
        None => false,
    }
}

/// Whether a session belongs to a process, or to an application by what it says in lower case.
pub fn session_belongs(
    target_pid: Option<u32>,
    parts: &Option<(String, String)>,
    pid: Option<u32>,
    lower_identifier: &Option<String>,
    lower_icon_path: &Option<String>,
) -> (yes: bool)
    ensures
        yes == belongs(
            target_pid,
            parts_of(*parts),
            pid,
            crate::api::text_of(*lower_identifier),
            crate::api::text_of(*lower_icon_path),
        ),
{
    if let Some(target) = target_pid {
        if let Some(session_pid) = pid {
            if session_pid > 0 && session_pid == target {
                return true;
            }
        }
    }
    match parts {
        Some((name, publisher)) => names_both(lower_identifier, name.as_str(), publisher.as_str())
            || names_both(lower_icon_path, name.as_str(), publisher.as_str()),
        None => false,
    }
}

/// Puts an optional text in lower case.
fn lowercase_of(text: &Option<String>) -> (lower: Option<String>)
    ensures
        crate::api::text_of(lower) == lowered(crate::api::text_of(*text)),
{
    match text {
        Some(t) => Some(t.as_str().to_lowercase()),
        None => None,
    }
}

/// Finds the first active audio session that belongs to a process or to an application.
pub fn find_audio_session(
    sessions: &Vec<AudioSessionEntry>,
    target_pid: Option<u32>,
    parts: &Option<(String, String)>,
) -> (found: Option<usize>)
    ensures
        match found {
            Some(i) => {
                &&& i < sessions@.len()
                &&& session_matches(target_pid, parts_of(*parts), sessions@[i as int]@)
                &&& forall|j: int|
                    0 <= j < i ==> !session_matches(
                        target_pid,
                        parts_of(*parts),
                        #[trigger] sessions@[j]@,
                    )
            },
            None => forall|j: int|
                0 <= j < sessions@.len() ==> !session_matches(
                    target_pid,
                    parts_of(*parts),
                    #[trigger] sessions@[j]@,
                ),
        },
{
    for i in 0..sessions.len()
        invariant
            forall|j: int|
                0 <= j < i ==> !session_matches(
                    target_pid,
                    parts_of(*parts),
                    #[trigger] sessions@[j]@,
                ),
    {
        let session: &AudioSessionEntry = &sessions[i];
        if let Some(state) = session.state {
            if state == SESSION_STATE_ACTIVE {
                let lower_identifier: Option<String> = lowercase_of(&session.identifier);
                let lower_icon_path: Option<String> = lowercase_of(&session.icon_path);
                if session_belongs(
                    target_pid,
                    parts,
                    session.pid,
                    &lower_identifier,
                    &lower_icon_path,
                ) {
                    return Some(i);
                }
            }
        }
    }
    None
}

/// Finds the audio session of a media session among those that the system lists.
pub fn find_session_control(
    identifier: &str,
    processes: &Vec<ProcessEntry>,
    sessions: &Vec<AudioSessionEntry>,
) -> (found: Result<usize, SmtcError>)
    ensures
        match found {
            Ok(i) => {
                &&& i < sessions@.len()
                &&& is_session_of(identifier@, processes.deep_view(), sessions@[i as int]@)
                &&& forall|j: int|
                    0 <= j < i ==> !is_session_of(
                        identifier@,
                        processes.deep_view(),
                        #[trigger] sessions@[j]@,
                    )
            },
            Err(e) => {
                &&& e matches SmtcError::VolumeControl(text)
                &&& text@ == no_session_text(identifier@)
                &&& forall|j: int|
                    0 <= j < sessions@.len() ==> !is_session_of(
                        identifier@,
                        processes.deep_view(),
                        #[trigger] sessions@[j]@,
                    )
            },
        },
{
    let target_pid: Option<u32> = get_pid_from_identifier(processes, identifier);
    let parts: Option<(String, String)> = parse_uwp_identifier(identifier);
    assert(parts_of(parts) == uwp_parts(identifier@));
    match find_audio_session(sessions, target_pid, &parts) {
        Some(i) => Ok(i),
        None => {
            let mut text: String = "未能为标识符 '".to_owned();
            text.append(identifier);
            text.append("' 找到匹配的活动音频会话。");
            Err(SmtcError::VolumeControl(text))
        },
    }
}

/// The update that tells of the volume of a session; none where it could not be read.
pub fn volume_report(
    session_id: String,
    volume: Option<VolumeLevel>,
    is_muted: Option<bool>,
) -> (update: Option<InternalUpdate>)
    ensures
        match update {
            Some(u) => volume is Some && is_muted is Some && u@
                == (InternalUpdateView::AudioSessionVolumeChanged {
                session_id: session_id@,
                volume: volume->0,
                is_muted: is_muted->0,
            }),
            None => volume is None || is_muted is None,
        },
{
    match (volume, is_muted) {
        (Some(volume), Some(is_muted)) => Some(
            InternalUpdate::AudioSessionVolumeChanged { session_id, volume, is_muted },
        ),
        _ => None,
    }
}

/// What a volume change does or waits for.
#[derive(Debug, Clone, Copy, PartialEq, Eq, Structural)]
pub enum EasingPhase {
    /// The volume there is, is read.
    Measuring,
    /// The target is set at once.
    SettingAtOnce,
    /// The mute state is read.
    ReadingMute,
    /// The wait before a step.
    Waiting(u32),
    /// A step is made.
    Stepping(u32),
    /// The target is set at the end.
    Finishing,
    /// Volume and mute state are read.
    Reading,
    /// Nothing is left to do.
    Done,
}

/// What happens to a volume change.
#[derive(Debug, Clone, Copy, PartialEq, Eq, Structural)]
pub enum EasingEvent {
    /// The volume there is was read, and is close to the target or not; none where it could not
    /// be read.
    Measured(Option<bool>),
    /// The wait before a step is over.
    Waited,
    /// The change was cancelled during the wait.
    Cancelled,
    /// A volume was set, or could not be.
    VolumeSet(bool),
    /// What was read; none where it could not be.
    Read { volume: Option<VolumeLevel>, is_muted: Option<bool> },
}

/// What a volume change does next.
#[derive(Debug)]
pub enum EasingAction {
    /// Set the target as it is.
    SetTarget,
    /// Wait before the next step.
    Wait,
    /// Set the volume of a step.
    SetStep(u32),
    /// Set the target, brought into the range of volumes.
    SetFinal,
    /// Read the mute state.
    ReadMute,
    /// Read the volume and the mute state.
    ReadVolumeAndMute,
    /// Tell of the volume, and end.
    Report(InternalUpdate),
    /// End.
    Finish,
}

/// The contents of an `EasingAction`.
pub enum EasingActionView {
    SetTarget,
    Wait,
    SetStep(u32),
    SetFinal,
    ReadMute,
    ReadVolumeAndMute,
    Report(InternalUpdateView),
    Finish,
}

impl View for EasingAction {
    type V = EasingActionView;

    open spec fn view(&self) -> EasingActionView {
        match *self {
            EasingAction::SetTarget => EasingActionView::SetTarget,
            EasingAction::Wait => EasingActionView::Wait,
            EasingAction::SetStep(step) => EasingActionView::SetStep(step),
            EasingAction::SetFinal => EasingActionView::SetFinal,
            EasingAction::ReadMute => EasingActionView::ReadMute,
            EasingAction::ReadVolumeAndMute => EasingActionView::ReadVolumeAndMute,
            EasingAction::Report(update) => EasingActionView::Report(update@),
            EasingAction::Finish => EasingActionView::Finish,
        }
    }
}

/// A volume change in progress.
pub struct VolumeEasing {
    /// The media session whose volume changes.
    pub session_id: String,
    /// The volume that is wanted.
    pub target: VolumeLevel,
    pub phase: EasingPhase,
}

/// The contents of a `VolumeEasing`.
#[verifier::ext_equal]
pub struct EasingView {
    pub session_id: Seq<char>,
    pub target: VolumeLevel,
    pub phase: EasingPhase,
}

impl View for VolumeEasing {
    type V = EasingView;

    open spec fn view(&self) -> EasingView {
        EasingView { session_id: self.session_id@, target: self.target, phase: self.phase }
    }
}

/// How a volume change goes on: its next state, and what it does.
#[verifier::ext_equal]
pub struct EasingStep {
    pub state: EasingView,
    pub action: EasingActionView,
}

impl EasingView {
    /// A change that begins.
    pub open spec fn beginning(session_id: Seq<char>, target: VolumeLevel) -> EasingView {
        EasingView { session_id, target, phase: EasingPhase::Measuring }
    }

    /// This change in another phase, doing something.
    pub open spec fn going_on(self, phase: EasingPhase, action: EasingActionView) -> EasingStep {
        EasingStep { state: EasingView { phase, ..self }, action }
    }

    /// The end of this change, with a report where volume and mute state are known.
    pub open spec fn reporting(
        self,
        volume: Option<VolumeLevel>,
        is_muted: Option<bool>,
    ) -> EasingStep {
        self.going_on(
            EasingPhase::Done,
            match (volume, is_muted) {
                (Some(volume), Some(is_muted)) => EasingActionView::Report(
                    InternalUpdateView::AudioSessionVolumeChanged {
                        session_id: self.session_id,
                        volume,
                        is_muted,
                    },
                ),
                _ => EasingActionView::Finish,
            },
        )
    }

    /// How the change goes on after an event. A volume that is close to the target is set at once.
    /// Else every step is waited for and made, until one cannot be made or the wait is cancelled;
    /// whichever it was, the target is set last, and what has come of it is read and told. An
    /// event that nothing waits for ends the change.
    pub open spec fn after(self, event: EasingEvent) -> EasingStep {
        match (self.phase, event) {
            (EasingPhase::Measuring, EasingEvent::Measured(Some(true))) => self.going_on(
                EasingPhase::SettingAtOnce,
                EasingActionView::SetTarget,
            ),
            (EasingPhase::Measuring, EasingEvent::Measured(Some(false))) => self.going_on(
                EasingPhase::Waiting(0),
                EasingActionView::Wait,
            ),
            (EasingPhase::SettingAtOnce, EasingEvent::VolumeSet(_)) => self.going_on(
                EasingPhase::ReadingMute,
                EasingActionView::ReadMute,
            ),
            (EasingPhase::ReadingMute, EasingEvent::Read { volume: _, is_muted }) => self.reporting(
                Some(self.target),
                is_muted,
            ),
            (EasingPhase::Waiting(step), EasingEvent::Waited) => self.going_on(
                EasingPhase::Stepping(step),
                EasingActionView::SetStep(step),
            ),
            (EasingPhase::Waiting(_), EasingEvent::Cancelled) => self.going_on(
                EasingPhase::Finishing,
                EasingActionView::SetFinal,
            ),
            (EasingPhase::Stepping(step), EasingEvent::VolumeSet(made)) => if made && step
                < VOLUME_EASING_STEPS {
                self.going_on(EasingPhase::Waiting((step + 1) as u32), EasingActionView::Wait)
            } else {
                self.going_on(EasingPhase::Finishing, EasingActionView::SetFinal)
            },
            (EasingPhase::Finishing, EasingEvent::VolumeSet(_)) => self.going_on(
                EasingPhase::Reading,
                EasingActionView::ReadVolumeAndMute,
            ),
            (EasingPhase::Reading, EasingEvent::Read { volume, is_muted }) => self.reporting(
                volume,
                is_muted,
            ),
            _ => self.going_on(EasingPhase::Done, EasingActionView::Finish),
        }
    }

    /// The change after a wait that nothing cut short and a step that could be made.
    pub open spec fn after_step(self) -> EasingView {
        self.after(EasingEvent::Waited).state.after(EasingEvent::VolumeSet(true)).state
    }

    /// The change after so many steps that nothing disturbed.
    pub open spec fn after_steps(self, n: nat) -> EasingView
        decreases n,
    {
        if n == 0 {
            self
        } else {
            self.after_steps((n - 1) as nat).after_step()
        }
    }
}

impl VolumeEasing {
    /// A change that begins: the volume there is has to be read.
    pub fn new(session_id: String, target: VolumeLevel) -> (easing: Self)
        ensures
            easing@ == EasingView::beginning(session_id@, target),
    {
        VolumeEasing { session_id, target, phase: EasingPhase::Measuring }
    }

    /// Ends the change, with a report where volume and mute state are known.
    fn report(&mut self, volume: Option<VolumeLevel>, is_muted: Option<bool>) -> (action:
        EasingAction)
        ensures
            (EasingStep { state: final(self)@, action: action@ }) == old(self)@.reporting(
                volume,
                is_muted,
            ),
    {
        self.phase = EasingPhase::Done;
        match volume_report(self.session_id.clone(), volume, is_muted) {
            Some(update) => EasingAction::Report(update),
            None => EasingAction::Finish,
        }
    }

    /// Goes on after an event.
    pub fn next(&mut self, event: EasingEvent) -> (action: EasingAction)
        ensures
            (EasingStep { state: final(self)@, action: action@ }) == old(self)@.after(event),
    {
        match (self.phase, event) {
            (EasingPhase::Measuring, EasingEvent::Measured(Some(true))) => {
                self.phase = EasingPhase::SettingAtOnce;
                EasingAction::SetTarget
            },
            (EasingPhase::Measuring, EasingEvent::Measured(Some(false))) => {
                self.phase = EasingPhase::Waiting(0);
                EasingAction::Wait
            },
            (EasingPhase::SettingAtOnce, EasingEvent::VolumeSet(_)) => {
                self.phase = EasingPhase::ReadingMute;
                EasingAction::ReadMute
            },
            (EasingPhase::ReadingMute, EasingEvent::Read { volume: _, is_muted }) => {
                let target: VolumeLevel = self.target;
                self.report(Some(target), is_muted)
            },
            (EasingPhase::Waiting(step), EasingEvent::Waited) => {
                self.phase = EasingPhase::Stepping(step);
                EasingAction::SetStep(step)
            },
            (EasingPhase::Waiting(_), EasingEvent::Cancelled) => {
                self.phase = EasingPhase::Finishing;
                EasingAction::SetFinal
            },
            (EasingPhase::Stepping(step), EasingEvent::VolumeSet(made)) => {
                if made && step < VOLUME_EASING_STEPS {
                    self.phase = EasingPhase::Waiting(step + 1);
                    EasingAction::Wait
                } else {
                    self.phase = EasingPhase::Finishing;
                    EasingAction::SetFinal
                }
            },
            (EasingPhase::Finishing, EasingEvent::VolumeSet(_)) => {
                self.phase = EasingPhase::Reading;
                EasingAction::ReadVolumeAndMute
            },
            (EasingPhase::Reading, EasingEvent::Read { volume, is_muted }) => self.report(
                volume,
                is_muted,
            ),
            _ => {
                self.phase = EasingPhase::Done;
                EasingAction::Finish
            },
        }
    }
}

/// An undisturbed volume change makes every step from the first to the last, and then sets the
/// target.
pub proof fn law_volume_change_makes_every_step(
    session_id: Seq<char>,
    target: VolumeLevel,
    n: nat,
)
    requires
        n <= VOLUME_EASING_STEPS + 1,
    ensures
        ({
            let begun = EasingView::beginning(session_id, target).after(
                EasingEvent::Measured(Some(false)),
            ).state;
            let easing = begun.after_steps(n);
            &&& n <= VOLUME_EASING_STEPS ==> easing.phase == EasingPhase::Waiting(n as u32)
                && easing.after(EasingEvent::Waited).action == EasingActionView::SetStep(n as u32)
            &&& n == VOLUME_EASING_STEPS + 1 ==> easing.phase == EasingPhase::Finishing
            &&& easing.session_id == session_id
            &&& easing.target == target
        }),
    decreases n,
{
    if n > 0 {
        law_volume_change_makes_every_step(session_id, target, (n - 1) as nat);
    }
}

/// However the steps of a volume change end, cancelled, failed or done, the target is set, and the
/// volume that it has come to is read and told.
pub proof fn law_volume_change_ends_at_target(
    easing: EasingView,
    step: u32,
    set: bool,
    volume: VolumeLevel,
    is_muted: bool,
)
    requires
        easing.phase == EasingPhase::Waiting(step),
    ensures
        ({
            let cancelled = easing.after(EasingEvent::Cancelled);
            let stepping = easing.after(EasingEvent::Waited).state;
            let failed = stepping.after(EasingEvent::VolumeSet(false));
            let done = stepping.after(EasingEvent::VolumeSet(true));
            let reading = cancelled.state.after(EasingEvent::VolumeSet(set));
            &&& cancelled.action == EasingActionView::SetFinal
            &&& failed == cancelled
            &&& step >= VOLUME_EASING_STEPS ==> done == cancelled
            &&& reading.action == EasingActionView::ReadVolumeAndMute
            &&& reading.state.after(
                EasingEvent::Read { volume: Some(volume), is_muted: Some(is_muted) },
            ).action == EasingActionView::Report(
                InternalUpdateView::AudioSessionVolumeChanged {
                    session_id: easing.session_id,
                    volume,
                    is_muted,
                },
            )
        }),
{
}

/// A volume that is close to the target is set at once, and the target is told.
pub proof fn law_close_volume_is_set_at_once(
    session_id: Seq<char>,
    target: VolumeLevel,
    set: bool,
    volume: Option<VolumeLevel>,
    is_muted: bool,
)
    ensures
        ({
            let setting = EasingView::beginning(session_id, target).after(
                EasingEvent::Measured(Some(true)),
            );
            let reading = setting.state.after(EasingEvent::VolumeSet(set));
            &&& setting.action == EasingActionView::SetTarget
            &&& reading.action == EasingActionView::ReadMute
            &&& reading.state.after(
                EasingEvent::Read { volume, is_muted: Some(is_muted) },
            ).action == EasingActionView::Report(
                InternalUpdateView::AudioSessionVolumeChanged {
                    session_id,
                    volume: target,
                    is_muted,
                },
            )
        }),
{
}

/// A process is found by its name however its ASCII letters are written, and only by its name.
pub proof fn law_process_is_found_by_name(processes: Seq<ProcessView>, name: Seq<char>)
    ensures
        pid_named(processes, name) is Some <==> (exists|i: int|
            0 <= i < processes.len() && crate::text::equal_ignoring_ascii_case(
                (#[trigger] processes[i]).name,
                name,
            )),
        pid_named(processes, name) matches Some(pid) ==> exists|i: int|
            0 <= i < processes.len() && (#[trigger] processes[i]).pid == pid
                && crate::text::equal_ignoring_ascii_case(processes[i].name, name),
    decreases processes.len(),
{
    if processes.len() > 0 {
        let rest = processes.skip(1);
        law_process_is_found_by_name(rest, name);
        assert(processes[0] == processes.first());
        assert forall|i: int|
            0 <= i < processes.len() && crate::text::equal_ignoring_ascii_case(
                (#[trigger] processes[i]).name,
                name,
            ) implies pid_named(processes, name) is Some by {
            if i > 0 {
                assert(rest[i - 1] == processes[i]);
            }
        }
        if pid_named(processes, name) is Some
            && !crate::text::equal_ignoring_ascii_case(processes[0].name, name) {
            let pid = pid_named(processes, name)->0;
            let i = choose|i: int|
                0 <= i < rest.len() && (#[trigger] rest[i]).pid == pid
                    && crate::text::equal_ignoring_ascii_case(rest[i].name, name);
            assert(processes[i + 1] == rest[i]);
        }
    }
}

/// An identifier that is the name of a running executable names that process, before anything
/// else is tried.
pub proof fn law_exact_name_wins(
    processes: Seq<ProcessView>,
    identifier: Seq<char>,
    lower: Seq<char>,
)
    requires
        pid_named(processes, identifier) is Some,
    ensures
        pid_of(processes, identifier, lower) == pid_named(processes, identifier),
{
}

/// Whether a part stands somewhere in a text, with anything before and behind it.
pub open spec fn stands_in(part: Seq<char>, text: Seq<char>) -> bool {
    exists|at: int|
        0 <= at && at + part.len() <= text.len() && #[trigger] text.subrange(at, at + part.len())
            == part
}

/// The identifier of an application: its package's name and publisher, and what names it in the
/// package.
pub open spec fn identifier_from(
    name: Seq<char>,
    publisher: Seq<char>,
    app: Seq<char>,
) -> Seq<char> {
    name + seq!['_'] + publisher + seq!['!'] + app
}

/// Name and publisher are read back from an application identifier: the publisher reaches from
/// the last underscore to the first exclamation mark.
pub proof fn law_package_is_read_back(name: Seq<char>, publisher: Seq<char>, app: Seq<char>)
    requires
        !name.contains('!'),
        !publisher.contains('!'),
        !publisher.contains('_'),
    ensures
        package_parts(identifier_from(name, publisher, app)) == Some((name, publisher)),
        uwp_parts(identifier_from(name, publisher, app)) == Some(
            (crate::letters::lowercased(name), crate::letters::lowercased(publisher)),
        ),
{
    let id = identifier_from(name, publisher, app);
    let package = name + seq!['_'] + publisher;
    let n = package.len() as int;
    assert(id[n] == '!');
    assert forall|j: int| 0 <= j < n implies id[j] != '!' by {
        if j < name.len() {
            assert(id[j] == name[j]);
            assert(name.contains(name[j]));
        } else if j > name.len() {
            assert(id[j] == publisher[j - name.len() - 1]);
            assert(publisher.contains(publisher[j - name.len() - 1]));
        }
    }
    crate::text::lemma_first_index_is(id, '!', n);
    assert(id.take(n) =~= package);
    assert(id.contains('!'));
    let m = name.len() as int;
    assert(package[m] == '_');
    assert(package.contains('_'));
    assert forall|j: int| m < j < package.len() implies package[j] != '_' by {
        assert(package[j] == publisher[j - m - 1]);
        assert(publisher.contains(publisher[j - m - 1]));
    }
    crate::text::lemma_last_index_is(package, '_', m);
    assert(package.take(m) =~= name);
    assert(package.skip(m + 1) =~= publisher);
}

/// A run of characters occurs where it stands.
proof fn lemma_run_stands(text: Seq<char>, part: Seq<char>)
    ensures
        crate::text::contains_run(text, part) <==> stands_in(part, text),
{
    if crate::text::contains_run(text, part) {
        let i = choose|i: int| crate::text::occurs_at(text, part, i);
        assert(text.subrange(i, i + part.len()) == part);
    }
    if stands_in(part, text) {
        let at = choose|at: int|
            0 <= at && at + part.len() <= text.len() && #[trigger] text.subrange(
                at,
                at + part.len(),
            ) == part;
        assert(crate::text::occurs_at(text, part, at));
    }
}

/// An audio session is the one of an application identifier exactly where it is active and either
/// belongs to the process that the identifier names, or says both the name and the publisher of
/// the package: both in its identifier, or both in its icon path, however the letters are written.
/// One of the two is not enough, nor one in each place.
pub proof fn law_session_says_name_and_publisher(
    name: Seq<char>,
    publisher: Seq<char>,
    app: Seq<char>,
    processes: Seq<ProcessView>,
    session: AudioSessionView,
)
    requires
        !name.contains('!'),
        !publisher.contains('!'),
        !publisher.contains('_'),
    ensures
        ({
            let identifier = identifier_from(name, publisher, app);
            let lower_name = crate::letters::lowercased(name);
            let lower_publisher = crate::letters::lowercased(publisher);
            let by_process = session.pid matches Some(pid) && pid > 0 && process_of(
                processes,
                identifier,
            ) == Some(pid);
            let by_identifier = session.identifier matches Some(text) && stands_in(
                lower_name,
                crate::letters::lowercased(text),
            ) && stands_in(lower_publisher, crate::letters::lowercased(text));
            let by_icon_path = session.icon_path matches Some(text) && stands_in(
                lower_name,
                crate::letters::lowercased(text),
            ) && stands_in(lower_publisher, crate::letters::lowercased(text));
            is_session_of(identifier, processes, session) <==> session.state == Some(1i32) && (
            by_process || by_identifier || by_icon_path)
        }),
{
    law_package_is_read_back(name, publisher, app);
    let lower_name = crate::letters::lowercased(name);
    let lower_publisher = crate::letters::lowercased(publisher);
    if let Some(text) = session.identifier {
        lemma_run_stands(crate::letters::lowercased(text), lower_name);
        lemma_run_stands(crate::letters::lowercased(text), lower_publisher);
    }
    if let Some(text) = session.icon_path {
        lemma_run_stands(crate::letters::lowercased(text), lower_name);
        lemma_run_stands(crate::letters::lowercased(text), lower_publisher);
    }
}

/// A session that is found for an application identifier by what it says, and not by its process,
/// holds the package's name at one place and the publisher at another place of the same text.
pub proof fn law_found_session_holds_both(
    name: Seq<char>,
    publisher: Seq<char>,
    app: Seq<char>,
    processes: Seq<ProcessView>,
    session: AudioSessionView,
)
    requires
        !name.contains('!'),
        !publisher.contains('!'),
        !publisher.contains('_'),
        is_session_of(identifier_from(name, publisher, app), processes, session),
        session.pid is None || session.pid != process_of(
            processes,
            identifier_from(name, publisher, app),
        ),
    ensures
        ({
            let lower_name = crate::letters::lowercased(name);
            let lower_publisher = crate::letters::lowercased(publisher);
            exists|text: Seq<char>, i: int, j: int|
                {
                    &&& session.identifier == Some(text) || session.icon_path == Some(text)
                    &&& 0 <= i && i + lower_name.len() <= crate::letters::lowercased(text).len()
                    &&& 0 <= j && j + lower_publisher.len() <= crate::letters::lowercased(
                        text,
                    ).len()
                    &&& #[trigger] crate::letters::lowercased(text).subrange(
                        i,
                        i + lower_name.len(),
                    ) == lower_name
                    &&& #[trigger] crate::letters::lowercased(text).subrange(
                        j,
                        j + lower_publisher.len(),
                    ) == lower_publisher
                }
        }),
{
    law_session_says_name_and_publisher(name, publisher, app, processes, session);
    let lower_name = crate::letters::lowercased(name);
    let lower_publisher = crate::letters::lowercased(publisher);
    let said = |text: Seq<char>|
        stands_in(lower_name, crate::letters::lowercased(text)) && stands_in(
            lower_publisher,
            crate::letters::lowercased(text),
        );
    let text = if session.identifier is Some && said(session.identifier->0) {
        session.identifier->0
    } else {
        session.icon_path->0
    };
    let lower = crate::letters::lowercased(text);
    let i = choose|at: int|
        0 <= at && at + lower_name.len() <= lower.len() && #[trigger] lower.subrange(
            at,
            at + lower_name.len(),
        ) == lower_name;
    let j = choose|at: int|
        0 <= at && at + lower_publisher.len() <= lower.len() && #[trigger] lower.subrange(
            at,
            at + lower_publisher.len(),
        ) == lower_publisher;
    assert(lower.subrange(i, i + lower_name.len()) == lower_name);
    assert(lower.subrange(j, j + lower_publisher.len()) == lower_publisher);
}

/// An identifier that names no package finds a session by its process alone.
pub proof fn law_plain_identifier_needs_process(
    identifier: Seq<char>,
    processes: Seq<ProcessView>,
    session: AudioSessionView,
)
    requires
        !identifier.contains('!') || !identifier.contains('_'),
    ensures
        is_session_of(identifier, processes, session) <==> session.state == Some(1i32) && (
        session.pid matches Some(pid) && pid > 0 && process_of(processes, identifier) == Some(pid)),
{
    let package = crate::text::before_first(identifier, '!');
    crate::text::law_before_first(identifier, '!');
    if package.contains('_') {
        let i = choose|i: int| 0 <= i < package.len() && package[i] == '_';
        assert(identifier[i] == '_');
    }
}

/// Of several processes whose executable has the name, the one that is listed first is found.
pub proof fn law_first_listed_process_is_found(
    processes: Seq<ProcessView>,
    name: Seq<char>,
    i: int,
)
    requires
        0 <= i < processes.len(),
        crate::text::equal_ignoring_ascii_case(processes[i].name, name),
        forall|j: int|
            0 <= j < i ==> !crate::text::equal_ignoring_ascii_case(
                (#[trigger] processes[j]).name,
                name,
            ),
    ensures
        pid_named(processes, name) == Some(processes[i].pid),
    decreases i,
{
    if i > 0 {
        let rest = processes.skip(1);
        assert(rest[i - 1] == processes[i]);
        assert forall|j: int|
            0 <= j < i - 1 implies !crate::text::equal_ignoring_ascii_case(
            (#[trigger] rest[j]).name,
            name,
        ) by {
            assert(rest[j] == processes[j + 1]);
        }
        assert(!crate::text::equal_ignoring_ascii_case(processes[0].name, name));
        law_first_listed_process_is_found(rest, name, i - 1);
    }
}

/// A process is looked for by the identifier itself, then by the identifier with `.exe` behind it
/// unless it already ends so, and then, for an application identifier, by the executable that it
/// suggests; the first that is found counts.
pub proof fn law_process_is_looked_for_in_order(
    processes: Seq<ProcessView>,
    identifier: Seq<char>,
)
    ensures
        ({
            let found = process_of(processes, identifier);
            let itself = pid_named(processes, identifier);
            let longer = pid_named(processes, identifier + ".exe"@);
            let ends = crate::text::ends_with(crate::letters::lowercased(identifier), ".exe"@);
            let suggested = pid_named(processes, derived_executable_name(identifier));
            &&& itself is Some ==> found == itself
            &&& itself is None && longer is Some && !ends ==> found == longer
            &&& itself is None && (longer is None || ends) && identifier.contains('!') ==> found
                == suggested
            &&& itself is None && (longer is None || ends) && !identifier.contains('!')
                ==> found is None
        }),
{
}

/// The executable that an application identifier suggests is named after the application, without
/// the suffix of its packaging.
pub proof fn law_executable_is_named_after_app(
    vendor: Seq<char>,
    base: Seq<char>,
    suffix: Seq<char>,
    publisher: Seq<char>,
    app: Seq<char>,
)
    requires
        !vendor.contains('_') && !vendor.contains('!'),
        !base.contains('.') && !base.contains('_') && !base.contains('!'),
        !publisher.contains('!'),
        suffix == Seq::<char>::empty() || suffix == "Win"@ || suffix == "Uwp"@ || suffix
            == "Desktop"@,
        !crate::text::ends_with(base, "Win"@),
        !crate::text::ends_with(base, "Uwp"@),
        !crate::text::ends_with(base, "Desktop"@),
    ensures
        derived_executable_name(
            vendor.push('.') + (base + suffix).push('_') + publisher.push('!') + app,
        ) == base + ".exe"@,
{
    reveal_strlit("Win");
    reveal_strlit("Uwp");
    reveal_strlit("Desktop");
    let name = base + suffix;
    assert forall|c: char| c == '.' || c == '_' || c == '!' implies !name.contains(c) by {
        assert forall|j: int| 0 <= j < name.len() implies name[j] != c by {
            if j < base.len() {
                assert(name[j] == base[j]);
                assert(base.contains(base[j]));
            } else {
                assert(name[j] == suffix[j - base.len()]);
            }
        }
    }
    crate::utils::law_app_name_stands_before_publisher(vendor, name, publisher, app);
    crate::text::law_one_suffix_is_taken_off(base, "Win"@);
    crate::text::law_one_suffix_is_taken_off(base, "Uwp"@);
    crate::text::law_one_suffix_is_taken_off(base, "Desktop"@);
    if suffix == Seq::<char>::empty() {
        assert(name =~= base);
    } else {
        assert(name.last() == suffix.last());
        crate::text::law_ends_with(name, "Win"@);
        crate::text::law_ends_with(name, "Uwp"@);
        if suffix == "Uwp"@ {
            assert(!crate::text::ends_with(name, "Win"@)) by {
                assert(name[name.len() - 3 + 2] == 'p' && "Win"@[2] == 'n');
            }
            crate::text::law_one_suffix_is_taken_off(name, "Win"@);
        } else if suffix == "Desktop"@ {
            assert(!crate::text::ends_with(name, "Win"@)) by {
                assert(name[name.len() - 3 + 2] == 'p' && "Win"@[2] == 'n');
            }
            assert(!crate::text::ends_with(name, "Uwp"@)) by {
                assert(name[name.len() - 3 + 1] == 'o' && "Uwp"@[1] == 'w');
            }
            crate::text::law_one_suffix_is_taken_off(name, "Win"@);
            crate::text::law_one_suffix_is_taken_off(name, "Uwp"@);
        }
    }
}

/// What is said where no session is found quotes the identifier.
pub proof fn law_missing_session_is_named(identifier: Seq<char>)
    ensures
        no_session_text(identifier).len() == 22 + identifier.len(),
        no_session_text(identifier).subrange(8, 8 + identifier.len() as int) == identifier,
{
    reveal_strlit("未能为标识符 '");
    reveal_strlit("' 找到匹配的活动音频会话。");
    assert(no_session_text(identifier).subrange(8, 8 + identifier.len() as int) =~= identifier);
}

/// A volume change takes fifteen steps after the first, with sixteen milliseconds before each; a
/// step that was made leads to the next, and behind the last one the target is set.
pub proof fn law_volume_changes_in_fifteen_steps(easing: EasingView, step: u32)
    ensures
        VOLUME_EASING_STEP_MS == 16,
        easing.phase == EasingPhase::Waiting(step) ==> {
            let stepping = easing.after(EasingEvent::Waited);
            let made = stepping.state.after(EasingEvent::VolumeSet(true));
            &&& stepping.action == EasingActionView::SetStep(step)
            &&& step < 15 ==> made.state.phase == EasingPhase::Waiting((step + 1) as u32)
                && made.action == EasingActionView::Wait
            &&& step >= 15 ==> made.action == EasingActionView::SetFinal
        },
{
}

/// A volume that cannot be read is not changed, and a report needs both the volume and the mute
/// state. Whatever happens, the change stays one of the same session to the same target.
pub proof fn law_volume_change_keeps_its_aim(easing: EasingView, event: EasingEvent)
    ensures
        easing.after(event).state.session_id == easing.session_id,
        easing.after(event).state.target == easing.target,
        easing.phase == EasingPhase::Measuring ==> easing.after(EasingEvent::Measured(None)).action
            == EasingActionView::Finish,
        easing.phase == EasingPhase::Done ==> easing.after(event).action
            == EasingActionView::Finish,
        easing.phase == EasingPhase::Reading ==> (event matches EasingEvent::Read {
            volume,
            is_muted,
        } ==> (volume is None || is_muted is None ==> easing.after(event).action
            == EasingActionView::Finish)),
        easing.phase == EasingPhase::ReadingMute ==> (event matches EasingEvent::Read {
            volume,
            is_muted,
        } ==> (is_muted is None ==> easing.after(event).action == EasingActionView::Finish)),
        easing.phase == EasingPhase::Measuring ==> easing.after(
            EasingEvent::Measured(Some(false)),
        ).state.phase == EasingPhase::Waiting(0) && easing.after(
            EasingEvent::Measured(Some(false)),
        ).action == EasingActionView::Wait,
{
}

} // verus!
