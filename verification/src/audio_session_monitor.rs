//! Monitoring of the audio session that belongs to the current media session.
use crate::api::VolumeLevel;
use crate::worker::{InternalUpdate, InternalUpdateView};
use vstd::prelude::*;

verus! {

/// Commands to the monitor.
#[derive(Debug, Clone, Copy, PartialEq, Eq, Structural)]
pub enum AudioMonitorCommand {
    /// Monitor the audio session of the given process.
    StartMonitoring(u32),
    /// Monitor no session.
    StopMonitoring,
}

/// The state of an audio session.
#[derive(Debug, Clone, Copy, PartialEq, Eq, Structural)]
pub enum AudioSessionState {
    Inactive,
    Active,
    Expired,
}

/// The state that a code stands for. A session in a state that is not known counts as expired.
pub open spec fn state_of_code(code: i32) -> AudioSessionState {
    if code == 0 {
        AudioSessionState::Inactive
    } else if code == 1 {
        AudioSessionState::Active
    } else {
        AudioSessionState::Expired
    }
}

/// Reads the state of an audio session.
pub fn session_state(code: i32) -> (state: AudioSessionState)
    ensures
        state == state_of_code(code),
{
    if code == 0 {
        AudioSessionState::Inactive
    } else if code == 1 {
        AudioSessionState::Active
    } else {
        AudioSessionState::Expired
    }
}

/// The update for a session whose state has changed; none where it has become active.
pub fn on_state_changed(session_id: &str, code: i32) -> (update: Option<InternalUpdate>)
    ensures
        match update {
            Some(u) => state_of_code(code) != AudioSessionState::Active && u@
                == (InternalUpdateView::AudioSessionStateChanged {
                session_id: session_id@,
                new_state: state_of_code(code),
            }),
            None => state_of_code(code) == AudioSessionState::Active,
        },
{
    let new_state: AudioSessionState = session_state(code);
    if new_state != AudioSessionState::Active {
        Some(
            InternalUpdate::AudioSessionStateChanged {
                session_id: session_id.to_owned(),
                new_state,
            },
        )
    } else {
        None
    }
}

/// The update for a session that was disconnected.
pub fn on_session_disconnected(session_id: &str) -> (update: InternalUpdate)
    ensures
        update@ == (InternalUpdateView::AudioSessionStateChanged {
            session_id: session_id@,
            new_state: AudioSessionState::Expired,
        }),
{
    InternalUpdate::AudioSessionStateChanged {
        session_id: session_id.to_owned(),
        new_state: AudioSessionState::Expired,
    }
}

/// The update for a session whose volume has changed.
pub fn on_simple_volume_changed(session_id: &str, volume: VolumeLevel, is_muted: bool) -> (update:
    InternalUpdate)
    ensures
        update@ == (InternalUpdateView::AudioSessionVolumeChanged {
            session_id: session_id@,
            volume,
            is_muted,
        }),
{
    InternalUpdate::AudioSessionVolumeChanged {
        session_id: session_id.to_owned(),
        volume,
        is_muted,
    }
}

/// Where the audio session of a process was found.
#[derive(Debug, Clone, Copy, PartialEq, Eq, Structural)]
pub enum SessionSearch {
    /// At this place of the list.
    Found(usize),
    /// Nowhere.
    NotFound,
    /// A session before it could not be read.
    Failed,
}

/// Finds the audio session of a process in the list of the processes of all sessions. A process
/// that could not be read is missing, and ends the search.
pub fn find_session_of_process(pids: &Vec<Option<u32>>, pid: u32) -> (search: SessionSearch)
    ensures
        match search {
            SessionSearch::Found(i) => i < pids@.len() && pids@[i as int] == Some(pid)
                && forall|j: int|
                0 <= j < i ==> #[trigger] pids@[j] is Some && pids@[j] != Some(pid),
            SessionSearch::NotFound => forall|j: int|
                0 <= j < pids@.len() ==> #[trigger] pids@[j] is Some && pids@[j] != Some(pid),
            SessionSearch::Failed => exists|i: int|
                0 <= i < pids@.len() && #[trigger] pids@[i] is None && forall|j: int|
                    0 <= j < i ==> #[trigger] pids@[j] is Some && pids@[j] != Some(pid),
        },
{
    for i in 0..pids.len()
        invariant
            forall|j: int|
                0 <= j < i ==> #[trigger] pids@[j] is Some && pids@[j] != Some(pid),
    {
        match pids[i] {
            Some(found) => {
                if found == pid {
                    return SessionSearch::Found(i);
                }
            },
            None => {
                assert(pids@[i as int] is None);
                return SessionSearch::Failed;
            },
        }
    }
    SessionSearch::NotFound
}

/// What a command to the monitor calls for, in order.
#[derive(Debug, Clone, Copy, PartialEq, Eq, Structural)]
pub struct MonitorPlan {
    /// Stop listening to the monitored session. Where that fails, the rest is left out.
    pub unregister: bool,
    /// Look for the session of this process, tell of its volume, and listen to it.
    pub search: Option<u32>,
}

/// The monitor: whether it listens to an audio session.
#[derive(Debug, Clone, Copy, PartialEq, Eq, Structural)]
pub struct AudioSessionMonitor {
    pub monitoring: bool,
}

impl AudioSessionMonitor {
    /// What a command calls for.
    pub open spec fn plan(self, command: AudioMonitorCommand) -> MonitorPlan {
        MonitorPlan {
            unregister: self.monitoring,
            search: match command {
                AudioMonitorCommand::StartMonitoring(pid) => Some(pid),
                AudioMonitorCommand::StopMonitoring => None,
            },
        }
    }

    /// A monitor that listens to nothing.
    pub fn new() -> (monitor: Self)
        ensures
            !monitor.monitoring,
    {
        AudioSessionMonitor { monitoring: false }
    }

    /// Handles a command. Whatever was monitored is given up first.
    pub fn handle_command(&mut self, command: AudioMonitorCommand) -> (plan: MonitorPlan)
        ensures
            plan == old(self).plan(command),
            !final(self).monitoring,
    {
        let unregister: bool = self.stop_monitoring_internal();
        let search: Option<u32> = match command {
            AudioMonitorCommand::StartMonitoring(pid) => Some(pid),
            AudioMonitorCommand::StopMonitoring => None,
        };
        MonitorPlan { unregister, search }
    }

    /// Gives up what is monitored. Returns whether there was anything.
    pub fn stop_monitoring_internal(&mut self) -> (unregister: bool)
        ensures
            unregister == old(self).monitoring,
            !final(self).monitoring,
    {
        let unregister: bool = self.monitoring;
        self.monitoring = false;
        unregister
    }

    /// Records that the monitor listens to the session that was found.
    pub fn session_registered(&mut self)
        ensures
            final(self).monitoring,
    {
        self.monitoring = true;
    }
}

/// An expired session makes the worker give up monitoring it.
pub proof fn law_expired_session_is_given_up(session_id: Seq<char>)
    ensures
        crate::worker::monitor_command(
            InternalUpdateView::AudioSessionStateChanged {
                session_id,
                new_state: AudioSessionState::Expired,
            },
        ) == Some(AudioMonitorCommand::StopMonitoring),
{
}

/// At most one session is monitored: a second command first gives up what the first one found.
pub proof fn law_one_session_is_monitored(
    monitor: AudioSessionMonitor,
    command: AudioMonitorCommand,
)
    requires
        monitor.monitoring,
    ensures
        monitor.plan(command).unregister,
{
}

/// A session counts as inactive and active by the codes for that, and as expired by every other.
pub proof fn law_state_codes_are_read(code: i32)
    ensures
        code == 0 <==> state_of_code(code) == AudioSessionState::Inactive,
        code == 1 <==> state_of_code(code) == AudioSessionState::Active,
        code < 0 || code > 1 <==> state_of_code(code) == AudioSessionState::Expired,
{
}

/// The monitor looks for the session of just the process that it is told, and for none where it
/// is told to stop; it gives up what it monitors, and nothing where it monitors nothing.
pub proof fn law_monitor_does_as_told(monitor: AudioSessionMonitor, pid: u32)
    ensures
        monitor.plan(AudioMonitorCommand::StartMonitoring(pid)).search == Some(pid),
        monitor.plan(AudioMonitorCommand::StopMonitoring).search is None,
        monitor.plan(AudioMonitorCommand::StartMonitoring(pid)).unregister <==> monitor.monitoring,
        monitor.plan(AudioMonitorCommand::StopMonitoring).unregister <==> monitor.monitoring,
{
}

} // verus!
