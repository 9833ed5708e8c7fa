//! Verified core of a suite for media sessions: listening to and controlling media playback,
//! capturing system audio, and managing the volume of applications.
//!
//! The modules decide; whoever embeds them acts. A handler takes an event, changes its state, and
//! returns what has to be done, so that every decision is covered by a contract while calls of
//! the system stay outside.
pub mod api;
pub mod audio_capture;
pub mod audio_session_monitor;
pub mod clock;
pub mod conversion;
pub mod error;
pub mod ffi;
pub mod letters;
pub mod playback;
pub mod samples;
pub mod sessions;
pub mod smtc_handler;
pub mod tasks;
pub mod text;
pub mod track_info;
pub mod utils;
pub mod volume_control;
pub mod worker;

pub use api::{
    Controls, MediaCommand, MediaUpdate, NowPlayingInfo, PlaybackStatus, RepeatMode,
    SmtcControlCommand, SmtcSessionInfo, TextConversionMode,
};
pub use error::SmtcError;

use vstd::prelude::*;

verus! {

/// What is known of the worker thread of an earlier start.
pub enum WorkerThread {
    /// There is none.
    NeverStarted,
    /// It is running.
    Running,
    /// It has ended.
    Finished,
    /// It cannot be told, because the lock on it was poisoned; with the text that says so.
    Unknown(String),
}

/// The entry point of the suite.
pub struct MediaManager;

impl MediaManager {
    /// Whether the service may be started: not while it is running.
    pub fn start(thread: WorkerThread) -> (permission: Result<(), SmtcError>)
        ensures
            match thread {
                WorkerThread::Running => permission == Err::<(), SmtcError>(
                    SmtcError::AlreadyRunning,
                ),
                WorkerThread::Unknown(text) => permission == Err::<(), SmtcError>(
                    SmtcError::MutexPoisoned(text),
                ),
                _ => permission is Ok,
            },
    {
        match thread {
            WorkerThread::NeverStarted => Ok(()),
            WorkerThread::Finished => Ok(()),
            WorkerThread::Running => Err(SmtcError::AlreadyRunning),
            WorkerThread::Unknown(text) => Err(SmtcError::MutexPoisoned(text)),
        }
    }
}

} // verus!
