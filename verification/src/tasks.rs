//! The decisions of the background tasks: fetching cover art, and the progress timer.
use crate::api::{PlaybackStatus, SharedPlayerState};
use crate::smtc_handler::{CoverOutcome, CoverView};
use vstd::prelude::*;

verus! {

/// The largest cover art that is read, in bytes.
pub const MAX_COVER_SIZE_BYTES: u64 = 20971520;

/// How often the progress timer ticks, in milliseconds.
pub const PROGRESS_INTERVAL_MS: u64 = 16;

/// Whether cover art of the given size is read: there is some, and not too much.
pub open spec fn is_cover_size(size: u64) -> bool {
    0 < size <= MAX_COVER_SIZE_BYTES
}

/// How many bytes of cover art to read, where any are.
pub fn cover_bytes_to_read(stream_size: u64) -> (bytes: Option<u32>)
    ensures
        match bytes {
            Some(n) => is_cover_size(stream_size) && n == stream_size,
            None => !is_cover_size(stream_size),
        },
{
    if stream_size == 0 || stream_size > MAX_COVER_SIZE_BYTES {
        None
    } else {
        Some(stream_size as u32)
    }
}

/// How the task that fetches cover art has ended.
pub enum FetchEnd {
    /// It was cancelled.
    Cancelled,
    /// It took too long.
    TimedOut,
    /// A call of the system has failed.
    Error,
    /// It has read cover art, or there was none that is read.
    Done(Option<Vec<u8>>),
}

/// The outcome of fetching cover art. Only a task that came to its end says anything about the
/// cover art.
pub fn fetch_outcome(end: FetchEnd) -> (outcome: CoverOutcome)
    ensures
        outcome@ == match end {
            FetchEnd::Done(Some(bytes)) => CoverView::Loaded(bytes@),
            FetchEnd::Done(None) => CoverView::Missing,
            _ => CoverView::Failed,
        },
{
    match end {
        FetchEnd::Done(Some(bytes)) => CoverOutcome::Loaded(bytes),
        FetchEnd::Done(None) => CoverOutcome::Missing,
        FetchEnd::Cancelled => CoverOutcome::Failed,
        FetchEnd::TimedOut => CoverOutcome::Failed,
        FetchEnd::Error => CoverOutcome::Failed,
    }
}

/// Whether the progress timer signals progress: while playback is running, and once the first
/// update of the track has come.
pub fn signals_progress(player: &SharedPlayerState) -> (yes: bool)
    ensures
        yes == (player.playback_status == PlaybackStatus::Playing
            && !player.is_waiting_for_initial_update),
{
    player.playback_status == PlaybackStatus::Playing && !player.is_waiting_for_initial_update
}

/// Cover art of up to twenty mebibytes is read, unless there is none at all.
pub proof fn law_cover_size_is_limited(size: u64)
    ensures
        is_cover_size(size) <==> 1 <= size <= 20 * 1024 * 1024,
        PROGRESS_INTERVAL_MS == 16,
{
}

} // verus!
