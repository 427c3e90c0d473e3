//! Events and errors that the engine hands to its observer and callers.

use vstd::prelude::*;

verus! {

/// A progress report: how far playback has advanced into the loaded
/// track, both in milliseconds.  Events are clamped at the source, so
/// `current_position_ms <= duration_ms` holds of every event built by
/// [`ProgressEvent::new`].
#[derive(Clone, Copy, PartialEq, Eq, Structural, Debug)]
pub struct ProgressEvent {
    pub current_position_ms: u64,
    pub duration_ms: u64,
}

/// The position a progress event reports for a sink reading: the raw
/// position, clamped to the track duration (the underlying primitive may
/// report values slightly past the true duration near end of track).
pub open spec fn clamped_position(position_ms: u64, duration_ms: u64) -> u64 {
    if position_ms <= duration_ms {
        position_ms
    } else {
        duration_ms
    }
}

/// The event emitted for a sink reading of `position_ms` while a track
/// of `duration_ms` is loaded.
pub open spec fn spec_progress_event(position_ms: u64, duration_ms: u64) -> ProgressEvent {
    ProgressEvent {
        current_position_ms: clamped_position(position_ms, duration_ms),
        duration_ms,
    }
}

impl ProgressEvent {
    /// A progress event never reports a position past the duration.
    pub open spec fn wf(self) -> bool {
        self.current_position_ms <= self.duration_ms
    }

    /// Builds the event for a sink reading, clamping the position to the
    /// track duration.
    pub fn new(position_ms: u64, duration_ms: u64) -> (e: ProgressEvent)
        ensures
            e == spec_progress_event(position_ms, duration_ms),
            e.wf(),
    {
        let p = if position_ms <= duration_ms { position_ms } else { duration_ms };
        ProgressEvent { current_position_ms: p, duration_ms }
    }
}

/// What a state query returns: derived from the sink and the pause flag,
/// never stored.
#[derive(Clone, Copy, PartialEq, Eq, Structural, Debug)]
pub struct PlaybackQuery {
    pub is_playing: bool,
    pub is_empty: bool,
}

/// The failures a controller operation can surface.
#[derive(Clone, Copy, PartialEq, Eq, Structural, Debug)]
pub enum PlaybackError {
    /// The track's file could not be opened.
    FileOpen,
    /// The track's file could not be decoded.
    Decode,
    /// `play` was called while a track was already playing.
    AlreadyPlaying,
    /// The underlying primitive rejected the requested seek position.
    Seek,
    /// The sink lock could not be acquired; fatal for the call only.
    LockAcquisition,
}

impl PlaybackError {
    /// A human-readable description of the failure.
    pub fn message(&self) -> (s: String)
        ensures
            self is FileOpen ==> s@ == "failed to open audio file"@,
            self is Decode ==> s@ == "failed to decode audio file"@,
            self is AlreadyPlaying ==> s@ == "sink is not empty"@,
            self is Seek ==> s@ == "seek rejected by the audio backend"@,
            self is LockAcquisition ==> s@ == "failed to acquire sink lock"@,
    {
        match self {
            PlaybackError::FileOpen => "failed to open audio file".to_owned(),
            PlaybackError::Decode => "failed to decode audio file".to_owned(),
            PlaybackError::AlreadyPlaying => "sink is not empty".to_owned(),
            PlaybackError::Seek => "seek rejected by the audio backend".to_owned(),
            PlaybackError::LockAcquisition => "failed to acquire sink lock".to_owned(),
        }
    }
}

} // verus!
