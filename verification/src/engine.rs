//! The playback controller's state and transition logic.
//!
//! Every operation is a decision function: it takes the engine's own
//! state together with what the caller just observed of the audio sink
//! (empty, paused, reported position) and returns the new state plus the
//! action the caller must carry out on the sink.  The surrounding
//! application performs the observations and actions under the sink
//! lock; the decisions themselves are verified here.

use vstd::prelude::*;

use crate::events::PlaybackError;
use crate::events::PlaybackQuery;
use crate::events::ProgressEvent;
use crate::events::spec_progress_event;

verus! {

/// The engine's shared playback state: the pause and seek flags and the
/// cached duration of the loaded track, in milliseconds.
#[derive(Clone, Copy, PartialEq, Eq, Structural, Debug)]
pub struct Engine {
    /// Playback is intentionally suspended.
    pub is_paused: bool,
    /// A seek is in flight; progress reports are suppressed meanwhile.
    pub is_seeking: bool,
    /// Total duration of the loaded track, cached at load time.
    pub duration_ms: u64,
}

/// What a `play` request asks the caller to do to the sink.
#[derive(Clone, Copy, PartialEq, Eq, Structural, Debug)]
pub enum PlayAction {
    /// Resume the paused sink; no new track, no new reporter.
    Resume,
    /// The sink is empty: load the configured track, append it, reset
    /// the position, start playback and spawn one progress reporter.
    StartTrack,
}

/// What the progress reporter does on one polling tick.
#[derive(Clone, Copy, PartialEq, Eq, Structural, Debug)]
pub enum ReporterStep {
    /// Emit this progress event and keep polling.
    Emit(ProgressEvent),
    /// Paused or seeking: emit nothing this tick, keep polling.
    Skip,
    /// The sink became empty: emit one completion event and stop.
    Done,
}

/// The decision `play` makes from the pause flag and the sink's
/// emptiness; the engine state itself does not change.
pub open spec fn spec_play_request(e: Engine, sink_empty: bool) -> Result<
    PlayAction,
    PlaybackError,
> {
    if e.is_paused {
        Ok(PlayAction::Resume)
    } else if sink_empty {
        Ok(PlayAction::StartTrack)
    } else {
        Err(PlaybackError::AlreadyPlaying)
    }
}

/// The state after a paused engine resumes.
pub open spec fn spec_resume(e: Engine) -> Engine {
    Engine { is_paused: false, ..e }
}

/// The state after a new track of `duration_ms` is loaded.
pub open spec fn spec_load_track(e: Engine, duration_ms: u64) -> Engine {
    Engine { is_paused: false, duration_ms, ..e }
}

/// The state after `pause`, and whether the caller must pause the sink:
/// a no-op when the sink already reports paused.
pub open spec fn spec_pause(e: Engine, sink_paused: bool) -> (Engine, bool) {
    if sink_paused {
        (e, false)
    } else {
        (Engine { is_paused: true, ..e }, true)
    }
}

/// The state while a seek is in flight.
pub open spec fn spec_begin_seek(e: Engine) -> Engine {
    Engine { is_seeking: true, ..e }
}

/// The outcome of finishing a seek: the seek flag is cleared on both
/// paths; on success the one-shot corrective event for the settled
/// position, on rejection the seek error.
pub open spec fn spec_finish_seek(e: Engine, accepted: bool, settled_position_ms: u64) -> (
    Engine,
    Result<ProgressEvent, PlaybackError>,
) {
    let cleared = Engine { is_seeking: false, ..e };
    if accepted {
        (cleared, Ok(spec_progress_event(settled_position_ms, e.duration_ms)))
    } else {
        (cleared, Err(PlaybackError::Seek))
    }
}

/// What a state query derives from the sink and the pause flag.
pub open spec fn spec_query(e: Engine, sink_empty: bool) -> PlaybackQuery {
    PlaybackQuery { is_playing: !sink_empty && !e.is_paused, is_empty: sink_empty }
}

/// One tick of the progress reporter: stop when the sink is empty
/// (clearing the pause flag defensively), stay silent while paused or
/// seeking, otherwise emit the clamped reading.
pub open spec fn spec_reporter_step(e: Engine, sink_empty: bool, position_ms: u64) -> (
    Engine,
    ReporterStep,
) {
    if sink_empty {
        (Engine { is_paused: false, ..e }, ReporterStep::Done)
    } else if e.is_paused || e.is_seeking {
        (e, ReporterStep::Skip)
    } else {
        (e, ReporterStep::Emit(spec_progress_event(position_ms, e.duration_ms)))
    }
}

impl Engine {
    /// A fresh engine: nothing loaded, not paused, not seeking.
    pub fn new() -> (e: Engine)
        ensures
            !e.is_paused,
            !e.is_seeking,
            e.duration_ms == 0,
    {
        Engine { is_paused: false, is_seeking: false, duration_ms: 0 }
    }

    /// Decides a `play` request against the sink's emptiness: resume if
    /// paused, load a new track if empty, otherwise the request is a
    /// caller-usage error.  The decision changes no state; the caller
    /// applies the returned action under the same lock as the
    /// observation.
    pub fn play_request(&self, sink_empty: bool) -> (r: Result<PlayAction, PlaybackError>)
        ensures
            r == spec_play_request(*self, sink_empty),
    {
        if self.is_paused {
            Ok(PlayAction::Resume)
        } else if sink_empty {
            Ok(PlayAction::StartTrack)
        } else {
            Err(PlaybackError::AlreadyPlaying)
        }
    }

    /// Records that the paused sink was resumed: clears the pause flag
    /// and nothing else.
    pub fn resume(&mut self)
        ensures
            *final(self) == spec_resume(*old(self)),
    {
        self.is_paused = false;
    }

    /// Records a successful track load: caches the decoded duration and
    /// clears the pause flag.  Only permitted on the `StartTrack` path,
    /// where the engine was not paused and the sink was empty.
    pub fn load_track(&mut self, duration_ms: u64)
        requires
            !old(self).is_paused,
        ensures
            *final(self) == spec_load_track(*old(self), duration_ms),
    {
        self.duration_ms = duration_ms;
        self.is_paused = false;
    }

    /// Decides a `pause` request against the sink's own paused status:
    /// idempotent, a no-op when the sink already reports paused.
    /// Returns whether the caller must pause the sink.
    pub fn pause(&mut self, sink_paused: bool) -> (pause_sink: bool)
        ensures
            (*final(self), pause_sink) == spec_pause(*old(self), sink_paused),
    {
        if sink_paused {
            false
        } else {
            self.is_paused = true;
            true
        }
    }

    /// Marks a seek as in flight, before the sink is touched, so that
    /// the reporter suppresses stale readings meanwhile.
    pub fn begin_seek(&mut self)
        ensures
            *final(self) == spec_begin_seek(*old(self)),
    {
        self.is_seeking = true;
    }

    /// Finishes a seek.  `accepted` is whether the underlying primitive
    /// took the position; `settled_position_ms` is the position read
    /// back after the settle delay.  The seek flag is cleared on success
    /// and failure alike — a rejected seek must never leave the reporter
    /// permanently suppressed.  On success the returned event carries
    /// the settled position, clamped to the cached duration, for the
    /// one-shot position-changed emission.
    pub fn finish_seek(&mut self, accepted: bool, settled_position_ms: u64) -> (r: Result<
        ProgressEvent,
        PlaybackError,
    >)
        requires
            old(self).is_seeking,
        ensures
            (*final(self), r) == spec_finish_seek(*old(self), accepted, settled_position_ms),
            !final(self).is_seeking,
    {
        self.is_seeking = false;
        if accepted {
            Ok(ProgressEvent::new(settled_position_ms, self.duration_ms))
        } else {
            Err(PlaybackError::Seek)
        }
    }

    /// Derives the playback query from the sink's emptiness and the
    /// pause flag: playing means non-empty and not paused.  A pure read.
    pub fn query_state(&self, sink_empty: bool) -> (q: PlaybackQuery)
        ensures
            q == spec_query(*self, sink_empty),
    {
        PlaybackQuery { is_playing: !sink_empty && !self.is_paused, is_empty: sink_empty }
    }

    /// One tick of the progress reporter, from the sink's emptiness and
    /// reported position.  When the sink has drained, the pause flag is
    /// cleared defensively and `Done` asks the caller to emit the single
    /// completion event and stop polling.  While paused or seeking
    /// nothing is emitted.  Otherwise the reading is clamped to the
    /// cached duration and emitted.
    pub fn reporter_step(&mut self, sink_empty: bool, position_ms: u64) -> (step: ReporterStep)
        ensures
            (*final(self), step) == spec_reporter_step(*old(self), sink_empty, position_ms),
    {
        if sink_empty {
            self.is_paused = false;
            ReporterStep::Done
        } else if self.is_paused || self.is_seeking {
            ReporterStep::Skip
        } else {
            ReporterStep::Emit(ProgressEvent::new(position_ms, self.duration_ms))
        }
    }
}

/// The perceptual gain for a volume percentage, in ten-thousandths of
/// full gain: the percentage is clamped to 0..=100 and squared, so that
/// 100 maps to 10000 (full gain) and 50 maps to 2500 (a quarter).
pub open spec fn spec_volume_gain(percent: u32) -> int {
    let p: int = if percent > 100 {
        100
    } else {
        percent as int
    };
    p * p
}

/// Maps a volume percentage to the gain the sink is set to, in
/// ten-thousandths of full gain (a quadratic curve approximates loudness
/// perception better than a linear one).  Out-of-range input is clamped,
/// never rejected.
pub fn volume_gain_permyriad(percent: u32) -> (gain: u32)
    ensures
        gain == spec_volume_gain(percent),
{
    let p: u32 = if percent > 100 {
        100
    } else {
        percent
    };
    proof {
        assert(p * p <= 10000) by (nonlinear_arith)
            requires
                p <= 100,
        ;
    }
    p * p
}

} // verus!
