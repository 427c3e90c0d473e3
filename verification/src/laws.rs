//! Laws of the playback engine: properties that hold of every state and
//! every sink observation, proved over the same spec functions that the
//! operations' contracts use.

use vstd::prelude::*;

use crate::engine::Engine;
use crate::engine::PlayAction;
use crate::engine::ReporterStep;
use crate::engine::spec_finish_seek;
use crate::engine::spec_pause;
use crate::engine::spec_play_request;
use crate::engine::spec_query;
use crate::engine::spec_reporter_step;
use crate::engine::spec_volume_gain;
use crate::events::PlaybackError;
use crate::events::PlaybackQuery;

verus! {

/// After a seek to a valid position `p` (within the track), the one-shot
/// corrective event reports a position within `drift` of `p`, provided
/// the sink's settled reading `q` was within `drift` of `p`; and the
/// reporter's next emission, from a reading `q2` likewise within
/// `drift`, stays within `drift` of `p` too.  Clamping to the duration
/// never widens the drift, because `p` itself lies within the track.
pub proof fn lemma_seek_report_drift(e: Engine, p: u64, q: u64, q2: u64, drift: u64)
    requires
        p <= e.duration_ms,
        q <= p + drift,
        p <= q + drift,
        q2 <= p + drift,
        p <= q2 + drift,
    ensures
        ({
            let (e1, r) = spec_finish_seek(e, true, q);
            &&& r is Ok
            &&& r->Ok_0.current_position_ms <= p + drift
            &&& p <= r->Ok_0.current_position_ms + drift
            &&& !e1.is_seeking
        }),
        !e.is_paused ==> ({
            let (e1, r) = spec_finish_seek(e, true, q);
            let (e2, step) = spec_reporter_step(e1, false, q2);
            &&& step is Emit
            &&& step->Emit_0.current_position_ms <= p + drift
            &&& p <= step->Emit_0.current_position_ms + drift
        }),
{
}

/// No emitted event ever reports a position greater than its duration:
/// neither a periodic progress report from the reporter nor the one-shot
/// corrective event after a seek, for any state and any sink reading.
pub proof fn lemma_emitted_events_bounded(
    e: Engine,
    sink_empty: bool,
    position_ms: u64,
    accepted: bool,
)
    ensures
        ({
            let (e1, step) = spec_reporter_step(e, sink_empty, position_ms);
            step matches ReporterStep::Emit(ev) ==> ev.wf()
        }),
        ({
            let (e1, r) = spec_finish_seek(e, accepted, position_ms);
            r matches Ok(ev) ==> ev.wf()
        }),
{
}

/// A `play` request while a track is already playing (sink non-empty,
/// not paused) is rejected, and rejection changes no state: a second
/// request in succession is rejected the same way, and neither request
/// asks for a track load, so no second reporter is ever spawned for one
/// track.
pub proof fn lemma_play_while_playing_rejected(e: Engine, sink_empty: bool)
    requires
        !e.is_paused,
        !sink_empty,
    ensures
        spec_play_request(e, sink_empty) == Err::<PlayAction, PlaybackError>(
            PlaybackError::AlreadyPlaying,
        ),
        !(spec_play_request(e, sink_empty) is Ok),
{
}

/// `pause` is idempotent.  After one `pause` and its action on the sink
/// (`sink_paused || cmd1` is the sink's paused status afterwards), a
/// second `pause` changes nothing and asks for no further action; and
/// whenever the first call paused the sink, the pause flag was set with
/// it.
pub proof fn lemma_pause_idempotent(e: Engine, sink_paused: bool)
    ensures
        ({
            let (e1, cmd1) = spec_pause(e, sink_paused);
            let (e2, cmd2) = spec_pause(e1, sink_paused || cmd1);
            &&& e2 == e1
            &&& !cmd2
            &&& cmd1 ==> e1.is_paused
        }),
{
}

/// The gain depends on nothing but the percentage of the most recent
/// call, so setting the volume to zero and back to one hundred restores
/// full gain: one hundred percent maps to full gain (ten thousand
/// ten-thousandths) and fifty percent to a quarter of it.
pub proof fn lemma_volume_round_trip()
    ensures
        spec_volume_gain(0) == 0,
        spec_volume_gain(100) == 10000,
        spec_volume_gain(50) == 2500,
{
}

/// No periodic progress report is emitted while a seek is in flight:
/// with the seek flag set, a reporter tick on a non-empty sink stays
/// silent and changes nothing, so a stale position read mid-seek never
/// reaches the observer.
pub proof fn lemma_no_emission_while_seeking(e: Engine, position_ms: u64)
    requires
        e.is_seeking,
    ensures
        ({
            let (e1, step) = spec_reporter_step(e, false, position_ms);
            step is Skip && e1 == e
        }),
{
}

/// The reporter stops exactly when the sink drains: `Done` is returned
/// if and only if the sink was observed empty, so a loop that emits one
/// completion event on `Done` and then stops emits it exactly once per
/// track.  On that exit the pause flag is cleared and a state query
/// reports not playing and empty.
pub proof fn lemma_reporter_done_iff_empty(e: Engine, sink_empty: bool, position_ms: u64)
    ensures
        ({
            let (e1, step) = spec_reporter_step(e, sink_empty, position_ms);
            &&& (step is Done <==> sink_empty)
            &&& sink_empty ==> !e1.is_paused
            &&& sink_empty ==> spec_query(e1, sink_empty) == (PlaybackQuery {
                is_playing: false,
                is_empty: true,
            })
        }),
{
}

} // verus!
