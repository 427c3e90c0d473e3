//! Tests of the playback engine's controller and reporter decisions.

use audio_engine::Engine;
use audio_engine::PlayAction;
use audio_engine::PlaybackError;
use audio_engine::ReporterStep;
use audio_engine::volume_gain_permyriad;

#[test]
fn new_engine_is_idle() {
    let e = Engine::new();
    assert!(!e.is_paused);
    assert!(!e.is_seeking);
    assert_eq!(e.duration_ms, 0);
}

#[test]
fn play_on_empty_sink_starts_a_track() {
    let e = Engine::new();
    assert_eq!(e.play_request(true), Ok(PlayAction::StartTrack));
}

#[test]
fn play_while_paused_resumes() {
    let mut e = Engine::new();
    e.load_track(5000);
    let must_pause = e.pause(false);
    assert!(must_pause);
    assert_eq!(e.play_request(false), Ok(PlayAction::Resume));
    e.resume();
    assert!(!e.is_paused);
    assert_eq!(e.duration_ms, 5000);
}

#[test]
fn play_twice_while_playing_is_rejected_both_times() {
    let mut e = Engine::new();
    e.load_track(5000);
    // The sink is non-empty and nothing is paused: both requests fail,
    // neither asks for a track load, so no second reporter is spawned.
    let first = e.play_request(false);
    let second = e.play_request(false);
    assert_eq!(first, Err(PlaybackError::AlreadyPlaying));
    assert_eq!(second, Err(PlaybackError::AlreadyPlaying));
    assert!(!e.is_paused);
    assert_eq!(e.duration_ms, 5000);
}

#[test]
fn pause_is_idempotent() {
    let mut e = Engine::new();
    e.load_track(5000);
    let first = e.pause(false);
    assert!(first);
    assert!(e.is_paused);
    // The sink now reports paused: the second call changes nothing and
    // asks for no further action.
    let second = e.pause(true);
    assert!(!second);
    assert!(e.is_paused);
    assert_eq!(e.duration_ms, 5000);
}

#[test]
fn volume_gain_round_trip() {
    assert_eq!(volume_gain_permyriad(0), 0);
    assert_eq!(volume_gain_permyriad(100), 10000);
    // Setting the volume to zero and back to one hundred restores full
    // gain: the gain depends only on the most recent percentage.
    assert_eq!(volume_gain_permyriad(50), 2500);
    assert_eq!(volume_gain_permyriad(25), 625);
}

#[test]
fn volume_gain_clamps_out_of_range() {
    assert_eq!(volume_gain_permyriad(101), 10000);
    assert_eq!(volume_gain_permyriad(1000), 10000);
}

#[test]
fn seek_within_bounds_reports_settled_position() {
    let mut e = Engine::new();
    e.load_track(10000);
    e.begin_seek();
    assert!(e.is_seeking);
    let r = e.finish_seek(true, 5000);
    let ev = r.expect("a valid seek yields the corrective event");
    assert_eq!(ev.current_position_ms, 5000);
    assert_eq!(ev.duration_ms, 10000);
    assert!(!e.is_seeking);
    // The seek left the playback query untouched.
    let q = e.query_state(false);
    assert!(q.is_playing);
    assert!(!q.is_empty);
}

#[test]
fn seek_beyond_bounds_is_rejected_and_clears_the_flag() {
    // A 10.0 second track; the backend rejects a seek to 12.0 seconds.
    let mut e = Engine::new();
    e.load_track(10000);
    e.begin_seek();
    let r = e.finish_seek(false, 0);
    assert_eq!(r, Err(PlaybackError::Seek));
    // The flag is cleared on the failure path too, so the reporter is
    // not left permanently suppressed, and no corrective event exists.
    assert!(!e.is_seeking);
    let step = e.reporter_step(false, 4000);
    assert_eq!(
        step,
        ReporterStep::Emit(audio_engine::ProgressEvent { current_position_ms: 4000, duration_ms: 10000 })
    );
}

#[test]
fn settled_position_is_clamped_to_the_duration() {
    let mut e = Engine::new();
    e.load_track(10000);
    e.begin_seek();
    let ev = e.finish_seek(true, 12000).expect("accepted seek");
    assert_eq!(ev.current_position_ms, 10000);
    assert_eq!(ev.duration_ms, 10000);
}

#[test]
fn progress_reports_never_exceed_the_duration() {
    let mut e = Engine::new();
    e.load_track(3000);
    for reading in [0_u64, 1500, 2999, 3000, 3001, 9999] {
        match e.reporter_step(false, reading) {
            ReporterStep::Emit(ev) => {
                assert!(ev.current_position_ms <= ev.duration_ms);
                assert_eq!(ev.duration_ms, 3000);
            }
            other => panic!("expected an emission, got {:?}", other),
        }
    }
}

#[test]
fn reporter_is_silent_while_paused_or_seeking() {
    let mut e = Engine::new();
    e.load_track(3000);
    e.pause(false);
    assert_eq!(e.reporter_step(false, 1000), ReporterStep::Skip);
    e.resume();
    e.begin_seek();
    assert_eq!(e.reporter_step(false, 1000), ReporterStep::Skip);
    let _ = e.finish_seek(true, 1000);
    assert!(matches!(e.reporter_step(false, 1000), ReporterStep::Emit(_)));
}

#[test]
fn track_completion_emits_one_done_and_leaves_the_engine_idle() {
    // A 3.0 second track plays to its natural end; polling past the end
    // observes the sink empty exactly once before the loop stops.
    let mut e = Engine::new();
    e.load_track(3000);
    let readings = [
        (false, 0_u64),
        (false, 1000),
        (false, 2000),
        (false, 3000),
        (true, 3500),
        (true, 3500),
    ];
    let mut progress_events = 0;
    let mut done_events = 0;
    for (empty, pos) in readings {
        match e.reporter_step(empty, pos) {
            ReporterStep::Emit(_) => progress_events += 1,
            ReporterStep::Skip => {}
            ReporterStep::Done => {
                done_events += 1;
                break;
            }
        }
    }
    assert_eq!(progress_events, 4);
    assert_eq!(done_events, 1);
    let q = e.query_state(true);
    assert!(!q.is_playing);
    assert!(q.is_empty);
    assert!(!e.is_paused);
}

#[test]
fn reporter_clears_the_pause_flag_on_completion() {
    let mut e = Engine::new();
    e.load_track(3000);
    e.pause(false);
    assert!(e.is_paused);
    assert_eq!(e.reporter_step(true, 0), ReporterStep::Done);
    assert!(!e.is_paused);
}

#[test]
fn query_state_derives_playing_from_sink_and_flag() {
    let mut e = Engine::new();
    let q = e.query_state(true);
    assert!(!q.is_playing);
    assert!(q.is_empty);
    e.load_track(5000);
    let q = e.query_state(false);
    assert!(q.is_playing);
    assert!(!q.is_empty);
    e.pause(false);
    let q = e.query_state(false);
    assert!(!q.is_playing);
    assert!(!q.is_empty);
}

#[test]
fn error_messages_name_the_failure() {
    assert_eq!(PlaybackError::FileOpen.message(), "failed to open audio file");
    assert_eq!(PlaybackError::Decode.message(), "failed to decode audio file");
    assert_eq!(PlaybackError::AlreadyPlaying.message(), "sink is not empty");
    assert_eq!(PlaybackError::Seek.message(), "seek rejected by the audio backend");
    assert_eq!(PlaybackError::LockAcquisition.message(), "failed to acquire sink lock");
}
