//! The external-decoder engine: fades, token cancellation, the logical
//! play state, and device rebinding.

use playback_core::ffmpeg::{FFmpegEngine, FadeKind};
use playback_core::{PlayerError, VOL_SCALE};

fn loaded_engine() -> FFmpegEngine {
    let mut e = FFmpegEngine::new();
    let out = e.load(vec![500; 88200], true).unwrap();
    assert_eq!(out.duration_ms, 1000);
    e
}

#[test]
fn pipe_load_reports_duration_and_starts_fading_in() {
    let mut e = FFmpegEngine::new();
    let out = e.load(vec![500; 88200], true).unwrap();
    assert_eq!(out.duration_ms, 1000);
    assert!(e.is_playing);
    assert!(!e.sink.paused);
    assert_eq!(e.sink.volume, 0);
    assert_eq!(e.sink.queue.len(), 1);
    assert_eq!(e.sink.queue[0].start_ms, 0);
    let fade = out.fade.unwrap();
    assert_eq!(fade.steps, 10);
    assert!(matches!(fade.kind, FadeKind::In { target: 1000 }));
}

#[test]
fn pipe_load_of_empty_output_is_an_error() {
    let mut e = FFmpegEngine::new();
    assert_eq!(e.load(Vec::new(), true).unwrap_err(), PlayerError::EmptyStream);
}

#[test]
fn pipe_load_without_a_sink_is_a_device_error() {
    let mut e = FFmpegEngine::new();
    assert_eq!(e.load(vec![1; 10], false).unwrap_err(), PlayerError::DeviceError);
    // The samples were already adopted; only the sink replacement failed.
    assert!(e.current_samples.is_some());
}

#[test]
fn fade_out_run_to_completion_pauses_the_sink() {
    let mut e = loaded_engine();
    e.set_volume(800);
    let run = e.start_fade_out_pause(150);
    assert_eq!(run.steps, 10);
    let mut i: u64 = 0;
    while i < run.steps {
        assert!(e.fade_step(&run, i));
        i += 1;
    }
    assert!(!e.sink.paused);
    e.fade_out_finish(&run);
    assert!(e.sink.paused);
}

#[test]
fn fade_volume_ramps_monotonically_down() {
    let mut e = loaded_engine();
    e.set_volume(1000);
    let run = e.start_fade_out_pause(150);
    let mut last: u32 = e.sink.volume;
    let mut i: u64 = 0;
    while i < run.steps {
        assert!(e.fade_step(&run, i));
        assert!(e.sink.volume <= last || i == 0);
        last = e.sink.volume;
        i += 1;
    }
}

#[test]
fn superseded_fade_out_never_pauses_and_new_fade_in_wins() {
    let mut e = loaded_engine();
    let out_run = e.start_fade_out_pause(300);
    // A new fade-in starts before the fade-out completed: its token
    // supersedes the fade-out's.
    let in_run = e.start_fade_in(150).unwrap();
    assert!(!e.fade_step(&out_run, 3));
    e.fade_out_finish(&out_run);
    assert!(!e.sink.paused);
    let mut i: u64 = 1;
    while i <= in_run.steps {
        assert!(e.fade_step(&in_run, i));
        i += 1;
    }
    e.fade_in_finish(&in_run);
    assert_eq!(e.sink.volume, VOL_SCALE);
    assert!(!e.sink.paused);
}

#[test]
fn volume_while_paused_waits_for_the_next_play() {
    let mut e = loaded_engine();
    let _ = e.pause();
    assert!(!e.is_playing);
    let audible_before = e.sink.volume;
    e.set_volume(700);
    // Nothing audible changed; only the stored target moved.
    assert_eq!(e.sink.volume, audible_before);
    assert_eq!(e.target_volume, 700);
    // The next play fades in to exactly the stored level.
    let run = e.play().unwrap();
    assert!(e.is_playing);
    let mut i: u64 = 1;
    while i <= run.steps {
        assert!(e.fade_step(&run, i));
        i += 1;
    }
    e.fade_in_finish(&run);
    assert_eq!(e.sink.volume, 700);
    assert!(!e.sink.paused);
}

#[test]
fn volume_while_playing_applies_immediately() {
    let mut e = loaded_engine();
    let run = e.play().unwrap();
    e.fade_in_finish(&run);
    e.set_volume(300);
    assert_eq!(e.sink.volume, 300);
}

#[test]
fn seek_while_logically_paused_forces_a_paused_sink() {
    let mut e = loaded_engine();
    let _ = e.pause();
    e.set_volume(600);
    let run = e.seek(2000);
    assert!(run.is_none());
    assert_eq!(e.last_seek_pos_ms, 2000);
    assert!(e.sink.paused);
    assert_eq!(e.sink.volume, 600);
    assert_eq!(e.sink.queue.len(), 1);
    assert_eq!(e.sink.queue[0].start_ms, 2000);
}

#[test]
fn seek_while_playing_requeues_and_fades_back_in() {
    let mut e = loaded_engine();
    let run = e.seek(3000).unwrap();
    assert_eq!(e.last_seek_pos_ms, 3000);
    assert_eq!(e.sink.queue.len(), 1);
    assert_eq!(e.sink.queue[0].start_ms, 3000);
    assert!(!e.sink.paused);
    assert!(matches!(run.kind, FadeKind::In { target: 1000 }));
}

#[test]
fn device_switch_preserves_position_and_logical_state() {
    let mut e = loaded_engine();
    let _ = e.seek(5000);
    e.set_volume(450);
    assert!(e.is_playing);
    e.update_output_stream(true);
    assert_eq!(e.last_seek_pos_ms, 5000);
    assert!(e.is_playing);
    assert!(!e.sink.paused);
    assert_eq!(e.sink.volume, 450);
    assert_eq!(e.sink.queue.len(), 1);
    assert_eq!(e.sink.queue[0].start_ms, 5000);
}

#[test]
fn device_switch_while_paused_stays_paused() {
    let mut e = loaded_engine();
    let _ = e.seek(1234);
    let _ = e.pause();
    e.update_output_stream(true);
    assert_eq!(e.last_seek_pos_ms, 1234);
    assert!(!e.is_playing);
    assert!(e.sink.paused);
    assert_eq!(e.sink.queue[0].start_ms, 1234);
}

#[test]
fn device_switch_kills_running_fades() {
    let mut e = loaded_engine();
    let run = e.start_fade_out_pause(300);
    e.update_output_stream(true);
    assert!(!e.fade_step(&run, 0));
    e.fade_out_finish(&run);
    assert!(!e.sink.paused);
}

#[test]
fn fade_in_on_an_empty_sink_does_nothing() {
    let mut e = FFmpegEngine::new();
    assert!(e.start_fade_in(150).is_none());
}

#[test]
fn fade_in_toward_a_silent_target_stays_silent() {
    let mut e = loaded_engine();
    e.set_volume(0);
    // There is audio queued, so the sink is pinned to silence and plays,
    // but no ramp runs: there is nothing to ramp toward.
    assert!(e.start_fade_in(150).is_none());
    assert_eq!(e.sink.volume, 0);
    assert!(!e.sink.paused);
}

#[test]
fn device_switch_failure_clears_the_old_sink() {
    let mut e = loaded_engine();
    assert_eq!(e.sink.queue.len(), 1);
    // No sink could be built against the new device: the old sink's
    // queued audio is cleared rather than left half-replaced.
    e.update_output_stream(false);
    assert_eq!(e.sink.queue.len(), 0);
    assert!(e.sink.paused);
}
