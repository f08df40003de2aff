//! The external-decoder engine: the whole track arrives as raw samples from
//! an external decoder process, playback position is tracked explicitly,
//! and every play/pause transition is a cancellable background volume ramp.
//!
//! The logical play state is decoupled from the sink's physical flag: the
//! sink may still be mid-fade-out while the user has already paused. Every
//! fade captures a fresh token; any state change that should interrupt a
//! running fade bumps the counter, and a fade whose token is no longer
//! current exits without side effects.

use vstd::prelude::*;
use vstd::arithmetic::div_mod::{
    lemma_div_is_ordered, lemma_div_multiples_vanish, lemma_div_pos_is_pos,
};
use vstd::arithmetic::mul::lemma_mul_nonnegative;

use crate::galaxy::cache_view;
use crate::sink::SinkState;
use crate::{PlayerError, FADE_STEP_MS, VOL_SCALE};

verus! {

/// A source as this engine queues it: the decoded track, skipped to a
/// position.
#[derive(Clone, Copy, Debug, PartialEq, Eq, Structural)]
pub struct PipeSource {
    /// Where within the track the source starts, in milliseconds.
    pub start_ms: u64,
}

/// What kind of ramp a fade runs, with the level it was started against.
#[derive(Clone, Copy, Debug, PartialEq, Eq, Structural)]
pub enum FadeKind {
    /// Ramp from silence up to the target volume.
    In { target: u32 },
    /// Ramp from the captured volume down, then pause the sink.
    OutPause { start: u32 },
}

/// One fade's identity and shape: the token captured at its start, and how
/// many steps of `FADE_STEP_MS` it takes.
#[derive(Clone, Copy, Debug, PartialEq, Eq, Structural)]
pub struct FadeRun {
    pub token: u64,
    pub steps: u64,
    pub kind: FadeKind,
}

impl FadeRun {
    pub open spec fn wf(self) -> bool {
        &&& self.steps >= 1
        &&& match self.kind {
            FadeKind::In { target } => target <= VOL_SCALE,
            FadeKind::OutPause { start } => start <= VOL_SCALE,
        }
    }
}

/// How many volume updates a fade of this length runs: one per step
/// interval, at least one.
pub open spec fn spec_fade_steps(duration_ms: int) -> int {
    if duration_ms / (FADE_STEP_MS as int) < 1 {
        1
    } else {
        duration_ms / (FADE_STEP_MS as int)
    }
}

/// The volume a fade-in applies at step `i` of `steps`: the target scaled
/// by the fraction of the ramp done.
pub open spec fn spec_fade_in_vol(target: int, i: int, steps: int) -> int {
    (target * i) / steps
}

/// The volume a fade-out applies at step `i` of `steps`: the captured
/// start level scaled by the fraction of the ramp left.
pub open spec fn spec_fade_out_vol(start: int, i: int, steps: int) -> int {
    (start * (steps - i)) / steps
}

/// A ramp level never leaves the range between silence and the level the
/// ramp was started against.
pub proof fn lemma_fade_vol_bounds(level: int, i: int, steps: int)
    requires
        0 <= level,
        1 <= steps,
        0 <= i <= steps,
    ensures
        0 <= (level * i) / steps <= level,
{
    lemma_mul_nonnegative(level, i);
    lemma_div_pos_is_pos(level * i, steps);
    assert(level * i <= steps * level) by (nonlinear_arith)
        requires
            0 <= level,
            0 <= i <= steps,
    ;
    lemma_div_is_ordered(level * i, steps * level, steps);
    lemma_div_multiples_vanish(level, steps);
}

/// What a load reports: the track's duration, and the fade-in run the
/// caller's worker is to drive.
#[derive(Debug)]
pub struct LoadOutcome {
    pub duration_ms: u64,
    pub fade: Option<FadeRun>,
}

/// The duration of an interleaved stereo track at 44100 Hz: samples over
/// samples-per-millisecond.
pub open spec fn spec_pipe_duration(len: int) -> int {
    (len * 1000) / 88200
}

/// The external-decoder engine.
pub struct FFmpegEngine {
    /// The live sink.
    pub sink: SinkState<PipeSource>,
    /// The decoded track, as the external decoder handed it over.
    pub current_samples: Option<Vec<i16>>,
    /// Sample rate of the decoded track.
    pub sample_rate: u32,
    /// The level the user last asked for; fades ramp toward it.
    pub target_volume: u32,
    /// Bumped by every fade start, seek, load and device switch; a running
    /// fade self-cancels once it no longer matches.
    pub fade_token: u64,
    /// The last position explicitly seeked or loaded to, in milliseconds.
    pub last_seek_pos_ms: u64,
    /// The user's last explicit intent, independent of the sink's
    /// transient physical state.
    pub is_playing: bool,
}

/// The two states agree on everything but the sink and the fade token.
pub open spec fn pipe_core_eq(a: FFmpegEngine, b: FFmpegEngine) -> bool {
    &&& cache_view(a.current_samples) == cache_view(b.current_samples)
    &&& a.sample_rate == b.sample_rate
    &&& a.target_volume == b.target_volume
    &&& a.last_seek_pos_ms == b.last_seek_pos_ms
    &&& a.is_playing == b.is_playing
}

/// The two states agree on the sink.
pub open spec fn pipe_sink_eq(a: FFmpegEngine, b: FFmpegEngine) -> bool {
    &&& a.sink.queue@ == b.sink.queue@
    &&& a.sink.paused == b.sink.paused
    &&& a.sink.volume == b.sink.volume
}

/// The two states cannot be told apart.
pub open spec fn pipe_state_eq(a: FFmpegEngine, b: FFmpegEngine) -> bool {
    &&& pipe_core_eq(a, b)
    &&& pipe_sink_eq(a, b)
    &&& a.fade_token == b.fade_token
}

/// What starting a fade-in does: the token is bumped first (cancelling any
/// running fade). With nothing queued there is nothing to fade and the sink
/// is untouched. Otherwise the sink is pinned to silence and set playing,
/// and a run is handed back unless the target itself is silence.
pub open spec fn start_fade_in_rel(
    pre: FFmpegEngine,
    post: FFmpegEngine,
    duration_ms: u64,
    run: Option<FadeRun>,
) -> bool {
    &&& post.fade_token == pre.fade_token + 1
    &&& pipe_core_eq(pre, post)
    &&& if pre.sink.queue@.len() == 0 {
        &&& run is None
        &&& pipe_sink_eq(pre, post)
    } else {
        &&& post.sink.queue@ == pre.sink.queue@
        &&& post.sink.volume == 0
        &&& !post.sink.paused
        &&& if pre.target_volume == 0 {
            run is None
        } else {
            run == Some(
                FadeRun {
                    token: (pre.fade_token + 1) as u64,
                    steps: spec_fade_steps(duration_ms as int) as u64,
                    kind: FadeKind::In { target: pre.target_volume },
                },
            )
        }
    }
}

/// What starting a fade-out does: the token is bumped, the level to ramp
/// down from is captured, and nothing is touched yet — the ramp itself
/// runs step by step.
pub open spec fn start_fade_out_rel(
    pre: FFmpegEngine,
    post: FFmpegEngine,
    duration_ms: u64,
    run: FadeRun,
) -> bool {
    &&& post.fade_token == pre.fade_token + 1
    &&& pipe_core_eq(pre, post)
    &&& pipe_sink_eq(pre, post)
    &&& run == (FadeRun {
        token: (pre.fade_token + 1) as u64,
        steps: spec_fade_steps(duration_ms as int) as u64,
        kind: FadeKind::OutPause { start: pre.sink.volume },
    })
}

/// What one fade step does: nothing at all once the token no longer
/// matches; otherwise it applies the ramp's level for step `i`.
pub open spec fn fade_step_rel(
    pre: FFmpegEngine,
    post: FFmpegEngine,
    run: FadeRun,
    i: u64,
    live: bool,
) -> bool {
    &&& pipe_core_eq(pre, post)
    &&& post.fade_token == pre.fade_token
    &&& if pre.fade_token != run.token {
        &&& !live
        &&& pipe_sink_eq(pre, post)
    } else {
        &&& live
        &&& post.sink.queue@ == pre.sink.queue@
        &&& post.sink.paused == pre.sink.paused
        &&& post.sink.volume as int == match run.kind {
            FadeKind::In { target } => spec_fade_in_vol(
                target as int,
                i as int,
                run.steps as int,
            ),
            FadeKind::OutPause { start } => spec_fade_out_vol(
                start as int,
                i as int,
                run.steps as int,
            ),
        }
    }
}

/// What completing a fade-in does: pin the sink to the exact target, if
/// the run is still current; nothing otherwise.
pub open spec fn fade_in_finish_rel(pre: FFmpegEngine, post: FFmpegEngine, run: FadeRun) -> bool {
    &&& pipe_core_eq(pre, post)
    &&& post.fade_token == pre.fade_token
    &&& if pre.fade_token != run.token {
        pipe_sink_eq(pre, post)
    } else {
        &&& post.sink.queue@ == pre.sink.queue@
        &&& post.sink.paused == pre.sink.paused
        &&& match run.kind {
            FadeKind::In { target } => post.sink.volume == target,
            FadeKind::OutPause { start: _ } => post.sink.volume == pre.sink.volume,
        }
    }
}

/// What completing a fade-out does: physically pause the sink, if the run
/// is still current; nothing otherwise. A cancelled fade-out never pauses,
/// so a stale low-volume sink is never mistaken for stopped.
pub open spec fn fade_out_finish_rel(pre: FFmpegEngine, post: FFmpegEngine, run: FadeRun) -> bool {
    &&& pipe_core_eq(pre, post)
    &&& post.fade_token == pre.fade_token
    &&& if pre.fade_token != run.token {
        pipe_sink_eq(pre, post)
    } else {
        &&& post.sink.queue@ == pre.sink.queue@
        &&& post.sink.paused
        &&& post.sink.volume == pre.sink.volume
    }
}

/// What `play` does: record the intent, then start the fade-in.
pub open spec fn play_rel(pre: FFmpegEngine, post: FFmpegEngine, run: Option<FadeRun>) -> bool {
    &&& post.is_playing
    &&& post.fade_token == pre.fade_token + 1
    &&& cache_view(post.current_samples) == cache_view(pre.current_samples)
    &&& post.sample_rate == pre.sample_rate
    &&& post.target_volume == pre.target_volume
    &&& post.last_seek_pos_ms == pre.last_seek_pos_ms
    &&& if pre.sink.queue@.len() == 0 {
        &&& run is None
        &&& pipe_sink_eq(pre, post)
    } else {
        &&& post.sink.queue@ == pre.sink.queue@
        &&& post.sink.volume == 0
        &&& !post.sink.paused
        &&& if pre.target_volume == 0 {
            run is None
        } else {
            run == Some(
                FadeRun {
                    token: (pre.fade_token + 1) as u64,
                    steps: spec_fade_steps(500) as u64,
                    kind: FadeKind::In { target: pre.target_volume },
                },
            )
        }
    }
}

/// What `set_volume` does: the stored target always moves, but the sink's
/// audible volume only follows while the logical state is playing — a
/// paused or fading-out sink is never made to jump.
pub open spec fn set_volume_rel(pre: FFmpegEngine, post: FFmpegEngine, volume: u32) -> bool {
    &&& post.target_volume == volume
    &&& post.fade_token == pre.fade_token
    &&& cache_view(post.current_samples) == cache_view(pre.current_samples)
    &&& post.sample_rate == pre.sample_rate
    &&& post.last_seek_pos_ms == pre.last_seek_pos_ms
    &&& post.is_playing == pre.is_playing
    &&& if pre.is_playing {
        &&& post.sink.queue@ == pre.sink.queue@
        &&& post.sink.paused == pre.sink.paused
        &&& post.sink.volume == volume
    } else {
        pipe_sink_eq(pre, post)
    }
}

/// What a load does. Whatever the outcome, any running fade is cancelled,
/// the logical intent becomes playing, and the old audio is discarded. An
/// empty decoder output is an error that changes nothing else; a device
/// against which no sink can be built is an error reported after the
/// samples were already adopted. On success the track is queued from the
/// start on a fresh sink, pinned to silence for the fade-in toward the
/// stored target, and the duration is computed from the sample count.
pub open spec fn pipe_load_rel(
    pre: FFmpegEngine,
    post: FFmpegEngine,
    pcm: Seq<i16>,
    new_sink_ok: bool,
    r: Result<LoadOutcome, PlayerError>,
) -> bool {
    &&& post.is_playing
    &&& post.target_volume == pre.target_volume
    &&& if pcm.len() == 0 {
        &&& r == Err::<LoadOutcome, PlayerError>(PlayerError::EmptyStream)
        &&& post.fade_token == pre.fade_token + 1
        &&& cache_view(post.current_samples) == cache_view(pre.current_samples)
        &&& post.last_seek_pos_ms == pre.last_seek_pos_ms
        &&& post.sample_rate == pre.sample_rate
        &&& post.sink.queue@.len() == 0
        &&& post.sink.paused == pre.sink.paused
        &&& post.sink.volume == pre.sink.volume
    } else if !new_sink_ok {
        &&& r == Err::<LoadOutcome, PlayerError>(PlayerError::DeviceError)
        &&& post.fade_token == pre.fade_token + 1
        &&& cache_view(post.current_samples) == Some(pcm)
        &&& post.last_seek_pos_ms == 0
        &&& post.sample_rate == 44100
        &&& post.sink.queue@.len() == 0
        &&& post.sink.paused == pre.sink.paused
        &&& post.sink.volume == pre.sink.volume
    } else {
        &&& post.fade_token == pre.fade_token + 2
        &&& cache_view(post.current_samples) == Some(pcm)
        &&& post.last_seek_pos_ms == 0
        &&& post.sample_rate == 44100
        &&& post.sink.queue@.len() == 1
        &&& post.sink.queue@[0] == (PipeSource { start_ms: 0 })
        &&& post.sink.volume == 0
        &&& !post.sink.paused
        &&& r matches Ok(out) ==> {
            &&& out.duration_ms as int == spec_pipe_duration(pcm.len() as int)
            &&& out.fade == (if pre.target_volume == 0 {
                None
            } else {
                Some(
                    FadeRun {
                        token: (pre.fade_token + 2) as u64,
                        steps: spec_fade_steps(150) as u64,
                        kind: FadeKind::In { target: pre.target_volume },
                    },
                )
            })
        }
        &&& r is Ok
    }
}

/// What a seek does: the position is recorded and any running fade is
/// killed at once, before anything touches the sink. With no track loaded
/// nothing else happens. Otherwise the track is requeued from the position;
/// the logical intent read at seek time decides between a fade-in back to
/// the target and a forced pause at the stored target volume.
pub open spec fn pipe_seek_rel(
    pre: FFmpegEngine,
    post: FFmpegEngine,
    time_ms: u64,
    run: Option<FadeRun>,
) -> bool {
    &&& post.last_seek_pos_ms == time_ms
    &&& post.is_playing == pre.is_playing
    &&& post.target_volume == pre.target_volume
    &&& post.sample_rate == pre.sample_rate
    &&& cache_view(post.current_samples) == cache_view(pre.current_samples)
    &&& match cache_view(pre.current_samples) {
        None => {
            &&& post.fade_token == pre.fade_token + 1
            &&& run is None
            &&& pipe_sink_eq(pre, post)
        },
        Some(_) => {
            if pre.is_playing {
                &&& post.fade_token == pre.fade_token + 2
                &&& post.sink.queue@.len() == 1
                &&& post.sink.queue@[0] == (PipeSource { start_ms: time_ms })
                &&& post.sink.volume == 0
                &&& !post.sink.paused
                &&& run == (if pre.target_volume == 0 {
                    None
                } else {
                    Some(
                        FadeRun {
                            token: (pre.fade_token + 2) as u64,
                            steps: spec_fade_steps(50) as u64,
                            kind: FadeKind::In { target: pre.target_volume },
                        },
                    )
                })
            } else {
                &&& post.fade_token == pre.fade_token + 1
                &&& run is None
                &&& post.sink.queue@.len() == 1
                &&& post.sink.queue@[0] == (PipeSource { start_ms: time_ms })
                &&& post.sink.paused
                &&& post.sink.volume == pre.target_volume
            }
        },
    }
}

/// What rebinding to a new device does: any running fade against the old
/// sink is killed; where a sink could be built, it is refilled from the
/// last known position, the stored volume is restored, and the physical
/// state follows the logical intent. Position, intent, volume and track
/// all survive the switch. Where no sink could be built, the previous
/// sink's queued audio is cleared rather than left in a half-replaced
/// state.
pub open spec fn pipe_rebind_rel(pre: FFmpegEngine, post: FFmpegEngine, new_sink_ok: bool) -> bool {
    &&& post.fade_token == pre.fade_token + 1
    &&& pipe_core_eq(pre, post)
    &&& if !new_sink_ok {
        &&& post.sink.queue@.len() == 0
        &&& post.sink.paused
        &&& post.sink.volume == pre.sink.volume
    } else {
        &&& post.sink.volume == pre.target_volume
        &&& post.sink.paused == !pre.is_playing
        &&& match cache_view(pre.current_samples) {
            Some(_) => post.sink.queue@.len() == 1 && post.sink.queue@[0] == (PipeSource {
                start_ms: pre.last_seek_pos_ms,
            }),
            None => post.sink.queue@.len() == 0,
        }
    }
}

impl FFmpegEngine {
    pub open spec fn wf(self) -> bool {
        &&& self.sink.wf()
        &&& self.target_volume <= VOL_SCALE
        &&& self.sample_rate >= 1
    }

    /// A fresh engine against a just-opened device: an empty sink pinned
    /// to silence, full target volume, nothing loaded, logically paused.
    pub fn new() -> (e: FFmpegEngine)
        ensures
            e.wf(),
            e.sink.queue@.len() == 0,
            !e.sink.paused,
            e.sink.volume == 0,
            e.current_samples is None,
            e.sample_rate == 44100,
            e.target_volume == VOL_SCALE,
            e.fade_token == 0,
            e.last_seek_pos_ms == 0,
            !e.is_playing,
    {
        let mut sink: SinkState<PipeSource> = SinkState::with_volume(VOL_SCALE);
        sink.set_volume(0);
        FFmpegEngine {
            sink,
            current_samples: None,
            sample_rate: 44100,
            target_volume: VOL_SCALE,
            fade_token: 0,
            last_seek_pos_ms: 0,
            is_playing: false,
        }
    }

    /// Start a fade from silence toward the target volume. Returns the run
    /// whose steps the caller's background worker is to drive, or nothing
    /// where there is nothing to fade.
    pub fn start_fade_in(&mut self, duration_ms: u64) -> (run: Option<FadeRun>)
        requires
            old(self).wf(),
            old(self).fade_token < u64::MAX,
        ensures
            final(self).wf(),
            start_fade_in_rel(*old(self), *final(self), duration_ms, run),
            run matches Some(r) ==> r.wf() && r.token == final(self).fade_token,
    {
        self.fade_token = self.fade_token + 1;
        if self.sink.empty() {
            return None;
        }
        self.sink.set_volume(0);
        self.sink.play();
        if self.target_volume == 0 {
            return None;
        }
        Some(
            FadeRun {
                token: self.fade_token,
                steps: Self::fade_steps(duration_ms),
                kind: FadeKind::In { target: self.target_volume },
            },
        )
    }

    /// Start a fade from the sink's current level down to a pause. The
    /// ramp itself is driven step by step by the caller's worker.
    pub fn start_fade_out_pause(&mut self, duration_ms: u64) -> (run: FadeRun)
        requires
            old(self).wf(),
            old(self).fade_token < u64::MAX,
        ensures
            final(self).wf(),
            start_fade_out_rel(*old(self), *final(self), duration_ms, run),
            run.wf(),
            run.token == final(self).fade_token,
    {
        self.fade_token = self.fade_token + 1;
        FadeRun {
            token: self.fade_token,
            steps: Self::fade_steps(duration_ms),
            kind: FadeKind::OutPause { start: self.sink.volume },
        }
    }

    /// One step of a running fade: apply the ramp's level for step `i`,
    /// unless a newer fade, seek, load or device switch has taken the
    /// token — then do nothing and report the run dead.
    pub fn fade_step(&mut self, run: &FadeRun, i: u64) -> (live: bool)
        requires
            old(self).wf(),
            run.wf(),
            i <= run.steps,
        ensures
            final(self).wf(),
            fade_step_rel(*old(self), *final(self), *run, i, live),
    {
        if self.fade_token != run.token {
            return false;
        }
        let level: u32 = match run.kind {
            FadeKind::In { target } => target,
            FadeKind::OutPause { start } => start,
        };
        let frac: u64 = match run.kind {
            FadeKind::In { target: _ } => i,
            FadeKind::OutPause { start: _ } => run.steps - i,
        };
        proof {
            lemma_fade_vol_bounds(level as int, frac as int, run.steps as int);
            vstd::arithmetic::mul::lemma_mul_upper_bound(
                level as int,
                VOL_SCALE as int,
                frac as int,
                u64::MAX as int,
            );
        }
        let vol: u32 = ((level as u128 * frac as u128) / run.steps as u128) as u32;
        self.sink.set_volume(vol);
        true
    }

    /// Complete a fade-in: pin the sink to the exact target, if the run is
    /// still current.
    pub fn fade_in_finish(&mut self, run: &FadeRun)
        requires
            old(self).wf(),
            run.wf(),
            run.kind matches FadeKind::In { .. },
        ensures
            final(self).wf(),
            fade_in_finish_rel(*old(self), *final(self), *run),
    {
        if self.fade_token == run.token {
            match run.kind {
                FadeKind::In { target } => self.sink.set_volume(target),
                FadeKind::OutPause { start: _ } => {},
            }
        }
    }

    /// Complete a fade-out: physically pause the sink, if the run is still
    /// current. This is how a pause normally comes to rest physically;
    /// a seek under a paused intent and a failed device rebind also pause,
    /// but a cancelled fade-out never does, so a stale low-volume sink is
    /// never mistaken for stopped.
    pub fn fade_out_finish(&mut self, run: &FadeRun)
        requires
            old(self).wf(),
            run.kind matches FadeKind::OutPause { .. },
        ensures
            final(self).wf(),
            fade_out_finish_rel(*old(self), *final(self), *run),
    {
        if self.fade_token == run.token {
            self.sink.pause();
        }
    }

    /// Record the intent to play and start the fade-in toward the target.
    pub fn play(&mut self) -> (run: Option<FadeRun>)
        requires
            old(self).wf(),
            old(self).fade_token < u64::MAX,
        ensures
            final(self).wf(),
            play_rel(*old(self), *final(self), run),
            run matches Some(r) ==> r.wf() && r.token == final(self).fade_token,
    {
        self.is_playing = true;
        self.start_fade_in(500)
    }

    /// Record the intent to pause and start the fade-out; the sink pauses
    /// when the ramp completes uncancelled.
    pub fn pause(&mut self) -> (run: FadeRun)
        requires
            old(self).wf(),
            old(self).fade_token < u64::MAX,
        ensures
            final(self).wf(),
            !final(self).is_playing,
            final(self).fade_token == old(self).fade_token + 1,
            pipe_sink_eq(*old(self), *final(self)),
            cache_view(final(self).current_samples) == cache_view(old(self).current_samples),
            final(self).sample_rate == old(self).sample_rate,
            final(self).target_volume == old(self).target_volume,
            final(self).last_seek_pos_ms == old(self).last_seek_pos_ms,
            run.wf(),
            run.token == final(self).fade_token,
            run == (FadeRun {
                token: (old(self).fade_token + 1) as u64,
                steps: spec_fade_steps(500) as u64,
                kind: FadeKind::OutPause { start: old(self).sink.volume },
            }),
    {
        self.is_playing = false;
        self.start_fade_out_pause(500)
    }

    /// Store the target volume; apply it to the sink only while the
    /// logical state is playing.
    pub fn set_volume(&mut self, volume: u32)
        requires
            old(self).wf(),
            volume <= VOL_SCALE,
        ensures
            final(self).wf(),
            set_volume_rel(*old(self), *final(self), volume),
    {
        self.target_volume = volume;
        if self.is_playing {
            self.sink.set_volume(volume);
        }
    }

    /// Load a track from the raw samples the external decoder produced
    /// (interleaved stereo at 44100 Hz): supersede any running fade, stop
    /// the old audio, adopt the samples, and start playback with a short
    /// fade-in. The caller runs the decoder process and says whether a
    /// fresh sink could be built against the device.
    pub fn load(&mut self, pcm: Vec<i16>, new_sink_ok: bool) -> (r: Result<
        LoadOutcome,
        PlayerError,
    >)
        requires
            old(self).wf(),
            old(self).fade_token < u64::MAX - 1,
        ensures
            final(self).wf(),
            pipe_load_rel(*old(self), *final(self), pcm@, new_sink_ok, r),
    {
        self.fade_token = self.fade_token + 1;
        self.is_playing = true;
        self.sink.stop();
        if pcm.len() == 0 {
            return Err(PlayerError::EmptyStream);
        }
        let len: usize = pcm.len();
        self.current_samples = Some(pcm);
        self.sample_rate = 44100;
        self.last_seek_pos_ms = 0;
        let duration_ms: u64 = Self::pipe_duration_ms(len);
        if !new_sink_ok {
            return Err(PlayerError::DeviceError);
        }
        self.sink = SinkState::with_volume(VOL_SCALE);
        self.sink.append(PipeSource { start_ms: 0 });
        let fade = self.start_fade_in(150);
        Ok(LoadOutcome { duration_ms, fade })
    }

    /// Seek to a position: record it, kill any running fade at once, and
    /// requeue the track from there. The logical intent read at seek time —
    /// not the sink's transient physical state — decides whether playback
    /// resumes with a fade-in or the sink is forced to a pause at the
    /// stored target volume.
    pub fn seek(&mut self, time_ms: u64) -> (run: Option<FadeRun>)
        requires
            old(self).wf(),
            old(self).fade_token < u64::MAX - 1,
        ensures
            final(self).wf(),
            pipe_seek_rel(*old(self), *final(self), time_ms, run),
            run matches Some(r) ==> r.wf() && r.token == final(self).fade_token,
    {
        self.last_seek_pos_ms = time_ms;
        self.fade_token = self.fade_token + 1;
        let should_play: bool = self.is_playing;
        let has_track: bool = match &self.current_samples {
            Some(_) => true,
            None => false,
        };
        if !has_track {
            return None;
        }
        self.sink.stop();
        self.sink.append(PipeSource { start_ms: time_ms });
        if should_play {
            self.start_fade_in(50)
        } else {
            self.sink.pause();
            self.sink.set_volume(self.target_volume);
            None
        }
    }

    /// Rebind to a new device connection: kill any running fade against
    /// the old sink, then — if a sink could be built against the new
    /// device — refill it from the last known position and restore the
    /// stored volume and the physical state the logical intent calls for.
    /// Position, intent and volume all survive the switch.
    pub fn update_output_stream(&mut self, new_sink_ok: bool)
        requires
            old(self).wf(),
            old(self).fade_token < u64::MAX,
        ensures
            final(self).wf(),
            pipe_rebind_rel(*old(self), *final(self), new_sink_ok),
    {
        self.fade_token = self.fade_token + 1;
        if !new_sink_ok {
            self.sink.clear();
            return;
        }
        self.sink = SinkState::with_volume(self.target_volume);
        let has_track: bool = match &self.current_samples {
            Some(_) => true,
            None => false,
        };
        if has_track {
            self.sink.append(PipeSource { start_ms: self.last_seek_pos_ms });
        }
        if self.is_playing {
            self.sink.play();
        } else {
            self.sink.pause();
        }
    }

    /// The duration of an interleaved stereo track at 44100 Hz, in
    /// milliseconds.
    fn pipe_duration_ms(len: usize) -> (d: u64)
        ensures
            d as int == spec_pipe_duration(len as int),
    {
        let total: u128 = (len as u128) * 1000 / 88200;
        proof {
            lemma_div_is_ordered(len as int * 1000, len as int * 88200, 88200);
            vstd::arithmetic::div_mod::lemma_div_multiples_vanish(len as int, 88200);
            assert(len as int * 88200 == 88200 * (len as int)) by (nonlinear_arith);
        }
        total as u64
    }

    /// How many volume updates a fade of this length runs.
    fn fade_steps(duration_ms: u64) -> (s: u64)
        ensures
            s as int == spec_fade_steps(duration_ms as int),
            s >= 1,
    {
        let s: u64 = duration_ms / FADE_STEP_MS;
        if s == 0 {
            1
        } else {
            s
        }
    }
}

/// A fade-out that runs to completion uncancelled — however many steps it
/// took — ends with the sink physically paused, not merely quiet.
pub proof fn lemma_fade_out_completes_paused(
    s0: FFmpegEngine,
    s1: FFmpegEngine,
    s2: FFmpegEngine,
    s3: FFmpegEngine,
    duration_ms: u64,
    run: FadeRun,
    i: u64,
    live: bool,
)
    requires
        s0.fade_token < u64::MAX,
        start_fade_out_rel(s0, s1, duration_ms, run),
        fade_step_rel(s1, s2, run, i, live),
        fade_out_finish_rel(s2, s3, run),
    ensures
        live,
        s3.sink.paused,
{
}

/// Token cancellation: once a newer fade-in has started, the superseded
/// fade-out's remaining steps and its completion step change nothing — in
/// particular its completion cannot pause the sink the new fade-in has set
/// playing — and the new fade-in's own completion takes the sink to the
/// full target volume, still playing.
pub proof fn lemma_superseded_fade_out_fires_nothing(
    s0: FFmpegEngine,
    s1: FFmpegEngine,
    s2: FFmpegEngine,
    s3: FFmpegEngine,
    s4: FFmpegEngine,
    s5: FFmpegEngine,
    d_out: u64,
    d_in: u64,
    out_run: FadeRun,
    in_run: Option<FadeRun>,
    ir: FadeRun,
    i: u64,
    live: bool,
)
    requires
        s0.fade_token < u64::MAX - 1,
        s0.sink.queue@.len() > 0,
        s0.target_volume > 0,
        start_fade_out_rel(s0, s1, d_out, out_run),
        start_fade_in_rel(s1, s2, d_in, in_run),
        fade_step_rel(s2, s3, out_run, i, live),
        fade_out_finish_rel(s3, s4, out_run),
        in_run == Some(ir),
        fade_in_finish_rel(s4, s5, ir),
    ensures
        !live,
        pipe_state_eq(s2, s3),
        pipe_state_eq(s3, s4),
        !s4.sink.paused,
        s5.sink.volume == s0.target_volume,
        !s5.sink.paused,
{
}

/// Setting the volume while the logical state is paused changes nothing
/// audible at once: the sink keeps its volume. The stored target moves,
/// and the next play's fade-in, run to completion, lands the sink at
/// exactly that level, playing. The law needs something queued and a
/// non-silent target: with an empty sink or a target of zero no ramp
/// starts at all, and the sink simply stays where it is.
pub proof fn lemma_paused_volume_applies_on_play(
    s0: FFmpegEngine,
    s1: FFmpegEngine,
    s2: FFmpegEngine,
    s3: FFmpegEngine,
    volume: u32,
    run: Option<FadeRun>,
    ir: FadeRun,
)
    requires
        s0.fade_token < u64::MAX,
        !s0.is_playing,
        s0.sink.queue@.len() > 0,
        volume > 0,
        set_volume_rel(s0, s1, volume),
        play_rel(s1, s2, run),
        run == Some(ir),
        fade_in_finish_rel(s2, s3, ir),
    ensures
        s1.sink.volume == s0.sink.volume,
        s1.target_volume == volume,
        s3.sink.volume == volume,
        !s3.sink.paused,
{
}

} // verus!
