//! The engine/device manager: owns the active decode backend, switches
//! backends through a factory keyed by an identifier string, and resolves
//! device switches by name.
//!
//! No state is carried across a backend switch: the requested backend is
//! constructed fresh, and an unavailable backend fails the switch rather
//! than partially applying it. Opening devices and enumerating their names
//! is the surrounding application's work; the choice of which device a
//! name means, and what the engines do on a rebind, is decided here.

use vstd::prelude::*;

use crate::ffmpeg::{
    pipe_load_rel, pipe_rebind_rel, pipe_seek_rel, pipe_sink_eq, pipe_state_eq, play_rel,
    set_volume_rel, spec_fade_steps, FadeKind, FadeRun, FFmpegEngine, LoadOutcome,
};
use crate::decode::{DecodeSeekResult, TrackInfo};
use crate::galaxy::{
    galaxy_non_sink_eq, galaxy_rebind_rel, galaxy_sink_eq, galaxy_state_eq, load_rel, seek_rel,
    GalaxyEngine, SeekOutcome,
};
use crate::{ChannelConfig, PlayerError, VOL_SCALE};

verus! {

/// Which decode backend is meant.
#[derive(Clone, Copy, Debug, PartialEq, Eq, Structural)]
pub enum EngineKind {
    Galaxy,
    Ffmpeg,
}

/// The active decode backend, with its whole state.
pub enum ActiveEngine {
    Galaxy(GalaxyEngine),
    Pipe(FFmpegEngine),
}

/// Two active backends that cannot be told apart.
pub open spec fn active_eq(a: ActiveEngine, b: ActiveEngine) -> bool {
    match (a, b) {
        (ActiveEngine::Galaxy(x), ActiveEngine::Galaxy(y)) => galaxy_state_eq(x, y),
        (ActiveEngine::Pipe(x), ActiveEngine::Pipe(y)) => pipe_state_eq(x, y),
        _ => false,
    }
}

/// A freshly constructed streaming engine, as `GalaxyEngine::new` builds it.
pub open spec fn galaxy_fresh(e: GalaxyEngine) -> bool {
    &&& e.wf()
    &&& e.load_generation == 0
    &&& !e.decode_finished
    &&& e.pcm_cache is None
    &&& e.raw_bytes is None
    &&& e.current_volume == VOL_SCALE
    &&& e.channel_mode == ChannelConfig::Stereo
    &&& e.sink.queue@.len() == 0
    &&& !e.sink.paused
}

/// A freshly constructed external-decoder engine, as `FFmpegEngine::new`
/// builds it.
pub open spec fn pipe_fresh(e: FFmpegEngine) -> bool {
    &&& e.wf()
    &&& e.current_samples is None
    &&& e.target_volume == VOL_SCALE
    &&& e.fade_token == 0
    &&& e.last_seek_pos_ms == 0
    &&& !e.is_playing
    &&& e.sink.queue@.len() == 0
    &&& !e.sink.paused
    &&& e.sink.volume == 0
}

/// What switching backends does: a known, available backend is built
/// fresh — nothing carries over — and confirmed; an unknown identifier or
/// an unavailable external decoder fails the switch and changes nothing.
pub open spec fn switch_rel(
    pre: AudioManager,
    post: AudioManager,
    id: Seq<char>,
    external_available: bool,
    r: Result<EngineKind, PlayerError>,
) -> bool {
    if id == "galaxy"@ {
        &&& r == Ok::<EngineKind, PlayerError>(EngineKind::Galaxy)
        &&& post.active_engine matches ActiveEngine::Galaxy(e) && galaxy_fresh(e)
    } else if id == "ffmpeg"@ {
        if external_available {
            &&& r == Ok::<EngineKind, PlayerError>(EngineKind::Ffmpeg)
            &&& post.active_engine matches ActiveEngine::Pipe(e) && pipe_fresh(e)
        } else {
            &&& r == Err::<EngineKind, PlayerError>(PlayerError::BackendUnavailable)
            &&& active_eq(pre.active_engine, post.active_engine)
        }
    } else {
        &&& r == Err::<EngineKind, PlayerError>(PlayerError::UnknownEngine)
        &&& active_eq(pre.active_engine, post.active_engine)
    }
}

/// How a requested device name resolves against the enumerated names.
#[derive(Clone, Copy, Debug, PartialEq, Eq, Structural)]
pub enum DeviceChoice {
    /// The system default device was asked for by its reserved name.
    UseDefault,
    /// The first enumerated device of the requested name.
    Use(usize),
    /// No enumerated device bears the requested name.
    NotFound,
}

/// Resolve a requested output device name: the reserved name selects the
/// system default, otherwise the first device of that name is chosen, and
/// a name no device bears is reported as not found.
pub fn select_device(names: &Vec<String>, requested: &str) -> (c: DeviceChoice)
    ensures
        (c == DeviceChoice::UseDefault) <==> requested@ == "Default"@,
        c matches DeviceChoice::Use(i) ==> {
            &&& requested@ != "Default"@
            &&& i < names@.len()
            &&& names@[i as int]@ == requested@
            &&& forall|j: int| 0 <= j < i ==> names@[j]@ != requested@
        },
        (c == DeviceChoice::NotFound) ==> (requested@ != "Default"@ && forall|j: int|
            0 <= j < names@.len() ==> names@[j]@ != requested@),
        (requested@ != "Default"@ && exists|j: int|
            0 <= j < names@.len() && names@[j]@ == requested@) ==> c matches DeviceChoice::Use(_),
{
    let req: String = requested.to_owned();
    if req == "Default".to_owned() {
        return DeviceChoice::UseDefault;
    }
    let mut i: usize = 0;
    while i < names.len()
        invariant
            i <= names@.len(),
            req@ == requested@,
            requested@ != "Default"@,
            forall|j: int| 0 <= j < i ==> names@[j]@ != requested@,
        decreases names@.len() - i,
    {
        if names[i] == req {
            return DeviceChoice::Use(i);
        }
        i = i + 1;
    }
    DeviceChoice::NotFound
}

/// What a load hands the active backend: encoded bytes with the caller's
/// probe of them for the streaming engine, raw decoded samples for the
/// external-decoder engine.
pub enum TrackInput {
    Encoded { bytes: Vec<u8>, probe: Option<TrackInfo> },
    RawPcm(Vec<i16>),
}

/// The input kind fits the active backend, and a probe that reports
/// parameters reports decoder-shaped ones.
pub open spec fn input_matches(active: ActiveEngine, input: TrackInput) -> bool {
    match (active, input) {
        (ActiveEngine::Galaxy(_), TrackInput::Encoded { bytes: _, probe }) => match probe {
            Some(info) => info.wf(),
            None => true,
        },
        (ActiveEngine::Pipe(_), TrackInput::RawPcm(_)) => true,
        _ => false,
    }
}

/// What a load through the manager reports: the duration, and the fade-in
/// run to drive where the backend starts one.
pub struct ManagerLoad {
    pub duration_ms: u64,
    pub fade: Option<FadeRun>,
}

/// What a load through the manager does: the active backend's own load
/// relation, with the manager's result mapped onto the backend's. The
/// backend kind never changes across a load.
pub open spec fn manager_load_rel(
    pre: AudioManager,
    post: AudioManager,
    input: TrackInput,
    new_sink_ok: bool,
    r: Result<ManagerLoad, PlayerError>,
) -> bool {
    match (pre.active_engine, post.active_engine, input) {
        (ActiveEngine::Galaxy(g), ActiveEngine::Galaxy(g2), TrackInput::Encoded { bytes: b, probe }) => {
            &&& load_rel(g, g2, b@, probe, new_sink_ok, duration_result(r))
            &&& r matches Ok(out) ==> out.fade is None
        },
        (ActiveEngine::Pipe(p), ActiveEngine::Pipe(p2), TrackInput::RawPcm(s)) => pipe_load_rel(
            p,
            p2,
            s@,
            new_sink_ok,
            pipe_result(r),
        ),
        _ => false,
    }
}

/// What a seek through the manager reports, by backend.
pub enum ManagerSeek {
    Galaxy(SeekOutcome),
    Pipe(Option<FadeRun>),
}

/// The manager, owning the live backend. The device connection itself
/// lives with the surrounding application; the manager decides what every
/// switch does to the engine state.
pub struct AudioManager {
    pub active_engine: ActiveEngine,
}

impl AudioManager {
    pub open spec fn wf(self) -> bool {
        match self.active_engine {
            ActiveEngine::Galaxy(e) => e.wf(),
            ActiveEngine::Pipe(e) => e.wf(),
        }
    }

    /// The backend's counters have room for another operation; true for
    /// the lifetime of any real process.
    pub open spec fn counters_ok(self) -> bool {
        match self.active_engine {
            ActiveEngine::Galaxy(e) => e.load_generation < u64::MAX,
            ActiveEngine::Pipe(e) => e.fade_token < u64::MAX - 1,
        }
    }

    /// A fresh manager: the streaming engine, built fresh.
    pub fn new() -> (m: AudioManager)
        ensures
            m.wf(),
            m.active_engine matches ActiveEngine::Galaxy(e) && galaxy_fresh(e),
    {
        AudioManager { active_engine: ActiveEngine::Galaxy(GalaxyEngine::new()) }
    }

    /// Which backend is live.
    pub fn current_engine(&self) -> (k: EngineKind)
        ensures
            (k == EngineKind::Galaxy) <==> self.active_engine matches ActiveEngine::Galaxy(_),
            (k == EngineKind::Ffmpeg) <==> self.active_engine matches ActiveEngine::Pipe(_),
    {
        match &self.active_engine {
            ActiveEngine::Galaxy(_) => EngineKind::Galaxy,
            ActiveEngine::Pipe(_) => EngineKind::Ffmpeg,
        }
    }

    /// Construct the backend the identifier names, fresh, discarding the
    /// active one; fail the switch — applying nothing — on an unknown
    /// identifier or an unavailable external decoder. The caller says
    /// whether the external decoder is available on this machine.
    pub fn switch_engine(&mut self, engine_id: &str, external_available: bool) -> (r: Result<
        EngineKind,
        PlayerError,
    >)
        requires
            old(self).wf(),
        ensures
            final(self).wf(),
            switch_rel(*old(self), *final(self), engine_id@, external_available, r),
    {
        let id: String = engine_id.to_owned();
        if id == "galaxy".to_owned() {
            proof {
                reveal_strlit("galaxy");
                reveal_strlit("ffmpeg");
            }
            self.active_engine = ActiveEngine::Galaxy(GalaxyEngine::new());
            Ok(EngineKind::Galaxy)
        } else if id == "ffmpeg".to_owned() {
            if external_available {
                self.active_engine = ActiveEngine::Pipe(FFmpegEngine::new());
                Ok(EngineKind::Ffmpeg)
            } else {
                Err(PlayerError::BackendUnavailable)
            }
        } else {
            Err(PlayerError::UnknownEngine)
        }
    }

    /// Load a track into the active backend.
    pub fn load(&mut self, input: TrackInput, new_sink_ok: bool) -> (r: Result<
        ManagerLoad,
        PlayerError,
    >)
        requires
            old(self).wf(),
            old(self).counters_ok(),
            input_matches(old(self).active_engine, input),
        ensures
            final(self).wf(),
            manager_load_rel(*old(self), *final(self), input, new_sink_ok, r),
    {
        match &mut self.active_engine {
            ActiveEngine::Galaxy(g) => match input {
                TrackInput::Encoded { bytes, probe } => match g.load(bytes, probe, new_sink_ok) {
                    Ok(d) => Ok(ManagerLoad { duration_ms: d, fade: None }),
                    Err(e) => Err(e),
                },
                TrackInput::RawPcm(_) => Err(PlayerError::UnknownEngine),
            },
            ActiveEngine::Pipe(p) => match input {
                TrackInput::RawPcm(s) => match p.load(s, new_sink_ok) {
                    Ok(out) => Ok(ManagerLoad { duration_ms: out.duration_ms, fade: out.fade }),
                    Err(e) => Err(e),
                },
                TrackInput::Encoded { bytes: _, probe: _ } => Err(PlayerError::UnknownEngine),
            },
        }
    }

    /// Seek the active backend to a position. The caller supplies the
    /// decoder-side seek outcome for the streaming engine's fallback path;
    /// the external-decoder engine needs none.
    pub fn seek(
        &mut self,
        expected_generation: u64,
        time_ms: u64,
        fallback: DecodeSeekResult,
        new_sink_ok: bool,
    ) -> (r: ManagerSeek)
        requires
            old(self).wf(),
            old(self).counters_ok(),
        ensures
            final(self).wf(),
            old(self).active_engine matches ActiveEngine::Galaxy(g) ==> final(self).active_engine matches ActiveEngine::Galaxy(g2) && r matches ManagerSeek::Galaxy(out)
                && seek_rel(g, g2, expected_generation, time_ms, fallback, new_sink_ok, out),
            old(self).active_engine matches ActiveEngine::Pipe(p) ==> final(self).active_engine matches ActiveEngine::Pipe(p2) && r matches ManagerSeek::Pipe(run)
                && pipe_seek_rel(p, p2, time_ms, run),
    {
        match &mut self.active_engine {
            ActiveEngine::Galaxy(g) => ManagerSeek::Galaxy(
                g.seek(expected_generation, time_ms, fallback, new_sink_ok),
            ),
            ActiveEngine::Pipe(p) => ManagerSeek::Pipe(p.seek(time_ms)),
        }
    }

    /// Resume playback: at once on the streaming engine, by fade-in on the
    /// external-decoder engine.
    pub fn play(&mut self) -> (run: Option<FadeRun>)
        requires
            old(self).wf(),
            old(self).counters_ok(),
        ensures
            final(self).wf(),
            old(self).active_engine matches ActiveEngine::Galaxy(g) ==> final(self).active_engine matches ActiveEngine::Galaxy(g2) && run is None && galaxy_non_sink_eq(
                g,
                g2,
            ) && g2.sink.queue@ == g.sink.queue@ && !g2.sink.paused && g2.sink.volume
                == g.sink.volume,
            old(self).active_engine matches ActiveEngine::Pipe(p) ==> final(self).active_engine matches ActiveEngine::Pipe(p2) && play_rel(p, p2, run),
    {
        match &mut self.active_engine {
            ActiveEngine::Galaxy(g) => {
                g.play();
                None
            },
            ActiveEngine::Pipe(p) => p.play(),
        }
    }

    /// Pause playback: at once on the streaming engine, by fade-out on the
    /// external-decoder engine.
    pub fn pause(&mut self) -> (run: Option<FadeRun>)
        requires
            old(self).wf(),
            old(self).counters_ok(),
        ensures
            final(self).wf(),
            old(self).active_engine matches ActiveEngine::Galaxy(g) ==> final(self).active_engine matches ActiveEngine::Galaxy(g2) && run is None && galaxy_non_sink_eq(
                g,
                g2,
            ) && g2.sink.queue@ == g.sink.queue@ && g2.sink.paused && g2.sink.volume
                == g.sink.volume,
            old(self).active_engine matches ActiveEngine::Pipe(p) ==> final(self).active_engine matches ActiveEngine::Pipe(p2) && run matches Some(fr) && !p2.is_playing
                && p2.fade_token == p.fade_token + 1 && pipe_sink_eq(p, p2) && fr == (FadeRun {
                token: (p.fade_token + 1) as u64,
                steps: spec_fade_steps(500) as u64,
                kind: FadeKind::OutPause { start: p.sink.volume },
            }),
    {
        match &mut self.active_engine {
            ActiveEngine::Galaxy(g) => {
                g.pause();
                None
            },
            ActiveEngine::Pipe(p) => Some(p.pause()),
        }
    }

    /// Set the volume on the active backend.
    pub fn set_volume(&mut self, volume: u32)
        requires
            old(self).wf(),
            volume <= VOL_SCALE,
        ensures
            final(self).wf(),
            old(self).active_engine matches ActiveEngine::Galaxy(g) ==> final(self).active_engine matches ActiveEngine::Galaxy(g2) && g2.current_volume == volume
                && g2.sink.volume == volume && g2.sink.queue@ == g.sink.queue@ && g2.sink.paused
                == g.sink.paused && g2.load_generation == g.load_generation && g2.channel_mode
                == g.channel_mode && g2.decode_finished == g.decode_finished,
            old(self).active_engine matches ActiveEngine::Pipe(p) ==> final(self).active_engine matches ActiveEngine::Pipe(p2) && set_volume_rel(p, p2, volume),
    {
        match &mut self.active_engine {
            ActiveEngine::Galaxy(g) => g.set_volume(volume),
            ActiveEngine::Pipe(p) => p.set_volume(volume),
        }
    }

    /// Set the target channel layout. The external-decoder engine always
    /// emits stereo and ignores the request.
    pub fn set_channels(&mut self, mode: u16)
        requires
            old(self).wf(),
        ensures
            final(self).wf(),
            old(self).active_engine matches ActiveEngine::Galaxy(g) ==> final(self).active_engine matches ActiveEngine::Galaxy(g2) && g2.channel_mode
                == ChannelConfig::spec_from_mode(mode) && galaxy_sink_eq(g, g2)
                && g2.load_generation == g.load_generation && g2.current_volume
                == g.current_volume && g2.decode_finished == g.decode_finished,
            old(self).active_engine matches ActiveEngine::Pipe(p) ==> final(self).active_engine matches ActiveEngine::Pipe(p2) && pipe_state_eq(p, p2),
    {
        match &mut self.active_engine {
            ActiveEngine::Galaxy(g) => g.set_channel_mode(mode),
            ActiveEngine::Pipe(_) => {},
        }
    }

    /// Rebind the active backend to a new device connection. The caller
    /// opened the connection and says whether a sink could be built; the
    /// streaming engine hands back the audio to refill the new sink with,
    /// where its cache can provide it.
    pub fn update_output_stream(&mut self, new_sink_ok: bool) -> (audio: Option<Vec<i64>>)
        requires
            old(self).wf(),
            old(self).counters_ok(),
        ensures
            final(self).wf(),
            old(self).active_engine matches ActiveEngine::Galaxy(g) ==> final(self).active_engine matches ActiveEngine::Galaxy(g2) && galaxy_rebind_rel(g, g2, new_sink_ok, audio),
            old(self).active_engine matches ActiveEngine::Pipe(p) ==> final(self).active_engine matches ActiveEngine::Pipe(p2) && pipe_rebind_rel(p, p2, new_sink_ok) && audio is None,
    {
        match &mut self.active_engine {
            ActiveEngine::Galaxy(g) => g.update_output_stream(new_sink_ok),
            ActiveEngine::Pipe(p) => {
                p.update_output_stream(new_sink_ok);
                None
            },
        }
    }
}

/// A load result with the manager's payload, reduced to the duration the
/// streaming engine reports.
pub open spec fn duration_result(r: Result<ManagerLoad, PlayerError>) -> Result<u64, PlayerError> {
    match r {
        Ok(out) => Ok(out.duration_ms),
        Err(e) => Err(e),
    }
}

/// A load result with the manager's payload, reduced to what the
/// external-decoder engine reports.
pub open spec fn pipe_result(r: Result<ManagerLoad, PlayerError>) -> Result<
    LoadOutcome,
    PlayerError,
> {
    match r {
        Ok(out) => Ok(LoadOutcome { duration_ms: out.duration_ms, fade: out.fade }),
        Err(e) => Err(e),
    }
}

} // verus!
