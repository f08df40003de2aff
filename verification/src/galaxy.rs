//! The streaming engine: immediate playback from a decoded stream, a
//! background-decoded PCM cache for fast seeking, and a decoder-side seek
//! as the fallback path.
//!
//! Every load bumps a generation counter; background decodes commit their
//! result only while their generation is still the current one, and a seek
//! started against a superseded generation returns without effect. The
//! cache container is replaced wholesale on every load — successful or
//! not — never mutated in place, so a stale decode can never become
//! visible as the current cache. The decoder itself runs on the caller's
//! side of the panic boundary (see the decode module); the engine takes
//! its plain outcomes and is verified over every value of them.

use vstd::prelude::*;
use vstd::arithmetic::div_mod::lemma_mod_decreases;
use vstd::arithmetic::mul::lemma_mul_upper_bound;

use crate::decode::{DecodeSeekResult, TrackInfo};
use crate::dsp::{int_view, render_upmixed, spec_render, GainTable};
use crate::sink::SinkState;
use crate::{ChannelConfig, PlayerError, VOL_SCALE};

verus! {

/// Where a queued source takes its samples from.
#[derive(Clone, Copy, Debug, PartialEq, Eq, Structural)]
pub enum GalaxyPath {
    /// The streaming decoder over the loaded bytes, from the start.
    Stream,
    /// A zero-copy cursor into the PCM cache, from a sample offset.
    Memory { offset: usize },
    /// A fresh decoder over the loaded bytes, seeked to a position.
    DecoderSeek { at_ms: u64 },
}

/// A source as the engine queues it on its sink.
#[derive(Clone, Copy, Debug, PartialEq, Eq, Structural)]
pub struct GalaxySource {
    /// The load generation the source belongs to.
    pub generation: u64,
    /// Where its samples come from.
    pub path: GalaxyPath,
    /// The channel layout it is upmixed to.
    pub target_channels: u16,
}

/// Which path a seek took.
#[derive(Clone, Copy, Debug, PartialEq, Eq, Structural)]
pub enum SeekPath {
    /// A newer load took over while the seek was underway; no effect.
    Stale,
    /// The fast path: a cursor into the PCM cache.
    Memory { offset: usize },
    /// The requested offset lies beyond the cached samples; nothing is
    /// appended, silence until the next action.
    OutOfRange,
    /// The fallback path: a fresh decoder seeked to the position.
    IoSeek,
    /// The decoder refused the position: the sink pauses rather than
    /// silently restarting from the beginning.
    IoSeekFailed,
    /// The loaded bytes no longer decode at all; nothing is appended.
    NoDecoder,
    /// No track is loaded.
    NoTrack,
}

/// What a seek did, and the rendered audio to feed the device where a path
/// produced any.
pub struct SeekOutcome {
    pub path: SeekPath,
    pub audio: Option<Vec<i64>>,
}

/// An optional byte buffer, as a sequence.
pub open spec fn bytes_view(b: Option<Vec<u8>>) -> Option<Seq<u8>> {
    match b {
        Some(v) => Some(v@),
        None => None,
    }
}

/// An optional sample buffer, as a sequence.
pub open spec fn cache_view(c: Option<Vec<i16>>) -> Option<Seq<i16>> {
    match c {
        Some(v) => Some(v@),
        None => None,
    }
}

/// Optional rendered audio, as a sequence of unbounded integers.
pub open spec fn audio_view(a: Option<Vec<i64>>) -> Option<Seq<int>> {
    match a {
        Some(v) => Some(int_view(v@)),
        None => None,
    }
}

/// The duration a load reports: what the probe states, zero where the
/// stream cannot tell one.
pub open spec fn spec_duration_or_zero(info: TrackInfo) -> u64 {
    match info.duration_ms {
        Some(d) => d,
        None => 0,
    }
}

/// The sample offset a position resolves to: the position in samples
/// across all channels, aligned down to a whole frame.
pub open spec fn spec_seek_offset(ms: int, rate: int, ch: int) -> int {
    let off = (ms * rate * ch) / 1000;
    off - off % ch
}

/// The streaming engine.
pub struct GalaxyEngine {
    /// The live sink.
    pub sink: SinkState<GalaxySource>,
    /// The encoded bytes of the loaded track, kept for fallback re-decodes.
    pub raw_bytes: Option<Vec<u8>>,
    /// The fully decoded track, once the background decode has committed.
    pub pcm_cache: Option<Vec<i16>>,
    /// The generation whose background decode produced the cache.
    pub cache_generation: u64,
    /// Sample rate of the loaded track.
    pub sample_rate: u32,
    /// Channel count of the loaded track.
    pub channels: u16,
    /// The last volume a caller asked for.
    pub current_volume: u32,
    /// The target layout for the upmix stage.
    pub channel_mode: ChannelConfig,
    /// Bumped once per load; stale background work is dropped against it.
    pub load_generation: u64,
    /// Whether the current generation's background decode has finished,
    /// successfully or not. Seeks wait on this before falling back.
    pub decode_finished: bool,
    /// The last position loaded or seeked to, in milliseconds; a device
    /// rebind resumes from here.
    pub last_seek_pos_ms: u64,
    /// The upmix gain table.
    pub gains: GainTable,
}

/// What a load does, given the caller's probe of the bytes. The generation
/// is bumped, the completion signal reset and the cache discarded wholesale
/// on every outcome — even a failed load supersedes all earlier background
/// work and leaves no stale cache visible. A failed probe is the error
/// `DecodeFailed` and touches nothing else. On success the engine adopts
/// the stream parameters, stores the bytes, rebuilds the sink (or clears
/// the old one if no new sink could be built against the device), queues
/// the streaming source at the last known volume, starts playback from the
/// beginning, and reports the probe's duration.
pub open spec fn load_rel(
    pre: GalaxyEngine,
    post: GalaxyEngine,
    bytes: Seq<u8>,
    probe: Option<TrackInfo>,
    new_sink_ok: bool,
    r: Result<u64, PlayerError>,
) -> bool {
    &&& post.load_generation == pre.load_generation + 1
    &&& !post.decode_finished
    &&& post.pcm_cache is None
    &&& post.channel_mode == pre.channel_mode
    &&& post.current_volume == pre.current_volume
    &&& post.gains == pre.gains
    &&& post.cache_generation == pre.cache_generation
    &&& match probe {
        None => {
            &&& r == Err::<u64, PlayerError>(PlayerError::DecodeFailed)
            &&& post.sample_rate == pre.sample_rate
            &&& post.channels == pre.channels
            &&& bytes_view(post.raw_bytes) == bytes_view(pre.raw_bytes)
            &&& post.last_seek_pos_ms == pre.last_seek_pos_ms
            &&& post.sink.queue@ == pre.sink.queue@
            &&& post.sink.paused == pre.sink.paused
            &&& post.sink.volume == pre.sink.volume
        },
        Some(info) => {
            &&& r == Ok::<u64, PlayerError>(spec_duration_or_zero(info))
            &&& post.sample_rate == info.sample_rate
            &&& post.channels == info.channels
            &&& bytes_view(post.raw_bytes) == Some(bytes)
            &&& post.last_seek_pos_ms == 0
            &&& post.sink.queue@.len() == 1
            &&& post.sink.queue@[0] == (GalaxySource {
                generation: (pre.load_generation + 1) as u64,
                path: GalaxyPath::Stream,
                target_channels: pre.channel_mode.spec_channel_count(),
            })
            &&& !post.sink.paused
            &&& post.sink.volume == pre.current_volume
        },
    }
}

/// What committing a background decode does: the completion signal is set
/// on every outcome, and the result becomes the cache exactly when it
/// carries samples and its generation is still the current one. A stale or
/// failed decode changes nothing else.
pub open spec fn commit_rel(
    pre: GalaxyEngine,
    post: GalaxyEngine,
    generation: u64,
    pcm: Option<Seq<i16>>,
) -> bool {
    &&& post.decode_finished
    &&& post.load_generation == pre.load_generation
    &&& post.sample_rate == pre.sample_rate
    &&& post.channels == pre.channels
    &&& post.current_volume == pre.current_volume
    &&& post.channel_mode == pre.channel_mode
    &&& post.gains == pre.gains
    &&& post.last_seek_pos_ms == pre.last_seek_pos_ms
    &&& bytes_view(post.raw_bytes) == bytes_view(pre.raw_bytes)
    &&& post.sink.queue@ == pre.sink.queue@
    &&& post.sink.paused == pre.sink.paused
    &&& post.sink.volume == pre.sink.volume
    &&& if generation == pre.load_generation && pcm is Some {
        &&& cache_view(post.pcm_cache) == pcm
        &&& post.cache_generation == generation
    } else {
        &&& cache_view(post.pcm_cache) == cache_view(pre.pcm_cache)
        &&& post.cache_generation == pre.cache_generation
    }
}

/// What a seek does, given the caller's decoder-side seek outcome for the
/// fallback path. Against a superseded generation it has no effect.
/// Otherwise the position is recorded, the sink is rebuilt against the
/// current device (clearing the old one if no new sink could be built),
/// the volume restored, and the fast path taken over the cache where one
/// is ready and the offset lies within it. With no cache, the fallback
/// outcome decides: decoded samples are rendered and queued, a refused
/// position pauses the sink rather than silently restarting from the
/// beginning, and an undecodable stream appends nothing. An offset beyond
/// the cached samples appends nothing: silence until the next action.
pub open spec fn seek_rel(
    pre: GalaxyEngine,
    post: GalaxyEngine,
    expected_generation: u64,
    time_ms: u64,
    fallback: DecodeSeekResult,
    new_sink_ok: bool,
    out: SeekOutcome,
) -> bool {
    if pre.load_generation != expected_generation {
        &&& out.path == SeekPath::Stale
        &&& out.audio is None
        &&& galaxy_state_eq(pre, post)
    } else {
        let target = pre.channel_mode.spec_channel_count();
        &&& post.load_generation == pre.load_generation
        &&& post.decode_finished == pre.decode_finished
        &&& post.sample_rate == pre.sample_rate
        &&& post.channels == pre.channels
        &&& post.current_volume == pre.current_volume
        &&& post.channel_mode == pre.channel_mode
        &&& post.gains == pre.gains
        &&& post.cache_generation == pre.cache_generation
        &&& post.last_seek_pos_ms == time_ms
        &&& cache_view(post.pcm_cache) == cache_view(pre.pcm_cache)
        &&& bytes_view(post.raw_bytes) == bytes_view(pre.raw_bytes)
        &&& post.sink.volume == pre.current_volume
        &&& match cache_view(pre.pcm_cache) {
            Some(c) => {
                let off = spec_seek_offset(
                    time_ms as int,
                    pre.sample_rate as int,
                    pre.channels as int,
                );
                if off < c.len() {
                    &&& out.path == (SeekPath::Memory { offset: off as usize })
                    &&& audio_view(out.audio) == Some(
                        spec_render(
                            c,
                            off,
                            pre.channels as int,
                            target as int,
                            pre.gains,
                            pre.sample_rate as int,
                        ),
                    )
                    &&& post.sink.queue@.len() == 1
                    &&& post.sink.queue@[0] == (GalaxySource {
                        generation: expected_generation,
                        path: GalaxyPath::Memory { offset: off as usize },
                        target_channels: target,
                    })
                    &&& !post.sink.paused
                } else {
                    &&& out.path == SeekPath::OutOfRange
                    &&& out.audio is None
                    &&& post.sink.queue@.len() == 0
                    &&& !post.sink.paused
                }
            },
            None => match bytes_view(pre.raw_bytes) {
                Some(_) => match fallback.seeked_pcm() {
                    Some(tail) => {
                        &&& out.path == SeekPath::IoSeek
                        &&& audio_view(out.audio) == Some(
                            spec_render(
                                tail,
                                0,
                                pre.channels as int,
                                target as int,
                                pre.gains,
                                pre.sample_rate as int,
                            ),
                        )
                        &&& post.sink.queue@.len() == 1
                        &&& post.sink.queue@[0] == (GalaxySource {
                            generation: expected_generation,
                            path: GalaxyPath::DecoderSeek { at_ms: time_ms },
                            target_channels: target,
                        })
                        &&& !post.sink.paused
                    },
                    None => {
                        if fallback.is_seek_failed() {
                            &&& out.path == SeekPath::IoSeekFailed
                            &&& out.audio is None
                            &&& post.sink.queue@.len() == 0
                            &&& post.sink.paused
                        } else {
                            &&& out.path == SeekPath::NoDecoder
                            &&& out.audio is None
                            &&& post.sink.queue@.len() == 0
                            &&& !post.sink.paused
                        }
                    },
                },
                None => {
                    &&& out.path == SeekPath::NoTrack
                    &&& out.audio is None
                    &&& post.sink.queue@.len() == 0
                    &&& !post.sink.paused
                },
            },
        }
    }
}

/// What rebinding to a new device does: the track, its position, the
/// stored volume and the physical play state all survive the switch. Where
/// a sink could be built, it is refilled from the last known position —
/// from the cache where one is ready and in range, else by a queued
/// decoder-side seek over the stored bytes — at the stored volume, with
/// the pause flag carried over. Where it could not, the previous sink's
/// queued audio is cleared rather than left in a half-replaced state.
pub open spec fn galaxy_rebind_rel(
    pre: GalaxyEngine,
    post: GalaxyEngine,
    new_sink_ok: bool,
    audio: Option<Vec<i64>>,
) -> bool {
    let target = pre.channel_mode.spec_channel_count();
    &&& post.load_generation == pre.load_generation
    &&& post.decode_finished == pre.decode_finished
    &&& post.sample_rate == pre.sample_rate
    &&& post.channels == pre.channels
    &&& post.current_volume == pre.current_volume
    &&& post.channel_mode == pre.channel_mode
    &&& post.gains == pre.gains
    &&& post.cache_generation == pre.cache_generation
    &&& post.last_seek_pos_ms == pre.last_seek_pos_ms
    &&& cache_view(post.pcm_cache) == cache_view(pre.pcm_cache)
    &&& bytes_view(post.raw_bytes) == bytes_view(pre.raw_bytes)
    &&& if !new_sink_ok {
        &&& audio is None
        &&& post.sink.queue@.len() == 0
        &&& post.sink.paused
        &&& post.sink.volume == pre.sink.volume
    } else {
        &&& post.sink.volume == pre.current_volume
        &&& post.sink.paused == pre.sink.paused
        &&& match cache_view(pre.pcm_cache) {
            Some(c) => {
                let off = spec_seek_offset(
                    pre.last_seek_pos_ms as int,
                    pre.sample_rate as int,
                    pre.channels as int,
                );
                if off < c.len() {
                    &&& post.sink.queue@.len() == 1
                    &&& post.sink.queue@[0] == (GalaxySource {
                        generation: pre.load_generation,
                        path: GalaxyPath::Memory { offset: off as usize },
                        target_channels: target,
                    })
                    &&& audio_view(audio) == Some(
                        spec_render(
                            c,
                            off,
                            pre.channels as int,
                            target as int,
                            pre.gains,
                            pre.sample_rate as int,
                        ),
                    )
                } else {
                    &&& post.sink.queue@.len() == 0
                    &&& audio is None
                }
            },
            None => match bytes_view(pre.raw_bytes) {
                Some(_) => {
                    &&& post.sink.queue@.len() == 1
                    &&& post.sink.queue@[0] == (GalaxySource {
                        generation: pre.load_generation,
                        path: GalaxyPath::DecoderSeek { at_ms: pre.last_seek_pos_ms },
                        target_channels: target,
                    })
                    &&& audio is None
                },
                None => {
                    &&& post.sink.queue@.len() == 0
                    &&& audio is None
                },
            },
        }
    }
}

/// Two engine states that cannot be told apart.
pub open spec fn galaxy_state_eq(a: GalaxyEngine, b: GalaxyEngine) -> bool {
    &&& a.sink.queue@ == b.sink.queue@
    &&& a.sink.paused == b.sink.paused
    &&& a.sink.volume == b.sink.volume
    &&& bytes_view(a.raw_bytes) == bytes_view(b.raw_bytes)
    &&& cache_view(a.pcm_cache) == cache_view(b.pcm_cache)
    &&& a.cache_generation == b.cache_generation
    &&& a.sample_rate == b.sample_rate
    &&& a.channels == b.channels
    &&& a.current_volume == b.current_volume
    &&& a.channel_mode == b.channel_mode
    &&& a.load_generation == b.load_generation
    &&& a.decode_finished == b.decode_finished
    &&& a.last_seek_pos_ms == b.last_seek_pos_ms
    &&& a.gains == b.gains
}

impl GalaxyEngine {
    /// A well-formed engine: a sane sink, a volume on the scale, the gain
    /// table within bounds, non-zero stream parameters, and no cache from
    /// a superseded generation — a visible cache always belongs to the
    /// current one.
    pub open spec fn wf(self) -> bool {
        &&& self.sink.wf()
        &&& self.current_volume <= VOL_SCALE
        &&& self.sample_rate >= 1
        &&& self.channels >= 1
        &&& self.gains.wf()
        &&& (self.pcm_cache is Some ==> self.cache_generation == self.load_generation)
    }

    /// A fresh engine against a just-opened device: stereo defaults, full
    /// volume, an empty playing sink, nothing loaded.
    pub fn new() -> (e: GalaxyEngine)
        ensures
            e.wf(),
            e.load_generation == 0,
            !e.decode_finished,
            e.pcm_cache is None,
            e.raw_bytes is None,
            e.sample_rate == 44100,
            e.channels == 2,
            e.current_volume == VOL_SCALE,
            e.channel_mode == ChannelConfig::Stereo,
            e.last_seek_pos_ms == 0,
            e.sink.queue@.len() == 0,
            !e.sink.paused,
            e.sink.volume == VOL_SCALE,
            e.gains == GainTable::default_table(),
    {
        GalaxyEngine {
            sink: SinkState::with_volume(VOL_SCALE),
            raw_bytes: None,
            pcm_cache: None,
            cache_generation: 0,
            sample_rate: 44100,
            channels: 2,
            current_volume: VOL_SCALE,
            channel_mode: ChannelConfig::Stereo,
            load_generation: 0,
            decode_finished: false,
            last_seek_pos_ms: 0,
            gains: GainTable::default_table(),
        }
    }

    /// Load a track from its encoded bytes: supersede all earlier
    /// background work, discard the cache, start streaming playback at
    /// once, and report the probe's duration. The caller reads the file,
    /// probes the bytes behind its panic guard, and says whether a fresh
    /// sink could be built against the device.
    pub fn load(&mut self, bytes: Vec<u8>, probe: Option<TrackInfo>, new_sink_ok: bool) -> (r:
        Result<u64, PlayerError>)
        requires
            old(self).wf(),
            old(self).load_generation < u64::MAX,
            probe matches Some(info) ==> info.wf(),
        ensures
            final(self).wf(),
            load_rel(*old(self), *final(self), bytes@, probe, new_sink_ok, r),
    {
        self.load_generation = self.load_generation + 1;
        self.decode_finished = false;
        self.pcm_cache = None;
        let info = match probe {
            Some(info) => info,
            None => {
                return Err(PlayerError::DecodeFailed);
            },
        };
        self.sample_rate = info.sample_rate;
        self.channels = info.channels;
        let duration_ms: u64 = match info.duration_ms {
            Some(d) => d,
            None => 0,
        };
        if new_sink_ok {
            self.sink = SinkState::with_volume(self.current_volume);
        } else {
            self.sink.clear();
        }
        self.sink.set_volume(self.current_volume);
        let target_channels: u16 = self.channel_mode.channel_count();
        self.sink.append(
            GalaxySource {
                generation: self.load_generation,
                path: GalaxyPath::Stream,
                target_channels,
            },
        );
        self.sink.play();
        self.raw_bytes = Some(bytes);
        self.last_seek_pos_ms = 0;
        Ok(duration_ms)
    }

    /// Commit what a background decode produced. The completion signal is
    /// set whatever happened, so no waiting seek is ever stranded; the
    /// samples become the cache only while their generation is still
    /// current.
    pub fn commit_decode(&mut self, generation: u64, pcm: Option<Vec<i16>>)
        requires
            old(self).wf(),
        ensures
            final(self).wf(),
            commit_rel(*old(self), *final(self), generation, cache_view(pcm)),
    {
        if generation == self.load_generation {
            match pcm {
                Some(samples) => {
                    self.pcm_cache = Some(samples);
                    self.cache_generation = generation;
                },
                None => {},
            }
        }
        self.decode_finished = true;
    }

    /// The sample offset a position in milliseconds resolves to, aligned
    /// down to a whole frame.
    fn resolve_offset(&self, time_ms: u64) -> (off: u128)
        requires
            self.wf(),
        ensures
            off as int == spec_seek_offset(
                time_ms as int,
                self.sample_rate as int,
                self.channels as int,
            ),
    {
        proof {
            lemma_mul_upper_bound(
                time_ms as int,
                u64::MAX as int,
                self.sample_rate as int,
                u32::MAX as int,
            );
            lemma_mul_upper_bound(
                time_ms as int * self.sample_rate as int,
                u64::MAX as int * u32::MAX as int,
                self.channels as int,
                u16::MAX as int,
            );
        }
        let total: u128 = (time_ms as u128) * (self.sample_rate as u128) * (self.channels as u128);
        let off: u128 = total / 1000;
        proof {
            lemma_mod_decreases(off as nat, self.channels as nat);
        }
        off - off % (self.channels as u128)
    }

    /// Resolve a seek to the position in milliseconds. The caller captured
    /// the generation before (possibly bounded) waiting on the completion
    /// signal, ran the decoder-side seek behind its panic guard in case
    /// the fallback path is needed, and says whether a fresh sink could be
    /// built. The outcome names the path taken and carries the rendered
    /// audio to feed the device.
    pub fn seek(
        &mut self,
        expected_generation: u64,
        time_ms: u64,
        fallback: DecodeSeekResult,
        new_sink_ok: bool,
    ) -> (out: SeekOutcome)
        requires
            old(self).wf(),
        ensures
            final(self).wf(),
            seek_rel(
                *old(self),
                *final(self),
                expected_generation,
                time_ms,
                fallback,
                new_sink_ok,
                out,
            ),
    {
        if self.load_generation != expected_generation {
            return SeekOutcome { path: SeekPath::Stale, audio: None };
        }
        self.last_seek_pos_ms = time_ms;
        if new_sink_ok {
            self.sink = SinkState::with_volume(self.current_volume);
        } else {
            self.sink.clear();
        }
        self.sink.play();
        self.sink.set_volume(self.current_volume);
        let mode: ChannelConfig = self.channel_mode;
        let target_channels: u16 = mode.channel_count();
        match &self.pcm_cache {
            Some(samples) => {
                let aligned: u128 = self.resolve_offset(time_ms);
                if aligned < samples.len() as u128 {
                    let offset: usize = aligned as usize;
                    let audio = render_upmixed(
                        samples,
                        offset,
                        self.channels,
                        self.sample_rate,
                        mode,
                        &self.gains,
                    );
                    self.sink.append(
                        GalaxySource {
                            generation: expected_generation,
                            path: GalaxyPath::Memory { offset },
                            target_channels,
                        },
                    );
                    SeekOutcome { path: SeekPath::Memory { offset }, audio: Some(audio) }
                } else {
                    SeekOutcome { path: SeekPath::OutOfRange, audio: None }
                }
            },
            None => match &self.raw_bytes {
                Some(_) => match fallback {
                    DecodeSeekResult::Seeked(tail) => {
                        let audio = render_upmixed(
                            &tail,
                            0,
                            self.channels,
                            self.sample_rate,
                            mode,
                            &self.gains,
                        );
                        self.sink.append(
                            GalaxySource {
                                generation: expected_generation,
                                path: GalaxyPath::DecoderSeek { at_ms: time_ms },
                                target_channels,
                            },
                        );
                        SeekOutcome { path: SeekPath::IoSeek, audio: Some(audio) }
                    },
                    DecodeSeekResult::SeekFailed => {
                        self.sink.pause();
                        SeekOutcome { path: SeekPath::IoSeekFailed, audio: None }
                    },
                    DecodeSeekResult::NoDecoder => SeekOutcome {
                        path: SeekPath::NoDecoder,
                        audio: None,
                    },
                },
                None => SeekOutcome { path: SeekPath::NoTrack, audio: None },
            },
        }
    }

    /// Resume physical playback.
    pub fn play(&mut self)
        requires
            old(self).wf(),
        ensures
            final(self).wf(),
            final(self).sink.queue@ == old(self).sink.queue@,
            !final(self).sink.paused,
            final(self).sink.volume == old(self).sink.volume,
            galaxy_non_sink_eq(*old(self), *final(self)),
    {
        self.sink.play();
    }

    /// Pause physical playback.
    pub fn pause(&mut self)
        requires
            old(self).wf(),
        ensures
            final(self).wf(),
            final(self).sink.queue@ == old(self).sink.queue@,
            final(self).sink.paused,
            final(self).sink.volume == old(self).sink.volume,
            galaxy_non_sink_eq(*old(self), *final(self)),
    {
        self.sink.pause();
    }

    /// Store the volume and apply it to the sink at once.
    pub fn set_volume(&mut self, volume: u32)
        requires
            old(self).wf(),
            volume <= VOL_SCALE,
        ensures
            final(self).wf(),
            final(self).current_volume == volume,
            final(self).sink.volume == volume,
            final(self).sink.queue@ == old(self).sink.queue@,
            final(self).sink.paused == old(self).sink.paused,
            final(self).channel_mode == old(self).channel_mode,
            final(self).load_generation == old(self).load_generation,
            cache_view(final(self).pcm_cache) == cache_view(old(self).pcm_cache),
            bytes_view(final(self).raw_bytes) == bytes_view(old(self).raw_bytes),
            final(self).decode_finished == old(self).decode_finished,
            final(self).sample_rate == old(self).sample_rate,
            final(self).channels == old(self).channels,
            final(self).gains == old(self).gains,
            final(self).cache_generation == old(self).cache_generation,
            final(self).last_seek_pos_ms == old(self).last_seek_pos_ms,
    {
        self.current_volume = volume;
        self.sink.set_volume(volume);
    }

    /// Adopt a target channel layout; read by both the streaming and the
    /// seek path when they construct the upmix stage.
    pub fn set_channel_mode(&mut self, mode: u16)
        requires
            old(self).wf(),
        ensures
            final(self).wf(),
            final(self).channel_mode == ChannelConfig::spec_from_mode(mode),
            galaxy_sink_eq(*old(self), *final(self)),
            final(self).load_generation == old(self).load_generation,
            cache_view(final(self).pcm_cache) == cache_view(old(self).pcm_cache),
            bytes_view(final(self).raw_bytes) == bytes_view(old(self).raw_bytes),
            final(self).current_volume == old(self).current_volume,
            final(self).decode_finished == old(self).decode_finished,
            final(self).sample_rate == old(self).sample_rate,
            final(self).channels == old(self).channels,
            final(self).gains == old(self).gains,
            final(self).cache_generation == old(self).cache_generation,
            final(self).last_seek_pos_ms == old(self).last_seek_pos_ms,
    {
        self.channel_mode = ChannelConfig::from_mode(mode);
    }

    /// The generation counter, as a seek captures it before waiting.
    pub fn generation(&self) -> (g: u64)
        ensures
            g == self.load_generation,
    {
        self.load_generation
    }

    /// Whether the current generation's background decode has signalled
    /// completion; what a waiting seek polls.
    pub fn is_decode_finished(&self) -> (f: bool)
        ensures
            f == self.decode_finished,
    {
        self.decode_finished
    }

    /// Whether a PCM cache is ready.
    pub fn has_cache(&self) -> (c: bool)
        ensures
            c == (self.pcm_cache is Some),
    {
        match &self.pcm_cache {
            Some(_) => true,
            None => false,
        }
    }

    /// Rebind to a new device connection: rebuild the sink, refill it from
    /// the last known position at the stored volume, and carry the
    /// physical play state over — the switch never restarts the track.
    /// The fast refill renders from the cache; with no cache yet, the
    /// queued descriptor asks for a decoder-side seek over the stored
    /// bytes, which the caller performs. Where no sink could be built, the
    /// old sink's queued audio is cleared rather than left half-replaced.
    pub fn update_output_stream(&mut self, new_sink_ok: bool) -> (audio: Option<Vec<i64>>)
        requires
            old(self).wf(),
        ensures
            final(self).wf(),
            galaxy_rebind_rel(*old(self), *final(self), new_sink_ok, audio),
    {
        if !new_sink_ok {
            self.sink.clear();
            return None;
        }
        let was_paused: bool = self.sink.paused;
        self.sink = SinkState::with_volume(self.current_volume);
        if was_paused {
            self.sink.pause();
        }
        let mode: ChannelConfig = self.channel_mode;
        let target_channels: u16 = mode.channel_count();
        match &self.pcm_cache {
            Some(samples) => {
                let aligned: u128 = self.resolve_offset(self.last_seek_pos_ms);
                if aligned < samples.len() as u128 {
                    let offset: usize = aligned as usize;
                    let audio = render_upmixed(
                        samples,
                        offset,
                        self.channels,
                        self.sample_rate,
                        mode,
                        &self.gains,
                    );
                    self.sink.append(
                        GalaxySource {
                            generation: self.load_generation,
                            path: GalaxyPath::Memory { offset },
                            target_channels,
                        },
                    );
                    Some(audio)
                } else {
                    None
                }
            },
            None => match &self.raw_bytes {
                Some(_) => {
                    self.sink.append(
                        GalaxySource {
                            generation: self.load_generation,
                            path: GalaxyPath::DecoderSeek { at_ms: self.last_seek_pos_ms },
                            target_channels,
                        },
                    );
                    None
                },
                None => None,
            },
        }
    }
}

/// The two states agree on everything but the sink.
pub open spec fn galaxy_non_sink_eq(a: GalaxyEngine, b: GalaxyEngine) -> bool {
    &&& bytes_view(a.raw_bytes) == bytes_view(b.raw_bytes)
    &&& cache_view(a.pcm_cache) == cache_view(b.pcm_cache)
    &&& a.cache_generation == b.cache_generation
    &&& a.sample_rate == b.sample_rate
    &&& a.channels == b.channels
    &&& a.current_volume == b.current_volume
    &&& a.channel_mode == b.channel_mode
    &&& a.load_generation == b.load_generation
    &&& a.decode_finished == b.decode_finished
    &&& a.last_seek_pos_ms == b.last_seek_pos_ms
    &&& a.gains == b.gains
}

/// The two states agree on the sink.
pub open spec fn galaxy_sink_eq(a: GalaxyEngine, b: GalaxyEngine) -> bool {
    &&& a.sink.queue@ == b.sink.queue@
    &&& a.sink.paused == b.sink.paused
    &&& a.sink.volume == b.sink.volume
}

/// Two loads in quick succession: whatever order their background decodes
/// commit in, the cache that becomes visible afterwards is the second
/// load's, never the first's. The first decode commits against a
/// superseded generation and is dropped.
pub proof fn lemma_second_load_owns_cache(
    s0: GalaxyEngine,
    s1: GalaxyEngine,
    s2: GalaxyEngine,
    s3: GalaxyEngine,
    s4: GalaxyEngine,
    bytes_a: Seq<u8>,
    bytes_b: Seq<u8>,
    probe_a: Option<TrackInfo>,
    probe_b: Option<TrackInfo>,
    ok_a: bool,
    ok_b: bool,
    r_a: Result<u64, PlayerError>,
    r_b: Result<u64, PlayerError>,
    pcm_a: Option<Seq<i16>>,
    pcm_b: Option<Seq<i16>>,
    stale_commits_last: bool,
)
    requires
        s0.load_generation < u64::MAX - 1,
        load_rel(s0, s1, bytes_a, probe_a, ok_a, r_a),
        load_rel(s1, s2, bytes_b, probe_b, ok_b, r_b),
        stale_commits_last ==> commit_rel(s2, s3, s2.load_generation, pcm_b) && commit_rel(
            s3,
            s4,
            s1.load_generation,
            pcm_a,
        ),
        !stale_commits_last ==> commit_rel(s2, s3, s1.load_generation, pcm_a) && commit_rel(
            s3,
            s4,
            s2.load_generation,
            pcm_b,
        ),
    ensures
        pcm_b is Some ==> cache_view(s4.pcm_cache) == pcm_b,
        pcm_b is None ==> s4.pcm_cache is None,
{
    assert(s1.load_generation == s0.load_generation + 1);
    assert(s2.load_generation == s0.load_generation + 2);
    assert(s2.pcm_cache is None);
    if stale_commits_last {
        assert(s3.load_generation == s2.load_generation);
    } else {
        assert(s3.load_generation == s2.load_generation);
        assert(cache_view(s3.pcm_cache) == cache_view(s2.pcm_cache));
    }
}

} // verus!
