//! Playback core of a desktop media player.
//!
//! The library models the engine that decodes compressed audio, feeds an
//! output sink, seeks with a fast in-memory path and a decoder fallback,
//! upmixes stereo to surround layouts, and runs cancellable volume fades.
//! Samples are fixed-point integers: `SAMPLE_SCALE` stands for full scale
//! (an amplitude of one), volumes are integers on the `VOL_SCALE` scale.
//! The surrounding application owns the audio device, the decoder calls
//! (behind a panic guard; see the decode module) and the background
//! threads; every decision they act on is taken here, under contract.

use vstd::prelude::*;

pub mod decode;
pub mod ffmpeg;
pub mod dsp;
pub mod galaxy;
pub mod manager;
pub mod sink;

verus! {

/// Full scale of a fixed-point audio sample: the value that stands for
/// an amplitude of one. Decoded 16-bit samples fall in
/// `[-SAMPLE_SCALE, SAMPLE_SCALE - 1]`.
pub const SAMPLE_SCALE: i64 = 32768;

/// Full scale of a volume level: the value that stands for a volume of one.
pub const VOL_SCALE: u32 = 1000;

/// Interval between two volume updates of a running fade, in milliseconds.
pub const FADE_STEP_MS: u64 = 15;

/// Target speaker layout for the upmix stage.
#[derive(Clone, Copy, Debug, PartialEq, Eq, Structural)]
pub enum ChannelConfig {
    Stereo,
    Surround51,
    Surround71,
}

impl ChannelConfig {
    /// How many interleaved channels the layout carries.
    pub open spec fn spec_channel_count(self) -> u16 {
        match self {
            ChannelConfig::Stereo => 2,
            ChannelConfig::Surround51 => 6,
            ChannelConfig::Surround71 => 8,
        }
    }

    /// Executable twin of `spec_channel_count`.
    pub fn channel_count(&self) -> (n: u16)
        ensures
            n == self.spec_channel_count(),
    {
        match self {
            ChannelConfig::Stereo => 2,
            ChannelConfig::Surround51 => 6,
            ChannelConfig::Surround71 => 8,
        }
    }

    /// The layout selected for a requested channel count: six and eight map
    /// to the surround layouts, everything else falls back to stereo.
    pub open spec fn spec_from_mode(mode: u16) -> ChannelConfig {
        if mode == 6 {
            ChannelConfig::Surround51
        } else if mode == 8 {
            ChannelConfig::Surround71
        } else {
            ChannelConfig::Stereo
        }
    }

    /// Executable twin of `spec_from_mode`.
    pub fn from_mode(mode: u16) -> (c: ChannelConfig)
        ensures
            c == ChannelConfig::spec_from_mode(mode),
    {
        if mode == 6 {
            ChannelConfig::Surround51
        } else if mode == 8 {
            ChannelConfig::Surround71
        } else {
            ChannelConfig::Stereo
        }
    }
}

/// The error taxonomy of the core. I/O errors are surfaced synchronously on
/// load, decode errors degrade to "no cache", device errors are surfaced on
/// explicit switches; stale-generation results are silently dropped and are
/// no errors.
#[derive(Clone, Copy, Debug, PartialEq, Eq, Structural)]
pub enum PlayerError {
    /// The path handed to a load does not name a readable file.
    FileNotFound,
    /// The bytes handed to a load are not a decodable stream, or the
    /// decoder died on them.
    DecodeFailed,
    /// A sink could not be built against the output device.
    DeviceError,
    /// No output device of the requested name exists.
    DeviceNotFound,
    /// The requested decode backend is not available on this machine.
    BackendUnavailable,
    /// The requested decode backend identifier names no backend.
    UnknownEngine,
    /// The external decoder produced no samples at all.
    EmptyStream,
}

/// Hard clipper: every emitted sample is confined to
/// `[-SAMPLE_SCALE, SAMPLE_SCALE]`.
pub open spec fn spec_clamp(v: int) -> int {
    if v > SAMPLE_SCALE as int {
        SAMPLE_SCALE as int
    } else if v < -(SAMPLE_SCALE as int) {
        -(SAMPLE_SCALE as int)
    } else {
        v
    }
}

/// Executable twin of `spec_clamp`.
pub fn clamp_sample(v: i64) -> (r: i64)
    ensures
        r == spec_clamp(v as int),
        -SAMPLE_SCALE <= r <= SAMPLE_SCALE,
{
    if v > SAMPLE_SCALE {
        SAMPLE_SCALE
    } else if v < -SAMPLE_SCALE {
        -SAMPLE_SCALE
    } else {
        v
    }
}

} // verus!
