//! The decode boundary's vocabulary: what a probe of a byte buffer and a
//! decoder-side seek report.
//!
//! The decoder itself (the `rodio` decoder over an in-memory cursor) runs
//! on the application's side of the boundary, under a panic guard: its
//! backends can panic on crafted headers (a declared sample rate of zero
//! reaches an unchecked time-base construction), so no contract of the
//! form "this call returns" would be true of it, and verified code may not
//! catch an unwind. The application hands the engines the plain outcome —
//! one of the values below — and every decision taken on it is verified.

use vstd::prelude::*;

verus! {

/// What a successful probe of a byte buffer reports: the stream parameters
/// the streaming path is built from.
#[derive(Clone, Copy, Debug, PartialEq, Eq, Structural)]
pub struct TrackInfo {
    /// Samples per second and channel; a decoder never reports zero.
    pub sample_rate: u32,
    /// Interleaved channels; a decoder never reports zero.
    pub channels: u16,
    /// Total duration in milliseconds, where the stream states one.
    pub duration_ms: Option<u64>,
}

impl TrackInfo {
    /// The stream parameters a decoder can report: both non-zero.
    pub open spec fn wf(self) -> bool {
        self.sample_rate >= 1 && self.channels >= 1
    }
}

/// How a decoder-side seek ended.
pub enum DecodeSeekResult {
    /// The bytes are not a decodable stream (or the decoder died on them).
    NoDecoder,
    /// The stream decodes, but does not support seeking to that position.
    SeekFailed,
    /// The samples from the requested position on.
    Seeked(Vec<i16>),
}

impl DecodeSeekResult {
    /// Whether the bytes were not a decodable stream.
    pub open spec fn is_no_decoder(self) -> bool {
        match self {
            DecodeSeekResult::NoDecoder => true,
            _ => false,
        }
    }

    /// Whether the decoder refused the position.
    pub open spec fn is_seek_failed(self) -> bool {
        match self {
            DecodeSeekResult::SeekFailed => true,
            _ => false,
        }
    }

    /// The decoded tail, where the seek succeeded.
    pub open spec fn seeked_pcm(self) -> Option<Seq<i16>> {
        match self {
            DecodeSeekResult::Seeked(v) => Some(v@),
            _ => None,
        }
    }
}

} // verus!
