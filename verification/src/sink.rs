//! Model of the output sink: the live queueable connection to an audio
//! device, as the engines see it.
//!
//! The surrounding application mirrors this state onto the real device
//! connection: the queue holds descriptors of what was appended, `paused`
//! is the physical pause flag, `volume` the applied volume. Clearing
//! pauses and empties, stopping only empties, as the device sink does.

use vstd::prelude::*;

use crate::VOL_SCALE;

verus! {

/// The observable state of one output sink.
pub struct SinkState<D> {
    /// What has been appended and not yet discarded, in queue order.
    pub queue: Vec<D>,
    /// The physical pause flag; a fresh sink plays.
    pub paused: bool,
    /// The applied volume, on the `VOL_SCALE` scale.
    pub volume: u32,
}

impl<D> SinkState<D> {
    pub open spec fn wf(self) -> bool {
        self.volume <= VOL_SCALE
    }

    /// A fresh sink against a newly opened device: empty, playing, at the
    /// given volume.
    pub fn with_volume(volume: u32) -> (s: SinkState<D>)
        requires
            volume <= VOL_SCALE,
        ensures
            s.wf(),
            s.queue@.len() == 0,
            !s.paused,
            s.volume == volume,
    {
        SinkState { queue: Vec::new(), paused: false, volume }
    }

    /// Queue a source after whatever is already queued.
    pub fn append(&mut self, source: D)
        ensures
            final(self).queue@ == old(self).queue@.push(source),
            final(self).paused == old(self).paused,
            final(self).volume == old(self).volume,
    {
        self.queue.push(source);
    }

    /// Resume the physical state without discarding queued audio.
    pub fn play(&mut self)
        ensures
            final(self).queue@ == old(self).queue@,
            !final(self).paused,
            final(self).volume == old(self).volume,
    {
        self.paused = false;
    }

    /// Pause the physical state without discarding queued audio.
    pub fn pause(&mut self)
        ensures
            final(self).queue@ == old(self).queue@,
            final(self).paused,
            final(self).volume == old(self).volume,
    {
        self.paused = true;
    }

    /// Discard all queued audio and pause.
    pub fn clear(&mut self)
        ensures
            final(self).queue@.len() == 0,
            final(self).paused,
            final(self).volume == old(self).volume,
    {
        self.queue = Vec::new();
        self.paused = true;
    }

    /// Discard all queued audio without touching the physical state.
    pub fn stop(&mut self)
        ensures
            final(self).queue@.len() == 0,
            final(self).paused == old(self).paused,
            final(self).volume == old(self).volume,
    {
        self.queue = Vec::new();
    }

    /// Apply a volume to whatever is currently sounding.
    pub fn set_volume(&mut self, volume: u32)
        requires
            volume <= VOL_SCALE,
        ensures
            final(self).queue@ == old(self).queue@,
            final(self).paused == old(self).paused,
            final(self).volume == volume,
    {
        self.volume = volume;
    }

    /// Whether nothing is queued.
    pub fn empty(&self) -> (e: bool)
        ensures
            e == (self.queue@.len() == 0),
    {
        self.queue.len() == 0
    }
}

} // verus!
