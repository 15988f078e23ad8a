//! The model of one hardware output connection.
//!
//! A lane owns one `Sink`: at most one decoded source is attached to it at a
//! time, playback position advances while it is neither paused nor drained,
//! and a gain is applied to whatever is attached.  The real device lives in
//! the surrounding application; the engine's decisions depend only on the
//! state modeled here, which the application keeps in step with the device
//! by advancing the clock through [`Sink::advance`].

use vstd::prelude::*;

use crate::volume::{clamp_volume, clamped, valid_volume, FULL_VOLUME};

verus! {

/// One output connection: the attached source, transport position, pause
/// state and applied gain.
pub struct Sink {
    /// Is a decoded source currently attached (queued and not yet drained)?
    pub queued: bool,
    /// Total duration of the attached source, in milliseconds.
    pub duration_ms: u64,
    /// Elapsed playback time within the attached source, in milliseconds.
    pub elapsed_ms: u64,
    /// Is playback paused?
    pub paused: bool,
    /// Applied gain, in thousandths.
    pub volume: u32,
}

impl Sink {
    /// The sink's state is consistent: the gain is a valid volume and the
    /// position never passes the end of the attached source.
    pub open spec fn wf(&self) -> bool {
        valid_volume(self.volume) && self.elapsed_ms <= self.duration_ms
    }

    /// A fresh connection: nothing attached, paused, unity gain.
    pub fn new() -> (s: Sink)
        ensures
            s == (Sink { queued: false, duration_ms: 0, elapsed_ms: 0, paused: true, volume: 1000 }),
            s.wf(),
    {
        Sink { queued: false, duration_ms: 0, elapsed_ms: 0, paused: true, volume: FULL_VOLUME }
    }

    /// Detach whatever is attached and pause.
    pub fn clear(&mut self)
        ensures
            *final(self) == (Sink {
                queued: false,
                duration_ms: 0,
                elapsed_ms: 0,
                paused: true,
                volume: old(self).volume,
            }),
            old(self).wf() ==> final(self).wf(),
    {
        self.queued = false;
        self.duration_ms = 0;
        self.elapsed_ms = 0;
        self.paused = true;
    }

    /// Detach whatever is attached, keeping the pause state.
    pub fn stop(&mut self)
        ensures
            *final(self) == (Sink {
                queued: false,
                duration_ms: 0,
                elapsed_ms: 0,
                paused: old(self).paused,
                volume: old(self).volume,
            }),
            old(self).wf() ==> final(self).wf(),
    {
        self.queued = false;
        self.duration_ms = 0;
        self.elapsed_ms = 0;
    }

    /// Attach a decoded source of the given duration, from its beginning.
    pub fn append(&mut self, duration_ms: u64)
        ensures
            *final(self) == (Sink {
                queued: true,
                duration_ms: duration_ms,
                elapsed_ms: 0,
                paused: old(self).paused,
                volume: old(self).volume,
            }),
            old(self).wf() ==> final(self).wf(),
    {
        self.queued = true;
        self.duration_ms = duration_ms;
        self.elapsed_ms = 0;
    }

    /// Resume playback.
    pub fn play(&mut self)
        ensures
            *final(self) == (Sink { paused: false, ..*old(self) }),
    {
        self.paused = false;
    }

    /// Pause playback.
    pub fn pause(&mut self)
        ensures
            *final(self) == (Sink { paused: true, ..*old(self) }),
    {
        self.paused = true;
    }

    /// Is nothing attached?
    pub fn empty(&self) -> (r: bool)
        ensures
            r == !self.queued,
    {
        !self.queued
    }

    /// The elapsed playback time of the attached source.
    pub fn get_pos(&self) -> (r: u64)
        ensures
            r == self.elapsed_ms,
    {
        self.elapsed_ms
    }

    /// Seek the attached source, clamping to its duration; without an
    /// attached source this does nothing.
    pub fn try_seek(&mut self, pos_ms: u64)
        ensures
            old(self).queued ==> *final(self) == (Sink {
                elapsed_ms: if pos_ms <= old(self).duration_ms {
                    pos_ms
                } else {
                    old(self).duration_ms
                },
                ..*old(self)
            }),
            !old(self).queued ==> *final(self) == *old(self),
            old(self).wf() ==> final(self).wf(),
    {
        if self.queued {
            if pos_ms <= self.duration_ms {
                self.elapsed_ms = pos_ms;
            } else {
                self.elapsed_ms = self.duration_ms;
            }
        }
    }

    /// Apply a gain, clamped into `[0, FULL_VOLUME]`.
    pub fn set_volume(&mut self, volume: u32)
        ensures
            *final(self) == (Sink { volume: clamped(volume), ..*old(self) }),
            final(self).volume <= 1000,
    {
        self.volume = clamp_volume(volume);
    }

    /// The sink after `dt_ms` of playback time: while attached and
    /// unpaused the position advances; reaching the end of the attached
    /// source drains it, leaving the sink empty.
    pub open spec fn advanced_spec(self, dt_ms: u64) -> Sink {
        if !self.queued || self.paused || dt_ms == 0 {
            self
        } else if dt_ms >= self.duration_ms - self.elapsed_ms {
            Sink { queued: false, duration_ms: 0, elapsed_ms: 0, ..self }
        } else {
            Sink { elapsed_ms: (self.elapsed_ms + dt_ms) as u64, ..self }
        }
    }

    /// Let `dt_ms` of playback time pass; see [`Sink::advanced_spec`].
    pub fn advance(&mut self, dt_ms: u64)
        requires
            old(self).wf(),
        ensures
            final(self).wf(),
            *final(self) == old(self).advanced_spec(dt_ms),
    {
        if self.queued && !self.paused && dt_ms > 0 {
            if dt_ms >= self.duration_ms - self.elapsed_ms {
                // the attached source has played to its end and drains
                self.queued = false;
                self.duration_ms = 0;
                self.elapsed_ms = 0;
            } else {
                self.elapsed_ms = self.elapsed_ms + dt_ms;
            }
        }
    }
}

} // verus!
