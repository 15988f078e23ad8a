//! One track of a lane: a source capability with its own volume.

use vstd::prelude::*;

use crate::sink::Sink;
use crate::source::{Source, StreamError};
use crate::volume::{clamp_volume, clamped, valid_volume};

verus! {

/// The recorded outcome of the latest attempt to open a track's source.
#[derive(Clone, Copy, Debug, PartialEq, Eq, Structural)]
pub enum OpenState {
    /// No open was attempted yet.
    Untried,
    /// The latest attempt succeeded.
    Open,
    /// The latest attempt failed.
    Failed,
}

/// One track: a lazy source-opening capability, a per-track volume, and the
/// duration learned from the latest successful open (zero before one).
pub struct TrackStream<S> {
    pub source: S,
    pub volume: u32,
    pub duration_ms: u64,
    pub state: OpenState,
}

impl<S> TrackStream<S> {
    /// The track's volume is a valid volume, and a duration is only cached
    /// once an open succeeded.
    pub open spec fn wf(&self) -> bool {
        valid_volume(self.volume) && (!(self.state is Open) ==> self.duration_ms == 0)
    }
}

impl<S: Source> TrackStream<S> {
    /// Wrap a source with a volume (clamped); nothing is opened yet.
    pub fn new(source: S, volume: u32) -> (t: TrackStream<S>)
        ensures
            t == (TrackStream {
                source: source,
                volume: clamped(volume),
                duration_ms: 0,
                state: OpenState::Untried,
            }),
            t.wf(),
    {
        TrackStream { source, volume: clamp_volume(volume), duration_ms: 0, state: OpenState::Untried }
    }

    /// Open the source and attach its decoded output to `sink`, replacing
    /// any previous content.  On failure the sink is left untouched and the
    /// failure is recorded.  Either way the track keeps its source and its
    /// volume: only the recorded outcome and the cached duration change.
    pub fn reset_sink(&mut self, sink: &mut Sink) -> (r: Result<(), StreamError>)
        ensures
            r is Ok ==> *final(self) == (TrackStream {
                state: OpenState::Open,
                duration_ms: final(sink).duration_ms,
                ..*old(self)
            }),
            r is Ok ==> *final(sink) == (Sink {
                queued: true,
                duration_ms: final(self).duration_ms,
                elapsed_ms: 0,
                paused: true,
                volume: old(sink).volume,
            }),
            r is Err ==> *final(self) == (TrackStream {
                state: OpenState::Failed,
                duration_ms: 0,
                ..*old(self)
            }) && *final(sink) == *old(sink) && r == Err::<(), StreamError>(
                StreamError::SourceOpenError,
            ),
            old(self).wf() ==> final(self).wf(),
            old(sink).wf() ==> final(sink).wf(),
    {
        match self.source.open() {
            Ok(duration_ms) => {
                self.duration_ms = duration_ms;
                self.state = OpenState::Open;
                sink.clear();
                sink.append(duration_ms);
                Ok(())
            },
            Err(_) => {
                self.duration_ms = 0;
                self.state = OpenState::Failed;
                Err(StreamError::SourceOpenError)
            },
        }
    }

    pub fn get_volume(&self) -> (r: u32)
        ensures
            r == self.volume,
    {
        self.volume
    }

    /// Store a volume, clamped into the unit range.
    pub fn set_volume(&mut self, v: u32)
        ensures
            *final(self) == (TrackStream { volume: clamped(v), ..*old(self) }),
            old(self).wf() ==> final(self).wf(),
    {
        self.volume = clamp_volume(v);
    }

    /// The duration learned from the latest successful open; zero before
    /// any open succeeded.
    pub fn total_duration(&self) -> (r: u64)
        ensures
            r == self.duration_ms,
    {
        self.duration_ms
    }
}

} // verus!
