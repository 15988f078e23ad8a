//! One playback lane: a non-empty, cyclically advancing playlist of tracks
//! attached to one output connection.
//!
//! A lane never ends on its own: whenever the playing track drains, the lane
//! advances one position (wrapping around) and opens the track there,
//! skipping forward over tracks that fail to open, up to one full cycle.
//! Only when every track of the lane fails does it give up with
//! [`StreamError::AllTracksFailed`].

use vstd::prelude::*;

use crate::sink::Sink;
use crate::source::{Source, StreamError};
use crate::trackstream::{OpenState, TrackStream};
use crate::volume::{clamp_volume, clamped, mix_volume, mixed, valid_volume};

verus! {

/// `i` taken back into `[0, n)`; meant for `i` in `[0, 2n)`, where it is
/// `i % n`.
pub open spec fn wrap_index(i: int, n: int) -> int {
    if i < n {
        i
    } else {
        i - n
    }
}

/// How many forward cyclic steps lead from `from` to `to`, both in `[0, n)`.
pub open spec fn cyclic_distance(from: int, to: int, n: int) -> int {
    if to >= from {
        to - from
    } else {
        to + n - from
    }
}

/// One lane: its playlist, the position in it, its output connection, the
/// stopped flag and the lane volume.
pub struct ThreadStream<S> {
    pub tracks: Vec<TrackStream<S>>,
    pub current: usize,
    pub sink: Sink,
    pub is_stopped: bool,
    pub volume: u32,
}

impl<S> ThreadStream<S> {
    /// A lane is well-formed when it has at least one track, `current`
    /// indexes into the playlist, and every volume is valid.
    pub open spec fn wf(&self) -> bool {
        &&& self.tracks@.len() > 0
        &&& (self.current as int) < self.tracks@.len()
        &&& valid_volume(self.volume)
        &&& self.sink.wf()
        &&& forall|i: int| 0 <= i < self.tracks@.len() ==> (#[trigger] self.tracks@[i]).wf()
    }

    /// `post` is `pre` after a bounded cyclic open-retry that started at
    /// track `start` and found an openable track: `post.current` is the
    /// first position from `start` (cyclically) whose open succeeded, every
    /// track passed over on the way recorded a failure (keeping its source
    /// and volume), every track the retry never reached is untouched, and
    /// the opened track is attached to the sink from its beginning.
    pub open spec fn retried_ok(pre: Self, post: Self, start: int) -> bool {
        let n = pre.tracks@.len() as int;
        let d = cyclic_distance(start, post.current as int, n);
        &&& post.tracks@.len() == n
        &&& post.volume == pre.volume
        &&& post.is_stopped == pre.is_stopped
        &&& (post.current as int) < n
        &&& post.tracks@[post.current as int] == (TrackStream {
            state: OpenState::Open,
            duration_ms: post.sink.duration_ms,
            ..pre.tracks@[post.current as int]
        })
        &&& forall|i: int|
            0 <= i < d ==> #[trigger] post.tracks@[wrap_index(start + i, n)] == (TrackStream {
                state: OpenState::Failed,
                duration_ms: 0,
                ..pre.tracks@[wrap_index(start + i, n)]
            })
        &&& forall|j: int|
            0 <= j < n && cyclic_distance(start, j, n) > d ==> #[trigger] post.tracks@[j]
                == pre.tracks@[j]
        &&& post.sink.queued
        &&& post.sink.duration_ms == post.tracks@[post.current as int].duration_ms
    }

    /// `post` is `pre` after a full failed cycle from `start`: every track
    /// of the lane recorded an open failure (keeping its source and volume)
    /// and the position is back at `start`.
    pub open spec fn retried_err(pre: Self, post: Self, start: int) -> bool {
        let n = pre.tracks@.len() as int;
        &&& post.tracks@.len() == n
        &&& post.volume == pre.volume
        &&& post.is_stopped == pre.is_stopped
        &&& post.current == start
        &&& forall|i: int|
            0 <= i < n ==> #[trigger] post.tracks@[i] == (TrackStream {
                state: OpenState::Failed,
                duration_ms: 0,
                ..pre.tracks@[i]
            })
    }

    /// `ts` is the lane freshly built over the playlist `tracks` at the
    /// lane volume `volume`: stopped and paused, at unity sink gain, with
    /// the first openable track from position `0` attached from its
    /// beginning (every earlier track recording its failure, every later
    /// one untouched).
    pub open spec fn fresh_from(tracks: Vec<TrackStream<S>>, volume: u32, ts: Self) -> bool {
        &&& ts.wf()
        &&& ts.is_stopped
        &&& ts.volume == clamped(volume)
        &&& ts.sink.paused
        &&& ts.sink.elapsed_ms == 0
        &&& ts.sink.volume == 1000
        &&& Self::retried_ok(
            ThreadStream {
                tracks: tracks,
                current: 0,
                sink: Sink {
                    queued: false,
                    duration_ms: 0,
                    elapsed_ms: 0,
                    paused: true,
                    volume: 1000,
                },
                is_stopped: true,
                volume: clamped(volume),
            },
            ts,
            0,
        )
    }

    /// One successful auto-advance: from `pre`, the lane moved one position
    /// forward (wrapping around) and opened the first openable track from
    /// there; the effective gain was re-applied and the sink's pause state
    /// ended up as `paused_after`.
    pub open spec fn advanced_ok(pre: Self, post: Self, paused_after: bool) -> bool {
        let n = pre.tracks@.len() as int;
        let start = wrap_index(pre.current + 1, n);
        &&& Self::retried_ok(pre, post, start)
        &&& post.sink.elapsed_ms == 0
        &&& post.sink.paused == paused_after
        &&& post.sink.volume == mixed(pre.volume, post.tracks@[post.current as int].volume)
    }

    /// One failed auto-advance: from `pre`, the lane moved one position
    /// forward and then every track of the lane failed to open; the sink is
    /// left detached with the pause state `paused_after`.
    pub open spec fn advanced_err(pre: Self, post: Self, paused_after: bool) -> bool {
        let n = pre.tracks@.len() as int;
        let start = wrap_index(pre.current + 1, n);
        &&& Self::retried_err(pre, post, start)
        &&& post.sink == (Sink {
            queued: false,
            duration_ms: 0,
            elapsed_ms: 0,
            paused: paused_after,
            volume: pre.sink.volume,
        })
    }

    /// The outcome of forcing the lane's position to `index` (clamped into
    /// the playlist): the track there, or the first openable one after it,
    /// was opened from its beginning with the effective gain re-applied and
    /// playback resumed only if the lane was playing (`ok`); or every track
    /// failed to open and the lane is silent (`!ok`).
    pub open spec fn went_to(pre: Self, index: usize, post: Self, ok: bool) -> bool {
        let ci = if (index as int) < pre.tracks@.len() {
            index as int
        } else {
            pre.tracks@.len() - 1
        };
        let mid = ThreadStream { current: ci as usize, ..pre };
        if ok {
            &&& Self::retried_ok(mid, post, ci)
            &&& post.sink.elapsed_ms == 0
            &&& post.sink.paused == pre.is_stopped
            &&& post.sink.volume == mixed(pre.volume, post.tracks@[post.current as int].volume)
        } else {
            &&& Self::retried_err(mid, post, ci)
            &&& post.sink == (Sink {
                queued: false,
                duration_ms: 0,
                elapsed_ms: 0,
                paused: pre.sink.paused,
                volume: pre.sink.volume,
            })
        }
    }

    /// A cyclic open-retry stops at its starting track whenever that track
    /// opens: skipping happens only on open failure.
    pub proof fn lemma_retry_stops_at_first_open(pre: Self, post: Self, start: int)
        requires
            0 <= start < pre.tracks@.len(),
            Self::retried_ok(pre, post, start),
            post.tracks@[start].state is Open,
        ensures
            post.current == start,
    {
        let n = pre.tracks@.len() as int;
        let d = cyclic_distance(start, post.current as int, n);
        if d > 0 {
            assert(wrap_index(start + 0, n) == start);
            assert(post.tracks@[start].state is Failed);
        }
    }

    /// Advancing moves the lane by exactly one position whenever the track
    /// at that next position opens successfully.
    pub proof fn lemma_advance_one_step(pre: Self, post: Self, paused_after: bool)
        requires
            pre.wf(),
            Self::advanced_ok(pre, post, paused_after),
            post.tracks@[wrap_index(pre.current + 1, pre.tracks@.len() as int)].state is Open,
        ensures
            post.current as int == wrap_index(pre.current + 1, pre.tracks@.len() as int),
    {
        let n = pre.tracks@.len() as int;
        Self::lemma_retry_stops_at_first_open(pre, post, wrap_index(pre.current + 1, n));
    }
}

impl<S: Source> ThreadStream<S> {
    /// Run-time check of [`ThreadStream::wf`], for callers outside
    /// verified code.
    pub fn is_wf(&self) -> (r: bool)
        ensures
            r == self.wf(),
    {
        if self.tracks.len() == 0 || self.current >= self.tracks.len() || self.volume > 1000 {
            return false;
        }
        if self.sink.volume > 1000 || self.sink.elapsed_ms > self.sink.duration_ms {
            return false;
        }
        let n = self.tracks.len();
        let mut i: usize = 0;
        while i < n
            invariant
                n == self.tracks@.len(),
                0 <= i <= n,
                forall|j: int| 0 <= j < i ==> (#[trigger] self.tracks@[j]).wf(),
            decreases n - i,
        {
            if self.tracks[i].volume > 1000 {
                return false;
            }
            let open = match self.tracks[i].state {
                OpenState::Open => true,
                _ => false,
            };
            if !open && self.tracks[i].duration_ms != 0 {
                return false;
            }
            i = i + 1;
        }
        true
    }

    /// Build a lane over `tracks` with the given lane volume (clamped),
    /// opening the first openable track starting from position `0`.  Fails
    /// on an empty playlist, and when every track fails to open.
    pub fn new(tracks: Vec<TrackStream<S>>, volume: u32) -> (r: Option<ThreadStream<S>>)
        requires
            forall|i: int| 0 <= i < tracks@.len() ==> (#[trigger] tracks@[i]).wf(),
        ensures
            tracks@.len() == 0 ==> r is None,
            r is Some ==> Self::fresh_from(tracks, volume, r->0),
    {
        if tracks.len() == 0 {
            return None;
        }
        let mut ts = ThreadStream {
            tracks,
            current: 0,
            sink: Sink::new(),
            is_stopped: true,
            volume: clamp_volume(volume),
        };
        match ts.goto_next_available() {
            Ok(()) => Some(ts),
            Err(_) => None,
        }
    }

    /// Open the first openable track at or cyclically after `current`,
    /// attaching it to the sink; record a failure on every track passed
    /// over.  When one full cycle fails, report `AllTracksFailed` with the
    /// sink untouched and `current` back where it was.
    fn goto_next_available(&mut self) -> (r: Result<(), StreamError>)
        requires
            old(self).wf(),
        ensures
            final(self).wf(),
            r is Ok ==> Self::retried_ok(*old(self), *final(self), old(self).current as int)
                && final(self).sink.elapsed_ms == 0 && final(self).sink.paused
                && final(self).sink.volume == old(self).sink.volume,
            r is Err ==> r == Err::<(), StreamError>(StreamError::AllTracksFailed)
                && Self::retried_err(*old(self), *final(self), old(self).current as int)
                && final(self).sink == old(self).sink,
    {
        let n = self.tracks.len();
        let mut tries: usize = 0;
        while tries < n
            invariant
                self.wf(),
                old(self).wf(),
                n == self.tracks@.len(),
                n == old(self).tracks@.len(),
                0 < n,
                tries <= n,
                self.volume == old(self).volume,
                self.is_stopped == old(self).is_stopped,
                self.sink == old(self).sink,
                self.current as int == wrap_index(old(self).current + tries, n as int),
                forall|i: int|
                    0 <= i < tries ==> #[trigger] self.tracks@[wrap_index(
                        old(self).current + i,
                        n as int,
                    )] == (TrackStream {
                        state: OpenState::Failed,
                        duration_ms: 0,
                        ..old(self).tracks@[wrap_index(old(self).current + i, n as int)]
                    }),
                forall|j: int|
                    0 <= j < n && cyclic_distance(old(self).current as int, j, n as int) >= tries
                        ==> #[trigger] self.tracks@[j] == old(self).tracks@[j],
            decreases n - tries,
        {
            let cur = self.current;
            let res = self.tracks[cur].reset_sink(&mut self.sink);
            match res {
                Ok(()) => {
                    proof {
                        let c0 = old(self).current as int;
                        let ni = n as int;
                        assert(cyclic_distance(c0, self.current as int, ni) == tries);
                        assert forall|i: int| 0 <= i < tries implies #[trigger] self.tracks@[
                        wrap_index(c0 + i, ni)] == (TrackStream {
                            state: OpenState::Failed,
                            duration_ms: 0,
                            ..old(self).tracks@[wrap_index(c0 + i, ni)]
                        }) by {
                            assert(wrap_index(c0 + i, ni) != wrap_index(c0 + tries, ni));
                        }
                        assert forall|j: int|
                            0 <= j < ni && cyclic_distance(c0, j, ni) > tries implies #[trigger] self.tracks@[j] == old(self).tracks@[j] by {
                            assert(j != wrap_index(c0 + tries, ni));
                        }
                    }
                    return Ok(());
                },
                Err(_) => {
                    self.current = if cur + 1 == n {
                        0
                    } else {
                        cur + 1
                    };
                    tries = tries + 1;
                },
            }
        }
        proof {
            let c0 = old(self).current as int;
            let ni = n as int;
            assert(self.current as int == wrap_index(c0 + ni, ni));
            assert forall|j: int| 0 <= j < ni implies #[trigger] self.tracks@[j] == (TrackStream {
                state: OpenState::Failed,
                duration_ms: 0,
                ..old(self).tracks@[j]
            }) by {
                let i = cyclic_distance(c0, j, ni);
                assert(0 <= i < ni);
                assert(wrap_index(c0 + i, ni) == j);
            }
        }
        Err(StreamError::AllTracksFailed)
    }

    /// Resume playback of the current track.
    pub fn play(&mut self)
        ensures
            *final(self) == (ThreadStream {
                is_stopped: false,
                sink: (Sink { paused: false, ..old(self).sink }),
                ..*old(self)
            }),
    {
        self.sink.play();
        self.is_stopped = false;
    }

    /// Stop the lane: detach the sink and rewind to the first track.
    pub fn stop(&mut self)
        ensures
            *final(self) == (ThreadStream {
                current: 0,
                is_stopped: true,
                sink: (Sink {
                    queued: false,
                    duration_ms: 0,
                    elapsed_ms: 0,
                    paused: true,
                    volume: old(self).sink.volume,
                }),
                ..*old(self)
            }),
    {
        self.sink.stop();
        self.sink.clear();
        self.current = 0;
        self.is_stopped = true;
    }

    /// The transport position of the current track, in thousandths of its
    /// duration; `0` while the duration is unknown.  Full scale (`1000`)
    /// is reported only in the instant a seek landed exactly on the end,
    /// before the next tick drains the track.
    pub fn get_position(&self) -> (r: u32)
        requires
            self.wf(),
        ensures
            r == self.spec_position(),
            r <= 1000,
    {
        let dur = self.tracks[self.current].duration_ms;
        let pos = self.sink.get_pos();
        if dur == 0 {
            0
        } else if pos >= dur {
            1000
        } else {
            proof {
                assert((pos * 1000) / (dur as int) <= 1000) by (nonlinear_arith)
                    requires
                        0 < dur,
                        pos <= dur,
                ;
            }
            (((pos as u128) * 1000) / (dur as u128)) as u32
        }
    }

    /// The position reported by the lane: elapsed time of the current
    /// track over its duration, scaled to thousandths.
    pub open spec fn spec_position(&self) -> int {
        let dur = self.tracks@[self.current as int].duration_ms;
        let pos = self.sink.elapsed_ms;
        if dur == 0 {
            0
        } else if pos >= dur {
            1000
        } else {
            (pos * 1000) / (dur as int)
        }
    }

    /// Set the lane volume (clamped) and re-apply the effective gain:
    /// lane volume times the current track's volume.
    pub fn update_volume(&mut self, volume: u32)
        requires
            old(self).wf(),
        ensures
            final(self).wf(),
            *final(self) == (ThreadStream {
                volume: clamped(volume),
                sink: (Sink { volume: final(self).sink.volume, ..old(self).sink }),
                ..*old(self)
            }),
            final(self).sink.volume == mixed(
                clamped(volume),
                old(self).tracks@[old(self).current as int].volume,
            ),
    {
        self.volume = clamp_volume(volume);
        let track_volume = self.tracks[self.current].volume;
        let effective = mix_volume(self.volume, track_volume);
        self.sink.set_volume(effective);
    }

    /// When the lane is playing and its sink has drained, advance one
    /// position (wrapping around), open the first openable track from
    /// there, resume playback and re-apply the effective gain.  Otherwise
    /// do nothing.
    fn next_sink_if_need(&mut self) -> (r: Result<(), StreamError>)
        requires
            old(self).wf(),
        ensures
            final(self).wf(),
            !(!old(self).is_stopped && !old(self).sink.queued) ==> r is Ok && *final(self) == *old(
                self,
            ),
            (!old(self).is_stopped && !old(self).sink.queued) ==> (r is Ok ==> Self::advanced_ok(
                *old(self),
                *final(self),
                false,
            )) && (r is Err ==> r == Err::<(), StreamError>(StreamError::AllTracksFailed)
                && Self::advanced_err(*old(self), *final(self), old(self).sink.paused)),
    {
        if !self.is_stopped && self.sink.empty() {
            self.sink.stop();
            let n = self.tracks.len();
            let cur = self.current;
            self.current = if cur + 1 == n {
                0
            } else {
                cur + 1
            };
            match self.goto_next_available() {
                Ok(()) => {},
                Err(e) => {
                    return Err(e);
                },
            }
            self.play();
            let v = self.volume;
            self.update_volume(v);
            Ok(())
        } else {
            Ok(())
        }
    }

    /// One tick of the lane: let `dt_ms` of playback time pass on the
    /// sink, then auto-advance when the playing track has drained.
    pub fn update(&mut self, dt_ms: u64) -> (r: Result<(), StreamError>)
        requires
            old(self).wf(),
        ensures
            final(self).wf(),
            ({
                let mid = ThreadStream { sink: old(self).sink.advanced_spec(dt_ms), ..*old(self) };
                &&& (!(!mid.is_stopped && !mid.sink.queued) ==> r is Ok && *final(self) == mid)
                &&& ((!mid.is_stopped && !mid.sink.queued) ==> (r is Ok ==> Self::advanced_ok(
                    mid,
                    *final(self),
                    false,
                )) && (r is Err ==> r == Err::<(), StreamError>(StreamError::AllTracksFailed)
                    && Self::advanced_err(mid, *final(self), mid.sink.paused)))
            }),
    {
        self.sink.advance(dt_ms);
        self.next_sink_if_need()
    }

    /// Pause the lane.  A drained playing track still advances first, as
    /// on a tick; an advance failure is only reflected in the lane state.
    pub fn pause(&mut self)
        requires
            old(self).wf(),
        ensures
            final(self).wf(),
            final(self).sink.paused,
            !(!old(self).is_stopped && !old(self).sink.queued) ==> *final(self) == (ThreadStream {
                sink: (Sink { paused: true, ..old(self).sink }),
                ..*old(self)
            }),
            (!old(self).is_stopped && !old(self).sink.queued) ==> Self::advanced_ok(
                *old(self),
                *final(self),
                true,
            ) || Self::advanced_err(*old(self), *final(self), true),
    {
        let _ = self.next_sink_if_need();
        self.sink.pause();
    }

    /// Hot-swap the playlist while preserving the transport position: keep
    /// `current` (clamped down when the new list is shorter), open the
    /// track there (falling back cyclically on failure), seek it to the
    /// old elapsed time (clamped to its duration), and resume playback
    /// only when the lane was playing.  On failure of every new track the
    /// lane keeps the new playlist but the sink is left untouched.
    pub fn replace_sources(&mut self, sources: Vec<TrackStream<S>>) -> (r: Result<
        (),
        StreamError,
    >)
        requires
            old(self).wf(),
            sources@.len() > 0,
            forall|i: int| 0 <= i < sources@.len() ==> (#[trigger] sources@[i]).wf(),
        ensures
            final(self).wf(),
            ({
                let ci = if (old(self).current as int) < sources@.len() {
                    old(self).current as int
                } else {
                    sources@.len() - 1
                };
                let mid = ThreadStream {
                    tracks: sources,
                    current: ci as usize,
                    ..*old(self)
                };
                &&& (r is Ok ==> Self::retried_ok(mid, *final(self), ci) && final(self).sink.paused
                    == old(self).is_stopped && final(self).sink.volume == old(self).sink.volume
                    && final(self).sink.elapsed_ms == if old(self).sink.elapsed_ms
                    <= final(self).sink.duration_ms {
                    old(self).sink.elapsed_ms
                } else {
                    final(self).sink.duration_ms
                })
                &&& (r is Err ==> r == Err::<(), StreamError>(StreamError::AllTracksFailed)
                    && Self::retried_err(mid, *final(self), ci) && final(self).sink == (Sink {
                    queued: false,
                    duration_ms: 0,
                    elapsed_ms: 0,
                    paused: true,
                    volume: old(self).sink.volume,
                }))
            }),
    {
        let n = sources.len();
        if self.current >= n {
            self.current = n - 1;
        }
        self.tracks = sources;
        let pos = self.sink.get_pos();
        let cur = self.current;
        let first_try = self.tracks[cur].reset_sink(&mut self.sink);
        match first_try {
            Ok(()) => {},
            Err(_) => {
                match self.goto_next_available() {
                    Ok(()) => {},
                    Err(e) => {
                        // every new track failed: silence the lane rather
                        // than keep playing audio the playlist no longer
                        // holds
                        self.sink.clear();
                        return Err(e);
                    },
                }
            },
        }
        self.sink.try_seek(pos);
        if !self.is_stopped {
            self.play();
        }
        Ok(())
    }

    /// Set the volume of the track at `index` (clamped into the playlist);
    /// changing the current track's volume takes effect on the sink at
    /// once, any other track's only when it comes up.
    pub fn set_partial_volume(&mut self, vol: u32, index: usize)
        requires
            old(self).wf(),
        ensures
            final(self).wf(),
            ({
                let ti = if (index as int) < old(self).tracks@.len() {
                    index as int
                } else {
                    old(self).tracks@.len() - 1
                };
                &&& final(self).tracks@ == old(self).tracks@.update(
                    ti,
                    (TrackStream { volume: clamped(vol), ..old(self).tracks@[ti] }),
                )
                &&& final(self).current == old(self).current
                &&& final(self).is_stopped == old(self).is_stopped
                &&& final(self).volume == old(self).volume
                &&& (ti == old(self).current as int ==> final(self).sink == (Sink {
                    volume: final(self).sink.volume,
                    ..old(self).sink
                }) && final(self).sink.volume == mixed(old(self).volume, clamped(vol)))
                &&& (ti != old(self).current as int ==> final(self).sink == old(self).sink)
            }),
    {
        let n = self.tracks.len();
        let ti = if index < n {
            index
        } else {
            n - 1
        };
        self.tracks[ti].set_volume(vol);
        if ti == self.current {
            let v = self.volume;
            self.update_volume(v);
        }
    }

    /// Force the lane's position to `index` (clamped into the playlist)
    /// and open the track there, with the same open-failure fallback as a
    /// natural advance; playback resumes only when the lane was playing,
    /// and the effective gain is re-applied.
    pub fn goto_track(&mut self, index: usize) -> (r: Result<(), StreamError>)
        requires
            old(self).wf(),
        ensures
            final(self).wf(),
            r is Ok ==> Self::went_to(*old(self), index, *final(self), true),
            r is Err ==> r == Err::<(), StreamError>(StreamError::AllTracksFailed)
                && Self::went_to(*old(self), index, *final(self), false),
    {
        let n = self.tracks.len();
        let idx = if index < n {
            index
        } else {
            n - 1
        };
        self.current = idx;
        self.sink.stop();
        match self.goto_next_available() {
            Ok(()) => {},
            Err(e) => {
                return Err(e);
            },
        }
        if !self.is_stopped {
            self.play();
        }
        let v = self.volume;
        self.update_volume(v);
        Ok(())
    }

    /// Append `other`'s playlist onto this lane's playlist, leaving
    /// playback untouched.
    pub fn extend(&mut self, other: ThreadStream<S>)
        ensures
            final(self).tracks@ == old(self).tracks@ + other.tracks@,
            *final(self) == (ThreadStream { tracks: final(self).tracks, ..*old(self) }),
    {
        let mut o = other;
        self.tracks.append(&mut o.tracks);
    }
}

} // verus!
