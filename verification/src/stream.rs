//! Everything audible at one instant: an ordered collection of lanes with a
//! master volume.
//!
//! Lanes line up positionally: sequential merge concatenates playlists of
//! lanes at the same position, parallel merge appends whole new lanes, and
//! synchronize hot-swaps lane contents in place while preserving the
//! transport position.

use vstd::prelude::*;

use crate::sink::Sink;
use crate::source::{Source, StreamError};
use crate::threadstream::{cyclic_distance, wrap_index, ThreadStream};
use crate::trackstream::{OpenState, TrackStream};
use crate::volume::{clamp_volume, clamped, mixed, valid_volume, FULL_VOLUME};

verus! {

/// A collection of lanes plus a master volume.  Zero lanes is the valid,
/// silent state.
pub struct Stream<S> {
    pub playlists: Vec<ThreadStream<S>>,
    pub total_volume: u32,
}

impl<S> Stream<S> {
    /// Every lane is well-formed and the master volume is valid.
    pub open spec fn wf(&self) -> bool {
        &&& valid_volume(self.total_volume)
        &&& forall|i: int| 0 <= i < self.playlists@.len() ==> (#[trigger] self.playlists@[i]).wf()
    }

    /// The lane `post` is the lane `pre` after its playlist was hot-swapped
    /// for `sources` and the master volume `total` was re-applied: the
    /// position was clamped into the new playlist, the track there (or the
    /// first openable one after it) was opened and seeked to the old
    /// elapsed time, playback resumed only if the lane was playing, and
    /// every volume was re-mixed.  When every new track failed to open the
    /// lane is silent, with every failure recorded.
    pub open spec fn resynced(
        pre: ThreadStream<S>,
        sources: Vec<TrackStream<S>>,
        total: u32,
        post: ThreadStream<S>,
    ) -> bool {
        let n = sources@.len() as int;
        let ci = if (pre.current as int) < n {
            pre.current as int
        } else {
            n - 1
        };
        let d = cyclic_distance(ci, post.current as int, n);
        &&& post.tracks@.len() == n
        &&& post.is_stopped == pre.is_stopped
        &&& post.volume == clamped(total)
        &&& (post.current as int) < n
        &&& post.sink.volume == mixed(clamped(total), post.tracks@[post.current as int].volume)
        &&& (post.sink.queued ==> {
            &&& post.tracks@[post.current as int] == (TrackStream {
                state: OpenState::Open,
                duration_ms: post.sink.duration_ms,
                ..sources@[post.current as int]
            })
            &&& (forall|k: int|
                0 <= k < d ==> #[trigger] post.tracks@[wrap_index(ci + k, n)] == (TrackStream {
                    state: OpenState::Failed,
                    duration_ms: 0,
                    ..sources@[wrap_index(ci + k, n)]
                }))
            &&& (forall|j: int|
                0 <= j < n && cyclic_distance(ci, j, n) > d ==> #[trigger] post.tracks@[j]
                    == sources@[j])
            &&& post.sink.duration_ms == post.tracks@[post.current as int].duration_ms
            &&& post.sink.elapsed_ms == (if pre.sink.elapsed_ms <= post.sink.duration_ms {
                pre.sink.elapsed_ms
            } else {
                post.sink.duration_ms
            })
            &&& post.sink.paused == pre.is_stopped
        })
        &&& (!post.sink.queued ==> (forall|j: int|
            0 <= j < n ==> #[trigger] post.tracks@[j] == (TrackStream {
                state: OpenState::Failed,
                duration_ms: 0,
                ..sources@[j]
            })) && post.current as int == ci && post.sink.elapsed_ms == 0)
    }

    /// `post` is `pre` with the master volume set to `volume` (clamped)
    /// and the effective gain re-applied on every lane.
    pub open spec fn total_volume_set(pre: Self, volume: u32, post: Self) -> bool {
        &&& post.total_volume == clamped(volume)
        &&& post.playlists@.len() == pre.playlists@.len()
        &&& forall|i: int|
            0 <= i < pre.playlists@.len() ==> {
                let p = pre.playlists@[i];
                let q = #[trigger] post.playlists@[i];
                &&& q == (ThreadStream {
                    volume: clamped(volume),
                    sink: (Sink { volume: q.sink.volume, ..p.sink }),
                    ..p
                })
                &&& q.sink.volume == mixed(clamped(volume), p.tracks@[p.current as int].volume)
            }
    }

    /// `post` is `pre` with one track's volume set in one lane, both
    /// indices clamped; on a stream without lanes nothing changes.
    pub open spec fn partial_volume_set(
        pre: Self,
        volume: u32,
        playlist: usize,
        audio_index: usize,
        post: Self,
    ) -> bool {
        &&& post.total_volume == pre.total_volume
        &&& post.playlists@.len() == pre.playlists@.len()
        &&& (pre.playlists@.len() == 0 ==> post == pre)
        &&& (pre.playlists@.len() > 0 ==> {
            let li = if (playlist as int) < pre.playlists@.len() {
                playlist as int
            } else {
                pre.playlists@.len() - 1
            };
            let p = pre.playlists@[li];
            let ti = if (audio_index as int) < p.tracks@.len() {
                audio_index as int
            } else {
                p.tracks@.len() - 1
            };
            let q = post.playlists@[li];
            &&& (forall|j: int|
                0 <= j < pre.playlists@.len() && j != li ==> #[trigger] post.playlists@[j]
                    == pre.playlists@[j])
            &&& q.tracks@ == p.tracks@.update(
                ti,
                (TrackStream { volume: clamped(volume), ..p.tracks@[ti] }),
            )
            &&& q.current == p.current
            &&& q.is_stopped == p.is_stopped
            &&& q.volume == p.volume
            &&& (ti == p.current as int ==> q.sink == (Sink {
                volume: q.sink.volume,
                ..p.sink
            }) && q.sink.volume == mixed(p.volume, clamped(volume)))
            &&& (ti != p.current as int ==> q.sink == p.sink)
        })
    }

    /// `post` is `pre` with playback resumed on every lane.
    pub open spec fn all_playing(pre: Self, post: Self) -> bool {
        &&& post.total_volume == pre.total_volume
        &&& post.playlists@.len() == pre.playlists@.len()
        &&& forall|i: int|
            0 <= i < pre.playlists@.len() ==> #[trigger] post.playlists@[i] == (ThreadStream {
                is_stopped: false,
                sink: (Sink { paused: false, ..pre.playlists@[i].sink }),
                ..pre.playlists@[i]
            })
    }

    /// `post` is `pre` with every lane paused; a drained playing lane
    /// advanced first.
    pub open spec fn all_paused(pre: Self, post: Self) -> bool {
        &&& post.total_volume == pre.total_volume
        &&& post.playlists@.len() == pre.playlists@.len()
        &&& forall|i: int|
            0 <= i < pre.playlists@.len() ==> {
                let p = pre.playlists@[i];
                let q = #[trigger] post.playlists@[i];
                &&& q.sink.paused
                &&& (!(!p.is_stopped && !p.sink.queued) ==> q == (ThreadStream {
                    sink: (Sink { paused: true, ..p.sink }),
                    ..p
                }))
                &&& ((!p.is_stopped && !p.sink.queued) ==> ThreadStream::<S>::advanced_ok(
                    p,
                    q,
                    true,
                ) || ThreadStream::<S>::advanced_err(p, q, true))
            }
    }

    /// `post` is `pre` with every lane stopped: sinks detached and every
    /// lane rewound to its first track.
    pub open spec fn all_stopped(pre: Self, post: Self) -> bool {
        &&& post.total_volume == pre.total_volume
        &&& post.playlists@.len() == pre.playlists@.len()
        &&& forall|i: int|
            0 <= i < pre.playlists@.len() ==> #[trigger] post.playlists@[i] == (ThreadStream {
                current: 0,
                is_stopped: true,
                sink: (Sink {
                    queued: false,
                    duration_ms: 0,
                    elapsed_ms: 0,
                    paused: true,
                    volume: pre.playlists@[i].sink.volume,
                }),
                ..pre.playlists@[i]
            })
    }

    /// `post` is `pre` synchronized with `new_stream`: its master volume
    /// adopted, each common lane hot-swapped in place, extra new lanes
    /// appended and volume-mixed, and lanes beyond `new_stream`'s count
    /// left untouched.
    pub open spec fn synced_with(pre: Self, new_stream: Self, post: Self) -> bool {
        &&& post.total_volume == new_stream.total_volume
        &&& post.playlists@.len() == if pre.playlists@.len() >= new_stream.playlists@.len() {
            pre.playlists@.len()
        } else {
            new_stream.playlists@.len()
        }
        &&& forall|i: int|
            0 <= i < pre.playlists@.len() && i < new_stream.playlists@.len() ==> Self::resynced(
                pre.playlists@[i],
                new_stream.playlists@[i].tracks,
                new_stream.total_volume,
                #[trigger] post.playlists@[i],
            )
        &&& forall|i: int|
            pre.playlists@.len() <= i < new_stream.playlists@.len() ==> {
                let nl = new_stream.playlists@[i];
                let q = #[trigger] post.playlists@[i];
                &&& q == (ThreadStream {
                    volume: new_stream.total_volume,
                    sink: (Sink { volume: q.sink.volume, ..nl.sink }),
                    ..nl
                })
                &&& q.sink.volume == mixed(
                    new_stream.total_volume,
                    nl.tracks@[nl.current as int].volume,
                )
            }
        &&& forall|i: int|
            new_stream.playlists@.len() <= i < pre.playlists@.len()
                ==> #[trigger] post.playlists@[i] == pre.playlists@[i]
    }

    /// Like [`Stream::updated_by`], but no lane's whole playlist failed:
    /// every drained playing lane found an openable track.
    pub open spec fn updated_cleanly(pre: Self, dt_ms: u64, post: Self) -> bool {
        forall|i: int|
            0 <= i < pre.playlists@.len() ==> {
                let p = pre.playlists@[i];
                let q = #[trigger] post.playlists@[i];
                let mid = ThreadStream { sink: p.sink.advanced_spec(dt_ms), ..p };
                &&& (!(!mid.is_stopped && !mid.sink.queued) ==> q == mid)
                &&& ((!mid.is_stopped && !mid.sink.queued) ==> ThreadStream::<S>::advanced_ok(
                    mid,
                    q,
                    false,
                ))
            }
    }

    /// `post` is `pre` after one tick of `dt_ms`: every lane advanced its
    /// sink, and drained playing lanes moved to their next openable track.
    pub open spec fn updated_by(pre: Self, dt_ms: u64, post: Self) -> bool {
        &&& post.total_volume == pre.total_volume
        &&& post.playlists@.len() == pre.playlists@.len()
        &&& forall|i: int|
            0 <= i < pre.playlists@.len() ==> {
                let p = pre.playlists@[i];
                let q = #[trigger] post.playlists@[i];
                let mid = ThreadStream { sink: p.sink.advanced_spec(dt_ms), ..p };
                &&& (!(!mid.is_stopped && !mid.sink.queued) ==> q == mid)
                &&& ((!mid.is_stopped && !mid.sink.queued) ==> ThreadStream::<S>::advanced_ok(
                    mid,
                    q,
                    false,
                ) || ThreadStream::<S>::advanced_err(mid, q, mid.sink.paused))
            }
    }
}

impl<S: Source> Stream<S> {
    /// Run-time check of [`Stream::wf`], for callers outside verified
    /// code.
    pub fn is_wf(&self) -> (r: bool)
        ensures
            r == self.wf(),
    {
        if self.total_volume > 1000 {
            return false;
        }
        let n = self.playlists.len();
        let mut i: usize = 0;
        while i < n
            invariant
                n == self.playlists@.len(),
                self.total_volume <= 1000,
                0 <= i <= n,
                forall|j: int| 0 <= j < i ==> (#[trigger] self.playlists@[j]).wf(),
            decreases n - i,
        {
            if !self.playlists[i].is_wf() {
                return false;
            }
            i = i + 1;
        }
        true
    }

    /// Wrap existing lanes with a master volume (clamped).
    pub fn new(threads: Vec<ThreadStream<S>>, total_volume: u32) -> (s: Stream<S>)
        ensures
            s.playlists@ == threads@,
            s.total_volume == clamped(total_volume),
    {
        Stream { playlists: threads, total_volume: clamp_volume(total_volume) }
    }

    /// A stream over one source: one lane holding one track at the given
    /// volume, or a silent zero-lane stream when the source fails to open.
    /// The master volume starts at zero, as a fresh playback does.
    pub fn from_source(src: S, volume: u32) -> (s: Stream<S>)
        ensures
            s.wf(),
            s.total_volume == 0,
            s.playlists@.len() <= 1,
            s.playlists@.len() == 1 ==> {
                let pl = s.playlists@[0];
                &&& pl.tracks@.len() == 1
                &&& pl.tracks@[0].volume == clamped(volume)
                &&& pl.tracks@[0].state is Open
                &&& pl.current == 0
                &&& pl.volume == 1000
                &&& pl.is_stopped
                &&& pl.sink.queued
                &&& pl.sink.elapsed_ms == 0
                &&& pl.sink.paused
            },
    {
        let track = TrackStream::new(src, volume);
        let mut tracks: Vec<TrackStream<S>> = Vec::new();
        tracks.push(track);
        let mut playlists: Vec<ThreadStream<S>> = Vec::new();
        match ThreadStream::new(tracks, FULL_VOLUME) {
            Some(pl) => {
                playlists.push(pl);
            },
            None => {},
        }
        Stream { playlists, total_volume: 0 }
    }

    /// Set the master volume (clamped) and re-apply the effective gain on
    /// every lane.
    pub fn set_total_volume(&mut self, volume: u32)
        requires
            old(self).wf(),
        ensures
            final(self).wf(),
            final(self).total_volume == clamped(volume),
            final(self).playlists@.len() == old(self).playlists@.len(),
            forall|i: int|
                0 <= i < old(self).playlists@.len() ==> {
                    let pre = old(self).playlists@[i];
                    let post = #[trigger] final(self).playlists@[i];
                    &&& post == (ThreadStream {
                        volume: clamped(volume),
                        sink: (Sink { volume: post.sink.volume, ..pre.sink }),
                        ..pre
                    })
                    &&& post.sink.volume == mixed(
                        clamped(volume),
                        pre.tracks@[pre.current as int].volume,
                    )
                },
    {
        self.total_volume = clamp_volume(volume);
        let n = self.playlists.len();
        let mut i: usize = 0;
        while i < n
            invariant
                old(self).wf(),
                n == self.playlists@.len(),
                n == old(self).playlists@.len(),
                0 <= i <= n,
                self.total_volume == clamped(volume),
                forall|j: int| i <= j < n ==> #[trigger] self.playlists@[j] == old(
                    self,
                ).playlists@[j],
                forall|j: int|
                    0 <= j < i ==> {
                        let pre = old(self).playlists@[j];
                        let post = #[trigger] self.playlists@[j];
                        &&& post == (ThreadStream {
                            volume: clamped(volume),
                            sink: (Sink { volume: post.sink.volume, ..pre.sink }),
                            ..pre
                        })
                        &&& post.sink.volume == mixed(
                            clamped(volume),
                            pre.tracks@[pre.current as int].volume,
                        )
                        &&& post.wf()
                    },
            decreases n - i,
        {
            self.playlists[i].update_volume(volume);
            i = i + 1;
        }
    }

    /// Set one track's volume in one lane; both indices are clamped into
    /// range, and a stream without lanes is left unchanged.
    pub fn set_partial_volume(&mut self, volume: u32, playlist: usize, audio_index: usize)
        requires
            old(self).wf(),
        ensures
            final(self).wf(),
            final(self).total_volume == old(self).total_volume,
            final(self).playlists@.len() == old(self).playlists@.len(),
            old(self).playlists@.len() == 0 ==> *final(self) == *old(self),
            old(self).playlists@.len() > 0 ==> {
                let li = if (playlist as int) < old(self).playlists@.len() {
                    playlist as int
                } else {
                    old(self).playlists@.len() - 1
                };
                let pre = old(self).playlists@[li];
                let ti = if (audio_index as int) < pre.tracks@.len() {
                    audio_index as int
                } else {
                    pre.tracks@.len() - 1
                };
                let post = final(self).playlists@[li];
                &&& (forall|j: int|
                    0 <= j < old(self).playlists@.len() && j != li
                        ==> #[trigger] final(self).playlists@[j] == old(self).playlists@[j])
                &&& post.tracks@ == pre.tracks@.update(
                    ti,
                    (TrackStream { volume: clamped(volume), ..pre.tracks@[ti] }),
                )
                &&& post.current == pre.current
                &&& post.is_stopped == pre.is_stopped
                &&& post.volume == pre.volume
                &&& (ti == pre.current as int ==> post.sink == (Sink {
                    volume: post.sink.volume,
                    ..pre.sink
                }) && post.sink.volume == mixed(pre.volume, clamped(volume)))
                &&& (ti != pre.current as int ==> post.sink == pre.sink)
            },
    {
        let n = self.playlists.len();
        if n == 0 {
            return ;
        }
        let li = if playlist < n {
            playlist
        } else {
            n - 1
        };
        self.playlists[li].set_partial_volume(volume, audio_index);
    }

    /// Is this the silent, zero-lane stream?
    pub fn is_empty(&self) -> (r: bool)
        ensures
            r == (self.playlists@.len() == 0),
    {
        self.playlists.len() == 0
    }

    /// Take the lanes out of the stream.
    pub fn get_playlists(self) -> (r: Vec<ThreadStream<S>>)
        ensures
            r@ == self.playlists@,
    {
        let Stream { playlists, total_volume: _ } = self;
        playlists
    }

    /// Sequential merge: for each of `other`'s lanes in order, concatenate
    /// its playlist onto the lane at the same position, or append it as a
    /// new lane when there is none.  The resulting lane count is the larger
    /// of the two.
    pub fn merge(&mut self, other: Stream<S>)
        requires
            old(self).wf(),
            other.wf(),
        ensures
            final(self).wf(),
            final(self).total_volume == old(self).total_volume,
            final(self).playlists@.len() == if old(self).playlists@.len()
                >= other.playlists@.len() {
                old(self).playlists@.len()
            } else {
                other.playlists@.len()
            },
            forall|i: int|
                0 <= i < old(self).playlists@.len() && i < other.playlists@.len() ==> {
                    let pre = old(self).playlists@[i];
                    let post = #[trigger] final(self).playlists@[i];
                    &&& post.tracks@ == pre.tracks@ + other.playlists@[i].tracks@
                    &&& post == (ThreadStream { tracks: post.tracks, ..pre })
                },
            forall|i: int|
                old(self).playlists@.len() <= i < other.playlists@.len()
                    ==> #[trigger] final(self).playlists@[i] == other.playlists@[i],
            forall|i: int|
                other.playlists@.len() <= i < old(self).playlists@.len()
                    ==> #[trigger] final(self).playlists@[i] == old(self).playlists@[i],
    {
        let n_self = self.playlists.len();
        let mut incoming = other.get_playlists();
        let n_other = incoming.len();
        let mut i: usize = 0;
        while incoming.len() > 0
            invariant
                old(self).wf(),
                other.wf(),
                i + incoming@.len() == n_other,
                n_self == old(self).playlists@.len(),
                self.total_volume == old(self).total_volume,
                i <= other.playlists@.len(),
                incoming@ == other.playlists@.skip(i as int),
                self.playlists@.len() == if n_self >= i {
                    n_self as int
                } else {
                    i as int
                },
                forall|j: int|
                    0 <= j < i && j < n_self ==> {
                        let pre = old(self).playlists@[j];
                        let post = #[trigger] self.playlists@[j];
                        &&& post.tracks@ == pre.tracks@ + other.playlists@[j].tracks@
                        &&& post == (ThreadStream { tracks: post.tracks, ..pre })
                        &&& post.wf()
                    },
                forall|j: int|
                    n_self <= j < i ==> #[trigger] self.playlists@[j] == other.playlists@[j],
                forall|j: int|
                    i <= j < n_self ==> #[trigger] self.playlists@[j] == old(self).playlists@[j],
            decreases incoming@.len(),
        {
            let pl = incoming.remove(0);
            if i < n_self {
                self.playlists[i].extend(pl);
            } else {
                self.playlists.push(pl);
            }
            i = i + 1;
        }
    }

    /// Parallel merge: append every lane of `other` as a new, independent
    /// lane; no existing lane changes.
    pub fn merge_parallel(&mut self, other: Stream<S>)
        ensures
            final(self).playlists@ == old(self).playlists@ + other.playlists@,
            final(self).total_volume == old(self).total_volume,
    {
        let mut incoming = other.get_playlists();
        self.playlists.append(&mut incoming);
    }

    /// Adopt `new`'s master volume and hot-swap each lane's playlist for
    /// the one at the same position in `new`, preserving the transport
    /// position and play state; lanes of `new` beyond the current lane
    /// count are appended and volume-mixed at once.  Lanes only present in
    /// the old stream are left untouched.
    pub fn sync(&mut self, new: Stream<S>)
        requires
            old(self).wf(),
            new.wf(),
        ensures
            final(self).wf(),
            final(self).total_volume == new.total_volume,
            final(self).playlists@.len() == if old(self).playlists@.len()
                >= new.playlists@.len() {
                old(self).playlists@.len()
            } else {
                new.playlists@.len()
            },
            forall|i: int|
                0 <= i < old(self).playlists@.len() && i < new.playlists@.len()
                    ==> Self::resynced(
                    old(self).playlists@[i],
                    new.playlists@[i].tracks,
                    new.total_volume,
                    #[trigger] final(self).playlists@[i],
                ),
            forall|i: int|
                old(self).playlists@.len() <= i < new.playlists@.len() ==> {
                    let nl = new.playlists@[i];
                    let post = #[trigger] final(self).playlists@[i];
                    &&& post == (ThreadStream {
                        volume: new.total_volume,
                        sink: (Sink { volume: post.sink.volume, ..nl.sink }),
                        ..nl
                    })
                    &&& post.sink.volume == mixed(
                        new.total_volume,
                        nl.tracks@[nl.current as int].volume,
                    )
                },
            forall|i: int|
                new.playlists@.len() <= i < old(self).playlists@.len()
                    ==> #[trigger] final(self).playlists@[i] == old(self).playlists@[i],
    {
        let n_self = self.playlists.len();
        let total = clamp_volume(new.total_volume);
        proof {
            assert(clamped(new.total_volume) == new.total_volume);
        }
        self.total_volume = total;
        let mut incoming = new.get_playlists();
        let n_new = incoming.len();
        let mut i: usize = 0;
        while incoming.len() > 0
            invariant
                old(self).wf(),
                new.wf(),
                i + incoming@.len() == n_new,
                total == new.total_volume,
                n_self == old(self).playlists@.len(),
                self.total_volume == new.total_volume,
                i <= new.playlists@.len(),
                incoming@ == new.playlists@.skip(i as int),
                self.playlists@.len() == if n_self >= i {
                    n_self as int
                } else {
                    i as int
                },
                forall|j: int|
                    0 <= j < i && j < n_self ==> Self::resynced(
                        old(self).playlists@[j],
                        new.playlists@[j].tracks,
                        new.total_volume,
                        #[trigger] self.playlists@[j],
                    ) && self.playlists@[j].wf(),
                forall|j: int|
                    n_self <= j < i ==> {
                        let nl = new.playlists@[j];
                        let post = #[trigger] self.playlists@[j];
                        &&& post == (ThreadStream {
                            volume: new.total_volume,
                            sink: (Sink { volume: post.sink.volume, ..nl.sink }),
                            ..nl
                        })
                        &&& post.sink.volume == mixed(
                            new.total_volume,
                            nl.tracks@[nl.current as int].volume,
                        )
                        &&& post.wf()
                    },
                forall|j: int|
                    i <= j < n_self ==> #[trigger] self.playlists@[j] == old(self).playlists@[j],
            decreases incoming@.len(),
        {
            let pl = incoming.remove(0);
            if i < n_self {
                let ThreadStream { tracks, .. } = pl;
                let _ = self.playlists[i].replace_sources(tracks);
                self.playlists[i].update_volume(total);
            } else {
                self.playlists.push(pl);
                self.playlists[i].update_volume(total);
            }
            i = i + 1;
        }
    }

    /// Resume playback on every lane.
    pub fn play(&mut self)
        requires
            old(self).wf(),
        ensures
            final(self).wf(),
            final(self).total_volume == old(self).total_volume,
            final(self).playlists@.len() == old(self).playlists@.len(),
            forall|i: int|
                0 <= i < old(self).playlists@.len() ==> #[trigger] final(self).playlists@[i]
                    == (ThreadStream {
                    is_stopped: false,
                    sink: (Sink { paused: false, ..old(self).playlists@[i].sink }),
                    ..old(self).playlists@[i]
                }),
    {
        let n = self.playlists.len();
        let mut i: usize = 0;
        while i < n
            invariant
                old(self).wf(),
                n == self.playlists@.len(),
                n == old(self).playlists@.len(),
                self.total_volume == old(self).total_volume,
                forall|j: int| i <= j < n ==> #[trigger] self.playlists@[j] == old(
                    self,
                ).playlists@[j],
                forall|j: int|
                    0 <= j < i ==> #[trigger] self.playlists@[j] == (ThreadStream {
                        is_stopped: false,
                        sink: (Sink { paused: false, ..old(self).playlists@[j].sink }),
                        ..old(self).playlists@[j]
                    }),
            decreases n - i,
        {
            self.playlists[i].play();
            i = i + 1;
        }
    }

    /// Pause every lane; a drained playing lane still advances first, as
    /// on a tick.
    pub fn pause(&mut self)
        requires
            old(self).wf(),
        ensures
            final(self).wf(),
            final(self).total_volume == old(self).total_volume,
            final(self).playlists@.len() == old(self).playlists@.len(),
            forall|i: int|
                0 <= i < old(self).playlists@.len() ==> {
                    let pre = old(self).playlists@[i];
                    let post = #[trigger] final(self).playlists@[i];
                    &&& post.sink.paused
                    &&& (!(!pre.is_stopped && !pre.sink.queued) ==> post == (ThreadStream {
                        sink: (Sink { paused: true, ..pre.sink }),
                        ..pre
                    }))
                    &&& ((!pre.is_stopped && !pre.sink.queued)
                        ==> ThreadStream::<S>::advanced_ok(pre, post, true)
                        || ThreadStream::<S>::advanced_err(pre, post, true))
                },
    {
        let n = self.playlists.len();
        let mut i: usize = 0;
        while i < n
            invariant
                old(self).wf(),
                n == self.playlists@.len(),
                n == old(self).playlists@.len(),
                self.total_volume == old(self).total_volume,
                forall|j: int| i <= j < n ==> #[trigger] self.playlists@[j] == old(
                    self,
                ).playlists@[j],
                forall|j: int|
                    0 <= j < i ==> {
                        let pre = old(self).playlists@[j];
                        let post = #[trigger] self.playlists@[j];
                        &&& post.wf()
                        &&& post.sink.paused
                        &&& (!(!pre.is_stopped && !pre.sink.queued) ==> post == (ThreadStream {
                            sink: (Sink { paused: true, ..pre.sink }),
                            ..pre
                        }))
                        &&& ((!pre.is_stopped && !pre.sink.queued)
                            ==> ThreadStream::<S>::advanced_ok(pre, post, true)
                            || ThreadStream::<S>::advanced_err(pre, post, true))
                    },
            decreases n - i,
        {
            self.playlists[i].pause();
            i = i + 1;
        }
    }

    /// Stop every lane: detach each sink and rewind each lane to its first
    /// track.
    pub fn stop(&mut self)
        requires
            old(self).wf(),
        ensures
            final(self).wf(),
            final(self).total_volume == old(self).total_volume,
            final(self).playlists@.len() == old(self).playlists@.len(),
            forall|i: int|
                0 <= i < old(self).playlists@.len() ==> #[trigger] final(self).playlists@[i]
                    == (ThreadStream {
                    current: 0,
                    is_stopped: true,
                    sink: (Sink {
                        queued: false,
                        duration_ms: 0,
                        elapsed_ms: 0,
                        paused: true,
                        volume: old(self).playlists@[i].sink.volume,
                    }),
                    ..old(self).playlists@[i]
                }),
    {
        let n = self.playlists.len();
        let mut i: usize = 0;
        while i < n
            invariant
                old(self).wf(),
                n == self.playlists@.len(),
                n == old(self).playlists@.len(),
                self.total_volume == old(self).total_volume,
                forall|j: int| i <= j < n ==> #[trigger] self.playlists@[j] == old(
                    self,
                ).playlists@[j],
                forall|j: int|
                    0 <= j < i ==> #[trigger] self.playlists@[j] == (ThreadStream {
                        current: 0,
                        is_stopped: true,
                        sink: (Sink {
                            queued: false,
                            duration_ms: 0,
                            elapsed_ms: 0,
                            paused: true,
                            volume: old(self).playlists@[j].sink.volume,
                        }),
                        ..old(self).playlists@[j]
                    }),
            decreases n - i,
        {
            self.playlists[i].stop();
            i = i + 1;
        }
    }

    /// The transport position of the first lane, the reference for
    /// progress display; a stream without lanes reports zero.
    pub fn get_position(&self) -> (r: u32)
        requires
            self.wf(),
        ensures
            self.playlists@.len() == 0 ==> r == 0,
            self.playlists@.len() > 0 ==> r == self.playlists@[0].spec_position(),
            r <= 1000,
    {
        if self.playlists.len() == 0 {
            0
        } else {
            self.playlists[0].get_position()
        }
    }

    /// One tick: let `dt_ms` of playback time pass on every lane, driving
    /// natural advancement.  The first lane whose whole playlist failed to
    /// open is reported, after every lane was still updated.
    pub fn update(&mut self, dt_ms: u64) -> (r: Result<(), StreamError>)
        requires
            old(self).wf(),
        ensures
            final(self).wf(),
            final(self).total_volume == old(self).total_volume,
            final(self).playlists@.len() == old(self).playlists@.len(),
            r is Err ==> r == Err::<(), StreamError>(StreamError::AllTracksFailed),
            Self::updated_by(*old(self), dt_ms, *final(self)),
            r is Ok ==> Self::updated_cleanly(*old(self), dt_ms, *final(self)),
    {
        let n = self.playlists.len();
        let mut i: usize = 0;
        let mut r: Result<(), StreamError> = Ok(());
        while i < n
            invariant
                old(self).wf(),
                n == self.playlists@.len(),
                n == old(self).playlists@.len(),
                self.total_volume == old(self).total_volume,
                r is Err ==> r == Err::<(), StreamError>(StreamError::AllTracksFailed),
                forall|j: int| i <= j < n ==> #[trigger] self.playlists@[j] == old(
                    self,
                ).playlists@[j],
                forall|j: int|
                    0 <= j < i ==> {
                        let pre = old(self).playlists@[j];
                        let post = #[trigger] self.playlists@[j];
                        let mid = ThreadStream { sink: pre.sink.advanced_spec(dt_ms), ..pre };
                        &&& post.wf()
                        &&& (!(!mid.is_stopped && !mid.sink.queued) ==> post == mid)
                        &&& ((!mid.is_stopped && !mid.sink.queued) ==> ThreadStream::<
                            S,
                        >::advanced_ok(mid, post, false) || ThreadStream::<S>::advanced_err(
                            mid,
                            post,
                            mid.sink.paused,
                        ))
                        &&& (r is Ok ==> ((!mid.is_stopped && !mid.sink.queued)
                            ==> ThreadStream::<S>::advanced_ok(mid, post, false)))
                    },
            decreases n - i,
        {
            match self.playlists[i].update(dt_ms) {
                Ok(()) => {},
                Err(e) => {
                    if r.is_ok() {
                        r = Err(e);
                    }
                },
            }
            i = i + 1;
        }
        r
    }
}

} // verus!
