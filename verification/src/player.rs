//! The playback actor's state machine.
//!
//! A player owns at most one live stream and publishes the transport
//! position and the per-lane current-track indices for a UI to poll.  The
//! surrounding application runs the worker loop: each iteration it drains
//! at most one pending command into [`Player::handle_command`] and then
//! lets one tick of the clock pass through [`Player::tick`]; everything
//! the loop decides is here, verified.

use vstd::prelude::*;

use crate::source::{Source, StreamError};
use crate::stream::Stream;
use crate::threadstream::ThreadStream;

verus! {

/// The commands a player processes, strictly in receipt order.
pub enum Command<S> {
    /// Adopt a brand-new stream, discarding any previous one.
    SetStream(Stream<S>),
    /// Synchronize the live stream with a freshly rendered one; without a
    /// live stream this behaves like `SetStream`.
    SyncStream(Stream<S>),
    Play,
    Pause,
    Stop,
    /// Return to the empty state, discarding the stream.
    Reset,
    /// Set the master volume.
    SetVolume(u32),
    /// Set one track's volume in one lane.
    SetTrackVolume(u32, usize, usize),
    /// Force one lane's current track, with the usual open-failure
    /// fallback.
    GotoTrack(usize, usize),
}

impl<S> Command<S> {
    /// Any stream a command carries is well-formed.
    pub open spec fn wf(self) -> bool {
        match self {
            Command::SetStream(s) => s.wf(),
            Command::SyncStream(s) => s.wf(),
            _ => true,
        }
    }
}

/// The player: the live stream, the pause flag, and the published
/// transport state the UI reads.
pub struct Player<S> {
    pub stream: Option<Stream<S>>,
    pub paused: bool,
    /// Published transport position of the reference lane, in thousandths.
    pub position: u32,
    /// Published current-track index of each lane.
    pub playing: Vec<usize>,
}

impl<S> Player<S> {
    pub open spec fn wf(&self) -> bool {
        &&& (self.stream matches Some(s) ==> s.wf())
        &&& self.position <= 1000
    }
}

impl<S: Source> Player<S> {
    /// A fresh player: empty, paused, with nothing published.
    pub fn new() -> (p: Player<S>)
        ensures
            p.stream is None,
            p.paused,
            p.position == 0,
            p.playing@.len() == 0,
            p.wf(),
    {
        Player { stream: None, paused: true, position: 0, playing: Vec::new() }
    }

    /// Process one command.  Commands that need a live stream are ignored
    /// while there is none; `Reset` empties the player and its published
    /// state.
    pub fn handle_command(&mut self, cmd: Command<S>)
        requires
            old(self).wf(),
            cmd.wf(),
        ensures
            final(self).wf(),
            final(self).position == old(self).position || (cmd matches Command::Reset),
            final(self).playing@ == old(self).playing@ || (cmd matches Command::Reset),
            (cmd matches Command::Reset) ==> final(self).stream is None && final(self).position
                == 0 && final(self).playing@.len() == 0 && final(self).paused,
            cmd matches Command::SetStream(s) ==> *final(self) == (Player {
                stream: Some(s),
                ..*old(self)
            }),
            cmd matches Command::SyncStream(s) ==> (old(self).stream is None ==> *final(self)
                == (Player { stream: Some(s), ..*old(self) })),
            cmd matches Command::SyncStream(s) ==> (old(self).stream matches Some(t) ==> (
            *final(self) matches (Player { stream: Some(t2), .. }) && Stream::synced_with(t, s, t2)
                && *final(self) == (Player { stream: final(self).stream, ..*old(self) }))),
            cmd matches Command::Play ==> (old(self).stream is None ==> *final(self) == *old(self)),
            cmd matches Command::Play ==> (old(self).stream matches Some(t) ==> (*final(self)
                matches (Player { stream: Some(t2), paused: false, .. }) && Stream::all_playing(
                t,
                t2,
            ) && final(self).position == old(self).position && final(self).playing@ == old(self).playing@)),
            cmd matches Command::Pause ==> (old(self).stream is None ==> *final(self) == *old(self)),
            cmd matches Command::Pause ==> (old(self).stream matches Some(t) ==> (*final(self)
                matches (Player { stream: Some(t2), paused: true, .. }) && Stream::all_paused(
                t,
                t2,
            ) && final(self).position == old(self).position && final(self).playing@ == old(self).playing@)),
            cmd matches Command::Stop ==> (old(self).stream is None ==> *final(self) == *old(self)),
            cmd matches Command::Stop ==> (old(self).stream matches Some(t) ==> (*final(self)
                matches (Player { stream: Some(t2), paused: true, .. }) && Stream::all_stopped(
                t,
                t2,
            ) && final(self).position == old(self).position && final(self).playing@ == old(self).playing@)),
            cmd matches Command::SetVolume(v) ==> (old(self).stream is None ==> *final(self)
                == *old(self)),
            cmd matches Command::SetVolume(v) ==> (old(self).stream matches Some(t) ==> (
            *final(self) matches (Player { stream: Some(t2), .. }) && Stream::total_volume_set(
                t,
                v,
                t2,
            ) && *final(self) == (Player { stream: final(self).stream, ..*old(self) }))),
            cmd matches Command::SetTrackVolume(v, l, i) ==> (old(self).stream is None ==> *final(self) == *old(self)),
            cmd matches Command::SetTrackVolume(v, l, i) ==> (old(self).stream matches Some(t)
                ==> (*final(self) matches (Player { stream: Some(t2), .. })
                && Stream::partial_volume_set(t, v, l, i, t2) && *final(self) == (Player {
                stream: final(self).stream,
                ..*old(self)
            }))),
            cmd matches Command::GotoTrack(l, i) ==> (old(self).stream is None ==> *final(self)
                == *old(self)),
            cmd matches Command::GotoTrack(l, i) ==> (old(self).stream matches Some(t) ==> (
            *final(self) matches (Player { stream: Some(t2), .. }) && t2.wf()
                && t2.playlists@.len() == t.playlists@.len() && t2.total_volume == t.total_volume
                && (forall|j: int|
                0 <= j < t.playlists@.len() && j != (if (l as int) < t.playlists@.len() {
                    l as int
                } else {
                    t.playlists@.len() - 1
                }) ==> #[trigger] t2.playlists@[j] == t.playlists@[j]) && (t.playlists@.len() > 0
                ==> {
                let li = if (l as int) < t.playlists@.len() {
                    l as int
                } else {
                    t.playlists@.len() - 1
                };
                ||| ThreadStream::went_to(t.playlists@[li], i, t2.playlists@[li], true)
                ||| ThreadStream::went_to(t.playlists@[li], i, t2.playlists@[li], false)
            }) && *final(self) == (Player {
                stream: final(self).stream,
                ..*old(self)
            }))),
    {
        match cmd {
            Command::SetStream(s) => {
                self.stream = Some(s);
            },
            Command::SyncStream(s) => {
                match &mut self.stream {
                    Some(t) => {
                        t.sync(s);
                    },
                    None => {
                        self.stream = Some(s);
                    },
                }
            },
            Command::Play => {
                match &mut self.stream {
                    Some(t) => {
                        t.play();
                        self.paused = false;
                    },
                    None => {},
                }
            },
            Command::Pause => {
                match &mut self.stream {
                    Some(t) => {
                        t.pause();
                        self.paused = true;
                    },
                    None => {},
                }
            },
            Command::Stop => {
                match &mut self.stream {
                    Some(t) => {
                        t.stop();
                        t.pause();
                        self.paused = true;
                    },
                    None => {},
                }
            },
            Command::Reset => {
                self.stream = None;
                self.position = 0;
                self.playing = Vec::new();
                self.paused = true;
            },
            Command::SetVolume(v) => {
                match &mut self.stream {
                    Some(t) => {
                        t.set_total_volume(v);
                    },
                    None => {},
                }
            },
            Command::SetTrackVolume(v, lane, index) => {
                match &mut self.stream {
                    Some(t) => {
                        t.set_partial_volume(v, lane, index);
                    },
                    None => {},
                }
            },
            Command::GotoTrack(lane, index) => {
                match &mut self.stream {
                    Some(t) => {
                        let n = t.playlists.len();
                        if n > 0 {
                            let li = if lane < n {
                                lane
                            } else {
                                n - 1
                            };
                            let _ = t.playlists[li].goto_track(index);
                        }
                    },
                    None => {},
                }
            },
        }
    }

    /// One tick of the worker loop: let `dt_ms` of playback time pass on
    /// the live stream (driving natural lane advancement) and publish the
    /// transport position and the per-lane current-track indices.  With no
    /// stream nothing happens.
    pub fn tick(&mut self, dt_ms: u64) -> (r: Result<(), StreamError>)
        requires
            old(self).wf(),
        ensures
            final(self).wf(),
            final(self).paused == old(self).paused,
            old(self).stream is None ==> *final(self) == *old(self) && r is Ok,
            old(self).stream matches Some(t) ==> (r is Ok ==> (*final(self) matches (Player {
                stream: Some(t3),
                ..
            }) && Stream::updated_cleanly(t, dt_ms, t3))),
            old(self).stream matches Some(t) ==> (*final(self) matches (Player {
                stream: Some(t2),
                ..
            }) && Stream::updated_by(t, dt_ms, t2) && final(self).position == (
            if t2.playlists@.len() == 0 {
                0int
            } else {
                t2.playlists@[0].spec_position()
            }) && final(self).playing@.len() == t2.playlists@.len() && (forall|i: int|
                0 <= i < t2.playlists@.len() ==> #[trigger] final(self).playing@[i]
                    == t2.playlists@[i].current)),
            r is Err ==> r == Err::<(), StreamError>(StreamError::AllTracksFailed),
    {
        match &mut self.stream {
            Some(t) => {
                let r = t.update(dt_ms);
                self.position = t.get_position();
                let n = t.playlists.len();
                let mut playing: Vec<usize> = Vec::new();
                let mut i: usize = 0;
                while i < n
                    invariant
                        n == t.playlists@.len(),
                        0 <= i <= n,
                        playing@.len() == i,
                        forall|k: int|
                            0 <= k < i ==> #[trigger] playing@[k] == t.playlists@[k].current,
                    decreases n - i,
                {
                    playing.push(t.playlists[i].current);
                    i = i + 1;
                }
                self.playing = playing;
                r
            },
            None => Ok(()),
        }
    }

    /// Adopt a brand-new stream, discarding any previous one.
    pub fn set_stream(&mut self, stream: Stream<S>)
        requires
            old(self).wf(),
            stream.wf(),
        ensures
            final(self).wf(),
            *final(self) == (Player { stream: Some(stream), ..*old(self) }),
    {
        self.handle_command(Command::SetStream(stream));
    }

    /// Resume playback of the live stream; without one nothing happens.
    pub fn play(&mut self)
        requires
            old(self).wf(),
        ensures
            final(self).wf(),
            old(self).stream is None ==> *final(self) == *old(self),
            old(self).stream matches Some(t) ==> (*final(self) matches (Player {
                stream: Some(t2),
                paused: false,
                ..
            }) && Stream::all_playing(t, t2) && final(self).position == old(self).position
                && final(self).playing@ == old(self).playing@),
    {
        self.handle_command(Command::Play);
    }

    /// Pause the live stream; without one nothing happens.
    pub fn pause(&mut self)
        requires
            old(self).wf(),
        ensures
            final(self).wf(),
            old(self).stream is None ==> *final(self) == *old(self),
            old(self).stream matches Some(t) ==> (*final(self) matches (Player {
                stream: Some(t2),
                paused: true,
                ..
            }) && Stream::all_paused(t, t2) && final(self).position == old(self).position
                && final(self).playing@ == old(self).playing@),
    {
        self.handle_command(Command::Pause);
    }

    /// Stop the live stream; without one nothing happens.
    pub fn stop(&mut self)
        requires
            old(self).wf(),
        ensures
            final(self).wf(),
            old(self).stream is None ==> *final(self) == *old(self),
            old(self).stream matches Some(t) ==> (*final(self) matches (Player {
                stream: Some(t2),
                paused: true,
                ..
            }) && Stream::all_stopped(t, t2) && final(self).position == old(self).position
                && final(self).playing@ == old(self).playing@),
    {
        self.handle_command(Command::Stop);
    }

    /// Set the live stream's master volume; without one nothing happens.
    pub fn set_volume(&mut self, volume: u32)
        requires
            old(self).wf(),
        ensures
            final(self).wf(),
            old(self).stream is None ==> *final(self) == *old(self),
            old(self).stream matches Some(t) ==> (*final(self) matches (Player {
                stream: Some(t2),
                ..
            }) && Stream::total_volume_set(t, volume, t2) && *final(self) == (Player {
                stream: final(self).stream,
                ..*old(self)
            })),
    {
        self.handle_command(Command::SetVolume(volume));
    }

    /// The published transport position, in thousandths.
    pub fn get_position(&self) -> (r: u32)
        ensures
            r == self.position,
    {
        self.position
    }

    /// The published current-track index of each lane; empty while no
    /// stream is live.
    pub fn currently_playing(&self) -> (r: Vec<usize>)
        ensures
            r@ == self.playing@,
    {
        let n = self.playing.len();
        let mut r: Vec<usize> = Vec::new();
        let mut i: usize = 0;
        while i < n
            invariant
                n == self.playing@.len(),
                0 <= i <= n,
                r@ == self.playing@.take(i as int),
            decreases n - i,
        {
            r.push(self.playing[i]);
            proof {
                assert(r@ =~= self.playing@.take(i + 1));
            }
            i = i + 1;
        }
        proof {
            assert(r@ =~= self.playing@);
        }
        r
    }

    pub fn is_paused(&self) -> (r: bool)
        ensures
            r == self.paused,
    {
        self.paused
    }
}

} // verus!
