//! The declarative audio-scene tree: tracks and compositions of named
//! threads, and the flattening that renders the tree into a runtime
//! [`Stream`].

use vstd::prelude::*;

use crate::source::Source;
use crate::stream::Stream;
use crate::text::{chars_equal, chars_of};
use crate::threadstream::{cyclic_distance, wrap_index, ThreadStream};
use crate::trackstream::TrackStream;
use crate::volume::{clamp_volume, clamped, valid_volume, FULL_VOLUME};

verus! {

/// Errors of the scene-tree operations.
#[derive(Clone, Copy, Debug, PartialEq, Eq, Structural)]
pub enum AudioError {
    NotAComposition,
    NotATrack,
    OutOfRange,
}

/// A leaf of the tree: one recording with a title and its own volume.
pub struct TrackNode<S> {
    pub title: String,
    pub volume: u32,
    pub is_looped: bool,
    pub source: S,
}

/// One named thread of a composition: an ordered list of child nodes that
/// renders into a single lane.
pub struct AudioThread<S> {
    pub name: String,
    pub children: Vec<AudioNode<S>>,
}

/// An inner node: a titled group of named threads, each an ordered list of
/// children.  Thread order and per-thread child order are semantically
/// significant: they map to lane order and playlist order.
pub struct CompositionNode<S> {
    pub title: String,
    pub volume: u32,
    pub is_looped: bool,
    pub threads: Vec<AudioThread<S>>,
}

/// A node of the audio-scene tree.
///
/// The `is_looped` flag is carried for the tree's own sake but playback
/// ignores it: a rendered lane always loops.
pub enum AudioNode<S> {
    Track(TrackNode<S>),
    Composition(CompositionNode<S>),
}

impl<S> AudioNode<S> {
    /// Every volume in the tree is valid.
    pub open spec fn wf(self) -> bool
        decreases self,
    {
        match self {
            AudioNode::Track(t) => valid_volume(t.volume),
            AudioNode::Composition(c) => valid_volume(c.volume) && (forall|i: int, j: int|
                0 <= i < c.threads@.len() && 0 <= j < c.threads@[i].children@.len()
                    ==> (#[trigger] c.threads@[i].children@[j]).wf()),
        }
    }

    /// Does rendering this node yield a stream at all?  A track always
    /// does; a composition does exactly when some thread has a child that
    /// does.
    pub open spec fn produces_audio(self) -> bool
        decreases self,
    {
        match self {
            AudioNode::Track(_) => true,
            AudioNode::Composition(c) => exists|i: int, j: int|
                0 <= i < c.threads@.len() && 0 <= j < c.threads@[i].children@.len()
                    && (#[trigger] c.threads@[i].children@[j]).produces_audio(),
        }
    }

    /// Thread `i` is the first one named `name`.
    pub open spec fn is_first_thread_match(
        threads: Seq<AudioThread<S>>,
        name: Seq<char>,
        i: int,
    ) -> bool {
        &&& 0 <= i < threads.len()
        &&& threads[i].name@ == name
        &&& forall|k: int| 0 <= k < i ==> (#[trigger] threads[k]).name@ != name
    }

    /// Some thread is named `name`.
    pub open spec fn has_thread(threads: Seq<AudioThread<S>>, name: Seq<char>) -> bool {
        exists|i: int| 0 <= i < threads.len() && (#[trigger] threads[i]).name@ == name
    }
}

impl<S> AudioNode<S> {
    /// Run-time check of [`AudioNode::wf`], for callers outside verified
    /// code.
    pub fn is_wf(&self) -> (r: bool)
        ensures
            r == self.wf(),
        decreases *self,
    {
        match self {
            AudioNode::Track(t) => t.volume <= 1000,
            AudioNode::Composition(c) => {
                proof {
                    assert(decreases_to!(*self => c.threads));
                }
                c.volume <= 1000 && threads_are_wf(&c.threads)
            },
        }
    }
}

/// Are all children of all threads well-formed?
fn threads_are_wf<S>(threads: &Vec<AudioThread<S>>) -> (r: bool)
    ensures
        r == (forall|a: int, b: int|
            0 <= a < threads@.len() && 0 <= b < threads@[a].children@.len()
                ==> (#[trigger] threads@[a].children@[b]).wf()),
    decreases threads@,
{
    let n = threads.len();
    let mut i: usize = 0;
    while i < n
        invariant
            n == threads@.len(),
            0 <= i <= n,
            forall|a: int, b: int|
                0 <= a < i && 0 <= b < threads@[a].children@.len()
                    ==> (#[trigger] threads@[a].children@[b]).wf(),
        decreases n - i,
    {
        let m = threads[i].children.len();
        let mut j: usize = 0;
        while j < m
            invariant
                n == threads@.len(),
                i < n,
                m == threads@[i as int].children@.len(),
                0 <= j <= m,
                forall|b: int| 0 <= b < j ==> (#[trigger] threads@[i as int].children@[b]).wf(),
            decreases m - j,
        {
            proof {
                assert(decreases_to!(threads@ => threads@[i as int].children));
                assert(decreases_to!(threads@[i as int].children@
                    => threads@[i as int].children@[j as int]));
            }
            if !threads[i].children[j].is_wf() {
                return false;
            }
            j = j + 1;
        }
        i = i + 1;
    }
    true
}

/// The index of the first thread named `name`, or the thread count when
/// none is.
fn find_thread<S>(threads: &Vec<AudioThread<S>>, name: &str) -> (i: usize)
    ensures
        i <= threads@.len(),
        (i as int) < threads@.len() ==> AudioNode::<S>::is_first_thread_match(
            threads@,
            name@,
            i as int,
        ),
        i == threads@.len() ==> !AudioNode::<S>::has_thread(threads@, name@),
{
    let target = chars_of(name);
    let n = threads.len();
    let mut i: usize = 0;
    while i < n
        invariant
            target@ == name@,
            n == threads@.len(),
            0 <= i <= n,
            forall|k: int| 0 <= k < i ==> (#[trigger] threads@[k]).name@ != name@,
        decreases n - i,
    {
        let cand = chars_of(threads[i].name.as_str());
        if chars_equal(&cand, &target) {
            return i;
        }
        i = i + 1;
    }
    i
}

impl<S> AudioNode<S> {
    /// The node's display title.
    pub fn get_title(&self) -> (r: String)
        ensures
            r@ == self.spec_title()@,
    {
        match self {
            AudioNode::Track(t) => t.title.clone(),
            AudioNode::Composition(c) => c.title.clone(),
        }
    }

    pub open spec fn spec_title(self) -> String {
        match self {
            AudioNode::Track(t) => t.title,
            AudioNode::Composition(c) => c.title,
        }
    }

    pub fn set_title(&mut self, title: String)
        ensures
            final(self).spec_title()@ == title@,
            final(self).spec_volume() == old(self).spec_volume(),
            final(self).spec_looped() == old(self).spec_looped(),
            *old(self) matches AudioNode::Track(t) ==> *final(self) == AudioNode::Track(
                (TrackNode { title: final(self).spec_title(), ..t }),
            ),
            *old(self) matches AudioNode::Composition(c) ==> *final(self) == AudioNode::Composition(
                (CompositionNode { title: final(self).spec_title(), ..c }),
            ),
    {
        match self {
            AudioNode::Track(t) => t.title = title,
            AudioNode::Composition(c) => c.title = title,
        }
    }

    pub open spec fn spec_volume(self) -> u32 {
        match self {
            AudioNode::Track(t) => t.volume,
            AudioNode::Composition(c) => c.volume,
        }
    }

    pub fn get_volume(&self) -> (r: u32)
        ensures
            r == self.spec_volume(),
    {
        match self {
            AudioNode::Track(t) => t.volume,
            AudioNode::Composition(c) => c.volume,
        }
    }

    /// Store the node's volume, clamped into the unit range.
    pub fn set_volume(&mut self, volume: u32)
        ensures
            final(self).spec_volume() == clamped(volume),
            final(self).spec_title()@ == old(self).spec_title()@,
            final(self).spec_looped() == old(self).spec_looped(),
            *old(self) matches AudioNode::Track(t) ==> *final(self) == AudioNode::Track(
                (TrackNode { volume: clamped(volume), ..t }),
            ),
            *old(self) matches AudioNode::Composition(c) ==> *final(self) == AudioNode::Composition(
                (CompositionNode { volume: clamped(volume), ..c }),
            ),
    {
        let v = clamp_volume(volume);
        match self {
            AudioNode::Track(t) => t.volume = v,
            AudioNode::Composition(c) => c.volume = v,
        }
    }

    pub open spec fn spec_looped(self) -> bool {
        match self {
            AudioNode::Track(t) => t.is_looped,
            AudioNode::Composition(c) => c.is_looped,
        }
    }

    /// The loop flag; playback ignores it (lanes always loop).
    pub fn is_looped(&self) -> (r: bool)
        ensures
            r == self.spec_looped(),
    {
        match self {
            AudioNode::Track(t) => t.is_looped,
            AudioNode::Composition(c) => c.is_looped,
        }
    }

    /// Store the loop flag.
    pub fn looped(&mut self, looped: bool)
        ensures
            final(self).spec_looped() == looped,
            *old(self) matches AudioNode::Track(t) ==> *final(self) == AudioNode::Track(
                (TrackNode { is_looped: looped, ..t }),
            ),
            *old(self) matches AudioNode::Composition(c) ==> *final(self) == AudioNode::Composition(
                (CompositionNode { is_looped: looped, ..c }),
            ),
    {
        match self {
            AudioNode::Track(t) => t.is_looped = looped,
            AudioNode::Composition(c) => c.is_looped = looped,
        }
    }

    /// A track's source; a composition has none.
    pub fn get_source(&self) -> (r: Result<&S, AudioError>)
        ensures
            *self matches AudioNode::Track(t) ==> r matches Ok(s) && *s == t.source,
            *self matches AudioNode::Composition(_) ==> r == Err::<&S, AudioError>(
                AudioError::NotATrack,
            ),
    {
        match self {
            AudioNode::Track(t) => Ok(&t.source),
            AudioNode::Composition(_) => Err(AudioError::NotATrack),
        }
    }

    /// Replace a track's source; on a composition this does nothing.
    pub fn set_source(&mut self, source: S)
        ensures
            *old(self) matches AudioNode::Track(t) ==> *final(self) == AudioNode::Track(
                (TrackNode { source: source, ..t }),
            ),
            *old(self) matches AudioNode::Composition(_) ==> *final(self) == *old(self),
    {
        match self {
            AudioNode::Track(t) => t.source = source,
            AudioNode::Composition(_) => {},
        }
    }

    /// The names of a composition's threads, in order.
    pub fn threads(&self) -> (r: Result<Vec<String>, AudioError>)
        ensures
            *self matches AudioNode::Composition(c) ==> r matches Ok(names) && names@.len()
                == c.threads@.len() && (forall|i: int|
                0 <= i < c.threads@.len() ==> (#[trigger] names@[i])@ == c.threads@[i].name@),
            *self matches AudioNode::Track(_) ==> r == Err::<Vec<String>, AudioError>(
                AudioError::NotAComposition,
            ),
    {
        match self {
            AudioNode::Composition(c) => {
                let n = c.threads.len();
                let mut names: Vec<String> = Vec::new();
                let mut i: usize = 0;
                while i < n
                    invariant
                        n == c.threads@.len(),
                        0 <= i <= n,
                        names@.len() == i,
                        forall|k: int|
                            0 <= k < i ==> (#[trigger] names@[k])@ == c.threads@[k].name@,
                    decreases n - i,
                {
                    names.push(c.threads[i].name.clone());
                    i = i + 1;
                }
                Ok(names)
            },
            AudioNode::Track(_) => Err(AudioError::NotAComposition),
        }
    }

    /// The index of the first thread named `name`; the thread count when
    /// none is, and `0` on a track.
    pub fn index_of_thread(&self, name: &str) -> (r: usize)
        ensures
            *self matches AudioNode::Composition(c) ==> r <= c.threads@.len() && ((r as int)
                < c.threads@.len() ==> Self::is_first_thread_match(c.threads@, name@, r as int))
                && (r == c.threads@.len() ==> !Self::has_thread(c.threads@, name@)),
            *self matches AudioNode::Track(_) ==> r == 0,
    {
        match self {
            AudioNode::Composition(c) => find_thread(&c.threads, name),
            AudioNode::Track(_) => 0,
        }
    }

    /// Does the named thread hold no children?  An absent thread, and a
    /// track, count as empty.
    pub fn is_thread_empty(&self, name: &str) -> (r: bool)
        ensures
            *self matches AudioNode::Composition(c) ==> r == (forall|i: int|
                Self::is_first_thread_match(c.threads@, name@, i)
                    ==> c.threads@[i].children@.len() == 0),
            *self matches AudioNode::Track(_) ==> r,
    {
        match self {
            AudioNode::Composition(c) => {
                let i = find_thread(&c.threads, name);
                if i < c.threads.len() {
                    c.threads[i].children.len() == 0
                } else {
                    true
                }
            },
            AudioNode::Track(_) => true,
        }
    }

    /// Add a new, empty thread named `caption` at the end.  Thread names
    /// are unique within a composition, so a name already in use is
    /// refused; a track holds no threads.
    pub fn push_thread(&mut self, caption: &str) -> (r: Result<(), AudioError>)
        ensures
            *old(self) matches AudioNode::Track(_) ==> r == Err::<(), AudioError>(
                AudioError::NotAComposition,
            ) && *final(self) == *old(self),
            *old(self) matches AudioNode::Composition(c) ==> {
                &&& (Self::has_thread(c.threads@, caption@) ==> r == Err::<(), AudioError>(
                    AudioError::OutOfRange,
                ) && *final(self) == *old(self))
                &&& (!Self::has_thread(c.threads@, caption@) ==> r == Ok::<(), AudioError>(())
                    && (*final(self) matches AudioNode::Composition(c2) && c2.threads@.len()
                    == c.threads@.len() + 1 && (forall|k: int|
                    0 <= k < c.threads@.len() ==> #[trigger] c2.threads@[k] == c.threads@[k])
                    && c2.threads@.last().name@ == caption@ && c2.threads@.last().children@.len()
                    == 0 && *final(self) == AudioNode::Composition(
                    (CompositionNode { threads: c2.threads, ..c }),
                )))
            },
    {
        match self {
            AudioNode::Composition(c) => {
                let i = find_thread(&c.threads, caption);
                if i < c.threads.len() {
                    Err(AudioError::OutOfRange)
                } else {
                    let name = chars_of(caption);
                    let name = crate::text::string_from_chars(&name);
                    c.threads.push(AudioThread { name, children: Vec::new() });
                    Ok(())
                }
            },
            AudioNode::Track(_) => Err(AudioError::NotAComposition),
        }
    }

    /// Rename the first thread named `old_caption` to `new_caption`; when
    /// no thread has the old name, or the new name is already in use,
    /// nothing changes.
    pub fn rename_thread(&mut self, old_caption: &str, new_caption: &str)
        ensures
            *old(self) matches AudioNode::Track(_) ==> *final(self) == *old(self),
            *old(self) matches AudioNode::Composition(c) ==> {
                &&& ((!Self::has_thread(c.threads@, old_caption@) || Self::has_thread(
                    c.threads@,
                    new_caption@,
                )) ==> *final(self) == *old(self))
                &&& ((Self::has_thread(c.threads@, old_caption@) && !Self::has_thread(
                    c.threads@,
                    new_caption@,
                )) ==> (*final(self) matches AudioNode::Composition(c2) && (forall|i: int|
                    Self::is_first_thread_match(c.threads@, old_caption@, i) ==> c2.threads@
                        == c.threads@.update(
                        i,
                        (AudioThread { name: c2.threads@[i].name, ..c.threads@[i] }),
                    ) && c2.threads@[i].name@ == new_caption@) && *final(self)
                    == AudioNode::Composition((CompositionNode { threads: c2.threads, ..c }))))
            },
    {
        match self {
            AudioNode::Composition(c) => {
                let i = find_thread(&c.threads, old_caption);
                if i < c.threads.len() {
                    let j = find_thread(&c.threads, new_caption);
                    if j == c.threads.len() {
                        let name = chars_of(new_caption);
                        let name = crate::text::string_from_chars(&name);
                        c.threads[i].name = name;
                    }
                }
            },
            AudioNode::Track(_) => {},
        }
    }

    /// Remove the first thread named `caption`, destroying its children;
    /// when none has that name nothing changes.
    pub fn remove_thread(&mut self, caption: &str)
        ensures
            *old(self) matches AudioNode::Track(_) ==> *final(self) == *old(self),
            *old(self) matches AudioNode::Composition(c) ==> {
                &&& (!Self::has_thread(c.threads@, caption@) ==> *final(self) == *old(self))
                &&& (Self::has_thread(c.threads@, caption@) ==> (*final(self) matches
                    AudioNode::Composition(c2) && (forall|i: int|
                    Self::is_first_thread_match(c.threads@, caption@, i) ==> c2.threads@
                        == c.threads@.remove(i)) && *final(self) == AudioNode::Composition(
                    (CompositionNode { threads: c2.threads, ..c }),
                )))
            },
    {
        match self {
            AudioNode::Composition(c) => {
                let i = find_thread(&c.threads, caption);
                if i < c.threads.len() {
                    let _ = c.threads.remove(i);
                }
            },
            AudioNode::Track(_) => {},
        }
    }

    /// Append a child node to the named thread; an absent thread is
    /// refused, and a track holds no children.
    pub fn push_audio(&mut self, thread: &str, audio: AudioNode<S>) -> (r: Result<(), AudioError>)
        ensures
            *old(self) matches AudioNode::Track(_) ==> r == Err::<(), AudioError>(
                AudioError::NotAComposition,
            ) && *final(self) == *old(self),
            *old(self) matches AudioNode::Composition(c) ==> {
                &&& (!Self::has_thread(c.threads@, thread@) ==> r == Err::<(), AudioError>(
                    AudioError::OutOfRange,
                ) && *final(self) == *old(self))
                &&& (Self::has_thread(c.threads@, thread@) ==> r == Ok::<(), AudioError>(())
                    && (*final(self) matches AudioNode::Composition(c2) && (forall|i: int|
                    Self::is_first_thread_match(c.threads@, thread@, i) ==> c2.threads@
                        == c.threads@.update(
                        i,
                        (AudioThread {
                            children: c2.threads@[i].children,
                            ..c.threads@[i]
                        }),
                    ) && c2.threads@[i].children@ == c.threads@[i].children@.push(audio))
                    && *final(self) == AudioNode::Composition(
                    (CompositionNode { threads: c2.threads, ..c }),
                )))
            },
    {
        match self {
            AudioNode::Composition(c) => {
                let i = find_thread(&c.threads, thread);
                if i < c.threads.len() {
                    c.threads[i].children.push(audio);
                    Ok(())
                } else {
                    Err(AudioError::OutOfRange)
                }
            },
            AudioNode::Track(_) => Err(AudioError::NotAComposition),
        }
    }

    /// Remove (and destroy) the child at `index` of the named thread; an
    /// absent thread or an index out of range is refused.
    pub fn remove_audio(&mut self, thread: &str, index: usize) -> (r: Result<(), AudioError>)
        ensures
            *old(self) matches AudioNode::Track(_) ==> r == Err::<(), AudioError>(
                AudioError::NotAComposition,
            ) && *final(self) == *old(self),
            *old(self) matches AudioNode::Composition(c) ==> {
                &&& (!(exists|i: int|
                    Self::is_first_thread_match(c.threads@, thread@, i) && (index as int) < (
                    #[trigger] c.threads@[i]).children@.len()) ==> r == Err::<(), AudioError>(
                    AudioError::OutOfRange,
                ) && *final(self) == *old(self))
                &&& (forall|i: int|
                    Self::is_first_thread_match(c.threads@, thread@, i) && (index as int)
                        < c.threads@[i].children@.len() ==> r == Ok::<(), AudioError>(())
                        && (*final(self) matches AudioNode::Composition(c2) && c2.threads@
                        == c.threads@.update(
                        i,
                        (AudioThread {
                            children: c2.threads@[i].children,
                            ..c.threads@[i]
                        }),
                    ) && c2.threads@[i].children@ == c.threads@[i].children@.remove(index as int)
                        && *final(self) == AudioNode::Composition(
                        (CompositionNode { threads: c2.threads, ..c }),
                    )))
            },
    {
        match self {
            AudioNode::Composition(c) => {
                let i = find_thread(&c.threads, thread);
                if i < c.threads.len() {
                    if index < c.threads[i].children.len() {
                        let _ = c.threads[i].children.remove(index);
                        Ok(())
                    } else {
                        Err(AudioError::OutOfRange)
                    }
                } else {
                    Err(AudioError::OutOfRange)
                }
            },
            AudioNode::Track(_) => Err(AudioError::NotAComposition),
        }
    }

    /// The child at `index` of the named thread; an absent thread or an
    /// index out of range is refused.
    pub fn get_audio(&self, thread: &str, index: usize) -> (r: Result<&AudioNode<S>, AudioError>)
        ensures
            *self matches AudioNode::Track(_) ==> r == Err::<&AudioNode<S>, AudioError>(
                AudioError::NotAComposition,
            ),
            *self matches AudioNode::Composition(c) ==> {
                &&& (!(exists|i: int|
                    Self::is_first_thread_match(c.threads@, thread@, i) && (index as int) < (
                    #[trigger] c.threads@[i]).children@.len()) ==> r == Err::<
                    &AudioNode<S>,
                    AudioError,
                >(AudioError::OutOfRange))
                &&& (forall|i: int|
                    Self::is_first_thread_match(c.threads@, thread@, i) && (index as int)
                        < c.threads@[i].children@.len() ==> (r matches Ok(a) && *a == c.threads@[
                    i].children@[index as int]))
            },
    {
        match self {
            AudioNode::Composition(c) => {
                let i = find_thread(&c.threads, thread);
                if i < c.threads.len() {
                    if index < c.threads[i].children.len() {
                        Ok(&c.threads[i].children[index])
                    } else {
                        Err(AudioError::OutOfRange)
                    }
                } else {
                    Err(AudioError::OutOfRange)
                }
            },
            AudioNode::Track(_) => Err(AudioError::NotAComposition),
        }
    }

    /// How many children the named thread holds; an absent thread, and a
    /// track, hold none.
    pub fn audio_count(&self, thread: &str) -> (r: usize)
        ensures
            *self matches AudioNode::Track(_) ==> r == 0,
            *self matches AudioNode::Composition(c) ==> {
                &&& (!Self::has_thread(c.threads@, thread@) ==> r == 0)
                &&& (forall|i: int|
                    Self::is_first_thread_match(c.threads@, thread@, i) ==> r == (
                    #[trigger] c.threads@[i]).children@.len())
            },
    {
        match self {
            AudioNode::Composition(c) => {
                let i = find_thread(&c.threads, thread);
                if i < c.threads.len() {
                    c.threads[i].children.len()
                } else {
                    0
                }
            },
            AudioNode::Track(_) => 0,
        }
    }
}

impl<S: Source> AudioNode<S> {
    /// A leaf over `source`, titled by the source, at full volume.
    pub fn new_track(source: S) -> (r: AudioNode<S>)
        ensures
            r matches AudioNode::Track(t) && t.volume == 1000 && t.is_looped && t.source == source,
            r.wf(),
    {
        let title = source.title();
        AudioNode::Track(TrackNode { title, volume: FULL_VOLUME, is_looped: true, source })
    }

    /// An empty composition with the given title, at full volume.
    pub fn new_composition(title: String) -> (r: AudioNode<S>)
        ensures
            r matches AudioNode::Composition(c) && c.title@ == title@ && c.volume == 1000
                && c.is_looped && c.threads@.len() == 0,
            r.wf(),
    {
        AudioNode::Composition(
            CompositionNode { title, volume: FULL_VOLUME, is_looped: true, threads: Vec::new() },
        )
    }
}

/// A lane as rendering leaves it: freshly built, stopped and paused at the
/// start of an openable track, at unity lane gain.
pub open spec fn fresh_lane<S>(pl: ThreadStream<S>) -> bool {
    &&& pl.wf()
    &&& pl.is_stopped
    &&& pl.volume == 1000
    &&& pl.sink.queued
    &&& pl.sink.elapsed_ms == 0
    &&& pl.sink.paused
    &&& pl.sink.volume == 1000
    &&& pl.tracks@[pl.current as int].state is Open
    &&& pl.sink.duration_ms == pl.tracks@[pl.current as int].duration_ms
}

/// Every lane of `s` is fresh.
pub open spec fn all_lanes_fresh<S>(s: Stream<S>) -> bool {
    forall|i: int| 0 <= i < s.playlists@.len() ==> fresh_lane(#[trigger] s.playlists@[i])
}

/// The flattening plan of a node: one entry per lane the tree will
/// surface, in order, holding the volumes of that lane's tracks in
/// playlist order.  A track plans one lane with one track; a composition
/// plans, thread by thread in declaration order, the positional
/// sequential-merge of its children's plans.
pub open spec fn spec_plan<S>(node: AudioNode<S>) -> Seq<Seq<u32>>
    decreases node,
{
    match node {
        AudioNode::Track(t) => seq![seq![t.volume]],
        AudioNode::Composition(c) => spec_thread_plans(c.threads@),
    }
}

/// The concatenation of the per-thread lane blocks, in thread order.
pub open spec fn spec_thread_plans<S>(threads: Seq<AudioThread<S>>) -> Seq<Seq<u32>>
    decreases threads,
{
    if threads.len() == 0 {
        Seq::empty()
    } else {
        spec_thread_plans(threads.drop_last()) + spec_children_plan(threads.last().children@)
    }
}

/// One thread's lane block: its children's plans, sequentially merged in
/// child order.
pub open spec fn spec_children_plan<S>(children: Seq<AudioNode<S>>) -> Seq<Seq<u32>>
    decreases children,
{
    if children.len() == 0 {
        Seq::empty()
    } else {
        spec_merge_plan(spec_children_plan(children.drop_last()), spec_plan(children.last()))
    }
}

/// Positional sequential merge of two lane blocks: lanes at the same
/// position concatenate, the longer block's tail passes through.
pub open spec fn spec_merge_plan(a: Seq<Seq<u32>>, b: Seq<Seq<u32>>) -> Seq<Seq<u32>> {
    Seq::new(
        if a.len() >= b.len() {
            a.len()
        } else {
            b.len()
        },
        |i: int|
            if i < a.len() && i < b.len() {
                a[i] + b[i]
            } else if i < a.len() {
                a[i]
            } else {
                b[i]
            },
    )
}

/// A node produces audio exactly when its plan holds a lane.
pub proof fn lemma_plan_produces<S>(node: AudioNode<S>)
    ensures
        node.produces_audio() <==> spec_plan(node).len() > 0,
    decreases node,
{
    match node {
        AudioNode::Track(_) => {},
        AudioNode::Composition(c) => {
            lemma_thread_plans_produce(c.threads@);
        },
    }
}

/// A thread list plans a lane exactly when some thread holds a child that
/// produces audio.
proof fn lemma_thread_plans_produce<S>(threads: Seq<AudioThread<S>>)
    ensures
        spec_thread_plans(threads).len() > 0 <==> exists|i: int, j: int|
            0 <= i < threads.len() && 0 <= j < threads[i].children@.len() && (
            #[trigger] threads[i].children@[j]).produces_audio(),
    decreases threads,
{
    if threads.len() == 0 {
    } else {
        let prefix = threads.drop_last();
        let last = threads.last();
        lemma_thread_plans_produce(prefix);
        lemma_children_plan_produce(last.children@);
        if spec_thread_plans(threads).len() > 0 {
            if spec_thread_plans(prefix).len() > 0 {
                let (i, j) = choose|i: int, j: int|
                    0 <= i < prefix.len() && 0 <= j < prefix[i].children@.len() && (
                    #[trigger] prefix[i].children@[j]).produces_audio();
                assert(threads[i].children@[j].produces_audio());
            } else {
                let j = choose|j: int|
                    0 <= j < last.children@.len() && (
                    #[trigger] last.children@[j]).produces_audio();
                assert(threads[threads.len() - 1].children@[j].produces_audio());
            }
        }
        if exists|i: int, j: int|
            0 <= i < threads.len() && 0 <= j < threads[i].children@.len() && (
            #[trigger] threads[i].children@[j]).produces_audio() {
            let (i, j) = choose|i: int, j: int|
                0 <= i < threads.len() && 0 <= j < threads[i].children@.len() && (
                #[trigger] threads[i].children@[j]).produces_audio();
            if i < threads.len() - 1 {
                assert(prefix[i].children@[j].produces_audio());
            } else {
                assert(last.children@[j].produces_audio());
            }
        }
    }
}

/// A child list plans a lane exactly when some child produces audio.
proof fn lemma_children_plan_produce<S>(children: Seq<AudioNode<S>>)
    ensures
        spec_children_plan(children).len() > 0 <==> exists|j: int|
            0 <= j < children.len() && (#[trigger] children[j]).produces_audio(),
    decreases children,
{
    if children.len() == 0 {
    } else {
        let prefix = children.drop_last();
        let last = children.last();
        lemma_children_plan_produce(prefix);
        lemma_plan_produces(last);
        if spec_children_plan(children).len() > 0 {
            if spec_children_plan(prefix).len() > 0 {
                let j = choose|j: int|
                    0 <= j < prefix.len() && (#[trigger] prefix[j]).produces_audio();
                assert(children[j].produces_audio());
            } else {
                assert(children[children.len() - 1].produces_audio());
            }
        }
        if exists|j: int| 0 <= j < children.len() && (#[trigger] children[j]).produces_audio() {
            let j = choose|j: int|
                0 <= j < children.len() && (#[trigger] children[j]).produces_audio();
            if j < children.len() - 1 {
                assert(prefix[j].produces_audio());
            }
        }
    }
}

/// A track list matches one planned lane: as many tracks, each carrying
/// the planned volume, none opened yet.
pub open spec fn list_matches_lane_plan<S>(tracks: Seq<TrackStream<S>>, planned: Seq<u32>) -> bool {
    &&& tracks.len() == planned.len()
    &&& forall|t: int|
        0 <= t < planned.len() ==> {
            let tr = #[trigger] tracks[t];
            &&& tr.wf()
            &&& tr.volume == planned[t]
            &&& tr.state is Untried
            &&& tr.duration_ms == 0
        }
}

/// The flattened track lists match the plan, lane for lane.
pub open spec fn lists_match_plan<S>(lists: Seq<Vec<TrackStream<S>>>, plan: Seq<Seq<u32>>) -> bool {
    &&& lists.len() == plan.len()
    &&& forall|i: int| 0 <= i < plan.len() ==> list_matches_lane_plan((#[trigger] lists[i])@, plan[i])
}

impl<S: Source + Clone> AudioNode<S> {
    /// Flatten the tree into its planned per-lane track lists: one list
    /// per planned lane, each track carrying its node's volume, nothing
    /// opened yet.  This is the pure half of rendering; opening happens
    /// when [`build_lanes`] turns the lists into lanes.
    pub fn flatten(&self) -> (r: Vec<Vec<TrackStream<S>>>)
        requires
            self.wf(),
        ensures
            lists_match_plan(r@, spec_plan(*self)),
        decreases *self,
    {
        match self {
            AudioNode::Track(t) => {
                let track = TrackStream::new(t.source.clone(), t.volume);
                let mut lane: Vec<TrackStream<S>> = Vec::new();
                lane.push(track);
                let mut r: Vec<Vec<TrackStream<S>>> = Vec::new();
                r.push(lane);
                proof {
                    assert(lane@ =~= seq![track]);
                    assert(spec_plan(*self) =~= seq![seq![t.volume]]);
                }
                r
            },
            AudioNode::Composition(c) => {
                proof {
                    assert(decreases_to!(*self => c.threads));
                }
                flatten_threads(&c.threads)
            },
        }
    }
}

/// Flatten every thread into its lane block and put the blocks one after
/// the other, in thread order.
fn flatten_threads<S: Source + Clone>(threads: &Vec<AudioThread<S>>) -> (r: Vec<
    Vec<TrackStream<S>>,
>)
    requires
        forall|i: int, j: int|
            0 <= i < threads@.len() && 0 <= j < threads@[i].children@.len()
                ==> (#[trigger] threads@[i].children@[j]).wf(),
    ensures
        lists_match_plan(r@, spec_thread_plans(threads@)),
    decreases threads@,
{
    let mut out: Vec<Vec<TrackStream<S>>> = Vec::new();
    let n = threads.len();
    let mut i: usize = 0;
    while i < n
        invariant
            forall|a: int, b: int|
                0 <= a < threads@.len() && 0 <= b < threads@[a].children@.len()
                    ==> (#[trigger] threads@[a].children@[b]).wf(),
            n == threads@.len(),
            0 <= i <= n,
            lists_match_plan(out@, spec_thread_plans(threads@.take(i as int))),
        decreases n - i,
    {
        proof {
            assert(decreases_to!(threads@ => threads@[i as int].children));
            assert(threads@.take(i + 1).drop_last() =~= threads@.take(i as int));
            assert(threads@.take(i + 1).last() == threads@[i as int]);
        }
        let ghost out_pre = out@;
        let mut block = flatten_children(&threads[i].children);
        let ghost block_view = block@;
        out.append(&mut block);
        proof {
            let plan_pre = spec_thread_plans(threads@.take(i as int));
            let block_plan = spec_children_plan(threads@[i as int].children@);
            assert forall|k: int|
                0 <= k < plan_pre.len() + block_plan.len() implies list_matches_lane_plan(
                (#[trigger] out@[k])@,
                (plan_pre + block_plan)[k],
            ) by {
                if k < plan_pre.len() {
                    assert(out@[k] == out_pre[k]);
                } else {
                    assert(out@[k] == block_view[k - plan_pre.len()]);
                }
            }
        }
        i = i + 1;
    }
    proof {
        assert(threads@.take(n as int) =~= threads@);
    }
    out
}

/// Sequentially merge the plans of `children`, in order: each child's
/// lane lists concatenate positionally onto the running block.
fn flatten_children<S: Source + Clone>(children: &Vec<AudioNode<S>>) -> (r: Vec<
    Vec<TrackStream<S>>,
>)
    requires
        forall|j: int| 0 <= j < children@.len() ==> (#[trigger] children@[j]).wf(),
    ensures
        lists_match_plan(r@, spec_children_plan(children@)),
    decreases children@,
{
    let mut acc: Vec<Vec<TrackStream<S>>> = Vec::new();
    let n = children.len();
    let mut j: usize = 0;
    while j < n
        invariant
            forall|b: int| 0 <= b < children@.len() ==> (#[trigger] children@[b]).wf(),
            n == children@.len(),
            0 <= j <= n,
            lists_match_plan(acc@, spec_children_plan(children@.take(j as int))),
        decreases n - j,
    {
        proof {
            assert(decreases_to!(children@ => children@[j as int]));
            assert(children@.take(j + 1).drop_last() =~= children@.take(j as int));
            assert(children@.take(j + 1).last() == children@[j as int]);
        }
        let sub = children[j].flatten();
        let ghost acc_pre = acc@;
        let ghost sub_view = sub@;
        merge_lists(&mut acc, sub);
        proof {
            let plan_pre = spec_children_plan(children@.take(j as int));
            let sub_plan = spec_plan(children@[j as int]);
            let merged = spec_merge_plan(plan_pre, sub_plan);
            assert forall|k: int| 0 <= k < merged.len() implies list_matches_lane_plan(
                (#[trigger] acc@[k])@,
                merged[k],
            ) by {
                if k < plan_pre.len() && k < sub_plan.len() {
                    assert(acc@[k]@ == acc_pre[k]@ + sub_view[k]@);
                } else if k < plan_pre.len() {
                    assert(acc@[k] == acc_pre[k]);
                } else {
                    assert(acc@[k] == sub_view[k]);
                }
            }
        }
        j = j + 1;
    }
    proof {
        assert(children@.take(n as int) =~= children@);
    }
    acc
}

/// Positional concatenation of two blocks of track lists: the list at
/// each common position is extended, the longer block's tail passes
/// through.
fn merge_lists<S>(acc: &mut Vec<Vec<TrackStream<S>>>, incoming: Vec<Vec<TrackStream<S>>>)
    ensures
        final(acc)@.len() == if old(acc)@.len() >= incoming@.len() {
            old(acc)@.len()
        } else {
            incoming@.len()
        },
        forall|i: int|
            0 <= i < old(acc)@.len() && i < incoming@.len() ==> (#[trigger] final(acc)@[i])@
                == old(acc)@[i]@ + incoming@[i]@,
        forall|i: int|
            old(acc)@.len() <= i < incoming@.len() ==> #[trigger] final(acc)@[i] == incoming@[i],
        forall|i: int|
            incoming@.len() <= i < old(acc)@.len() ==> #[trigger] final(acc)@[i] == old(acc)@[i],
{
    let n_acc = acc.len();
    let mut rest = incoming;
    let n_inc = rest.len();
    let mut i: usize = 0;
    while rest.len() > 0
        invariant
            i + rest@.len() == n_inc,
            n_acc == old(acc)@.len(),
            n_inc == incoming@.len(),
            rest@ == incoming@.skip(i as int),
            acc@.len() == if n_acc >= i {
                n_acc as int
            } else {
                i as int
            },
            forall|k: int|
                0 <= k < i && k < n_acc ==> (#[trigger] acc@[k])@ == old(acc)@[k]@
                    + incoming@[k]@,
            forall|k: int| n_acc <= k < i ==> #[trigger] acc@[k] == incoming@[k],
            forall|k: int| i <= k < n_acc ==> #[trigger] acc@[k] == old(acc)@[k],
        decreases rest@.len(),
    {
        let mut lane = rest.remove(0);
        if i < n_acc {
            acc[i].append(&mut lane);
        } else {
            acc.push(lane);
        }
        i = i + 1;
    }
}

/// The lanes `lanes` are, in order, the successfully built lanes of the
/// track lists `lists`: an order-preserving selection of list positions,
/// each selected list turned into a fresh lane exactly as
/// [`ThreadStream::new`] builds it at unity lane volume.
pub open spec fn is_lane_selection<S>(
    lists: Seq<Vec<TrackStream<S>>>,
    lanes: Seq<ThreadStream<S>>,
    sel: Seq<int>,
) -> bool {
    &&& sel.len() == lanes.len()
    &&& forall|i: int| 0 <= i < sel.len() ==> 0 <= #[trigger] sel[i] < lists.len()
    &&& forall|i: int, j: int| 0 <= i < j < sel.len() ==> sel[i] < sel[j]
    &&& forall|i: int|
        0 <= i < sel.len() ==> ThreadStream::<S>::fresh_from(
            lists[sel[i]],
            1000,
            #[trigger] lanes[i],
        )
}

/// Build one lane per track list at unity lane volume, keeping, in order,
/// those whose construction found an openable track.
pub fn build_lanes<S: Source>(lists: Vec<Vec<TrackStream<S>>>) -> (r: Vec<ThreadStream<S>>)
    requires
        forall|i: int, t: int|
            0 <= i < lists@.len() && 0 <= t < lists@[i]@.len() ==> (
            #[trigger] lists@[i]@[t]).wf(),
    ensures
        r@.len() <= lists@.len(),
        exists|sel: Seq<int>| is_lane_selection(lists@, r@, sel),
        forall|i: int| 0 <= i < r@.len() ==> fresh_lane(#[trigger] r@[i]),
{
    let mut lanes: Vec<ThreadStream<S>> = Vec::new();
    let ghost mut sel: Seq<int> = Seq::empty();
    let mut rest = lists;
    let n = rest.len();
    let mut i: usize = 0;
    while rest.len() > 0
        invariant
            forall|a: int, t: int|
                0 <= a < lists@.len() && 0 <= t < lists@[a]@.len() ==> (
                #[trigger] lists@[a]@[t]).wf(),
            i + rest@.len() == n,
            n == lists@.len(),
            rest@ == lists@.skip(i as int),
            lanes@.len() <= i,
            sel.len() == lanes@.len(),
            forall|k: int| 0 <= k < sel.len() ==> 0 <= #[trigger] sel[k] < i,
            forall|k1: int, k2: int| 0 <= k1 < k2 < sel.len() ==> sel[k1] < sel[k2],
            forall|k: int|
                0 <= k < sel.len() ==> ThreadStream::<S>::fresh_from(
                    lists@[sel[k]],
                    1000,
                    #[trigger] lanes@[k],
                ),
            forall|k: int| 0 <= k < lanes@.len() ==> fresh_lane(#[trigger] lanes@[k]),
        decreases rest@.len(),
    {
        let list = rest.remove(0);
        match ThreadStream::new(list, FULL_VOLUME) {
            Some(pl) => {
                lanes.push(pl);
                proof {
                    sel = sel.push(i as int);
                }
            },
            None => {},
        }
        i = i + 1;
    }
    proof {
        assert(is_lane_selection(lists@, lanes@, sel));
    }
    lanes
}

/// One lane carries the volumes one planned lane asks for, track by
/// track.
pub open spec fn lane_matches_plan<S>(lane: ThreadStream<S>, planned: Seq<u32>) -> bool {
    &&& lane.tracks@.len() == planned.len()
    &&& forall|t: int|
        0 <= t < planned.len() ==> (#[trigger] lane.tracks@[t]).volume == planned[t]
}

/// The lanes are, in order, lanes of an order-preserving selection of the
/// plan, each carrying exactly its planned lane's track volumes.
pub open spec fn is_plan_selection<S>(
    plan: Seq<Seq<u32>>,
    lanes: Seq<ThreadStream<S>>,
    sel: Seq<int>,
) -> bool {
    &&& sel.len() == lanes.len()
    &&& forall|i: int| 0 <= i < sel.len() ==> 0 <= #[trigger] sel[i] < plan.len()
    &&& forall|i: int, j: int| 0 <= i < j < sel.len() ==> sel[i] < sel[j]
    &&& forall|i: int|
        0 <= i < sel.len() ==> lane_matches_plan(#[trigger] lanes[i], plan[sel[i]])
}

/// A freshly built lane carries exactly the volumes of the list it was
/// built from: opening records outcomes but never touches a volume.
proof fn lemma_fresh_lane_volumes<S: Source>(
    list: Vec<TrackStream<S>>,
    planned: Seq<u32>,
    lane: ThreadStream<S>,
)
    requires
        list_matches_lane_plan(list@, planned),
        ThreadStream::<S>::fresh_from(list, 1000, lane),
    ensures
        lane_matches_plan(lane, planned),
{
    let n = list@.len() as int;
    let cur = lane.current as int;
    assert forall|t: int| 0 <= t < planned.len() implies (#[trigger] lane.tracks@[t]).volume
        == planned[t] by {
        if t == cur {
        } else if t < cur {
            assert(wrap_index(0 + t, n) == t);
            assert(cyclic_distance(0, cur, n) == cur);
        } else {
            assert(cyclic_distance(0, t, n) == t);
            assert(cyclic_distance(0, cur, n) == cur);
        }
    }
}

impl<S: Source + Clone> AudioNode<S> {
    /// Render the tree into a runtime stream: flatten it into the planned
    /// per-lane track lists, then build one fresh lane per list, keeping
    /// those whose construction found an openable track.
    ///
    /// A track plans a single one-track lane at the node's volume; when
    /// its source fails to open the result is a silent zero-lane stream.
    /// A composition's lanes follow its plan: one lane block per thread in
    /// declaration order, children sequentially merged, and its volume
    /// becomes the master volume.  `None` is returned exactly when no
    /// thread of any nesting level holds a track.
    pub fn get_stream(&self) -> (r: Option<Stream<S>>)
        requires
            self.wf(),
        ensures
            r is Some <==> self.produces_audio(),
            r matches Some(s) ==> s.wf() && all_lanes_fresh(s) && s.playlists@.len() <= spec_plan(
                *self,
            ).len() && (exists|sel: Seq<int>|
                is_plan_selection(spec_plan(*self), s.playlists@, sel)),
            *self matches AudioNode::Track(t) ==> r matches Some(s) && s.total_volume == 1000
                && s.playlists@.len() <= 1 && (s.playlists@.len() == 1 ==> {
                let pl = s.playlists@[0];
                &&& pl.tracks@.len() == 1
                &&& pl.tracks@[0].volume == t.volume
                &&& pl.current == 0
            }),
            *self matches AudioNode::Composition(c) ==> (r matches Some(s) ==> s.total_volume
                == c.volume),
    {
        let lists = self.flatten();
        proof {
            lemma_plan_produces(*self);
        }
        if lists.len() == 0 {
            return None;
        }
        let lanes = build_lanes(lists);
        let total = match self {
            AudioNode::Track(_) => FULL_VOLUME,
            AudioNode::Composition(c) => clamp_volume(c.volume),
        };
        proof {
            let plan = spec_plan(*self);
            let lsel = choose|lsel: Seq<int>| is_lane_selection(lists@, lanes@, lsel);
            assert forall|i: int| 0 <= i < lsel.len() implies lane_matches_plan(
                #[trigger] lanes@[i],
                plan[lsel[i]],
            ) by {
                lemma_fresh_lane_volumes(lists@[lsel[i]], plan[lsel[i]], lanes@[i]);
            }
            assert(is_plan_selection(plan, lanes@, lsel));
        }
        Some(Stream { playlists: lanes, total_volume: total })
    }
}

/// The decimal digits of `n`, most significant first.
pub open spec fn spec_decimal(n: nat) -> Seq<char>
    decreases n,
{
    if n < 10 {
        seq![spec_digit_char(n)]
    } else {
        spec_decimal(n / 10).push(spec_digit_char(n % 10))
    }
}

/// The character of one decimal digit.
pub open spec fn spec_digit_char(d: nat) -> char {
    if d == 0 {
        '0'
    } else if d == 1 {
        '1'
    } else if d == 2 {
        '2'
    } else if d == 3 {
        '3'
    } else if d == 4 {
        '4'
    } else if d == 5 {
        '5'
    } else if d == 6 {
        '6'
    } else if d == 7 {
        '7'
    } else if d == 8 {
        '8'
    } else {
        '9'
    }
}

/// The generated name of thread number `i`.
pub open spec fn spec_thread_name(i: nat) -> Seq<char> {
    "Поток "@ + spec_decimal(i)
}

/// Is `name` one of `names`?
pub open spec fn spec_name_taken(names: Seq<String>, name: Seq<char>) -> bool {
    exists|j: int| 0 <= j < names.len() && (#[trigger] names[j])@ == name
}

fn digit_char(d: usize) -> (r: char)
    requires
        d < 10,
    ensures
        r == spec_digit_char(d as nat),
{
    if d == 0 {
        '0'
    } else if d == 1 {
        '1'
    } else if d == 2 {
        '2'
    } else if d == 3 {
        '3'
    } else if d == 4 {
        '4'
    } else if d == 5 {
        '5'
    } else if d == 6 {
        '6'
    } else if d == 7 {
        '7'
    } else if d == 8 {
        '8'
    } else {
        '9'
    }
}

fn decimal_chars(n: usize) -> (r: Vec<char>)
    ensures
        r@ == spec_decimal(n as nat),
    decreases n,
{
    if n < 10 {
        let mut r: Vec<char> = Vec::new();
        r.push(digit_char(n));
        proof {
            assert(r@ =~= seq![spec_digit_char(n as nat)]);
        }
        r
    } else {
        let mut r = decimal_chars(n / 10);
        r.push(digit_char(n % 10));
        r
    }
}

fn name_taken(names: &Vec<String>, name: &Vec<char>) -> (r: bool)
    ensures
        r == spec_name_taken(names@, name@),
{
    let n = names.len();
    let mut j: usize = 0;
    while j < n
        invariant
            n == names@.len(),
            0 <= j <= n,
            forall|k: int| 0 <= k < j ==> (#[trigger] names@[k])@ != name@,
        decreases n - j,
    {
        let cand = chars_of(names[j].as_str());
        if chars_equal(&cand, name) {
            return true;
        }
        j = j + 1;
    }
    false
}

/// The name for a fresh thread: the lowest-numbered `Поток i`, for `i`
/// from `1` below `100000`, that `names` does not hold; when every one of
/// those is taken, the literal `The last name`.
pub fn generate_thread_name(names: Vec<String>) -> (r: String)
    ensures
        (exists|i: nat|
            1 <= i < 100000 && r@ == spec_thread_name(i) && !spec_name_taken(
                names@,
                spec_thread_name(i),
            ) && (forall|k: nat|
                1 <= k < i ==> spec_name_taken(names@, #[trigger] spec_thread_name(k)))) || (r@
            == "The last name"@ && (forall|k: nat|
            1 <= k < 100000 ==> spec_name_taken(names@, #[trigger] spec_thread_name(k)))),
{
    let prefix = chars_of("Поток ");
    let mut i: usize = 1;
    while i < 100000
        invariant
            prefix@ == "Поток "@,
            1 <= i <= 100000,
            forall|k: nat| 1 <= k < i ==> spec_name_taken(names@, #[trigger] spec_thread_name(k)),
        decreases 100000 - i,
    {
        let mut cand = Vec::new();
        let mut k: usize = 0;
        let pn = prefix.len();
        while k < pn
            invariant
                pn == prefix@.len(),
                0 <= k <= pn,
                cand@ == prefix@.take(k as int),
            decreases pn - k,
        {
            cand.push(prefix[k]);
            proof {
                assert(cand@ =~= prefix@.take(k + 1));
            }
            k = k + 1;
        }
        proof {
            assert(cand@ =~= prefix@);
        }
        let mut digits = decimal_chars(i);
        cand.append(&mut digits);
        proof {
            assert(cand@ == spec_thread_name(i as nat));
        }
        if !name_taken(&names, &cand) {
            let r = crate::text::string_from_chars(&cand);
            proof {
                assert(1 <= (i as nat) && (i as nat) < 100000 && r@ == spec_thread_name(i as nat)
                    && !spec_name_taken(names@, spec_thread_name(i as nat)));
            }
            return r;
        }
        i = i + 1;
    }
    let r = crate::text::string_from_chars(&chars_of("The last name"));
    r
}

} // verus!
