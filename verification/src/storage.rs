//! A storage of audio sources backed by files on local disk.
//!
//! The surrounding application walks the directory tree and hands the file
//! listing to [`LocalStorage::load_sources`]; everything from there on —
//! picking out music files, deriving display titles from paths — is
//! verified character logic.

use vstd::prelude::*;

use crate::text::{chars_of, ends_with, spec_ends_with, spec_truncated, string_from_chars, truncate_chars};

verus! {

/// What a storage needs to reach its sources.
pub enum StorageCredentials {
    Local { path: String },
}

/// Does the file name carry one of the recognized music extensions?
pub open spec fn spec_is_music(s: Seq<char>) -> bool {
    ||| spec_ends_with(s, seq!['.', 'm', 'p', '3'])
    ||| spec_ends_with(s, seq!['.', 'M', 'P', '3'])
    ||| spec_ends_with(s, seq!['.', 'o', 'g', 'g'])
}

/// Is `filename` a music file this storage reads (`.mp3`, `.MP3`,
/// `.ogg`)?
pub fn is_music_file(filename: &str) -> (r: bool)
    ensures
        r == spec_is_music(filename@),
{
    let cs = chars_of(filename);
    let mut mp3: Vec<char> = Vec::new();
    mp3.push('.');
    mp3.push('m');
    mp3.push('p');
    mp3.push('3');
    let mut mp3u: Vec<char> = Vec::new();
    mp3u.push('.');
    mp3u.push('M');
    mp3u.push('P');
    mp3u.push('3');
    let mut ogg: Vec<char> = Vec::new();
    ogg.push('.');
    ogg.push('o');
    ogg.push('g');
    ogg.push('g');
    proof {
        assert(mp3@ =~= seq!['.', 'm', 'p', '3']);
        assert(mp3u@ =~= seq!['.', 'M', 'P', '3']);
        assert(ogg@ =~= seq!['.', 'o', 'g', 'g']);
    }
    ends_with(&cs, &mp3) || ends_with(&cs, &mp3u) || ends_with(&cs, &ogg)
}

/// The final path component: everything after the last `/`.
pub open spec fn spec_basename(s: Seq<char>) -> Seq<char>
    decreases s.len(),
{
    if s.len() == 0 {
        s
    } else if s.last() == '/' {
        Seq::empty()
    } else {
        spec_basename(s.drop_last()).push(s.last())
    }
}

/// The index of the last `.` of `b`, or `-1` when there is none.
pub open spec fn spec_last_dot(b: Seq<char>) -> int
    decreases b.len(),
{
    if b.len() == 0 {
        -1
    } else if b.last() == '.' {
        b.len() - 1
    } else {
        spec_last_dot(b.drop_last())
    }
}

/// The file stem of a path component: everything before its last `.`,
/// except that a lone leading dot is no extension separator.
pub open spec fn spec_stem(b: Seq<char>) -> Seq<char> {
    if spec_last_dot(b) >= 1 {
        b.take(spec_last_dot(b))
    } else {
        b
    }
}

/// The display title a local file gets: the stem of its final path
/// component, truncated to 50 characters.
pub open spec fn spec_title_of(path: Seq<char>) -> Seq<char> {
    spec_truncated(spec_stem(spec_basename(path)), 50)
}

/// A source stored in a local file, titled by its file stem.
pub struct LocalSource {
    pub filename: String,
    pub title: String,
}

impl LocalSource {
    /// Describe the file at `filename`, deriving the display title from
    /// its name.
    pub fn new(filename: String) -> (r: LocalSource)
        ensures
            r.filename@ == filename@,
            r.title@ == spec_title_of(filename@),
    {
        let cs = chars_of(filename.as_str());
        let n = cs.len();

        // the final path component
        let mut base: Vec<char> = Vec::new();
        let mut i: usize = 0;
        while i < n
            invariant
                n == cs@.len(),
                0 <= i <= n,
                base@ == spec_basename(cs@.take(i as int)),
            decreases n - i,
        {
            proof {
                assert(cs@.take(i + 1).drop_last() =~= cs@.take(i as int));
                assert(cs@.take(i + 1).last() == cs@[i as int]);
            }
            if cs[i] == '/' {
                base = Vec::new();
            } else {
                base.push(cs[i]);
            }
            i = i + 1;
        }
        proof {
            assert(cs@.take(n as int) =~= cs@);
        }

        // strip the extension after the last dot, unless that dot leads
        let m = base.len();
        let mut last_dot: Option<usize> = None;
        let mut j: usize = 0;
        while j < m
            invariant
                m == base@.len(),
                0 <= j <= m,
                last_dot is None ==> spec_last_dot(base@.take(j as int)) == -1,
                last_dot matches Some(k) ==> k < j && spec_last_dot(base@.take(j as int)) == k,
            decreases m - j,
        {
            proof {
                assert(base@.take(j + 1).drop_last() =~= base@.take(j as int));
                assert(base@.take(j + 1).last() == base@[j as int]);
            }
            if base[j] == '.' {
                last_dot = Some(j);
            }
            j = j + 1;
        }
        proof {
            assert(base@.take(m as int) =~= base@);
        }
        let stem = match last_dot {
            Some(k) if k >= 1 => {
                let mut stem: Vec<char> = Vec::new();
                let mut t: usize = 0;
                while t < k
                    invariant
                        t <= k,
                        k < base@.len(),
                        stem@ == base@.take(t as int),
                    decreases k - t,
                {
                    stem.push(base[t]);
                    proof {
                        assert(stem@ =~= base@.take(t + 1));
                    }
                    t = t + 1;
                }
                stem
            },
            _ => base,
        };

        let title_chars = truncate_chars(stem, 50);
        let title = string_from_chars(&title_chars);
        LocalSource { filename, title }
    }
}

/// The music files of `files`, in order.
pub open spec fn spec_music_list(files: Seq<String>) -> Seq<String>
    decreases files.len(),
{
    if files.len() == 0 {
        files
    } else {
        let rest = spec_music_list(files.drop_last());
        if spec_is_music(files.last()@) {
            rest.push(files.last())
        } else {
            rest
        }
    }
}

/// A storage of audio sources read from local disk.
pub struct LocalStorage {
    pub storage_path: String,
    pub caption: String,
    pub sources: Vec<LocalSource>,
}

impl LocalStorage {
    /// An empty storage rooted at `storage_path`, captioned by it.  The
    /// application scans the disk and hands the listing to
    /// [`LocalStorage::load_sources`].
    pub fn new(storage_path: String) -> (r: LocalStorage)
        ensures
            r.storage_path@ == storage_path@,
            r.caption@ == storage_path@,
            r.sources@.len() == 0,
    {
        let caption = storage_path.clone();
        LocalStorage { storage_path, caption, sources: Vec::new() }
    }

    /// Fill the storage from a file listing: keep the music files, in
    /// order, each as a source titled by its file stem.
    pub fn load_sources(&mut self, files: Vec<String>)
        ensures
            final(self).storage_path@ == old(self).storage_path@,
            final(self).caption@ == old(self).caption@,
            final(self).sources@.len() == spec_music_list(files@).len(),
            forall|k: int|
                0 <= k < spec_music_list(files@).len() ==> {
                    let f = spec_music_list(files@)[k];
                    &&& (#[trigger] final(self).sources@[k]).filename@ == f@
                    &&& final(self).sources@[k].title@ == spec_title_of(f@)
                },
    {
        let n = files.len();
        let mut sources: Vec<LocalSource> = Vec::new();
        let mut i: usize = 0;
        while i < n
            invariant
                n == files@.len(),
                0 <= i <= n,
                sources@.len() == spec_music_list(files@.take(i as int)).len(),
                forall|k: int|
                    0 <= k < sources@.len() ==> {
                        let f = spec_music_list(files@.take(i as int))[k];
                        &&& (#[trigger] sources@[k]).filename@ == f@
                        &&& sources@[k].title@ == spec_title_of(f@)
                    },
            decreases n - i,
        {
            proof {
                assert(files@.take(i + 1).drop_last() =~= files@.take(i as int));
                assert(files@.take(i + 1).last() == files@[i as int]);
            }
            let f = files[i].clone();
            if is_music_file(f.as_str()) {
                sources.push(LocalSource::new(f));
            }
            i = i + 1;
        }
        proof {
            assert(files@.take(n as int) =~= files@);
        }
        self.sources = sources;
    }

    /// The source at `index`, or nothing when out of range.
    pub fn get(&self, index: usize) -> (r: Option<LocalSource>)
        ensures
            (index as int) < self.sources@.len() ==> (r matches Some(s) && s.filename@
                == self.sources@[index as int].filename@ && s.title@ == self.sources@[
                index as int].title@),
            (index as int) >= self.sources@.len() ==> r is None,
    {
        if index < self.sources.len() {
            Some(
                LocalSource {
                    filename: self.sources[index].filename.clone(),
                    title: self.sources[index].title.clone(),
                },
            )
        } else {
            None
        }
    }

    /// How many sources the storage holds.
    pub fn len(&self) -> (r: usize)
        ensures
            r == self.sources@.len(),
    {
        self.sources.len()
    }

    /// One listing row per source, in order: shown, numbered, titled as
    /// the source is, with no tags yet.
    pub fn music_rows(&self) -> (r: Vec<Music>)
        ensures
            r@.len() == self.sources@.len(),
            forall|i: int|
                0 <= i < self.sources@.len() ==> {
                    let m = #[trigger] r@[i];
                    &&& m.shown
                    &&& m.index == i
                    &&& m.title@ == self.sources@[i].title@
                    &&& m.tags@.len() == 0
                },
    {
        let n = self.sources.len();
        let mut rows: Vec<Music> = Vec::new();
        let mut i: usize = 0;
        while i < n
            invariant
                n == self.sources@.len(),
                0 <= i <= n,
                rows@.len() == i,
                forall|j: int|
                    0 <= j < i ==> {
                        let m = #[trigger] rows@[j];
                        &&& m.shown
                        &&& m.index == j
                        &&& m.title@ == self.sources@[j].title@
                        &&& m.tags@.len() == 0
                    },
            decreases n - i,
        {
            rows.push(Music::new(true, i, self.sources[i].title.clone(), Vec::new()));
            i = i + 1;
        }
        rows
    }

    pub fn get_caption(&self) -> (r: String)
        ensures
            r@ == self.caption@,
    {
        self.caption.clone()
    }

    pub fn set_caption(&mut self, new_caption: String)
        ensures
            *final(self) == (LocalStorage { caption: new_caption, ..*old(self) }),
    {
        self.caption = new_caption;
    }
}

/// Does `s` contain `pat` as a contiguous substring?
pub open spec fn spec_contains(s: Seq<char>, pat: Seq<char>) -> bool {
    exists|k: int| 0 <= k <= s.len() - pat.len() && #[trigger] s.subrange(k, k + pat.len()) == pat
}

/// Substring search over character vectors.
pub fn chars_contain(s: &Vec<char>, pat: &Vec<char>) -> (r: bool)
    ensures
        r == spec_contains(s@, pat@),
{
    let n = s.len();
    let m = pat.len();
    if m > n {
        return false;
    }
    if m == 0 {
        proof {
            assert(s@.subrange(0, 0 + pat@.len() as int) =~= pat@);
        }
        return true;
    }
    let mut k: usize = 0;
    while k <= n - m
        invariant
            0 < m <= n,
            n == s@.len(),
            m == pat@.len(),
            0 <= k <= n - m + 1,
            forall|q: int| 0 <= q < k ==> #[trigger] s@.subrange(q, q + m as int) != pat@,
        decreases n - m + 1 - k,
    {
        let mut j: usize = 0;
        let mut matched = true;
        while j < m
            invariant
                m <= n,
                n == s@.len(),
                m == pat@.len(),
                k <= n - m,
                0 <= j <= m,
                matched ==> forall|t: int| 0 <= t < j ==> s@[k + t] == pat@[t],
                !matched ==> s@.subrange(k as int, k + m as int) != pat@,
            decreases m - j,
        {
            if s[k + j] != pat[j] {
                proof {
                    assert(s@.subrange(k as int, k + m as int)[j as int] != pat@[j as int]);
                }
                matched = false;
                j = m;
            } else {
                j = j + 1;
            }
        }
        if matched {
            proof {
                assert(s@.subrange(k as int, k + m as int) =~= pat@);
            }
            return true;
        }
        k = k + 1;
    }
    false
}

/// A music row matches a search pattern when its title or one of its tags
/// contains the pattern.
pub open spec fn spec_row_matches(row: Music, pattern: Seq<char>) -> bool {
    spec_contains(row.title@, pattern) || (exists|t: int|
        0 <= t < row.tags@.len() && spec_contains((#[trigger] row.tags@[t])@, pattern))
}

/// Re-filter a music listing: a row stays shown exactly when its title or
/// one of its tags contains the pattern.
pub fn search_music(music: &mut Vec<Music>, pattern: &str)
    ensures
        final(music)@.len() == old(music)@.len(),
        forall|i: int|
            0 <= i < old(music)@.len() ==> {
                let pre = old(music)@[i];
                let post = #[trigger] final(music)@[i];
                &&& post == (Music { shown: post.shown, ..pre })
                &&& post.shown == spec_row_matches(pre, pattern@)
            },
{
    let pat = chars_of(pattern);
    let n = music.len();
    let mut i: usize = 0;
    while i < n
        invariant
            pat@ == pattern@,
            n == music@.len(),
            n == old(music)@.len(),
            0 <= i <= n,
            forall|j: int| i <= j < n ==> #[trigger] music@[j] == old(music)@[j],
            forall|j: int|
                0 <= j < i ==> {
                    let pre = old(music)@[j];
                    let post = #[trigger] music@[j];
                    &&& post == (Music { shown: post.shown, ..pre })
                    &&& post.shown == spec_row_matches(pre, pattern@)
                },
        decreases n - i,
    {
        let ghost before = music@;
        let mut row = music.remove(i);
        let title_cs = chars_of(row.title.as_str());
        let mut shown = chars_contain(&title_cs, &pat);
        let tn = row.tags.len();
        let mut t: usize = 0;
        while t < tn
            invariant
                pat@ == pattern@,
                tn == row.tags@.len(),
                0 <= t <= tn,
                shown == (spec_contains(row.title@, pattern@) || (exists|u: int|
                    0 <= u < t && spec_contains((#[trigger] row.tags@[u])@, pattern@))),
            decreases tn - t,
        {
            let tag_cs = chars_of(row.tags[t].as_str());
            if chars_contain(&tag_cs, &pat) {
                shown = true;
            }
            t = t + 1;
        }
        row.shown = shown;
        music.insert(i, row);
        proof {
            assert(music@ =~= before.update(
                i as int,
                (Music { shown: shown, ..before[i as int] }),
            ));
        }
        i = i + 1;
    }
}

/// The opening capability for one local file, for an audio backend to
/// decode.
pub struct LocalOpener {
    pub filename: String,
}

impl LocalOpener {
    pub fn new(filename: String) -> (r: LocalOpener)
        ensures
            r.filename@ == filename@,
    {
        LocalOpener { filename }
    }
}

/// One row of a storage listing as the UI shows it.
pub struct Music {
    pub shown: bool,
    pub index: usize,
    pub title: String,
    pub tags: Vec<String>,
}

impl Music {
    pub fn new(shown: bool, index: usize, title: String, tags: Vec<String>) -> (r: Music)
        ensures
            r.shown == shown,
            r.index == index,
            r.title@ == title@,
            r.tags@ == tags@,
    {
        Music { shown, index, title, tags }
    }
}

} // verus!
