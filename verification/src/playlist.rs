//! The playlist store: an ordered, mutable sequence of tracks addressed by
//! position, together with the rule that derives a track's display name from
//! the final component of its filesystem path.

use vstd::prelude::*;
use vstd::string::StrSliceExecFns;

use crate::errors::PlaylistError;

verus! {

/// A playlist entry: a filesystem path paired with the display name derived
/// from the path's final component. Immutable once constructed.
#[derive(Debug, PartialEq, Eq)]
pub struct Track {
    pub path: String,
    pub name: String,
}

/// The maximal suffix of `s` that contains no separator: the text of the last
/// path component as written, possibly empty.
pub open spec fn last_segment(s: Seq<char>) -> Seq<char>
    decreases s.len(),
{
    if s.len() == 0 || s.last() == '/' {
        Seq::empty()
    } else {
        last_segment(s.drop_last()).push(s.last())
    }
}

/// The final component of a path, read the usual Unix way: trailing
/// separators are ignored, `.` components are skipped, and a path that ends
/// in `..` (or holds no component at all, such as the empty path or `/`)
/// has no final component.
pub open spec fn file_name(s: Seq<char>) -> Option<Seq<char>>
    decreases s.len(),
{
    if s.len() == 0 {
        None
    } else if s.last() == '/' {
        file_name(s.drop_last())
    } else if last_segment(s) == seq!['.'] {
        file_name(s.drop_last())
    } else if last_segment(s) == seq!['.', '.'] {
        None
    } else {
        Some(last_segment(s))
    }
}

/// The display name derived from a path: its final component, or `"Unknown"`
/// where the path has none to offer.
pub open spec fn display_name(s: Seq<char>) -> Seq<char> {
    match file_name(s) {
        Some(n) => n,
        None => "Unknown"@,
    }
}

/// The slash-free range `start..end` of `s` is exactly the last segment of
/// `s.take(end)` whenever a separator (or the start of the string) stands
/// right before it.
proof fn lemma_last_segment_range(s: Seq<char>, start: int, end: int)
    requires
        0 <= start <= end <= s.len(),
        forall|i: int| start <= i < end ==> s[i] != '/',
        start == 0 || s[start - 1] == '/',
    ensures
        last_segment(s.take(end)) == s.subrange(start, end),
    decreases end - start,
{
    if end == start {
        if start == 0 {
            assert(s.take(0) =~= Seq::<char>::empty());
        } else {
            assert(s.take(start).last() == s[start - 1]);
        }
        assert(last_segment(s.take(start)) =~= s.subrange(start, start));
    } else {
        lemma_last_segment_range(s, start, end - 1);
        assert(s.take(end).drop_last() =~= s.take(end - 1));
        assert(s.take(end).last() == s[end - 1]);
        assert(last_segment(s.take(end)) =~= s.subrange(start, end));
    }
}

/// The character range of the final component within the first `end`
/// characters of `s`, or `None` where that prefix has no final component.
fn file_name_range(s: &str, end: usize) -> (r: Option<(usize, usize)>)
    requires
        end <= s@.len(),
    ensures
        match r {
            Some(range) => {
                &&& range.0 < range.1 <= s@.len()
                &&& file_name(s@.take(end as int)) == Some(
                    s@.subrange(range.0 as int, range.1 as int),
                )
            },
            None => file_name(s@.take(end as int)) is None,
        },
    decreases end,
{
    let mut e: usize = end;
    while e > 0 && s.get_char(e - 1) == '/'
        invariant
            e <= end <= s@.len(),
            file_name(s@.take(end as int)) == file_name(s@.take(e as int)),
        decreases e,
    {
        proof {
            assert(s@.take(e as int).drop_last() =~= s@.take(e as int - 1));
        }
        e = e - 1;
    }
    if e == 0 {
        return None;
    }
    let mut st: usize = e;
    while st > 0 && s.get_char(st - 1) != '/'
        invariant
            st <= e <= s@.len(),
            forall|i: int| st <= i < e ==> s@[i] != '/',
        decreases st,
    {
        st = st - 1;
    }
    proof {
        lemma_last_segment_range(s@, st as int, e as int);
        assert(st < e);
    }
    if e - st == 1 && s.get_char(st) == '.' {
        proof {
            assert(s@.subrange(st as int, e as int) =~= seq!['.']);
            assert(s@.take(e as int).drop_last() =~= s@.take(st as int));
        }
        file_name_range(s, st)
    } else if e - st == 2 && s.get_char(st) == '.' && s.get_char(st + 1) == '.' {
        proof {
            assert(s@.subrange(st as int, e as int) =~= seq!['.', '.']);
        }
        None
    } else {
        proof {
            let seg = s@.subrange(st as int, e as int);
            assert(seg.len() == e - st);
            if seg == seq!['.'] {
                assert(seg[0] == '.');
                assert(s@[st as int] == '.');
            }
            if seg == seq!['.', '.'] {
                assert(s@[st as int] == '.' && s@[st as int + 1] == '.');
            }
        }
        Some((st, e))
    }
}

impl Track {
    /// Build a track from a path: the path is kept exactly as given, and the
    /// name is the path's final component, or `"Unknown"` where there is none.
    pub fn from_path(path: String) -> (t: Track)
        ensures
            t.path == path,
            t.name@ == display_name(path@),
    {
        let n: usize = path.as_str().unicode_len();
        proof {
            assert(path@.take(n as int) =~= path@);
        }
        let name: String = match file_name_range(path.as_str(), n) {
            Some(range) => path.as_str().substring_char(range.0, range.1).to_owned(),
            None => "Unknown".to_owned(),
        };
        Track { path, name }
    }
}

impl Clone for Track {
    /// A deep copy: both fields are carried over unchanged.
    fn clone(&self) -> (t: Track)
        ensures
            t == *self,
    {
        Track { path: self.path.clone(), name: self.name.clone() }
    }
}

/// An ordered, mutable sequence of tracks. Insertion order is the only
/// order; indices are 0-based and meaningful only until the next mutation.
pub struct Playlist {
    tracks: Vec<Track>,
}

impl View for Playlist {
    type V = Seq<Track>;

    closed spec fn view(&self) -> Seq<Track> {
        self.tracks@
    }
}

impl Playlist {
    /// An empty playlist.
    pub fn new() -> (p: Playlist)
        ensures
            p@ == Seq::<Track>::empty(),
    {
        Playlist { tracks: Vec::new() }
    }

    /// Derive a track from `path` and append it at the end; the created
    /// track is returned. Always succeeds, and duplicates are permitted.
    pub fn add_track(&mut self, path: String) -> (t: Track)
        ensures
            t.path == path,
            t.name@ == display_name(path@),
            final(self)@ == old(self)@.push(t),
    {
        let track = Track::from_path(path);
        self.tracks.push(track.clone());
        track
    }

    /// Remove the track at `index`, shifting the later tracks left by one.
    /// An index at or past the end is refused with `IndexOutOfBounds` and
    /// leaves the sequence unchanged.
    pub fn remove_track(&mut self, index: usize) -> (r: Result<(), PlaylistError>)
        ensures
            index < old(self)@.len() ==> r is Ok,
            index < old(self)@.len() ==> final(self)@ == old(self)@.remove(index as int),
            index >= old(self)@.len() ==> r == Err::<(), PlaylistError>(
                PlaylistError::IndexOutOfBounds,
            ),
            index >= old(self)@.len() ==> final(self)@ == old(self)@,
    {
        if index < self.tracks.len() {
            self.tracks.remove(index);
            Ok(())
        } else {
            Err(PlaylistError::IndexOutOfBounds)
        }
    }

    /// A full snapshot copy of the sequence, in insertion order.
    pub fn get_tracks(&self) -> (ts: Vec<Track>)
        ensures
            ts@ == self@,
    {
        let mut ts: Vec<Track> = Vec::new();
        let mut i: usize = 0;
        while i < self.tracks.len()
            invariant
                i <= self.tracks.len(),
                ts@ == self.tracks@.subrange(0, i as int),
            decreases self.tracks.len() - i,
        {
            ts.push(self.tracks[i].clone());
            proof {
                assert(ts@ =~= self.tracks@.subrange(0, i as int + 1));
            }
            i = i + 1;
        }
        proof {
            assert(self.tracks@.subrange(0, self.tracks@.len() as int) =~= self.tracks@);
        }
        ts
    }

    /// Empty the sequence unconditionally.
    pub fn clear(&mut self)
        ensures
            final(self)@ == Seq::<Track>::empty(),
    {
        self.tracks.clear();
    }

    /// A copy of the track at `index`, or `None` when out of bounds: a
    /// lookup, deliberately not an error path.
    pub fn get_track(&self, index: usize) -> (r: Option<Track>)
        ensures
            index < self@.len() ==> r == Some(self@[index as int]),
            index >= self@.len() ==> r is None,
    {
        if index < self.tracks.len() {
            Some(self.tracks[index].clone())
        } else {
            None
        }
    }
}

/// Resolve a play-by-index request against the playlist: the track at
/// `index`, or `TrackNotFound` where the index resolves to nothing. The
/// playback controller is not consulted, so a failed resolution cannot
/// disturb playback.
pub fn select_track(playlist: &Playlist, index: usize) -> (r: Result<Track, PlaylistError>)
    ensures
        index < playlist@.len() ==> r == Ok::<Track, PlaylistError>(playlist@[index as int]),
        index >= playlist@.len() ==> r == Err::<Track, PlaylistError>(PlaylistError::TrackNotFound),
{
    match playlist.get_track(index) {
        Some(t) => Ok(t),
        None => Err(PlaylistError::TrackNotFound),
    }
}

/// Removal at a valid index shortens the sequence by exactly one, keeps
/// every earlier track in place and shifts every later track left by one:
/// the remaining tracks keep their relative order and only the removed one
/// is gone.
pub proof fn lemma_remove_keeps_order(s: Seq<Track>, i: int)
    requires
        0 <= i < s.len(),
    ensures
        s.remove(i).len() == s.len() - 1,
        forall|j: int| 0 <= j < i ==> s.remove(i)[j] == s[j],
        forall|j: int| i <= j < s.len() - 1 ==> s.remove(i)[j] == s[j + 1],
{
}

/// Appending a track and then reading the last index yields exactly the
/// appended track.
pub proof fn lemma_add_then_get(s: Seq<Track>, t: Track)
    ensures
        s.push(t).len() == s.len() + 1,
        s.push(t)[s.len() as int] == t,
{
}

} // verus!
