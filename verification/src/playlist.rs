//! The playlist: which directory entries become tracks, and under which name
//! each track is shown.
//!
//! The host lists the directory and says of each entry whether it is a regular
//! file; everything that is decided from the path's text is decided here.

use crate::text::{chars_of, last_index_of, rfind_from};
use vstd::prelude::*;

verus! {

/// The number of leading characters of a path that never belong to the display name.
pub const NAME_PREFIX_LEN: usize = 3;

/// The number of trailing characters of a path that never belong to the display name.
pub const NAME_SUFFIX_LEN: usize = 17;

/// What kind of thing a directory entry is.
#[derive(Clone, Copy, Debug, PartialEq, Eq, Structural)]
pub enum EntryKind {
    File,
    Directory,
    Other,
}

/// One direct child of the scanned directory.
#[derive(Clone, Debug, PartialEq, Eq)]
pub struct Entry {
    pub path: String,
    pub kind: EntryKind,
}

/// One playable file: where it lies and how it is shown.
#[derive(Clone, Debug, PartialEq, Eq)]
pub struct Track {
    pub file_path: String,
    pub display_name: String,
}

/// The mathematical content of a `Track`.
pub struct TrackView {
    pub file_path: Seq<char>,
    pub display_name: Seq<char>,
}

impl View for Track {
    type V = TrackView;

    open spec fn view(&self) -> TrackView {
        TrackView { file_path: self.file_path@, display_name: self.display_name@ }
    }
}

/// Why a listing could not be turned into a playlist.
#[derive(Clone, Copy, Debug, PartialEq, Eq, Structural)]
pub enum LoadError {
    /// The audio file at `index` of the listing has a path too short to cut a
    /// display name from.
    NameTooShort { index: usize },
}

/// The final component of a path: what follows its last `/`.
pub open spec fn file_name(path: Seq<char>) -> Seq<char> {
    match last_index_of(path, '/') {
        Some(i) => path.skip(i + 1),
        None => path,
    }
}

/// The extension of a path, without the dot.
///
/// It is what follows the last `.` of the file name. A file name without a
/// dot, one whose only dot is its first character, and the name `..` have no
/// extension.
pub open spec fn path_extension(path: Seq<char>) -> Option<Seq<char>> {
    let name = file_name(path);
    if name =~= seq!['.', '.'] {
        None
    } else {
        match last_index_of(name, '.') {
            None => None,
            Some(d) => if d == 0 {
                None
            } else {
                Some(name.skip(d + 1))
            },
        }
    }
}

/// The extension that marks an audio file. The match is exact: `MP3` is not `mp3`.
pub open spec fn audio_extension() -> Seq<char> {
    seq!['m', 'p', '3']
}

/// Whether a path names an audio file, judged by its extension alone.
pub open spec fn is_audio_path(path: Seq<char>) -> bool {
    path_extension(path) == Some(audio_extension())
}

/// The display name cut from a path: the path without its first
/// `NAME_PREFIX_LEN` and its last `NAME_SUFFIX_LEN` characters.
///
/// The cut is positional and knows nothing of separators or extensions. A
/// path with fewer characters than the suffix has no display name; one that
/// holds the suffix but not more than the prefix besides has the empty name.
pub open spec fn display_name_of(path: Seq<char>) -> Option<Seq<char>> {
    if path.len() < NAME_SUFFIX_LEN {
        None
    } else if path.len() - NAME_SUFFIX_LEN <= NAME_PREFIX_LEN {
        Some(Seq::empty())
    } else {
        Some(path.subrange(NAME_PREFIX_LEN as int, path.len() - NAME_SUFFIX_LEN))
    }
}

/// Whether a directory entry belongs in the playlist: a regular file with the
/// audio extension.
pub open spec fn qualifies(e: Entry) -> bool {
    e.kind == EntryKind::File && is_audio_path(e.path@)
}

/// The track that a qualifying entry becomes; `None` for any other entry.
pub open spec fn track_for(e: Entry) -> Option<TrackView> {
    if qualifies(e) {
        Some(TrackView { file_path: e.path@, display_name: display_name_of(e.path@).unwrap() })
    } else {
        None
    }
}

/// The playlist of a listing: the tracks of its qualifying entries, in the
/// listing's order.
pub open spec fn playlist_of(entries: Seq<Entry>) -> Seq<TrackView> {
    entries.filter_map(|e: Entry| track_for(e))
}

/// Whether the entry at `i` qualifies but is too short to be named.
pub open spec fn unnameable_at(entries: Seq<Entry>, i: int) -> bool {
    0 <= i < entries.len() && qualifies(entries[i]) && display_name_of(entries[i].path@) is None
}

/// The contents of a vector of tracks.
pub open spec fn track_views(tracks: Seq<Track>) -> Seq<TrackView> {
    tracks.map_values(|t: Track| t@)
}

/// Every track of a playlist comes from a qualifying entry of the listing:
/// a regular file whose extension is the audio extension, exactly. Nothing
/// else gets in, neither a file with another extension nor a directory.
pub proof fn lemma_playlist_holds_audio_files_only(entries: Seq<Entry>, k: int)
    requires
        0 <= k < playlist_of(entries).len(),
    ensures
        is_audio_path(playlist_of(entries)[k].file_path),
        exists|i: int|
            0 <= i < entries.len() && qualifies(#[trigger] entries[i]) && track_for(entries[i])
                == Some(playlist_of(entries)[k]),
    decreases entries.len(),
{
    let rest = entries.drop_last();
    if !qualifies(entries.last()) || k < playlist_of(rest).len() {
        lemma_playlist_holds_audio_files_only(rest, k);
        let i = choose|i: int|
            0 <= i < rest.len() && qualifies(#[trigger] rest[i]) && track_for(rest[i]) == Some(
                playlist_of(rest)[k],
            );
        assert(entries[i] == rest[i]);
    } else {
        assert(track_for(entries[entries.len() - 1]) == Some(playlist_of(entries)[k]));
    }
}

/// Every qualifying entry of the listing has its track in the playlist. The
/// track's place is the number of qualifying entries before it, so the
/// playlist keeps the order of the listing.
pub proof fn lemma_playlist_holds_every_audio_file(entries: Seq<Entry>, i: int) -> (k: int)
    requires
        0 <= i < entries.len(),
        qualifies(entries[i]),
    ensures
        0 <= k < playlist_of(entries).len(),
        Some(playlist_of(entries)[k]) == track_for(entries[i]),
        k == playlist_of(entries.take(i)).len(),
    decreases entries.len(),
{
    let rest = entries.drop_last();
    if i == entries.len() - 1 {
        assert(entries.take(i) =~= rest);
        playlist_of(rest).len() as int
    } else {
        let k = lemma_playlist_holds_every_audio_file(rest, i);
        assert(rest.take(i) =~= entries.take(i));
        k
    }
}

/// Decides from its text alone whether a path names an audio file.
pub fn is_audio_file(path: &str) -> (b: bool)
    ensures
        b == is_audio_path(path@),
{
    let v = chars_of(path);
    let n = v.len();
    assert(v@.skip(0) =~= v@);
    let start: usize = match rfind_from(&v, 0, '/') {
        Some(i) => {
            proof {
                crate::text::lemma_last_index_of(v@, '/');
            }
            i + 1
        },
        None => 0,
    };
    let ghost name = v@.skip(start as int);
    assert(name =~= file_name(path@));
    match rfind_from(&v, start, '.') {
        None => false,
        Some(d) => {
            proof {
                crate::text::lemma_last_index_of(name, '.');
            }
            if d == 0 {
                false
            } else {
                let e: usize = start + d + 1;
                assert(name.skip(d as int + 1) =~= v@.skip(e as int));
                let found = n - e == 3 && v[e] == 'm' && v[e + 1] == 'p' && v[e + 2] == '3';
                proof {
                    let ext = v@.skip(e as int);
                    if found {
                        assert(ext =~= audio_extension());
                    } else if ext == audio_extension() {
                        assert(ext[0] == 'm' && ext[1] == 'p' && ext[2] == '3');
                    }
                }
                found
            }
        },
    }
}

/// Cuts the display name from a path, where the path is long enough.
pub fn display_name(path: &str) -> (r: Option<String>)
    ensures
        match r {
            Some(name) => display_name_of(path@) == Some(name@),
            None => display_name_of(path@) is None,
        },
{
    let n = path.unicode_len();
    if n < NAME_SUFFIX_LEN {
        None
    } else {
        let end = n - NAME_SUFFIX_LEN;
        if end <= NAME_PREFIX_LEN {
            Some(String::new())
        } else {
            Some(path.substring_char(NAME_PREFIX_LEN, end).to_owned())
        }
    }
}

/// Builds the playlist from a directory listing.
///
/// Entries that are not regular files, and files without the audio extension,
/// are left out; the others become tracks in the listing's order. The first
/// qualifying entry whose path is too short to be named makes the whole load
/// fail: no partial playlist is returned.
pub fn load_tracks(entries: &Vec<Entry>) -> (r: Result<Vec<Track>, LoadError>)
    ensures
        match r {
            Ok(tracks) => {
                &&& forall|i: int| !unnameable_at(entries@, i)
                &&& track_views(tracks@) == playlist_of(entries@)
            },
            Err(LoadError::NameTooShort { index }) => {
                &&& unnameable_at(entries@, index as int)
                &&& forall|i: int| 0 <= i < index ==> !unnameable_at(entries@, i)
            },
        },
{
    let mut tracks: Vec<Track> = Vec::new();
    let mut i: usize = 0;
    while i < entries.len()
        invariant
            i <= entries@.len(),
            forall|j: int| 0 <= j < i ==> !unnameable_at(entries@, j),
            track_views(tracks@) == playlist_of(entries@.take(i as int)),
        decreases entries@.len() - i,
    {
        let entry = &entries[i];
        assert(entries@.take(i as int + 1).drop_last() =~= entries@.take(i as int));
        let is_file = match entry.kind {
            EntryKind::File => true,
            _ => false,
        };
        if is_file && is_audio_file(entry.path.as_str()) {
            match display_name(entry.path.as_str()) {
                None => {
                    return Err(LoadError::NameTooShort { index: i });
                },
                Some(name) => {
                    let track = Track { file_path: entry.path.clone(), display_name: name };
                    let ghost loaded = tracks@;
                    tracks.push(track);
                    assert(track_views(tracks@) =~= track_views(loaded) + seq![track@]);
                },
            }
        }
        i += 1;
    }
    assert(entries@.take(i as int) =~= entries@);
    Ok(tracks)
}

} // verus!
