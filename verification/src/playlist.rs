//! The playlist: tracks built from extracted file metadata, sequential
//! id allocation, and cover-art selection.
//!
//! Reading tags out of an audio file is file I/O and stays outside; the
//! caller hands in the extracted plain values (`TrackMetadata`, the
//! pictures found in the tags) and this module does the rest.

use vstd::prelude::*;

use crate::duration_text::duration_text;
use crate::duration_text::format_duration;

verus! {

/// One playlist entry: an audio file with its extracted metadata.  The
/// duration is kept both as whole seconds and as the rendered
/// `minutes:seconds` text.
#[derive(Debug)]
pub struct Track {
    pub id: usize,
    pub title: String,
    pub artist: String,
    pub album: String,
    pub duration: String,
    pub duration_seconds: u64,
    pub file_path: String,
    pub current: bool,
}

/// What tag reading extracted from one audio file: each field absent
/// where the file's tags do not carry it.  `file_stem` is the file
/// name without its extension, the fallback title.
#[derive(Debug)]
pub struct TrackMetadata {
    pub title: Option<String>,
    pub artist: Option<String>,
    pub album: Option<String>,
    pub file_stem: Option<String>,
    pub duration_seconds: u64,
    pub file_path: String,
}

/// The cover image of a track: its media type and raw bytes.
#[derive(Debug)]
pub struct AlbumArt {
    pub mime_type: String,
    pub data: Vec<u8>,
}

/// How a picture embedded in a file's tags is classified: only the
/// front cover and the unclassified kind serve as album art.
#[derive(Clone, Copy, PartialEq, Eq, Structural, Debug)]
pub enum PictureKind {
    /// The tag marks the picture as the front cover.
    CoverFront,
    /// The tag carries the picture without a classification.
    Other,
    /// Any other classification (back cover, icon, ...).
    Unrelated,
}

/// One picture found in a file's tags.
#[derive(Debug)]
pub struct PictureInfo {
    pub kind: PictureKind,
    pub mime_type: Option<String>,
    pub data: Vec<u8>,
}

/// The playlist: the tracks in insertion order and the id the next
/// added track receives.
#[derive(Debug)]
pub struct PlaylistState {
    pub tracks: Vec<Track>,
    pub next_id: usize,
}

/// The title a track gets from its metadata: the tagged title, else the
/// file stem, else a placeholder.
pub open spec fn spec_title(m: TrackMetadata) -> Seq<char> {
    match m.title {
        Some(t) => t@,
        None => match m.file_stem {
            Some(f) => f@,
            None => "Unknown"@,
        },
    }
}

/// The artist a track gets from its metadata.
pub open spec fn spec_artist(m: TrackMetadata) -> Seq<char> {
    match m.artist {
        Some(a) => a@,
        None => "Unknown Artist"@,
    }
}

/// The album a track gets from its metadata.
pub open spec fn spec_album(m: TrackMetadata) -> Seq<char> {
    match m.album {
        Some(a) => a@,
        None => "Unknown Album"@,
    }
}

/// The track that metadata `m` yields under id `id`: every field
/// determined, the duration rendered as `minutes:seconds`, and the
/// track not yet the current one.
pub open spec fn track_has_metadata(t: Track, id: int, m: TrackMetadata) -> bool {
    &&& t.id == id
    &&& t.title@ == spec_title(m)
    &&& t.artist@ == spec_artist(m)
    &&& t.album@ == spec_album(m)
    &&& t.duration@ == duration_text(m.duration_seconds as nat)
    &&& t.duration_seconds == m.duration_seconds
    &&& t.file_path@ == m.file_path@
    &&& t.current == false
}

/// Two tracks that agree in every field (texts compared by contents).
pub open spec fn track_like(a: Track, b: Track) -> bool {
    &&& a.id == b.id
    &&& a.title@ == b.title@
    &&& a.artist@ == b.artist@
    &&& a.album@ == b.album@
    &&& a.duration@ == b.duration@
    &&& a.duration_seconds == b.duration_seconds
    &&& a.file_path@ == b.file_path@
    &&& a.current == b.current
}

/// Whether a picture serves as album art: the front cover or the
/// unclassified kind.
pub open spec fn is_cover_picture(p: PictureInfo) -> bool {
    p.kind is CoverFront || p.kind is Other
}

/// The media type reported for a picture: the tagged one, else the
/// conventional default.
pub open spec fn spec_mime(p: PictureInfo) -> Seq<char> {
    match p.mime_type {
        Some(m) => m@,
        None => "image/jpeg"@,
    }
}

/// Builds the track for metadata `meta` under id `id`: missing title,
/// artist and album fall back to the file stem or placeholders, and the
/// duration is rendered as text alongside the raw seconds.
pub fn make_track(id: usize, meta: &TrackMetadata) -> (t: Track)
    ensures
        track_has_metadata(t, id as int, *meta),
{
    let title = match &meta.title {
        Some(t) => t.clone(),
        None => match &meta.file_stem {
            Some(f) => f.clone(),
            None => "Unknown".to_owned(),
        },
    };
    let artist = match &meta.artist {
        Some(a) => a.clone(),
        None => "Unknown Artist".to_owned(),
    };
    let album = match &meta.album {
        Some(a) => a.clone(),
        None => "Unknown Album".to_owned(),
    };
    Track {
        id,
        title,
        artist,
        album,
        duration: format_duration(meta.duration_seconds),
        duration_seconds: meta.duration_seconds,
        file_path: meta.file_path.clone(),
        current: false,
    }
}

impl Track {
    /// A copy of the track, equal to it field by field.
    pub fn duplicate(&self) -> (t: Track)
        ensures
            track_like(t, *self),
    {
        Track {
            id: self.id,
            title: self.title.clone(),
            artist: self.artist.clone(),
            album: self.album.clone(),
            duration: self.duration.clone(),
            duration_seconds: self.duration_seconds,
            file_path: self.file_path.clone(),
            current: self.current,
        }
    }
}

impl PlaylistState {
    /// An empty playlist; ids start at one.
    pub fn new() -> (s: PlaylistState)
        ensures
            s.tracks@.len() == 0,
            s.next_id == 1,
    {
        PlaylistState { tracks: Vec::new(), next_id: 1 }
    }

    /// Hands out the next track id and advances the counter.
    pub fn get_next_id(&mut self) -> (id: usize)
        requires
            old(self).next_id < usize::MAX,
        ensures
            id == old(self).next_id,
            final(self).next_id == old(self).next_id + 1,
            final(self).tracks == old(self).tracks,
    {
        let id = self.next_id;
        self.next_id = self.next_id + 1;
        id
    }

    /// Appends one track per metadata entry, in order, each under the
    /// next id, and returns copies of the tracks just added.  Entries
    /// whose files could not be read never reach this point.
    pub fn add_files(&mut self, entries: &Vec<TrackMetadata>) -> (new_tracks: Vec<Track>)
        requires
            old(self).next_id + entries@.len() <= usize::MAX,
        ensures
            final(self).next_id == old(self).next_id + entries@.len(),
            final(self).tracks@.len() == old(self).tracks@.len() + entries@.len(),
            forall|i: int|
                0 <= i < old(self).tracks@.len() ==> final(self).tracks@[i] == old(
                    self,
                ).tracks@[i],
            forall|i: int|
                0 <= i < entries@.len() ==> track_has_metadata(
                    #[trigger] final(self).tracks@[old(self).tracks@.len() + i],
                    old(self).next_id + i,
                    entries@[i],
                ),
            new_tracks@.len() == entries@.len(),
            forall|i: int|
                0 <= i < entries@.len() ==> track_has_metadata(
                    #[trigger] new_tracks@[i],
                    old(self).next_id + i,
                    entries@[i],
                ),
    {
        let ghost tracks0 = self.tracks@;
        let ghost id0 = self.next_id as int;
        let mut new_tracks: Vec<Track> = Vec::new();
        let mut i: usize = 0;
        while i < entries.len()
            invariant
                i <= entries@.len(),
                id0 + entries@.len() <= usize::MAX,
                self.next_id == id0 + i,
                self.tracks@.len() == tracks0.len() + i,
                forall|j: int| 0 <= j < tracks0.len() ==> self.tracks@[j] == tracks0[j],
                forall|j: int|
                    0 <= j < i ==> track_has_metadata(
                        #[trigger] self.tracks@[tracks0.len() + j],
                        id0 + j,
                        entries@[j],
                    ),
                new_tracks@.len() == i,
                forall|j: int|
                    0 <= j < i ==> track_has_metadata(
                        #[trigger] new_tracks@[j],
                        id0 + j,
                        entries@[j],
                    ),
            decreases entries@.len() - i,
        {
            let id = self.get_next_id();
            let track = make_track(id, &entries[i]);
            let copy = track.duplicate();
            self.tracks.push(track);
            new_tracks.push(copy);
            i = i + 1;
        }
        new_tracks
    }

    /// A copy of the whole playlist, in order, each track equal to the
    /// stored one field by field.
    pub fn get_playlist(&self) -> (r: Vec<Track>)
        ensures
            r@.len() == self.tracks@.len(),
            forall|i: int|
                0 <= i < self.tracks@.len() ==> track_like(#[trigger] r@[i], self.tracks@[i]),
    {
        let mut r: Vec<Track> = Vec::new();
        let mut i: usize = 0;
        while i < self.tracks.len()
            invariant
                i <= self.tracks@.len(),
                r@.len() == i,
                forall|j: int| 0 <= j < i ==> track_like(#[trigger] r@[j], self.tracks@[j]),
            decreases self.tracks@.len() - i,
        {
            r.push(self.tracks[i].duplicate());
            i = i + 1;
        }
        r
    }
}

/// A copy of a byte vector.
fn clone_bytes(src: &Vec<u8>) -> (r: Vec<u8>)
    ensures
        r@ == src@,
{
    let mut r: Vec<u8> = Vec::new();
    let mut i: usize = 0;
    while i < src.len()
        invariant
            i <= src@.len(),
            r@ =~= src@.subrange(0, i as int),
        decreases src@.len() - i,
    {
        r.push(src[i]);
        i = i + 1;
    }
    proof {
        assert(r@ =~= src@);
    }
    r
}

/// Picks the album art among the pictures of a file's tags: the first
/// picture marked front cover or left unclassified, its media type
/// defaulting to the conventional one; none when no picture qualifies.
pub fn get_album_art(pictures: &Vec<PictureInfo>) -> (r: Option<AlbumArt>)
    ensures
        r is Some <==> exists|i: int|
            0 <= i < pictures@.len() && is_cover_picture(#[trigger] pictures@[i]),
        r matches Some(art) ==> exists|i: int|
            {
                &&& 0 <= i < pictures@.len()
                &&& is_cover_picture(#[trigger] pictures@[i])
                &&& forall|j: int| 0 <= j < i ==> !is_cover_picture(#[trigger] pictures@[j])
                &&& art.mime_type@ == spec_mime(pictures@[i])
                &&& art.data@ == pictures@[i].data@
            },
{
    let mut i: usize = 0;
    while i < pictures.len()
        invariant
            i <= pictures@.len(),
            forall|j: int| 0 <= j < i ==> !is_cover_picture(#[trigger] pictures@[j]),
        decreases pictures@.len() - i,
    {
        let p = &pictures[i];
        let qualifies = match p.kind {
            PictureKind::CoverFront => true,
            PictureKind::Other => true,
            PictureKind::Unrelated => false,
        };
        if qualifies {
            let mime = match &p.mime_type {
                Some(m) => m.clone(),
                None => "image/jpeg".to_owned(),
            };
            let art = AlbumArt { mime_type: mime, data: clone_bytes(&p.data) };
            proof {
                assert(is_cover_picture(pictures@[i as int]));
            }
            return Some(art);
        }
        i = i + 1;
    }
    None
}

} // verus!
