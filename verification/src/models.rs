//! The values the library hands to the user interface.

use vstd::prelude::*;

verus! {

/// A track of the library.
#[derive(Clone, Debug, PartialEq)]
pub struct Track {
    pub id: i64,
    /// Where the file is.
    pub path: String,
    pub title: String,
    pub artist: Option<String>,
    pub album: Option<String>,
    /// Length in seconds, kept as the bit pattern of the `f64` the tag
    /// reader gave (`f64::to_bits`), so that it comes back unchanged.
    pub duration_secs_bits: Option<u64>,
    pub track_no: Option<u32>,
    /// Where the cached cover art is, if the file had any.
    pub cover_path: Option<String>,
}

/// A playlist with the number of tracks in it.
#[derive(Clone, Debug, PartialEq)]
pub struct Playlist {
    pub id: i64,
    pub name: String,
    pub track_count: i64,
}

impl Playlist {
    /// A playlist just created under `id`: it holds no track yet.
    pub fn created(id: i64, name: String) -> (p: Playlist)
        ensures
            p.id == id,
            p.name == name,
            p.track_count == 0,
    {
        Playlist { id, name, track_count: 0 }
    }
}

/// How far a folder scan has got.
#[derive(Clone, Debug, PartialEq)]
pub struct ScanProgress {
    /// Files read so far.
    pub done: usize,
    /// Files the scan found.
    pub total: usize,
    /// Name of the file read last.
    pub current_file: String,
}

/// What a drop of files and folders onto the window did.
#[derive(Clone, Debug, PartialEq)]
pub struct DropResult {
    /// Audio files added to the library, in drop order, for the queue.
    pub queued: Vec<Track>,
    /// How many dropped folders were scanned.
    pub folders_scanned: usize,
}

impl DropResult {
    /// Nothing queued, nothing scanned.
    pub fn new() -> (r: DropResult)
        ensures
            r.queued@.len() == 0,
            r.folders_scanned == 0,
    {
        DropResult { queued: Vec::new(), folders_scanned: 0 }
    }

    /// Counts one more scanned folder.
    pub fn record_scanned_folder(&mut self)
        requires
            old(self).folders_scanned < usize::MAX,
        ensures
            final(self).folders_scanned == old(self).folders_scanned + 1,
            final(self).queued@ == old(self).queued@,
    {
        self.folders_scanned = self.folders_scanned + 1;
    }

    /// Adds a track to the end of the queued ones.
    pub fn record_queued(&mut self, track: Track)
        ensures
            final(self).queued@ == old(self).queued@.push(track),
            final(self).folders_scanned == old(self).folders_scanned,
    {
        self.queued.push(track);
    }
}

} // verus!
