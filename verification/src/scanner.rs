//! Scanning rules: which files are audio, what a file's tags become, how a
//! cover file is named, when progress is reported, and what a drop does.

use vstd::prelude::*;
use crate::models::ScanProgress;
use crate::paths::{final_segment, follows_a_dot, has_plain_file_name, has_portable_extension,
    has_portable_name, portable_extension, tail_name, name_extension, name_stem, occurs_in, path_extension, path_file_name, path_file_stem};
use crate::text::{ascii_lowercase, blank, chars_of, is_blank, lowercase_ascii, same_chars};

verus! {

/// The file extensions the library treats as audio, in lowercase.
pub open spec fn audio_extensions() -> Seq<Seq<char>> {
    seq!["mp3"@, "m4a"@, "aac"@, "flac"@, "ogg"@, "oga"@, "opus"@, "wav"@, "aiff"@, "aif"@]
}

fn audio_extension_list() -> (r: Vec<&'static str>)
    ensures
        r@.map_values(|s: &str| s@) == audio_extensions(),
{
    let r = vec!["mp3", "m4a", "aac", "flac", "ogg", "oga", "opus", "wav", "aiff", "aif"];
    assert(r@.map_values(|s: &str| s@) =~= audio_extensions());
    r
}

/// The audio extensions are exactly mp3, m4a, aac, flac, ogg, oga, opus,
/// wav, aiff and aif.
pub proof fn law_audio_extensions_are(e: Seq<char>)
    ensures
        audio_extensions().contains(e) <==> (e == "mp3"@
            || e == "m4a"@
            || e == "aac"@
            || e == "flac"@
            || e == "ogg"@
            || e == "oga"@
            || e == "opus"@
            || e == "wav"@
            || e == "aiff"@
            || e == "aif"@),
{
    let a = audio_extensions();
    assert(a[0] == "mp3"@ && a[1] == "m4a"@ && a[2] == "aac"@ && a[3] == "flac"@ && a[4] == "ogg"@);
    assert(a[5] == "oga"@ && a[6] == "opus"@ && a[7] == "wav"@ && a[8] == "aiff"@ && a[9] == "aif"@);
    if a.contains(e) {
        let k = choose|k: int| 0 <= k < a.len() && a[k] == e;
        assert(0 <= k < 10);
    }
}

/// Whether `ext` names an audio format, ignoring ASCII case.
pub fn is_audio_extension(ext: &str) -> (r: bool)
    ensures
        r == audio_extensions().contains(ascii_lowercase(ext@)),
        r <==> (ascii_lowercase(ext@) == "mp3"@
            || ascii_lowercase(ext@) == "m4a"@
            || ascii_lowercase(ext@) == "aac"@
            || ascii_lowercase(ext@) == "flac"@
            || ascii_lowercase(ext@) == "ogg"@
            || ascii_lowercase(ext@) == "oga"@
            || ascii_lowercase(ext@) == "opus"@
            || ascii_lowercase(ext@) == "wav"@
            || ascii_lowercase(ext@) == "aiff"@
            || ascii_lowercase(ext@) == "aif"@),
{
    let lower = lowercase_ascii(ext);
    let list = audio_extension_list();
    for i in 0..list.len()
        invariant
            list@.map_values(|s: &str| s@) == audio_extensions(),
            lower@ == ascii_lowercase(ext@),
            forall|j: int| 0 <= j < i ==> audio_extensions()[j] != lower@,
    {
        let candidate = chars_of(list[i]);
        assert(audio_extensions()[i as int] == list@[i as int]@);
        if same_chars(&lower, &candidate) {
            proof {
                law_audio_extensions_are(ascii_lowercase(ext@));
            }
            return true;
        }
    }
    proof {
        law_audio_extensions_are(ascii_lowercase(ext@));
    }
    false
}

/// Whether a path with a plain file name is audio: the extension of its
/// text after the last `/` is one of the audio extensions, ignoring ASCII case.
pub open spec fn spec_plain_is_audio(path: Seq<char>) -> bool {
    match name_extension(final_segment(path)) {
        Some(e) => audio_extensions().contains(ascii_lowercase(e)),
        None => false,
    }
}

/// Whether a path with a portable extension is audio: that extension is one
/// of the audio extensions, ignoring ASCII case.
pub open spec fn spec_portable_is_audio(path: Seq<char>) -> bool {
    audio_extensions().contains(ascii_lowercase(portable_extension(path)))
}

/// Whether the file at `path` is audio, judged by its extension. An
/// extension that comes back from `Path::extension` decides it; a path with
/// no `.` in it is never audio. For a path with a plain file name (such as
/// `/music/a.mp3` or `/music/AC:DC/b.flac`) the extension is the part of
/// its text after the last `/` that follows the final `.`, unless that `.`
/// begins the name. For a path with a portable extension (such as
/// `C:\Music\a.mp3`) it is the part of its last piece after the final `.`.
pub fn is_audio(path: &str) -> (r: bool)
    ensures
        r ==> exists|e: Seq<char>|
            #[trigger] follows_a_dot(path@, e) && audio_extensions().contains(ascii_lowercase(e)),
        (forall|i: int| 0 <= i < path@.len() ==> path@[i] != '.') ==> !r,
        has_plain_file_name(path@) ==> r == spec_plain_is_audio(path@),
        has_portable_extension(path@) ==> r == spec_portable_is_audio(path@),
{
    match path_extension(path) {
        Some(ext) => {
            let r = is_audio_extension(ext.as_str());
            proof {
                if forall|i: int| 0 <= i < path@.len() ==> path@[i] != '.' {
                    let k = choose|k: int|
                        0 <= k && k + 1 + ext@.len() <= path@.len() && path@[k] == '.'
                            && #[trigger] path@.subrange(k + 1, k + 1 + ext@.len()) == ext@;
                    assert(path@[k] != '.');
                }
            }
            r
        },
        None => false,
    }
}

/// The title a file gets when its tags give none: its file stem, or
/// "Unknown" when the path has no file stem.
pub fn title_or_unknown(stem: Option<String>) -> (r: String)
    ensures
        r@ == (match stem {
            Some(s) => s@,
            None => "Unknown"@,
        }),
{
    match stem {
        Some(s) => s,
        None => "Unknown".to_string(),
    }
}

/// The title a file gets when its tags give none, from its path: a piece of
/// the path (its file stem), or "Unknown"; never empty. For a path with a
/// plain file name (such as `/music/My Song.mp3`) it is that name without
/// its extension (`My Song`).
pub fn fallback_title(path: &str) -> (r: String)
    ensures
        r@ == "Unknown"@ || occurs_in(path@, r@),
        r@.len() > 0,
        has_plain_file_name(path@) ==> r@ == name_stem(final_segment(path@)),
        has_portable_name(path@) ==> (r@ == name_stem(final_segment(path@)) || r@ == name_stem(
            tail_name(path@),
        )),
{
    proof {
        reveal_strlit("Unknown");
    }
    title_or_unknown(path_file_stem(path))
}

/// The tag a file's metadata is read from: its primary tag, else its first one.
pub fn preferred_tag<T>(primary: Option<T>, first: Option<T>) -> (r: Option<T>)
    ensures
        r == (match primary {
            Some(t) => Some(t),
            None => first,
        }),
{
    match primary {
        Some(t) => Some(t),
        None => first,
    }
}

/// What the tag reader found in a readable audio file. The text fields are
/// `None` where the file has no tag or the tag lacks them.
#[derive(Clone, Debug)]
pub struct FileTags {
    /// Length in seconds as the bits of an `f64` (`f64::to_bits`).
    pub duration_secs_bits: u64,
    pub title: Option<String>,
    pub artist: Option<String>,
    pub album: Option<String>,
    pub track_no: Option<u32>,
    /// Where the embedded cover art was cached, if it has any and caching worked.
    pub cover_path: Option<String>,
}

/// What the library stores of a file's tags.
#[derive(Clone, Debug, PartialEq)]
pub struct TagData {
    pub title: String,
    pub artist: Option<String>,
    pub album: Option<String>,
    pub duration_secs_bits: Option<u64>,
    pub track_no: Option<u32>,
    pub cover_path: Option<String>,
}

/// A tag text counts only where it is not blank.
pub open spec fn spec_non_blank(s: Option<String>) -> Option<String> {
    match s {
        Some(t) => if is_blank(t@) { None } else { Some(t) },
        None => None,
    }
}

/// The stored title: the tag's title unless it is missing or blank, else the fallback.
pub open spec fn spec_title(tag_title: Option<String>, fallback: String) -> String {
    match spec_non_blank(tag_title) {
        Some(t) => t,
        None => fallback,
    }
}

/// What a file's tags become. `None` is a file the tag reader could not
/// read: it keeps only its fallback title.
pub open spec fn spec_tag_data(fallback_title: String, file: Option<FileTags>) -> TagData {
    match file {
        None => TagData {
            title: fallback_title,
            artist: None,
            album: None,
            duration_secs_bits: None,
            track_no: None,
            cover_path: None,
        },
        Some(f) => TagData {
            title: spec_title(f.title, fallback_title),
            artist: spec_non_blank(f.artist),
            album: spec_non_blank(f.album),
            duration_secs_bits: Some(f.duration_secs_bits),
            track_no: f.track_no,
            cover_path: f.cover_path,
        },
    }
}

/// A readable file keeps its duration, track number and cover whatever its
/// text tags say; a blank or missing text tag never survives, and the title
/// is the tag's where that one is not blank, else the fallback.
pub proof fn law_tag_data_keeps_file_facts(fallback_title: String, f: FileTags)
    ensures
        spec_tag_data(fallback_title, Some(f)).duration_secs_bits == Some(f.duration_secs_bits),
        spec_tag_data(fallback_title, Some(f)).track_no == f.track_no,
        spec_tag_data(fallback_title, Some(f)).cover_path == f.cover_path,
        spec_tag_data(fallback_title, Some(f)).artist matches Some(a) ==> !is_blank(a@) && f.artist == Some(a),
        spec_tag_data(fallback_title, Some(f)).album matches Some(a) ==> !is_blank(a@) && f.album == Some(a),
        f.title matches Some(t) ==> (!is_blank(t@) ==> spec_tag_data(fallback_title, Some(f)).title == t),
        (f.title matches Some(t) && !is_blank(t@)) || spec_tag_data(fallback_title, Some(f)).title == fallback_title,
{
}

fn non_blank(s: Option<String>) -> (r: Option<String>)
    ensures
        r == spec_non_blank(s),
{
    match s {
        Some(t) => if blank(t.as_str()) {
            None
        } else {
            Some(t)
        },
        None => None,
    }
}

/// What a file's tags become: blank texts are dropped, and a missing or
/// blank title falls back to `fallback_title`.
pub fn tag_data(fallback_title: String, file: Option<FileTags>) -> (r: TagData)
    ensures
        r == spec_tag_data(fallback_title, file),
        file matches Some(f) ==> r.duration_secs_bits == Some(f.duration_secs_bits) && r.track_no
            == f.track_no && r.cover_path == f.cover_path,
        file is None ==> r.duration_secs_bits is None && r.track_no is None && r.cover_path is None
            && r.artist is None && r.album is None && r.title == fallback_title,
{
    match file {
        None => TagData {
            title: fallback_title,
            artist: None,
            album: None,
            duration_secs_bits: None,
            track_no: None,
            cover_path: None,
        },
        Some(f) => {
            let title = match non_blank(f.title) {
                Some(t) => t,
                None => fallback_title,
            };
            TagData {
                title,
                artist: non_blank(f.artist),
                album: non_blank(f.album),
                duration_secs_bits: Some(f.duration_secs_bits),
                track_no: f.track_no,
                cover_path: f.cover_path,
            }
        },
    }
}

/// Milliseconds that must pass between two progress reports.
pub const PROGRESS_INTERVAL_MS: u128 = 30;

/// Whether the scan reports progress after the file at `index`: when
/// enough time has passed since the last report, and always after the last file.
pub open spec fn spec_should_report(index: int, total: int, elapsed_ms: int) -> bool {
    elapsed_ms >= PROGRESS_INTERVAL_MS || index + 1 == total
}

/// However little time has passed, the last file of a scan is reported
/// (`progress_report` also states that this report's `done` is `total`).
pub proof fn law_last_file_reports(total: int, elapsed_ms: int)
    requires
        total > 0,
    ensures
        spec_should_report(total - 1, total, elapsed_ms),
{
}

/// The report after the file at `index` (counting from 0) of `total`, if
/// one is due; `file_name` is that file's name, if it has one.
pub fn progress_report(index: usize, total: usize, elapsed_ms: u128, file_name: Option<String>) -> (r: Option<ScanProgress>)
    requires
        index < total,
    ensures
        r is Some <==> spec_should_report(index as int, total as int, elapsed_ms as int),
        index + 1 == total ==> r is Some,
        r matches Some(p) ==> (index + 1 == total ==> p.done == total),
        r matches Some(p) ==> p.done == index + 1 && p.total == total && p.current_file@ == (match file_name {
            Some(n) => n@,
            None => Seq::<char>::empty(),
        }),
{
    if elapsed_ms >= PROGRESS_INTERVAL_MS || index + 1 == total {
        let current_file = match file_name {
            Some(n) => n,
            None => String::new(),
        };
        Some(ScanProgress { done: index + 1, total, current_file })
    } else {
        None
    }
}

/// The report after reading the file at `path`, the `index`-th (from 0) of
/// `total`, if one is due. Its file label is the path's file name (a piece
/// of the path), or empty where it has none. For a path with a plain file
/// name the label is the path's text after its last `/`.
pub fn progress_for_file(index: usize, total: usize, elapsed_ms: u128, path: &str) -> (r: Option<ScanProgress>)
    requires
        index < total,
    ensures
        r is Some <==> spec_should_report(index as int, total as int, elapsed_ms as int),
        r matches Some(p) ==> p.done == index + 1 && p.total == total && (p.current_file@.len() == 0
            || occurs_in(path@, p.current_file@)),
        r matches Some(p) ==> (has_plain_file_name(path@) ==> p.current_file@ == final_segment(path@)),
        r matches Some(p) ==> (has_portable_name(path@) ==> (p.current_file@ == final_segment(path@)
            || p.current_file@ == tail_name(path@))),
{
    progress_report(index, total, elapsed_ms, path_file_name(path))
}

/// What a dropped path leads to.
#[derive(Clone, Copy, Debug, PartialEq, Eq)]
pub enum DropAction {
    /// A folder: scan it into the library.
    ScanFolder,
    /// An audio file: add it to the library and queue it.
    QueueFile,
    /// Anything else: leave it.
    Ignore,
}

/// What a dropped path leads to, given whether it is a folder and whether it is audio.
pub fn drop_action_for(is_dir: bool, is_audio_file: bool) -> (r: DropAction)
    ensures
        r == (if is_dir {
            DropAction::ScanFolder
        } else if is_audio_file {
            DropAction::QueueFile
        } else {
            DropAction::Ignore
        }),
{
    if is_dir {
        DropAction::ScanFolder
    } else if is_audio_file {
        DropAction::QueueFile
    } else {
        DropAction::Ignore
    }
}

/// What a dropped path leads to: folders are scanned, audio files queued,
/// the rest left alone. A path without any `.` is never queued; a path
/// with a plain file name is queued exactly when its extension is audio.
pub fn drop_action(is_dir: bool, path: &str) -> (r: DropAction)
    ensures
        is_dir <==> r == DropAction::ScanFolder,
        (!is_dir && has_plain_file_name(path@)) ==> (r == DropAction::QueueFile <==> spec_plain_is_audio(path@)),
        (!is_dir && has_portable_extension(path@)) ==> (r == DropAction::QueueFile <==> spec_portable_is_audio(path@)),
        r == DropAction::QueueFile ==> exists|e: Seq<char>|
            #[trigger] follows_a_dot(path@, e) && audio_extensions().contains(ascii_lowercase(e)),
        (!is_dir && forall|i: int| 0 <= i < path@.len() ==> path@[i] != '.') ==> r == DropAction::Ignore,
{
    if is_dir {
        DropAction::ScanFolder
    } else {
        drop_action_for(false, is_audio(path))
    }
}

} // verus!
