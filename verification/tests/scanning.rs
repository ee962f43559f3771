use music_player::covers::{cover_file_name, cover_name_for_digest, CoverFormat};
use music_player::models::{DropResult, Track};
use music_player::scanner::{
    drop_action, drop_action_for, fallback_title, is_audio, is_audio_extension, progress_for_file,
    preferred_tag, progress_report, tag_data, title_or_unknown, DropAction, FileTags, TagData,
};

#[test]
fn audio_extensions_ignore_case() {
    assert!(is_audio_extension("mp3"));
    assert!(is_audio_extension("OGG"));
    assert!(is_audio_extension("FlAc"));
    assert!(is_audio_extension("aif"));
    assert!(!is_audio_extension("mp4"));
    assert!(!is_audio_extension(""));
    assert!(!is_audio_extension("mp3 "));
}

#[test]
fn audio_files_are_told_by_extension() {
    assert!(is_audio("/music/album/01 song.MP3"));
    assert!(is_audio("/music/a.b.opus"));
    assert!(!is_audio("/music/cover.jpg"));
    assert!(!is_audio("/music/README"));
    assert!(!is_audio("/music/.mp3"));
    assert!(!is_audio(""));
}

#[test]
fn fallback_title_is_the_file_stem() {
    assert_eq!(fallback_title("/music/My Song.mp3"), "My Song");
    assert_eq!(fallback_title("/music/archive.tar.flac"), "archive.tar");
    assert_eq!(fallback_title("/"), "Unknown");
    assert_eq!(title_or_unknown(None), "Unknown");
    assert_eq!(title_or_unknown(Some("x".to_string())), "x");
}

fn file_tags() -> FileTags {
    FileTags {
        duration_secs_bits: 200.5f64.to_bits(),
        title: Some("Hyperballad".to_string()),
        artist: Some("Björk".to_string()),
        album: Some("Post".to_string()),
        track_no: Some(3),
        cover_path: Some("/covers/abc.jpg".to_string()),
    }
}

#[test]
fn unreadable_file_keeps_only_the_fallback_title() {
    let t = tag_data("song".to_string(), None);
    assert_eq!(
        t,
        TagData {
            title: "song".to_string(),
            artist: None,
            album: None,
            duration_secs_bits: None,
            track_no: None,
            cover_path: None,
        }
    );
}

#[test]
fn tags_are_kept_when_present() {
    let t = tag_data("song".to_string(), Some(file_tags()));
    assert_eq!(t.title, "Hyperballad");
    assert_eq!(t.artist.as_deref(), Some("Björk"));
    assert_eq!(t.album.as_deref(), Some("Post"));
    assert_eq!(t.duration_secs_bits.map(f64::from_bits), Some(200.5));
    assert_eq!(t.track_no, Some(3));
    assert_eq!(t.cover_path.as_deref(), Some("/covers/abc.jpg"));
}

#[test]
fn blank_tags_count_as_missing() {
    let mut f = file_tags();
    f.title = Some("  \t\u{3000}".to_string());
    f.artist = Some("".to_string());
    f.album = Some("\n".to_string());
    let t = tag_data("fallback".to_string(), Some(f));
    assert_eq!(t.title, "fallback");
    assert_eq!(t.artist, None);
    assert_eq!(t.album, None);
}

#[test]
fn missing_title_falls_back() {
    let mut f = file_tags();
    f.title = None;
    let t = tag_data("fallback".to_string(), Some(f));
    assert_eq!(t.title, "fallback");
    assert_eq!(t.artist.as_deref(), Some("Björk"));
}

#[test]
fn progress_waits_for_the_interval() {
    assert_eq!(progress_report(0, 3, 10, Some("a.mp3".to_string())), None);
    let p = progress_report(0, 3, 30, Some("a.mp3".to_string())).unwrap();
    assert_eq!((p.done, p.total, p.current_file.as_str()), (1, 3, "a.mp3"));
}

#[test]
fn last_file_always_reports() {
    let p = progress_report(2, 3, 0, None).unwrap();
    assert_eq!((p.done, p.total, p.current_file.as_str()), (3, 3, ""));
}

#[test]
fn progress_names_the_file() {
    let p = progress_for_file(1, 2, 0, "/music/album/b side.flac").unwrap();
    assert_eq!(p.current_file, "b side.flac");
    assert_eq!(p.done, 2);
    assert_eq!(progress_for_file(0, 2, 5, "/music/a.mp3"), None);
}

#[test]
fn drops_are_routed() {
    assert_eq!(drop_action(true, "/music/album"), DropAction::ScanFolder);
    assert_eq!(drop_action(true, "/music/a.mp3"), DropAction::ScanFolder);
    assert_eq!(drop_action(false, "/music/a.mp3"), DropAction::QueueFile);
    assert_eq!(drop_action(false, "/music/a.pdf"), DropAction::Ignore);
    assert_eq!(drop_action_for(false, true), DropAction::QueueFile);
    assert_eq!(drop_action_for(false, false), DropAction::Ignore);
}

fn track(id: i64) -> Track {
    Track {
        id,
        path: format!("/music/{id}.mp3"),
        title: format!("{id}"),
        artist: None,
        album: None,
        duration_secs_bits: None,
        track_no: None,
        cover_path: None,
    }
}

#[test]
fn drop_result_counts_and_keeps_order() {
    let mut r = DropResult::new();
    r.record_queued(track(2));
    r.record_scanned_folder();
    r.record_queued(track(1));
    r.record_scanned_folder();
    assert_eq!(r.folders_scanned, 2);
    assert_eq!(r.queued.iter().map(|t| t.id).collect::<Vec<_>>(), vec![2, 1]);
}

#[test]
fn cover_is_named_by_content_hash() {
    assert_eq!(
        cover_file_name(b"abc", CoverFormat::Png),
        "ba7816bf8f01cfea414140de5dae2223b00361a396177a9cb410ff61f20015ad.png"
    );
    assert_eq!(
        cover_file_name(b"", CoverFormat::Other),
        "e3b0c44298fc1c149afbf4c8996fb92427ae41e4649b934ca495991b7852b855.jpg"
    );
}

#[test]
fn same_art_shares_one_file() {
    let a = cover_file_name(&[1, 2, 3, 4], CoverFormat::Other);
    let b = cover_file_name(&vec![1u8, 2, 3, 4], CoverFormat::Other);
    assert_eq!(a, b);
    assert_ne!(a, cover_file_name(&[1, 2, 3, 5], CoverFormat::Other));
    assert_eq!(a.len(), 68);
}

#[test]
fn digest_is_written_in_lowercase_hex() {
    assert_eq!(cover_name_for_digest(&[0x00, 0xff, 0x1a], CoverFormat::Other), "00ff1a.jpg");
    assert_eq!(cover_name_for_digest(&[], CoverFormat::Png), ".png");
}

#[test]
fn bare_file_names_are_judged_by_their_last_extension() {
    assert!(is_audio("a.MP3"));
    assert!(is_audio("..ogg"));
    assert!(!is_audio(".ogg"));
    assert!(!is_audio("song.mp3.txt"));
    assert!(!is_audio("song."));
}

#[test]
fn full_paths_are_judged_by_their_file_name() {
    assert!(is_audio("/music/album.v2/track.Flac"));
    assert!(!is_audio("/music/album.mp3/notes"));
    assert!(!is_audio("/music/.wav"));
    assert_eq!(drop_action(false, "a.mp3"), DropAction::QueueFile);
    assert_eq!(drop_action(false, "/music/album.mp3/cover.png"), DropAction::Ignore);
}

#[test]
fn fallback_title_of_full_paths() {
    assert_eq!(fallback_title("/music/album.v2/02 Intro"), "02 Intro");
    assert_eq!(fallback_title("/music/.hidden"), ".hidden");
    assert_eq!(fallback_title("/music/x..mp3"), "x.");
    assert_eq!(fallback_title("song.mp3"), "song");
}

#[test]
fn progress_label_is_the_file_name() {
    let p = progress_for_file(0, 1, 0, "/music/album.v2/a b.mp3").unwrap();
    assert_eq!(p.current_file, "a b.mp3");
    assert_eq!(progress_for_file(0, 1, 0, "bare.ogg").unwrap().current_file, "bare.ogg");
}

#[test]
fn colons_and_backslashes_before_the_name_change_nothing() {
    assert!(is_audio("/music/AC:DC/Back in Black.mp3"));
    assert!(is_audio("/music/Live: 1999\\disc/01.OGG"));
    assert_eq!(fallback_title("/music/AC:DC/Hells Bells.flac"), "Hells Bells");
    assert_eq!(drop_action(false, "/music/AC:DC/x.wav"), DropAction::QueueFile);
    let p = progress_for_file(0, 1, 0, "/music/AC:DC/x.wav").unwrap();
    assert_eq!(p.current_file, "x.wav");
}

#[test]
fn primary_tag_is_preferred() {
    assert_eq!(preferred_tag(Some(1), Some(2)), Some(1));
    assert_eq!(preferred_tag(None, Some(2)), Some(2));
    assert_eq!(preferred_tag::<i32>(None, None), None);
}

#[test]
fn windows_drive_paths_keep_their_extension() {
    assert!(is_audio("C:\\Users\\me\\Music\\a.mp3"));
    assert!(is_audio("D:\\Music\\Live: 1999\\01.OGG"));
    assert!(!is_audio("C:\\Users\\me\\Music\\notes.txt"));
    assert_eq!(drop_action(false, "C:\\Music\\b.wav"), DropAction::QueueFile);
    let t = fallback_title("C:\\Music\\Song.flac");
    assert!(t == "Song" || t == "C:\\Music\\Song");
    let p = progress_for_file(0, 1, 0, "C:\\Music\\b.wav").unwrap();
    assert!(p.current_file == "b.wav" || p.current_file == "C:\\Music\\b.wav");
}
