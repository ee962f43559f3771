use music_player::playlist::{
    appended_entries, next_position, ordered_entries, remaining_after_removal, PlaylistEntry,
};

fn rows(pairs: &[(i64, i64)]) -> Vec<PlaylistEntry> {
    pairs.iter().map(|&(track_id, position)| PlaylistEntry { track_id, position }).collect()
}

fn ids(rows: &[PlaylistEntry]) -> Vec<i64> {
    rows.iter().map(|r| r.track_id).collect()
}

fn positions(rows: &[PlaylistEntry]) -> Vec<i64> {
    rows.iter().map(|r| r.position).collect()
}

#[test]
fn next_position_of_empty_playlist_is_zero() {
    assert_eq!(next_position(&Vec::new()), Some(0));
}

#[test]
fn next_position_is_one_past_the_largest() {
    assert_eq!(next_position(&rows(&[(7, 0), (8, 1), (9, 2)])), Some(3));
    assert_eq!(next_position(&rows(&[(7, 5), (8, 2)])), Some(6));
    assert_eq!(next_position(&rows(&[(7, -5)])), Some(-4));
}

#[test]
fn next_position_that_does_not_fit_is_none() {
    assert_eq!(next_position(&rows(&[(7, i64::MAX)])), None);
    assert_eq!(next_position(&rows(&[(7, i64::MAX - 1)])), Some(i64::MAX));
}

#[test]
fn appended_rows_take_consecutive_positions() {
    let added = appended_entries(3, &vec![10, 11, 10]);
    assert_eq!(ids(&added), vec![10, 11, 10]);
    assert_eq!(positions(&added), vec![3, 4, 5]);
    assert!(appended_entries(9, &Vec::new()).is_empty());
}

#[test]
fn ordered_rows_start_at_zero() {
    let written = ordered_entries(&vec![42, 7, 42]);
    assert_eq!(ids(&written), vec![42, 7, 42]);
    assert_eq!(positions(&written), vec![0, 1, 2]);
}

#[test]
fn removal_takes_out_the_row_at_that_position() {
    let playlist = rows(&[(7, 0), (8, 1), (9, 2)]);
    assert_eq!(remaining_after_removal(&playlist, 1), vec![7, 9]);
    assert_eq!(remaining_after_removal(&playlist, 0), vec![8, 9]);
    assert_eq!(remaining_after_removal(&playlist, 2), vec![7, 8]);
}

#[test]
fn removal_at_an_absent_position_keeps_everything() {
    let playlist = rows(&[(7, 0), (8, 3)]);
    assert_eq!(remaining_after_removal(&playlist, 1), vec![7, 8]);
    assert_eq!(remaining_after_removal(&Vec::new(), 0), Vec::<i64>::new());
}

#[test]
fn write_then_read_gives_the_same_order() {
    let wanted = vec![5, 3, 9, 3];
    let stored = ordered_entries(&wanted);
    assert_eq!(ids(&stored), wanted);
    assert!(stored.windows(2).all(|w| w[0].position < w[1].position));
}

#[test]
fn append_reads_as_old_tracks_then_new_ones() {
    let mut playlist = rows(&[(1, 0), (2, 4)]);
    let next = next_position(&playlist).unwrap();
    playlist.extend(appended_entries(next, &vec![3, 1]));
    assert_eq!(ids(&playlist), vec![1, 2, 3, 1]);
    assert!(playlist.windows(2).all(|w| w[0].position < w[1].position));
}

#[test]
fn remove_then_write_back_drops_one_track() {
    let playlist = ordered_entries(&vec![4, 5, 6, 5]);
    let kept = remaining_after_removal(&playlist, 1);
    let stored = ordered_entries(&kept);
    assert_eq!(ids(&stored), vec![4, 6, 5]);
    assert_eq!(positions(&stored), vec![0, 1, 2]);
}

#[test]
fn append_to_positions_zero_to_n_gives_zero_to_n_plus_k() {
    let mut playlist = ordered_entries(&vec![9, 8, 7]);
    let next = next_position(&playlist).unwrap();
    assert_eq!(next, 3);
    playlist.extend(appended_entries(next, &vec![6, 9]));
    assert_eq!(positions(&playlist), vec![0, 1, 2, 3, 4]);
    assert_eq!(ids(&playlist), vec![9, 8, 7, 6, 9]);
}
