//! Ordering rules of a playlist's rows.
//!
//! A playlist is stored as rows `(track_id, position)`. Reading a playlist
//! gives its rows sorted by position; every operation here keeps the
//! positions strictly increasing in that order, so the track order a read
//! gives back is exactly the order the operations asked for.

use vstd::prelude::*;

verus! {

/// One stored row of a playlist: which track, and at which position.
#[derive(Clone, Copy, Debug)]
pub struct PlaylistEntry {
    pub track_id: i64,
    pub position: i64,
}

/// Rows read in position order have strictly increasing positions.
pub open spec fn positions_increasing(rows: Seq<PlaylistEntry>) -> bool {
    forall|i: int, j: int| 0 <= i < j < rows.len() ==> rows[i].position < rows[j].position
}

/// The rows' positions are exactly `0, 1, ..., len - 1`, in row order: how
/// writing, appending and removing leave a playlist.
pub open spec fn positions_are_range(rows: Seq<PlaylistEntry>) -> bool {
    forall|i: int| 0 <= i < rows.len() ==> #[trigger] rows[i].position == i
}

/// The track ids of rows, in row order: what a read of the playlist gives back.
pub open spec fn track_ids(rows: Seq<PlaylistEntry>) -> Seq<i64> {
    rows.map_values(|e: PlaylistEntry| e.track_id)
}

/// The largest position among non-empty rows.
pub open spec fn max_position(rows: Seq<PlaylistEntry>) -> int
    decreases rows.len(),
{
    if rows.len() <= 1 {
        rows[0].position as int
    } else {
        let m = max_position(rows.drop_last());
        if rows.last().position > m {
            rows.last().position as int
        } else {
            m
        }
    }
}

/// Where appended tracks start: one past the largest position, or 0 for an empty playlist.
pub open spec fn spec_next_position(rows: Seq<PlaylistEntry>) -> int {
    if rows.len() == 0 {
        0
    } else {
        max_position(rows) + 1
    }
}

/// The rows that appending `ids` starting at `next` adds.
pub open spec fn spec_appended(next: int, ids: Seq<i64>) -> Seq<PlaylistEntry> {
    Seq::new(ids.len(), |i: int| PlaylistEntry { track_id: ids[i], position: (next + i) as i64 })
}

/// The rows that writing `ids` as the whole playlist stores.
pub open spec fn spec_ordered(ids: Seq<i64>) -> Seq<PlaylistEntry> {
    spec_appended(0, ids)
}

/// The track ids of the rows whose position is not `position`, in row order.
pub open spec fn ids_without_position(rows: Seq<PlaylistEntry>, position: i64) -> Seq<i64>
    decreases rows.len(),
{
    if rows.len() == 0 {
        Seq::empty()
    } else {
        let rest = ids_without_position(rows.drop_last(), position);
        if rows.last().position != position {
            rest.push(rows.last().track_id)
        } else {
            rest
        }
    }
}

proof fn lemma_max_position_bounds(rows: Seq<PlaylistEntry>)
    requires
        rows.len() > 0,
    ensures
        forall|i: int| 0 <= i < rows.len() ==> rows[i].position <= max_position(rows),
        exists|i: int| 0 <= i < rows.len() && rows[i].position == max_position(rows),
    decreases rows.len(),
{
    if rows.len() > 1 {
        let init = rows.drop_last();
        lemma_max_position_bounds(init);
        let m = max_position(init);
        let k = choose|i: int| 0 <= i < init.len() && init[i].position == m;
        assert forall|i: int| 0 <= i < rows.len() implies rows[i].position <= max_position(rows) by {
            if i < rows.len() - 1 {
                assert(rows[i] == init[i]);
            }
        }
        if rows.last().position > m {
            assert(rows[rows.len() - 1].position == max_position(rows));
        } else {
            assert(rows[k] == init[k]);
            assert(rows[k].position == max_position(rows));
        }
    } else {
        assert(rows[0].position == max_position(rows));
    }
}

/// Where the next appended track goes: `None` where one past the largest
/// position does not fit in an `i64`.
pub fn next_position(rows: &Vec<PlaylistEntry>) -> (r: Option<i64>)
    ensures
        r is Some <==> spec_next_position(rows@) <= i64::MAX,
        r matches Some(n) ==> n == spec_next_position(rows@),
{
    if rows.len() == 0 {
        return Some(0);
    }
    let mut m: i64 = rows[0].position;
    let mut i: usize = 1;
    while i < rows.len()
        invariant
            1 <= i <= rows.len(),
            m == max_position(rows@.take(i as int)),
        decreases rows.len() - i,
    {
        assert(rows@.take(i as int + 1).drop_last() =~= rows@.take(i as int));
        if rows[i].position > m {
            m = rows[i].position;
        }
        i = i + 1;
    }
    assert(rows@.take(rows.len() as int) =~= rows@);
    if m == i64::MAX {
        None
    } else {
        Some(m + 1)
    }
}

/// The rows that appending `track_ids` to a playlist adds: consecutive
/// positions from `next`, in the order given.
pub fn appended_entries(next: i64, track_ids: &Vec<i64>) -> (r: Vec<PlaylistEntry>)
    requires
        track_ids.len() <= i64::MAX,
        next + track_ids.len() <= i64::MAX + 1,
    ensures
        r@ == spec_appended(next as int, track_ids@),
{
    let mut r: Vec<PlaylistEntry> = Vec::new();
    for offset in 0..track_ids.len()
        invariant
            track_ids.len() <= i64::MAX,
            next + track_ids.len() <= i64::MAX + 1,
            r@ == spec_appended(next as int, track_ids@.take(offset as int)),
    {
        r.push(PlaylistEntry { track_id: track_ids[offset], position: next + offset as i64 });
        assert(r@ =~= spec_appended(next as int, track_ids@.take(offset as int + 1)));
    }
    assert(track_ids@.take(track_ids.len() as int) =~= track_ids@);
    r
}

/// The rows that replacing a playlist's contents with `track_ids` stores:
/// positions `0, 1, 2, ...` in the order given.
pub fn ordered_entries(track_ids: &Vec<i64>) -> (r: Vec<PlaylistEntry>)
    requires
        track_ids.len() <= i64::MAX,
    ensures
        r@ == spec_ordered(track_ids@),
        positions_increasing(r@),
        crate::playlist::track_ids(r@) == track_ids@,
{
    let r = appended_entries(0, track_ids);
    assert(crate::playlist::track_ids(r@) =~= track_ids@);
    r
}

/// The track ids that remain once the row at `position` is taken out, in
/// the order the rows were read.
pub fn remaining_after_removal(rows: &Vec<PlaylistEntry>, position: i64) -> (r: Vec<i64>)
    ensures
        r@ == ids_without_position(rows@, position),
{
    let mut r: Vec<i64> = Vec::new();
    for i in 0..rows.len()
        invariant
            r@ == ids_without_position(rows@.take(i as int), position),
    {
        assert(rows@.take(i as int + 1).drop_last() =~= rows@.take(i as int));
        if rows[i].position != position {
            r.push(rows[i].track_id);
        }
    }
    assert(rows@.take(rows.len() as int) =~= rows@);
    r
}

/// Writing `ids` as a playlist's whole contents and reading it back gives
/// `ids` again, in the same order, with strictly increasing positions.
pub proof fn law_write_then_read(ids: Seq<i64>)
    requires
        ids.len() <= i64::MAX,
    ensures
        positions_increasing(spec_ordered(ids)),
        positions_are_range(spec_ordered(ids)),
        track_ids(spec_ordered(ids)) == ids,
{
    assert(track_ids(spec_ordered(ids)) =~= ids);
}

/// Appending `k` tracks to a playlist whose positions are `0..n-1` starts
/// at `n` and leaves positions `0..n+k-1`, none repeated, reading as the old
/// tracks followed by the new ones.
pub proof fn law_append_keeps_range(rows: Seq<PlaylistEntry>, ids: Seq<i64>)
    requires
        positions_are_range(rows),
        rows.len() + ids.len() <= i64::MAX + 1,
    ensures
        spec_next_position(rows) == rows.len(),
        positions_are_range(rows + spec_appended(spec_next_position(rows), ids)),
        positions_increasing(rows + spec_appended(spec_next_position(rows), ids)),
        track_ids(rows + spec_appended(spec_next_position(rows), ids)) == track_ids(rows) + ids,
{
    let n = rows.len() as int;
    if n > 0 {
        lemma_max_position_bounds(rows);
        assert(rows[n - 1].position == n - 1);
        let k = choose|i: int| 0 <= i < rows.len() && rows[i].position == max_position(rows);
        assert(rows[k].position == k);
    }
    assert(spec_next_position(rows) == n);
    assert(positions_increasing(rows)) by {
        assert forall|i: int, j: int| 0 <= i < j < rows.len() implies rows[i].position < rows[j].position by {
            assert(rows[i].position == i && rows[j].position == j);
        }
    }
    law_append_extends(rows, ids);
    let all = rows + spec_appended(n, ids);
    assert forall|i: int| 0 <= i < all.len() implies #[trigger] all[i].position == i by {
        if i < n {
            assert(all[i] == rows[i]);
        } else {
            assert(all[i] == spec_appended(n, ids)[i - n]);
        }
    }
}

/// Appending `ids` to a playlist read in position order keeps the positions
/// strictly increasing, and the playlist then reads as the old tracks
/// followed by `ids`, in order.
pub proof fn law_append_extends(rows: Seq<PlaylistEntry>, ids: Seq<i64>)
    requires
        positions_increasing(rows),
        spec_next_position(rows) + ids.len() <= i64::MAX + 1,
    ensures
        positions_increasing(rows + spec_appended(spec_next_position(rows), ids)),
        track_ids(rows + spec_appended(spec_next_position(rows), ids)) == track_ids(rows) + ids,
{
    let next = spec_next_position(rows);
    let added = spec_appended(next, ids);
    let all = rows + added;
    if rows.len() > 0 {
        lemma_max_position_bounds(rows);
    }
    assert forall|i: int, j: int| 0 <= i < j < all.len() implies all[i].position < all[j].position by {
        if j >= rows.len() {
            assert(all[j] == added[j - rows.len()]);
            if i >= rows.len() {
                assert(all[i] == added[i - rows.len()]);
            } else {
                assert(all[i] == rows[i]);
            }
        } else {
            assert(all[i] == rows[i] && all[j] == rows[j]);
        }
    }
    assert(track_ids(all) =~= track_ids(rows) + ids);
}

/// Removing the row at an absent position changes nothing that a read gives back.
pub proof fn law_remove_absent_position(rows: Seq<PlaylistEntry>, position: i64)
    requires
        forall|i: int| 0 <= i < rows.len() ==> rows[i].position != position,
    ensures
        ids_without_position(rows, position) == track_ids(rows),
    decreases rows.len(),
{
    if rows.len() > 0 {
        let init = rows.drop_last();
        assert forall|i: int| 0 <= i < init.len() implies init[i].position != position by {
            assert(init[i] == rows[i]);
        }
        law_remove_absent_position(init, position);
        assert(track_ids(rows) =~= track_ids(init).push(rows.last().track_id));
    } else {
        assert(track_ids(rows) =~= Seq::<i64>::empty());
    }
}

/// In a playlist read in position order, removing the row at the position of
/// its `k`-th row takes out exactly that track and keeps the others in order.
pub proof fn law_remove_takes_out_one(rows: Seq<PlaylistEntry>, k: int)
    requires
        positions_increasing(rows),
        0 <= k < rows.len(),
    ensures
        ids_without_position(rows, rows[k].position) == track_ids(rows).remove(k),
    decreases rows.len(),
{
    let p = rows[k].position;
    let init = rows.drop_last();
    assert(positions_increasing(init)) by {
        assert forall|i: int, j: int| 0 <= i < j < init.len() implies init[i].position < init[j].position by {
            assert(init[i] == rows[i] && init[j] == rows[j]);
        }
    }
    if k == rows.len() - 1 {
        assert forall|i: int| 0 <= i < init.len() implies init[i].position != p by {
            assert(init[i] == rows[i]);
        }
        law_remove_absent_position(init, p);
        assert(track_ids(rows).remove(k) =~= track_ids(init));
    } else {
        assert(init[k] == rows[k]);
        law_remove_takes_out_one(init, k);
        assert(rows.last().position != p);
        assert(track_ids(rows).remove(k) =~= track_ids(init).remove(k).push(rows.last().track_id));
    }
}

/// Removing the `k`-th track and writing the rest back: the playlist then
/// reads as before without that one track.
pub proof fn law_remove_then_read(rows: Seq<PlaylistEntry>, k: int)
    requires
        positions_increasing(rows),
        0 <= k < rows.len(),
        rows.len() <= i64::MAX,
    ensures
        track_ids(spec_ordered(ids_without_position(rows, rows[k].position))) == track_ids(rows).remove(k),
        positions_increasing(spec_ordered(ids_without_position(rows, rows[k].position))),
{
    law_remove_takes_out_one(rows, k);
    law_write_then_read(track_ids(rows).remove(k));
}

} // verus!
