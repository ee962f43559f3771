//! Rules of the library database that are decided outside SQL: which
//! migration steps a database still needs, and the column list tracks are
//! read with.

use vstd::prelude::*;
use crate::text::{chars_of, string_from_chars};

verus! {

/// The schema version this library writes.
pub const SCHEMA_VERSION: i64 = 1;

/// What opening a database has to do to it.
#[derive(Clone, Copy, Debug, PartialEq, Eq)]
pub struct MigrationPlan {
    /// Create the tables of the initial schema.
    pub apply_initial_schema: bool,
    /// The `user_version` to record afterwards, if it changes.
    pub new_user_version: Option<i64>,
}

/// The steps a database at `user_version` still needs: the initial schema
/// once, for a database below version 1; nothing otherwise.
pub open spec fn spec_migration_plan(user_version: i64) -> MigrationPlan {
    if user_version < SCHEMA_VERSION {
        MigrationPlan { apply_initial_schema: true, new_user_version: Some(SCHEMA_VERSION) }
    } else {
        MigrationPlan { apply_initial_schema: false, new_user_version: None }
    }
}

/// The `user_version` a database has once `plan` ran on it.
pub open spec fn version_after(user_version: i64, plan: MigrationPlan) -> i64 {
    match plan.new_user_version {
        Some(v) => v,
        None => user_version,
    }
}

/// The steps a database at `user_version` still needs.
pub fn migration_plan(user_version: i64) -> (r: MigrationPlan)
    ensures
        r == spec_migration_plan(user_version),
{
    if user_version < SCHEMA_VERSION {
        MigrationPlan { apply_initial_schema: true, new_user_version: Some(SCHEMA_VERSION) }
    } else {
        MigrationPlan { apply_initial_schema: false, new_user_version: None }
    }
}

/// Each migration step runs at most once per database: once a plan ran,
/// the database is at the current version and the next plan does nothing.
pub proof fn law_migration_runs_once(user_version: i64)
    ensures
        version_after(user_version, spec_migration_plan(user_version)) >= SCHEMA_VERSION,
        !spec_migration_plan(version_after(user_version, spec_migration_plan(user_version))).apply_initial_schema,
        spec_migration_plan(version_after(user_version, spec_migration_plan(user_version))).new_user_version is None,
{
}

/// The columns a track is read from, in the order the reader takes them.
pub open spec fn track_column_names() -> Seq<Seq<char>> {
    seq![
        "id"@,
        "path"@,
        "title"@,
        "artist"@,
        "album"@,
        "duration_secs"@,
        "track_no"@,
        "cover_path"@,
    ]
}

/// `names`, each after `prefix`, separated by ", ".
pub open spec fn column_list(prefix: Seq<char>, names: Seq<Seq<char>>) -> Seq<char>
    decreases names.len(),
{
    if names.len() == 0 {
        Seq::empty()
    } else if names.len() == 1 {
        prefix + names[0]
    } else {
        column_list(prefix, names.drop_last()) + seq![',', ' '] + prefix + names.last()
    }
}

fn track_column_name_list() -> (r: Vec<&'static str>)
    ensures
        r@.map_values(|s: &str| s@) == track_column_names(),
{
    let r = vec!["id", "path", "title", "artist", "album", "duration_secs", "track_no", "cover_path"];
    assert(r@.map_values(|s: &str| s@) =~= track_column_names());
    r
}

/// The track columns for a query, each after `prefix` (such as "t." for a
/// joined table, or "" for none), separated by ", ".
pub fn track_columns(prefix: &str) -> (r: String)
    ensures
        r@ == column_list(prefix@, track_column_names()),
{
    let names = track_column_name_list();
    let p = chars_of(prefix);
    let mut out: Vec<char> = Vec::new();
    let ghost all = names@.map_values(|s: &str| s@);
    for i in 0..names.len()
        invariant
            all == names@.map_values(|s: &str| s@),
            all.len() == names.len(),
            p@ == prefix@,
            out@ == column_list(prefix@, all.take(i as int)),
    {
        let ghost before = out@;
        if i > 0 {
            out.push(',');
            out.push(' ');
        }
        for j in 0..p.len()
            invariant
                p@ == prefix@,
                out@ == (if i > 0 { before + seq![',', ' '] } else { before }) + p@.take(j as int),
        {
            out.push(p[j]);
        }
        let name = chars_of(names[i]);
        for j in 0..name.len()
            invariant
                out@ == (if i > 0 { before + seq![',', ' '] } else { before }) + p@ + name@.take(j as int),
        {
            out.push(name[j]);
        }
        proof {
            assert(p@.take(p@.len() as int) =~= p@);
            assert(name@.take(name@.len() as int) =~= name@);
            assert(all[i as int] == name@);
            assert(all.take(i as int + 1).drop_last() =~= all.take(i as int));
            if i == 0 {
                assert(before =~= Seq::<char>::empty());
            }
            assert(out@ =~= column_list(prefix@, all.take(i as int + 1)));
        }
    }
    assert(all.take(names.len() as int) =~= all);
    string_from_chars(&out)
}

} // verus!
