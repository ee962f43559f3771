//! The parts of a file path that the scanner reads, taken with std's
//! `Path`. How a path splits into components is the platform's rule
//! (separators, prefixes), so these items state only what holds on every
//! platform: each part is a piece of the path's own text.

use vstd::prelude::*;

verus! {

/// `piece` occurs in `path` right after a `.`.
pub open spec fn follows_a_dot(path: Seq<char>, piece: Seq<char>) -> bool {
    exists|i: int|
        0 <= i && i + 1 + piece.len() <= path.len() && path[i] == '.' && #[trigger] path.subrange(
            i + 1,
            i + 1 + piece.len(),
        ) == piece
}

/// `piece` occurs somewhere in `path`.
pub open spec fn occurs_in(path: Seq<char>, piece: Seq<char>) -> bool {
    exists|i: int|
        0 <= i && i + piece.len() <= path.len() && #[trigger] path.subrange(i, i + piece.len())
            == piece
}

/// A plain name: non-empty, with no `/` or backslash in it (no separator on
/// any platform), and neither `.` nor `..`. As the last piece of a path it
/// is a normal component, the path's file name.
pub open spec fn is_plain_name(name: Seq<char>) -> bool {
    &&& name.len() > 0
    &&& forall|i: int| 0 <= i < name.len() ==> name[i] != '/' && name[i] != '\\'
    &&& !(name.len() == 1 && name[0] == '.')
    &&& !(name.len() == 2 && name[0] == '.' && name[1] == '.')
}

/// A path separator on some platform: `/` everywhere, backslash on Windows.
pub open spec fn is_separator(c: char) -> bool {
    c == '/' || c == '\\'
}

/// The index of the last `c` in `s`, or -1 where there is none.
pub open spec fn last_index_of(s: Seq<char>, c: char) -> int
    decreases s.len(),
{
    if s.len() == 0 {
        -1
    } else if s.last() == c {
        s.len() - 1
    } else {
        last_index_of(s.drop_last(), c)
    }
}

/// The index of the last `.` in `name`, or -1 where there is none.
pub open spec fn last_dot_index(name: Seq<char>) -> int {
    last_index_of(name, '.')
}

/// The text after the last `/` of `path` (all of it where there is no `/`).
pub open spec fn final_segment(path: Seq<char>) -> Seq<char> {
    path.subrange(last_index_of(path, '/') + 1, path.len() as int)
}

/// A path whose file name is its text after the last `/` on every
/// platform. std documents `/` as a separator on every platform, backslash
/// as one on Windows, the file name as the final component, and Windows
/// prefixes as either a drive (`X:` at the start) or forms that begin with
/// two separators. So the path must not begin with two separators, must not
/// begin with a drive (a `:` as second character after a non-separator),
/// and its text after the last `/` must be a plain name. A `:` or backslash
/// anywhere before that last `/` changes nothing.
pub open spec fn has_plain_file_name(path: Seq<char>) -> bool {
    &&& !(path.len() >= 2 && is_separator(path[0]) && is_separator(path[1]))
    &&& !(path.len() >= 2 && path[1] == ':' && !is_separator(path[0]))
    &&& is_plain_name(final_segment(path))
}

/// The extension of a file name as std documents it: none without an
/// embedded `.`, none for a name that begins with `.` and has no other `.`,
/// otherwise the part after the final `.`.
pub open spec fn name_extension(name: Seq<char>) -> Option<Seq<char>> {
    let k = last_dot_index(name);
    if k >= 1 {
        Some(name.subrange(k + 1, name.len() as int))
    } else {
        None
    }
}

/// The stem of a file name as std documents it: the whole name where it has
/// no embedded `.` or begins with `.` and has no other, otherwise the part
/// before the final `.`.
pub open spec fn name_stem(name: Seq<char>) -> Seq<char> {
    let k = last_dot_index(name);
    if k >= 1 {
        name.subrange(0, k)
    } else {
        name
    }
}

/// The text after the last separator of `path`, `/` or backslash (all of
/// it where there is none): the file name as Windows reads the path.
pub open spec fn tail_name(path: Seq<char>) -> Seq<char> {
    let a = last_index_of(path, '/');
    let b = last_index_of(path, '\\');
    let k = if a > b { a } else { b };
    path.subrange(k + 1, path.len() as int)
}

/// A path with no prefix on any platform whose last piece is a plain name:
/// it does not begin with two separators (no UNC, device or verbatim
/// prefix), a drive (`X:` at the start) is followed by a separator, and its
/// text after the last `/` or backslash is a plain name. Unix reads its
/// file name as `final_segment`, Windows as `tail_name`; the second is a
/// suffix of the first.
pub open spec fn has_portable_name(path: Seq<char>) -> bool {
    &&& !(path.len() >= 2 && is_separator(path[0]) && is_separator(path[1]))
    &&& (path.len() >= 2 && path[1] == ':' && !is_separator(path[0])) ==> (path.len() >= 3
        && is_separator(path[2]))
    &&& is_plain_name(tail_name(path))
}

/// A path with a portable name whose last piece holds a `.` after its
/// first character: on both readings the file name's final `.` is that
/// one, so the extension is the same on every platform.
pub open spec fn has_portable_extension(path: Seq<char>) -> bool {
    &&& has_portable_name(path)
    &&& last_dot_index(tail_name(path)) >= 1
}

/// The extension of a path with a portable extension: the text after the
/// final `.` of its last piece.
pub open spec fn portable_extension(path: Seq<char>) -> Seq<char> {
    let t = tail_name(path);
    t.subrange(last_dot_index(t) + 1, t.len() as int)
}

/// `Path::extension`, as text. std documents it as the part of the file
/// name after its final `.`, so an extension that comes back is text that
/// follows a `.` in the path. For a path with a plain file name, that name
/// is the path's text after its last `/` on every platform, and the result
/// is the extension std documents for it. For a path with a portable
/// extension (such as `C:\Music\a.mp3`) the final `.` of the file name is
/// the same on every platform, and so is the extension. For other paths,
/// which `.` it is depends on the platform's component rules and is left unsaid.
#[verifier::external_body]
pub(crate) fn path_extension(path: &str) -> (r: Option<String>)
    ensures
        r matches Some(e) ==> follows_a_dot(path@, e@),
        has_plain_file_name(path@) ==> (r is Some <==> name_extension(final_segment(path@)) is Some),
        has_plain_file_name(path@) ==> (r matches Some(e) ==> Some(e@) == name_extension(final_segment(path@))),
        has_portable_extension(path@) ==> r is Some,
        r matches Some(e) ==> (has_portable_extension(path@) ==> e@ == portable_extension(path@)),
{
    let ext = std::path::Path::new(path).extension()?;
    Some(ext.to_str()?.to_string())
}

/// `Path::file_stem`, as text. std documents the stem as a portion of the
/// file name, never empty, so a stem that comes back occurs in the path. For
/// a path with a plain file name it is the stem std documents for the
/// path's text after its last `/`. For a path with a portable name it is
/// the documented stem of the file name as Unix or as Windows reads it. For
/// other paths which portion it is depends on the platform's component
/// rules and is left unsaid.
#[verifier::external_body]
pub(crate) fn path_file_stem(path: &str) -> (r: Option<String>)
    ensures
        r matches Some(s) ==> occurs_in(path@, s@) && s@.len() > 0,
        has_plain_file_name(path@) ==> r is Some,
        r matches Some(s) ==> (has_plain_file_name(path@) ==> s@ == name_stem(final_segment(path@))),
        has_portable_name(path@) ==> r is Some,
        r matches Some(s) ==> (has_portable_name(path@) ==> (s@ == name_stem(final_segment(path@))
            || s@ == name_stem(tail_name(path@)))),
{
    let stem = std::path::Path::new(path).file_stem()?;
    Some(stem.to_str()?.to_string())
}

/// `Path::file_name`, as text. std documents it as the final component of
/// the path, so a name that comes back occurs in the path and is not empty.
/// For a path with a plain file name it is the path's text after its last
/// `/`. For a path with a portable name it is its text after the last `/`
/// (Unix) or after the last separator (Windows). For other paths what
/// counts as a component is the platform's rule and is left unsaid.
#[verifier::external_body]
pub(crate) fn path_file_name(path: &str) -> (r: Option<String>)
    ensures
        r matches Some(s) ==> occurs_in(path@, s@) && s@.len() > 0,
        has_plain_file_name(path@) ==> r is Some,
        r matches Some(s) ==> (has_plain_file_name(path@) ==> s@ == final_segment(path@)),
        has_portable_name(path@) ==> r is Some,
        r matches Some(s) ==> (has_portable_name(path@) ==> (s@ == final_segment(path@) || s@
            == tail_name(path@))),
{
    let name = std::path::Path::new(path).file_name()?;
    Some(name.to_str()?.to_string())
}

} // verus!
