//! File names, stems and extensions of paths, read with std's `Path`.
use vstd::prelude::*;

verus! {

/// The part of `p` after its last `/` (all of `p` when it has none).
pub open spec fn last_part(p: Seq<char>) -> Seq<char>
    decreases p.len(),
{
    if p.len() == 0 {
        p
    } else if p.last() == '/' {
        Seq::empty()
    } else {
        last_part(p.drop_last()).push(p.last())
    }
}

/// A path whose file name every platform reads alike: no `\` or `:`, no
/// leading `//`, and a last `/`-separated part that is a name (not empty,
/// `.` or `..`). Its file name is that last part.
pub open spec fn plain_path(p: Seq<char>) -> bool {
    &&& !p.contains('\\')
    &&& !p.contains(':')
    &&& !(p.len() >= 2 && p[0] == '/' && p[1] == '/')
    &&& last_part(p).len() > 0
    &&& last_part(p) != seq!['.']
    &&& last_part(p) != seq!['.', '.']
}

/// The index of the last `.` in `n`, if it has one.
pub open spec fn last_dot(n: Seq<char>) -> Option<int>
    decreases n.len(),
{
    if n.len() == 0 {
        None
    } else if n.last() == '.' {
        Some(n.len() - 1)
    } else {
        last_dot(n.drop_last())
    }
}

/// The extension of a file name: what follows its last `.`, unless it has
/// none or its only `.` is the first character.
pub open spec fn name_extension(n: Seq<char>) -> Option<Seq<char>> {
    match last_dot(n) {
        Some(i) => if i == 0 {
            None
        } else {
            Some(n.skip(i + 1))
        },
        None => None,
    }
}

/// The stem of a file name: what precedes its last `.`, or the whole name
/// when it has no `.` or its only `.` is the first character.
pub open spec fn name_stem(n: Seq<char>) -> Seq<char> {
    match last_dot(n) {
        Some(i) => if i == 0 {
            n
        } else {
            n.take(i)
        },
        None => n,
    }
}

/// The text of an optional string.
pub open spec fn opt_text(o: Option<String>) -> Option<Seq<char>> {
    match o {
        Some(s) => Some(s@),
        None => None,
    }
}

/// std's `Path::file_name`, as UTF-8. Its documentation gives the final
/// component of the path, none for an empty path; what is stated here is
/// that, and for a plain path (see `plain_path`) that the name is its last
/// part. Other paths follow the platform's syntax, which is not stated.
#[verifier::external_body]
pub(crate) fn file_name_of(path: &str) -> (r: Option<String>)
    ensures
        plain_path(path@) ==> opt_text(r) == Some(last_part(path@)),
        path@.len() == 0 ==> r is None,
{
    match std::path::Path::new(path).file_name() {
        Some(name) => match name.to_str() {
            Some(s) => Some(s.to_owned()),
            None => None,
        },
        None => None,
    }
}

/// std's `Path::file_stem`, as UTF-8. Its documentation gives the file name
/// up to its last `.` (the whole name when it has no `.` or only a leading
/// one), none without a file name; stated here for plain paths and the
/// empty path.
#[verifier::external_body]
pub(crate) fn file_stem_of(path: &str) -> (r: Option<String>)
    ensures
        plain_path(path@) ==> opt_text(r) == Some(name_stem(last_part(path@))),
        path@.len() == 0 ==> r is None,
{
    match std::path::Path::new(path).file_stem() {
        Some(name) => match name.to_str() {
            Some(s) => Some(s.to_owned()),
            None => None,
        },
        None => None,
    }
}

/// std's `Path::extension`, as UTF-8. Its documentation gives what follows
/// the file name's last `.`, none when the name has no `.` or only a leading
/// one, or when there is no file name; stated here for plain paths and the
/// empty path.
#[verifier::external_body]
pub(crate) fn extension_of(path: &str) -> (r: Option<String>)
    ensures
        plain_path(path@) ==> opt_text(r) == name_extension(last_part(path@)),
        path@.len() == 0 ==> r is None,
{
    match std::path::Path::new(path).extension() {
        Some(ext) => match ext.to_str() {
            Some(s) => Some(s.to_owned()),
            None => None,
        },
        None => None,
    }
}

} // verus!
