//! Path handling: the pieces of a path as `std::path` finds them, by the path
//! syntax of the platform the library is built for, and the name of the
//! backup that is kept beside a file.

use vstd::prelude::*;

verus! {

/// The final component of a path, where it has one: what
/// `std::path::Path::file_name` returns for it.
pub uninterp spec fn path_file_name(path: Seq<char>) -> Option<Seq<char>>;

/// A path without its final component, where it has one: what
/// `std::path::Path::parent` returns for it.
pub uninterp spec fn path_parent(path: Seq<char>) -> Option<Seq<char>>;

/// `leaf` adjoined to `base`: what `std::path::Path::join` returns for them.
pub uninterp spec fn path_join(base: Seq<char>, leaf: Seq<char>) -> Seq<char>;

/// The characters of an optional owned string.
pub open spec fn text_of(s: Option<String>) -> Option<Seq<char>> {
    match s {
        Some(t) => Some(t@),
        None => None,
    }
}

/// The characters of an optional string slice.
pub open spec fn slice_text_of(s: Option<&str>) -> Option<Seq<char>> {
    match s {
        Some(t) => Some(t@),
        None => None,
    }
}

/// `std::path::Path::file_name` on a path given as text. The result depends on
/// the path alone and is not stated further.
#[verifier::external_body]
pub(crate) fn file_name(path: &str) -> (name: Option<String>)
    ensures
        text_of(name) == path_file_name(path@),
{
    match std::path::Path::new(path).file_name() {
        Some(n) => Some(n.to_string_lossy().into_owned()),
        None => None,
    }
}

/// `std::path::Path::parent` on a path given as text. The result depends on
/// the path alone and is not stated further.
#[verifier::external_body]
pub(crate) fn parent_of(path: &str) -> (parent: Option<String>)
    ensures
        text_of(parent) == path_parent(path@),
{
    match std::path::Path::new(path).parent() {
        Some(p) => Some(p.to_string_lossy().into_owned()),
        None => None,
    }
}

/// `std::path::Path::join` on paths given as text. The result depends on the
/// two paths alone and is not stated further.
#[verifier::external_body]
pub(crate) fn join(base: &str, leaf: &str) -> (joined: String)
    ensures
        joined@ == path_join(base@, leaf@),
{
    std::path::Path::new(base).join(leaf).to_string_lossy().into_owned()
}

/// The stem of a file name: the whole name where it holds no `.` or only a
/// leading one, else what stands before its last `.`.
pub open spec fn stem_of(name: Seq<char>) -> Seq<char> {
    match name.index_of_last('.') {
        Some(i) => if i == 0 { name } else { name.subrange(0, i) },
        None => name,
    }
}

/// The extension of a file name: none where it holds no `.` or only a leading
/// one, else what stands after its last `.`.
pub open spec fn extension_of(name: Seq<char>) -> Option<Seq<char>> {
    match name.index_of_last('.') {
        Some(i) => if i == 0 { None } else { Some(name.subrange(i + 1, name.len() as int)) },
        None => None,
    }
}

/// The file name of the backup kept for a file whose own name is `name`:
/// `<stem>_backup.<extension>`, with `file` for a missing stem and `txt` for a
/// missing extension.
pub open spec fn backup_name(name: Option<Seq<char>>) -> Seq<char> {
    let stem = match name {
        Some(n) => stem_of(n),
        None => "file"@,
    };
    let extension = match name {
        Some(n) => match extension_of(n) {
            Some(e) => e,
            None => "txt"@,
        },
        None => "txt"@,
    };
    stem + "_backup."@ + extension
}

/// The backup path of `input`: the backup's file name adjoined to the parent
/// of `input`, or to `.` where it has none.
pub open spec fn backup_path_of(input: Seq<char>) -> Seq<char> {
    let parent = match path_parent(input) {
        Some(p) => p,
        None => "."@,
    };
    path_join(parent, backup_name(path_file_name(input)))
}

/// Where the last `.` of `name` stands, counted in characters, if it holds
/// one.
pub fn last_dot(name: &str) -> (at: Option<usize>)
    ensures
        match at {
            Some(i) => i < name@.len() && name@.index_of_last('.') == Some(i as int),
            None => name@.index_of_last('.').is_none(),
        },
{
    broadcast use vstd::string::group_string_axioms;

    let total: usize = name.unicode_len();
    let mut at: Option<usize> = None;
    let mut seen: usize = 0;
    for c in it: name.chars()
        invariant
            total == name@.len(),
            it.seq() == name@,
            seen == it.index(),
            match at {
                Some(k) => {
                    &&& k < seen
                    &&& name@[k as int] == '.'
                    &&& forall|j: int| k < j < seen ==> name@[j] != '.'
                },
                None => forall|j: int| 0 <= j < seen ==> name@[j] != '.',
            },
    {
        if c == '.' {
            at = Some(seen);
        }
        seen = seen + 1;
    }
    proof {
        name@.index_of_last_ensures('.');
    }
    at
}

/// Splits a file name into stem and extension.
pub fn split_file_name(name: &str) -> (parts: (String, Option<String>))
    ensures
        parts.0@ == stem_of(name@),
        text_of(parts.1) == extension_of(name@),
{
    match last_dot(name) {
        Some(i) => {
            if i == 0 {
                (name.to_owned(), None)
            } else {
                let len: usize = name.unicode_len();
                let stem = name.substring_char(0, i).to_owned();
                let extension = name.substring_char(i + 1, len).to_owned();
                (stem, Some(extension))
            }
        },
        None => (name.to_owned(), None),
    }
}

/// File name of the backup for a file named `name`.
pub fn backup_file_name(name: Option<&str>) -> (backup: String)
    ensures
        backup@ == backup_name(slice_text_of(name)),
{
    let (stem, extension) = match name {
        Some(n) => {
            let (s, e) = split_file_name(n);
            (
                s,
                match e {
                    Some(x) => x,
                    None => "txt".to_owned(),
                },
            )
        },
        None => ("file".to_owned(), "txt".to_owned()),
    };
    let mut backup = stem;
    backup.append("_backup.");
    backup.append(extension.as_str());
    backup
}

/// Path of the backup kept for the file at `input`.
pub fn update_path(input: &str) -> (backup: String)
    ensures
        backup@ == backup_path_of(input@),
{
    let parent = match parent_of(input) {
        Some(p) => p,
        None => ".".to_owned(),
    };
    let new_filename = match file_name(input) {
        Some(n) => backup_file_name(Some(n.as_str())),
        None => backup_file_name(None),
    };
    join(parent.as_str(), new_filename.as_str())
}

} // verus!
