//! Deciding whether two paths form a pair that may be kept in sync: the same
//! file name up to ASCII case, and text on both sides.

use vstd::prelude::*;
use vstd::std_specs::iter::IteratorSpec;
use crate::classify::{is_text, is_valid_text_file};
use crate::error::{SyncError, SyncErrorView};
use crate::paths::{extension_of, file_name, path_file_name, slice_text_of, split_file_name};

verus! {

/// What a successful check has to report besides success.
#[derive(Clone, Copy, Debug, PartialEq, Eq, Structural)]
pub struct PairCheck {
    /// One of the two file names has no extension. This is a warning only.
    pub extension_missing: bool,
}

/// A character with ASCII upper-case letters mapped to lower case, as a code
/// point.
pub open spec fn fold_case(c: char) -> int {
    if 'A' <= c && c <= 'Z' {
        c as u32 + 32
    } else {
        c as u32 as int
    }
}

/// Whether two names are equal up to ASCII case.
pub open spec fn same_name(a: Seq<char>, b: Seq<char>) -> bool {
    &&& a.len() == b.len()
    &&& forall|i: int| 0 <= i < a.len() ==> fold_case(a[i]) == fold_case(b[i])
}

/// The extension of the file that a path names, if it has one.
pub open spec fn path_extension(path: Seq<char>) -> Option<Seq<char>> {
    match path_file_name(path) {
        Some(name) => extension_of(name),
        None => None,
    }
}

/// What is wrong with a pair of file names, if anything: a missing or empty
/// name comes first, then a mismatch.
pub open spec fn name_fault(name_a: Option<Seq<char>>, name_b: Option<Seq<char>>) -> Option<
    SyncErrorView,
> {
    let a = match name_a {
        Some(n) => n,
        None => Seq::<char>::empty(),
    };
    let b = match name_b {
        Some(n) => n,
        None => Seq::<char>::empty(),
    };
    if a.len() == 0 || b.len() == 0 {
        Some(SyncErrorView::InvalidPath)
    } else if !same_name(a, b) {
        Some(SyncErrorView::NameMismatch { name_a: a, name_b: b })
    } else {
        None
    }
}

/// What is wrong with a pair, if anything: the names are judged first, then
/// the content of the first file, then that of the second.
pub open spec fn pair_fault(
    path_a: Seq<char>,
    path_b: Seq<char>,
    content_a: Seq<u8>,
    content_b: Seq<u8>,
) -> Option<SyncErrorView> {
    match name_fault(path_file_name(path_a), path_file_name(path_b)) {
        Some(e) => Some(e),
        None => if !is_text(content_a) {
            Some(SyncErrorView::BinaryFileRejected { path: path_a })
        } else if !is_text(content_b) {
            Some(SyncErrorView::BinaryFileRejected { path: path_b })
        } else {
            None
        },
    }
}

fn fold(c: char) -> (code: u32)
    ensures
        code == fold_case(c),
{
    let code: u32 = c as u32;
    if 65 <= code && code <= 90 {
        code + 32
    } else {
        code
    }
}

/// Whether `a` and `b` are equal up to ASCII case.
pub fn eq_ignore_ascii_case(a: &str, b: &str) -> (same: bool)
    ensures
        same == same_name(a@, b@),
{
    broadcast use vstd::string::group_string_axioms;

    let mut rest_a = a.chars();
    let mut rest_b = b.chars();
    let ghost mut seen: int = 0;
    loop
        invariant
            0 <= seen <= a@.len(),
            seen <= b@.len(),
            rest_a.remaining() == a@.skip(seen),
            rest_b.remaining() == b@.skip(seen),
            forall|i: int| 0 <= i < seen ==> fold_case(a@[i]) == fold_case(b@[i]),
        decreases a@.len() - seen,
    {
        let next_a = rest_a.next();
        let next_b = rest_b.next();
        match (next_a, next_b) {
            (Some(x), Some(y)) => {
                if fold(x) != fold(y) {
                    return false;
                }
                proof {
                    seen = seen + 1;
                }
            },
            (None, None) => {
                return true;
            },
            _ => {
                return false;
            },
        }
    }
}

/// Judges two file names: both must be present and non-empty, and they must
/// be equal up to ASCII case.
pub fn check_names(name_a: Option<&str>, name_b: Option<&str>) -> (r: Result<(), SyncError>)
    ensures
        match r {
            Ok(_) => name_fault(slice_text_of(name_a), slice_text_of(name_b)).is_none(),
            Err(e) => name_fault(slice_text_of(name_a), slice_text_of(name_b)) == Some(e@),
        },
{
    let a = match name_a {
        Some(n) => n,
        None => "",
    };
    let b = match name_b {
        Some(n) => n,
        None => "",
    };
    proof {
        reveal_strlit("");
    }
    if a.is_empty() || b.is_empty() {
        return Err(SyncError::InvalidPath);
    }
    if !eq_ignore_ascii_case(a, b) {
        return Err(SyncError::NameMismatch { name_a: a.to_owned(), name_b: b.to_owned() });
    }
    Ok(())
}

fn has_extension(name: &Option<String>) -> (has: bool)
    ensures
        has == match *name {
            Some(n) => extension_of(n@).is_some(),
            None => false,
        },
{
    match name {
        Some(n) => split_file_name(n.as_str()).1.is_some(),
        None => false,
    }
}

/// Judges the file names of two paths, and reports whether either lacks an
/// extension.
pub fn compare_stem_ext(path_a: &str, path_b: &str) -> (r: Result<PairCheck, SyncError>)
    ensures
        match r {
            Ok(check) => {
                &&& name_fault(path_file_name(path_a@), path_file_name(path_b@)).is_none()
                &&& check.extension_missing == (path_extension(path_a@).is_none()
                    || path_extension(path_b@).is_none())
            },
            Err(e) => name_fault(path_file_name(path_a@), path_file_name(path_b@)) == Some(e@),
        },
{
    let name_a = file_name(path_a);
    let name_b = file_name(path_b);
    let names = check_names(
        match &name_a {
            Some(n) => Some(n.as_str()),
            None => None,
        },
        match &name_b {
            Some(n) => Some(n.as_str()),
            None => None,
        },
    );
    match names {
        Err(e) => Err(e),
        Ok(_) => {
            let extension_missing = !has_extension(&name_a) || !has_extension(&name_b);
            Ok(PairCheck { extension_missing })
        },
    }
}

/// Decides whether two files form a pair that may be kept in sync, from their
/// paths and their content (of which only the leading bytes are looked at).
pub fn validate(path_a: &str, path_b: &str, content_a: &[u8], content_b: &[u8]) -> (r: Result<
    PairCheck,
    SyncError,
>)
    ensures
        match r {
            Ok(check) => {
                &&& pair_fault(path_a@, path_b@, content_a@, content_b@).is_none()
                &&& check.extension_missing == (path_extension(path_a@).is_none()
                    || path_extension(path_b@).is_none())
            },
            Err(e) => pair_fault(path_a@, path_b@, content_a@, content_b@) == Some(e@),
        },
{
    match compare_stem_ext(path_a, path_b) {
        Err(e) => Err(e),
        Ok(check) => {
            if !is_valid_text_file(content_a) {
                Err(SyncError::BinaryFileRejected { path: path_a.to_owned() })
            } else if !is_valid_text_file(content_b) {
                Err(SyncError::BinaryFileRejected { path: path_b.to_owned() })
            } else {
                Ok(check)
            }
        },
    }
}

} // verus!
