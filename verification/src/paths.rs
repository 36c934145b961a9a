//! File-system paths as the bridge sees them.
//!
//! A [`PathBuf`] is carried through the library as an opaque value. What the
//! standard library computes from one is given a name here, and the functions
//! below are the only places where that is taken on trust.

use std::path::PathBuf;
use vstd::prelude::*;

verus! {

#[verifier::external_type_specification]
#[verifier::external_body]
pub struct ExPathBuf(std::path::PathBuf);

/// The text of a path that is valid Unicode, and `None` for any other path.
pub uninterp spec fn path_text(path: PathBuf) -> Option<Seq<char>>;

/// The path that results from adjoining `part` to `base`.
pub uninterp spec fn path_join(base: PathBuf, part: Seq<char>) -> PathBuf;

/// The text of a path as `Debug` formatting prints it.
pub uninterp spec fn path_debug(path: PathBuf) -> Seq<char>;

/// The text of a path with every ill-formed sequence replaced by U+FFFD.
pub uninterp spec fn path_lossy(path: PathBuf) -> Seq<char>;

/// `Path::to_str`: yields the text of the path exactly when the path is valid
/// Unicode. Taken on trust: the result is [`path_text`] of the path.
#[verifier::external_body]
pub(crate) fn to_str(path: &PathBuf) -> (text: Option<&str>)
    ensures
        text is Some <==> path_text(*path) is Some,
        text matches Some(s) ==> path_text(*path) == Some(s@),
{
    path.to_str()
}

/// `Path::join`: a new path made of `base` with `part` adjoined. Taken on
/// trust: the result is [`path_join`] of the two.
#[verifier::external_body]
pub(crate) fn join(base: &PathBuf, part: &str) -> (joined: PathBuf)
    ensures
        joined == path_join(*base, part@),
{
    base.join(part)
}

/// `Debug` formatting of a path. Taken on trust: the result is
/// [`path_debug`] of the path.
#[verifier::external_body]
pub(crate) fn debug(path: &PathBuf) -> (text: String)
    ensures
        text@ == path_debug(*path),
{
    format!("{:?}", path)
}

/// `Path::to_string_lossy`, copied into an owned string. Taken on trust: the
/// result is [`path_lossy`] of the path, and for a path that is valid Unicode
/// that is its text unchanged.
#[verifier::external_body]
pub(crate) fn to_string_lossy(path: &PathBuf) -> (text: String)
    ensures
        text@ == path_lossy(*path),
        path_text(*path) matches Some(s) ==> text@ == s,
{
    path.to_string_lossy().into_owned()
}

/// `PathBuf::clone`. Taken on trust: the copy equals the path it was made
/// from.
pub assume_specification[ <PathBuf as Clone>::clone ](path: &PathBuf) -> (copy: PathBuf)
    ensures
        copy == *path,
;

} // verus!
