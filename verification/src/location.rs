//! Where an asset lies: the registry's directory, and a path below it.

use normpath::PathExt;
use vstd::prelude::*;

verus! {

/// Whether a path starts at the root of the file system.
pub open spec fn is_rooted(path: Seq<char>) -> bool {
    path.len() > 0 && path[0] == '/'
}

/// The path that `relative` names when it is read from the directory
/// `base`.
///
/// A rooted `relative` stands for itself and `base` is dropped. Otherwise
/// `relative` follows `base`, with one `/` between them unless `base` is
/// empty or ends in one. Components of `relative` are taken as they are, so
/// `..` is neither resolved nor refused.
pub open spec fn joined(base: Seq<char>, relative: Seq<char>) -> Seq<char> {
    if is_rooted(relative) {
        relative
    } else if base.len() == 0 || base.last() == '/' {
        base + relative
    } else {
        base + seq!['/'] + relative
    }
}

/// A path that is not rooted stays below the directory it is read from:
/// the result starts with the directory and ends with the path.
pub proof fn joined_extends_base(base: Seq<char>, relative: Seq<char>)
    requires
        !is_rooted(relative),
    ensures
        base.is_prefix_of(joined(base, relative)),
        relative.is_suffix_of(joined(base, relative)),
{
}

/// Joins `relative` to the directory `base`.
pub fn join(base: &str, relative: &str) -> (full: String)
    ensures
        full@ == joined(base@, relative@),
{
    if relative.unicode_len() > 0 && relative.get_char(0) == '/' {
        return relative.to_owned();
    }
    let length: usize = base.unicode_len();
    let mut full = base.to_owned();
    if length > 0 && base.get_char(length - 1) != '/' {
        proof {
            reveal_strlit("/");
        }
        full.append("/");
    }
    full.append(relative);
    full
}

/// Calls `normpath`'s `normalize` on `path`, which asks the file system for
/// the absolute form of the path with its links resolved, and fails where
/// the path cannot be reached. Whether the call succeeds depends on what is
/// on disk. Of a success the contract says what `normpath` documents of it
/// on Unix, where it is the canonical, absolute form of the path: the path
/// is rooted. The normalized path is carried as text, with the replacement
/// character for bytes that are not UTF-8.
#[verifier::external_body]
pub(crate) fn normalize(path: &str) -> (outcome: Result<String, std::io::Error>)
    ensures
        outcome matches Ok(text) ==> is_rooted(text@),
{
    match std::path::Path::new(path).normalize() {
        Ok(base) => Ok(base.as_path().to_string_lossy().into_owned()),
        Err(cause) => Err(cause),
    }
}

/// Calls `Path::is_dir`, which asks the file system whether a directory
/// lies at `path`, following links. The answer depends on what is on disk,
/// so nothing is claimed of it.
#[verifier::external_body]
pub(crate) fn is_directory(path: &str) -> (answer: bool) {
    std::path::Path::new(path).is_dir()
}

} // verus!
