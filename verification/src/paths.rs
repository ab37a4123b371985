//! Paths as keys: finding a path in a list of paths, and telling whether a
//! file lies under a directory.

use crate::text::{
    begins_with, chars_of, ends_with, finishes_with, slashed, starts_with, with_slash,
};
use vstd::prelude::*;

verus! {

/// Whether `index` is the first position of `path` in `paths`.
pub open spec fn is_first_at(paths: Seq<Seq<char>>, path: Seq<char>, index: int) -> bool {
    &&& 0 <= index < paths.len()
    &&& paths[index] == path
    &&& forall|i: int| 0 <= i < index ==> paths[i] != path
}

/// The first position of `path` in `paths`, if it is there.
pub open spec fn first_index(paths: Seq<Seq<char>>, path: Seq<char>) -> Option<int> {
    if exists|index: int| is_first_at(paths, path, index) {
        Some(choose|index: int| is_first_at(paths, path, index))
    } else {
        None
    }
}

/// Whether no path stands twice in `paths`.
pub open spec fn distinct(paths: Seq<Seq<char>>) -> bool {
    forall|i: int, j: int|
        0 <= i < paths.len() && 0 <= j < paths.len() && paths[i] == paths[j] ==> i == j
}

/// Whether the file at `path` lies under the directory at `root`: its path
/// begins with that of the directory and a slash.
pub open spec fn is_under(path: Seq<char>, root: Seq<char>) -> bool {
    begins_with(path, with_slash(root))
}

/// Whether the file at `path` lies under one of the two tracked
/// directories.
pub open spec fn is_tracked(path: Seq<char>, src: Seq<char>, tests: Seq<char>) -> bool {
    is_under(path, src) || is_under(path, tests)
}

/// What a file found in the project tree is, by its name.
#[derive(Clone, Copy, Debug, PartialEq, Eq, Structural)]
pub enum FileKind {
    /// A coverage report.
    CoverageReport,
    /// A source file, to be scanned for annotations.
    Source,
    /// Neither.
    Other,
}

/// What the file at `path` is: a coverage report where it is named
/// `cobertura.xml`, in whatever directory; else a source file where its name
/// ends in `.rs`.
pub open spec fn kind_of_file(path: Seq<char>) -> FileKind {
    if ends_with(path, "/cobertura.xml"@) {
        FileKind::CoverageReport
    } else if ends_with(path, ".rs"@) {
        FileKind::Source
    } else {
        FileKind::Other
    }
}

/// Tells what the file at `path` is.
pub fn classify_file(path: &str) -> (kind: FileKind)
    ensures
        kind == kind_of_file(path@),
{
    let chars = chars_of(path);
    if finishes_with(&chars, "/cobertura.xml") {
        FileKind::CoverageReport
    } else if finishes_with(&chars, ".rs") {
        FileKind::Source
    } else {
        FileKind::Other
    }
}

/// Tests whether the file at `path` lies under the directory at `root`.
pub fn lies_in(path: &Vec<char>, root: &str) -> (under: bool)
    ensures
        under == is_under(path@, root@),
{
    let directory = slashed(root.to_owned());
    starts_with(path, directory.as_str())
}

/// A path that stands in `paths` has a first position.
pub proof fn lemma_has_first(paths: Seq<Seq<char>>, path: Seq<char>, at: int)
    requires
        0 <= at < paths.len(),
        paths[at] == path,
    ensures
        exists|index: int| is_first_at(paths, path, index),
    decreases at,
{
    if exists|i: int| 0 <= i < at && paths[i] == path {
        let i = choose|i: int| 0 <= i < at && paths[i] == path;
        lemma_has_first(paths, path, i);
    } else {
        assert(is_first_at(paths, path, at));
    }
}

/// `first_index` gives the first position, and gives none only for a path
/// that is not there.
pub proof fn lemma_first_index(paths: Seq<Seq<char>>, path: Seq<char>, index: int)
    ensures
        is_first_at(paths, path, index) <==> first_index(paths, path) == Some(index),
        first_index(paths, path) is None <==> forall|i: int|
            0 <= i < paths.len() ==> #[trigger] paths[i] != path,
        first_index(paths, path) matches Some(found) ==> is_first_at(paths, path, found),
{
    if first_index(paths, path) is Some {
        let found = first_index(paths, path)->0;
        assert(is_first_at(paths, path, found));
        if is_first_at(paths, path, index) {
            assert(found == index) by {
                if found < index {
                } else if index < found {
                }
            }
        }
    } else {
        assert forall|i: int| 0 <= i < paths.len() implies #[trigger] paths[i] != path by {
            if paths[i] == path {
                lemma_has_first(paths, path, i);
            }
        }
    }
}

} // verus!
