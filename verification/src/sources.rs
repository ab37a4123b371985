//! The annotations of the source files that were scanned, each under its
//! path.

use crate::paths::{distinct, first_index, lemma_first_index};
use crate::scan::{FileAnnotations, FileVerdict};
use crate::text::same_text;
use vstd::prelude::*;

verus! {

/// The verdict on one file, under its path, as a value of the model.
pub struct FileNotes {
    pub path: Seq<char>,
    pub verdict: FileVerdict,
}

/// One scanned file.
#[derive(Clone, Debug)]
pub struct AnnotatedFile {
    pub path: String,
    pub annotations: FileAnnotations,
}

impl View for AnnotatedFile {
    type V = FileNotes;

    open spec fn view(&self) -> FileNotes {
        FileNotes { path: self.path@, verdict: self.annotations@ }
    }
}

/// The paths of `files`, in order.
pub open spec fn noted_paths(files: Seq<FileNotes>) -> Seq<Seq<char>> {
    Seq::new(files.len(), |i: int| files[i].path)
}

/// The first position of `path` among `files`, if it is there.
pub open spec fn noted_at(files: Seq<FileNotes>, path: Seq<char>) -> Option<int> {
    first_index(noted_paths(files), path)
}

/// The files once the scan of `path` gave `verdict`: a file that is there
/// already keeps its place and gets the new verdict, a new one comes last.
pub open spec fn with_notes(files: Seq<FileNotes>, path: Seq<char>, verdict: FileVerdict) -> Seq<
    FileNotes,
> {
    match noted_at(files, path) {
        Some(index) => files.update(index, FileNotes { path, verdict }),
        None => files.push(FileNotes { path, verdict }),
    }
}

/// The scanned files, each once, in the order in which they were first
/// scanned.
#[derive(Debug)]
pub struct SourceMap {
    files: Vec<AnnotatedFile>,
}

impl View for SourceMap {
    type V = Seq<FileNotes>;

    closed spec fn view(&self) -> Seq<FileNotes> {
        Seq::new(self.files@.len(), |i: int| self.files@[i]@)
    }
}

impl SourceMap {
    /// What holds of every source map: no path stands twice in it.
    #[verifier::type_invariant]
    pub open spec fn no_path_twice(self) -> bool {
        distinct(noted_paths(self@))
    }

    /// No file scanned.
    pub fn new() -> (map: SourceMap)
        ensures
            map@ == Seq::<FileNotes>::empty(),
    {
        let map = SourceMap { files: Vec::new() };
        assert(map@ =~= Seq::<FileNotes>::empty());
        map
    }

    /// The number of files. No path stands twice among them.
    pub fn len(&self) -> (len: usize)
        ensures
            len == self@.len(),
            distinct(noted_paths(self@)),
    {
        proof {
            use_type_invariant(self);
        }
        self.files.len()
    }

    /// The file at `index`.
    pub fn file(&self, index: usize) -> (file: &AnnotatedFile)
        requires
            index < self@.len(),
        ensures
            file@ == self@[index as int],
    {
        &self.files[index]
    }

    /// The position of the file with the given path.
    pub fn position(&self, path: &str) -> (position: Option<usize>)
        ensures
            noted_at(self@, path@) == match position {
                Some(index) => Some(index as int),
                None => None,
            },
            position matches Some(index) ==> index < self@.len() && self@[index as int].path
                == path@,
    {
        let ghost paths = noted_paths(self@);
        let mut index: usize = 0;
        while index < self.files.len()
            invariant
                index <= self.files.len(),
                paths == noted_paths(self@),
                forall|i: int| 0 <= i < index ==> paths[i] != path@,
            decreases self.files.len() - index,
        {
            if same_text(self.files[index].path.as_str(), path) {
                proof {
                    assert(paths[index as int] == path@);
                    lemma_first_index(paths, path@, index as int);
                }
                return Some(index);
            }
            index += 1;
        }
        proof {
            lemma_first_index(paths, path@, 0);
        }
        None
    }

    /// The annotations of the file with the given path.
    pub fn get(&self, path: &str) -> (annotations: Option<&FileAnnotations>)
        ensures
            match noted_at(self@, path@) {
                Some(index) => annotations matches Some(annotations) && annotations@
                    == self@[index].verdict,
                None => annotations is None,
            },
    {
        match self.position(path) {
            Some(index) => Some(&self.files[index].annotations),
            None => None,
        }
    }

    /// Takes in the annotations of a scanned file.
    pub fn insert(&mut self, path: String, annotations: FileAnnotations)
        ensures
            final(self)@ == with_notes(old(self)@, path@, annotations@),
    {
        proof {
            use_type_invariant(&*self);
        }
        let ghost before = self@;
        let ghost after = with_notes(before, path@, annotations@);
        let position = self.position(path.as_str());
        let mut files: Vec<AnnotatedFile> = Vec::new();
        core::mem::swap(&mut self.files, &mut files);
        match position {
            Some(index) => {
                files[index].annotations = annotations;
                proof {
                    assert(Seq::new(files@.len(), |i: int| files@[i]@) =~= after);
                    assert(noted_paths(after) =~= noted_paths(before));
                }
            },
            None => {
                files.push(AnnotatedFile { path, annotations });
                proof {
                    assert(Seq::new(files@.len(), |i: int| files@[i]@) =~= after);
                    lemma_first_index(noted_paths(before), path@, 0);
                    assert(noted_paths(after) =~= noted_paths(before).push(path@));
                }
            },
        }
        core::mem::swap(&mut self.files, &mut files);
        assert(self@ =~= after);
    }
}

} // verus!
