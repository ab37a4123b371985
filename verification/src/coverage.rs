//! The coverage map: for each file of a coverage report, which of its lines
//! were executed. Reports are merged line by line: a line that was hit once
//! stays hit.

use crate::paths::{distinct, first_index, is_first_at, lemma_first_index};
use crate::text::same_text;
use std::collections::HashMap;
use vstd::prelude::*;

verus! {

broadcast use vstd::std_specs::hash::group_hash_axioms;

/// What is known of a line after one more report: hit if this report says
/// so, or if it was known as hit before.
pub open spec fn join(known: Option<bool>, hit: bool) -> bool {
    hit || known == Some(true)
}

/// What `lines` knows of the line `number`.
pub open spec fn known(lines: Map<i32, bool>, number: i32) -> Option<bool> {
    if lines.contains_key(number) {
        Some(lines[number])
    } else {
        None
    }
}

/// The lines after a report of `hits` executions of the line `number`. A
/// number below 1 is no line and changes nothing.
pub open spec fn recorded(lines: Map<i32, bool>, number: i32, hits: i32) -> Map<i32, bool> {
    if number > 0 {
        lines.insert(number, join(known(lines, number), hits != 0))
    } else {
        lines
    }
}

/// What `lines` knows of the line with the 1-based number `line`: `None`
/// where the report has no entry for it, which means that the line is not
/// executable.
pub open spec fn hit_at(lines: Map<i32, bool>, line: int) -> Option<bool> {
    if 1 <= line <= i32::MAX {
        known(lines, line as i32)
    } else {
        None
    }
}

/// Computes `join`.
pub fn join_hit(known: Option<bool>, hit: bool) -> (joined: bool)
    ensures
        joined == join(known, hit),
{
    match known {
        Some(true) => true,
        _ => hit,
    }
}

/// The lines of one file that a coverage report speaks of.
#[derive(Clone, Debug)]
pub struct FileCoverage {
    lines: HashMap<i32, bool>,
}

impl View for FileCoverage {
    type V = Map<i32, bool>;

    closed spec fn view(&self) -> Map<i32, bool> {
        self.lines@
    }
}

impl FileCoverage {
    /// A file of which no line is known.
    pub fn new() -> (coverage: FileCoverage)
        ensures
            coverage@ == Map::<i32, bool>::empty(),
    {
        FileCoverage { lines: HashMap::new() }
    }

    /// What is known of the line `number`.
    pub fn get(&self, number: i32) -> (hit: Option<bool>)
        ensures
            hit == known(self@, number),
    {
        match self.lines.get(&number) {
            Some(hit) => Some(*hit),
            None => None,
        }
    }

    /// What is known of the line with the 1-based number `line`.
    pub fn hit(&self, line: usize) -> (hit: Option<bool>)
        ensures
            hit == hit_at(self@, line as int),
    {
        if line >= 1 && line <= 2147483647 {
            self.get(line as i32)
        } else {
            None
        }
    }

    /// Takes in a report of `hits` executions of the line `number`.
    pub fn record(&mut self, number: i32, hits: i32)
        ensures
            final(self)@ == recorded(old(self)@, number, hits),
    {
        if number > 0 {
            let joined = join_hit(self.get(number), hits != 0);
            self.lines.insert(number, joined);
        }
    }
}

/// The lines of one file, under its path, as a value of the model.
pub struct FileHits {
    pub path: Seq<char>,
    pub lines: Map<i32, bool>,
}

/// One file of the coverage map.
#[derive(Clone, Debug)]
pub struct CoveredFile {
    pub path: String,
    pub lines: FileCoverage,
}

impl View for CoveredFile {
    type V = FileHits;

    open spec fn view(&self) -> FileHits {
        FileHits { path: self.path@, lines: self.lines@ }
    }
}

/// The paths of `files`, in order.
pub open spec fn file_paths(files: Seq<FileHits>) -> Seq<Seq<char>> {
    Seq::new(files.len(), |i: int| files[i].path)
}

/// The first position of `path` among `files`, if it is there.
pub open spec fn position_of(files: Seq<FileHits>, path: Seq<char>) -> Option<int> {
    first_index(file_paths(files), path)
}

/// Whether no path stands twice in `files`.
pub open spec fn distinct_paths(files: Seq<FileHits>) -> bool {
    distinct(file_paths(files))
}

/// The files after `path` was named by a report: a file that is new comes
/// last, with no line known.
pub open spec fn with_file(files: Seq<FileHits>, path: Seq<char>) -> Seq<FileHits> {
    if position_of(files, path) is Some {
        files
    } else {
        files.push(FileHits { path, lines: Map::empty() })
    }
}

/// The files after a report of `hits` executions of the line `number` of
/// the file at `index`.
pub open spec fn with_line(files: Seq<FileHits>, index: int, number: i32, hits: i32) -> Seq<
    FileHits,
> {
    files.update(
        index,
        FileHits { path: files[index].path, lines: recorded(files[index].lines, number, hits) },
    )
}

/// The coverage map: the files that the reports name, each once, in the
/// order in which they were first named.
#[derive(Debug)]
pub struct CoverageMap {
    files: Vec<CoveredFile>,
}

impl View for CoverageMap {
    type V = Seq<FileHits>;

    closed spec fn view(&self) -> Seq<FileHits> {
        Seq::new(self.files@.len(), |i: int| self.files@[i]@)
    }
}

impl CoverageMap {
    /// What holds of every coverage map: no path stands twice in it.
    #[verifier::type_invariant]
    pub open spec fn no_path_twice(self) -> bool {
        distinct_paths(self@)
    }

    /// The map of no report.
    pub fn new() -> (map: CoverageMap)
        ensures
            map@ == Seq::<FileHits>::empty(),
    {
        let map = CoverageMap { files: Vec::new() };
        assert(map@ =~= Seq::<FileHits>::empty());
        map
    }

    /// The number of files. No path stands twice among them.
    pub fn len(&self) -> (len: usize)
        ensures
            len == self@.len(),
            distinct_paths(self@),
    {
        proof {
            use_type_invariant(self);
        }
        self.files.len()
    }

    /// The file at `index`.
    pub fn file(&self, index: usize) -> (file: &CoveredFile)
        requires
            index < self@.len(),
        ensures
            file@ == self@[index as int],
    {
        &self.files[index]
    }

    /// The position of the file with the given path.
    pub fn position(&self, path: &str) -> (position: Option<usize>)
        ensures
            position_of(self@, path@) == match position {
                Some(index) => Some(index as int),
                None => None,
            },
            position matches Some(index) ==> index < self@.len() && self@[index as int].path
                == path@,
    {
        let ghost paths = file_paths(self@);
        let mut index: usize = 0;
        while index < self.files.len()
            invariant
                index <= self.files.len(),
                paths == file_paths(self@),
                forall|i: int| 0 <= i < index ==> paths[i] != path@,
            decreases self.files.len() - index,
        {
            if same_text(self.files[index].path.as_str(), path) {
                proof {
                    assert(paths[index as int] == path@);
                    lemma_first_index(paths, path@, index as int);
                }
                return Some(index);
            }
            index += 1;
        }
        proof {
            lemma_first_index(paths, path@, 0);
        }
        None
    }

    /// The lines of the file with the given path.
    pub fn get(&self, path: &str) -> (lines: Option<&FileCoverage>)
        ensures
            match position_of(self@, path@) {
                Some(index) => lines matches Some(lines) && lines@ == self@[index].lines,
                None => lines is None,
            },
    {
        match self.position(path) {
            Some(index) => Some(&self.files[index].lines),
            None => None,
        }
    }

    /// Names a file, and gives its position.
    pub fn entry(&mut self, path: String) -> (index: usize)
        ensures
            final(self)@ == with_file(old(self)@, path@),
            position_of(final(self)@, path@) == Some(index as int),
            index < final(self)@.len(),
    {
        match self.position(path.as_str()) {
            Some(index) => index,
            None => {
                proof {
                    use_type_invariant(&*self);
                }
                let ghost before = self@;
                let ghost added = before.push(FileHits { path: path@, lines: Map::empty() });
                let mut files: Vec<CoveredFile> = Vec::new();
                core::mem::swap(&mut self.files, &mut files);
                let index = files.len();
                files.push(CoveredFile { path, lines: FileCoverage::new() });
                proof {
                    let after = Seq::new(files@.len(), |i: int| files@[i]@);
                    assert(after =~= added);
                    lemma_first_index(file_paths(before), path@, 0);
                    assert(file_paths(added) =~= file_paths(before).push(path@));
                    assert(is_first_at(file_paths(added), path@, index as int));
                    lemma_first_index(file_paths(added), path@, index as int);
                    assert(distinct_paths(added));
                }
                core::mem::swap(&mut self.files, &mut files);
                assert(self@ =~= added);
                index
            },
        }
    }

    /// Takes in a report of `hits` executions of the line `number` of the
    /// file at `index`.
    pub fn record(&mut self, index: usize, number: i32, hits: i32)
        requires
            index < old(self)@.len(),
        ensures
            final(self)@ == with_line(old(self)@, index as int, number, hits),
    {
        proof {
            use_type_invariant(&*self);
        }
        let ghost before = self@;
        let ghost changed = with_line(before, index as int, number, hits);
        let mut files: Vec<CoveredFile> = Vec::new();
        core::mem::swap(&mut self.files, &mut files);
        files[index].lines.record(number, hits);
        proof {
            let after = Seq::new(files@.len(), |i: int| files@[i]@);
            assert(after =~= changed);
            assert(file_paths(changed) =~= file_paths(before));
        }
        core::mem::swap(&mut self.files, &mut files);
        assert(self@ =~= changed);
    }
}

} // verus!
