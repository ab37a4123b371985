//! Building the coverage map from the events of a coverage report.
//!
//! A report is read as a run of events: the start of an element, with its
//! name and attributes, and character data. Three elements matter. A `source`
//! element holds, as character data, a directory under which the files of the
//! report may lie. A `class` element names a file by its `filename`
//! attribute. A `line` element gives the `number` of a line of that file and
//! how many `hits` it had.
//!
//! Which file a name stands for is decided on disk, by whoever feeds the
//! events: the reader says which names an element needs resolved, and takes
//! the paths that were found.

use crate::coverage::{position_of, with_file, with_line, CoverageMap, FileHits};
use crate::number::{decimal_i32, parse_i32};
use crate::text::{same_text, slashed, texts, with_slash};
use vstd::prelude::*;

verus! {

/// One attribute of an element.
#[derive(Clone, Debug, PartialEq, Eq)]
pub struct Attribute {
    pub name: String,
    pub value: String,
}

/// One attribute of an element, as a value of the model.
pub struct AttributeText {
    pub name: Seq<char>,
    pub value: Seq<char>,
}

impl View for Attribute {
    type V = AttributeText;

    open spec fn view(&self) -> AttributeText {
        AttributeText { name: self.name@, value: self.value@ }
    }
}

/// The attributes of an element, as values of the model.
pub open spec fn attribute_texts(attributes: Seq<Attribute>) -> Seq<AttributeText> {
    Seq::new(attributes.len(), |i: int| attributes[i]@)
}

/// The texts of strings that may be missing.
pub open spec fn found_texts(found: Seq<Option<String>>) -> Seq<Option<Seq<char>>> {
    Seq::new(
        found.len(),
        |i: int|
            match found[i] {
                Some(path) => Some(path@),
                None => None,
            },
    )
}

/// Why a report cannot be taken in.
#[derive(Clone, Copy, Debug, PartialEq, Eq, Structural)]
pub enum ReportError {
    /// A file that the report names was not found.
    Unresolvable,
    /// The number or the hits of a line are not a number.
    Malformed,
    /// A line stands outside any file.
    NoFile,
}

/// The number and the hits of a `line` element.
#[derive(Clone, Copy, Debug, PartialEq, Eq, Structural)]
pub struct LineEntry {
    pub number: i32,
    pub hits: i32,
}

/// The first of `candidates` that was found.
pub open spec fn first_found(candidates: Seq<Option<Seq<char>>>) -> Option<Seq<char>>
    decreases candidates.len(),
{
    if candidates.len() == 0 {
        None
    } else {
        match first_found(candidates.drop_last()) {
            Some(path) => Some(path),
            None => candidates.last(),
        }
    }
}

/// What was found among the first candidates is what is found among all.
pub proof fn lemma_first_found_stays(candidates: Seq<Option<Seq<char>>>, n: int)
    requires
        0 <= n <= candidates.len(),
        first_found(candidates.take(n)) is Some,
    ensures
        first_found(candidates) == first_found(candidates.take(n)),
    decreases candidates.len() - n,
{
    if n == candidates.len() {
        assert(candidates.take(n) == candidates);
    } else {
        assert(candidates.take(n + 1).drop_last() == candidates.take(n));
        lemma_first_found_stays(candidates, n + 1);
    }
}

/// Picks the path of a file among the results of looking for it under each
/// source directory, in the order of the directories: the first that was
/// found.
pub fn canonical_file_name(candidates: &Vec<Option<String>>) -> (path: Option<String>)
    ensures
        first_found(found_texts(candidates@)) == match path {
            Some(path) => Some(path@),
            None => None,
        },
{
    let ghost all = found_texts(candidates@);
    let mut index: usize = 0;
    while index < candidates.len()
        invariant
            index <= candidates.len(),
            all == found_texts(candidates@),
            first_found(all.take(index as int)) is None,
        decreases candidates.len() - index,
    {
        proof {
            assert(all.take(index + 1).drop_last() == all.take(index as int));
            assert(all.take(index + 1).last() == all[index as int]);
        }
        match &candidates[index] {
            Some(path) => {
                proof {
                    lemma_first_found_stays(all, index + 1);
                }
                return Some(path.clone());
            },
            None => {},
        }
        index += 1;
    }
    assert(all.take(index as int) == all);
    None
}

/// The values of the attributes named `filename`, in order.
pub open spec fn file_names(attributes: Seq<AttributeText>) -> Seq<Seq<char>>
    decreases attributes.len(),
{
    if attributes.len() == 0 {
        Seq::empty()
    } else if attributes.last().name == "filename"@ {
        file_names(attributes.drop_last()).push(attributes.last().value)
    } else {
        file_names(attributes.drop_last())
    }
}

/// The names that an element needs resolved: those of a `class` element.
pub open spec fn names_to_resolve(name: Seq<char>, attributes: Seq<AttributeText>) -> Seq<
    Seq<char>,
> {
    if name == "class"@ {
        file_names(attributes)
    } else {
        Seq::empty()
    }
}

/// The entry after one more attribute: `None` where the attribute is the
/// number or the hits and its value is not a number of 32 bits.
pub open spec fn entry_with(entry: LineEntry, attribute: AttributeText) -> Option<LineEntry> {
    if attribute.name == "number"@ {
        match decimal_i32(attribute.value) {
            Some(number) => Some(LineEntry { number, ..entry }),
            None => None,
        }
    } else if attribute.name == "hits"@ {
        match decimal_i32(attribute.value) {
            Some(hits) => Some(LineEntry { hits, ..entry }),
            None => None,
        }
    } else {
        Some(entry)
    }
}

/// The entry that the attributes of a `line` element give. A number or hits
/// that the element does not state is -1; of one stated twice the last
/// counts.
pub open spec fn line_entry(attributes: Seq<AttributeText>) -> Option<LineEntry>
    decreases attributes.len(),
{
    if attributes.len() == 0 {
        Some(LineEntry { number: -1i32, hits: -1i32 })
    } else {
        match line_entry(attributes.drop_last()) {
            Some(entry) => entry_with(entry, attributes.last()),
            None => None,
        }
    }
}

/// Lists the names that an element needs resolved.
pub fn class_file_names(name: &str, attributes: &Vec<Attribute>) -> (names: Vec<String>)
    ensures
        texts(names@) == names_to_resolve(name@, attribute_texts(attributes@)),
{
    let mut names: Vec<String> = Vec::new();
    if !same_text(name, "class") {
        assert(texts(names@) =~= Seq::<Seq<char>>::empty());
        return names;
    }
    let ghost all = attribute_texts(attributes@);
    let mut index: usize = 0;
    assert(texts(names@) =~= file_names(all.take(0)));
    while index < attributes.len()
        invariant
            index <= attributes.len(),
            all == attribute_texts(attributes@),
            texts(names@) == file_names(all.take(index as int)),
        decreases attributes.len() - index,
    {
        proof {
            assert(all.take(index + 1).drop_last() == all.take(index as int));
            assert(all.take(index + 1).last() == attributes@[index as int]@);
        }
        let ghost before = texts(names@);
        if same_text(attributes[index].name.as_str(), "filename") {
            names.push(attributes[index].value.clone());
            assert(texts(names@) =~= before.push(attributes@[index as int].value@));
        }
        index += 1;
    }
    assert(all.take(index as int) == all);
    names
}

/// Reads the number and the hits of a `line` element.
pub fn read_line_entry(attributes: &Vec<Attribute>) -> (entry: Option<LineEntry>)
    ensures
        entry == line_entry(attribute_texts(attributes@)),
{
    let ghost all = attribute_texts(attributes@);
    let mut entry = LineEntry { number: -1, hits: -1 };
    let mut index: usize = 0;
    while index < attributes.len()
        invariant
            index <= attributes.len(),
            all == attribute_texts(attributes@),
            line_entry(all.take(index as int)) == Some(entry),
        decreases attributes.len() - index,
    {
        proof {
            assert(all.take(index + 1).drop_last() == all.take(index as int));
            assert(all.take(index + 1).last() == attributes@[index as int]@);
        }
        let attribute = &attributes[index];
        index += 1;
        if same_text(attribute.name.as_str(), "number") {
            match parse_i32(attribute.value.as_str()) {
                Some(number) => {
                    entry.number = number;
                },
                None => {
                    proof {
                        lemma_line_entry_fails(all, index as int);
                    }
                    return None;
                },
            }
        } else if same_text(attribute.name.as_str(), "hits") {
            match parse_i32(attribute.value.as_str()) {
                Some(hits) => {
                    entry.hits = hits;
                },
                None => {
                    proof {
                        lemma_line_entry_fails(all, index as int);
                    }
                    return None;
                },
            }
        }
    }
    assert(all.take(index as int) == all);
    Some(entry)
}

/// Attributes that begin with ones that give no entry give none.
pub proof fn lemma_line_entry_fails(attributes: Seq<AttributeText>, n: int)
    requires
        0 <= n <= attributes.len(),
        line_entry(attributes.take(n)) is None,
    ensures
        line_entry(attributes) is None,
    decreases attributes.len() - n,
{
    if n == attributes.len() {
        assert(attributes.take(n) == attributes);
    } else {
        assert(attributes.take(n + 1).drop_last() == attributes.take(n));
        lemma_line_entry_fails(attributes, n + 1);
    }
}

/// Whether every candidate was found.
pub open spec fn all_found(resolved: Seq<Option<Seq<char>>>) -> bool {
    forall|i: int| 0 <= i < resolved.len() ==> (#[trigger] resolved[i]) is Some
}

/// The paths that were found.
pub open spec fn found_paths(resolved: Seq<Option<Seq<char>>>) -> Seq<Seq<char>> {
    Seq::new(resolved.len(), |i: int| resolved[i].unwrap())
}

/// The files after each of `paths` was named, in order.
pub open spec fn with_files(files: Seq<FileHits>, paths: Seq<Seq<char>>) -> Seq<FileHits>
    decreases paths.len(),
{
    if paths.len() == 0 {
        files
    } else {
        with_file(with_files(files, paths.drop_last()), paths.last())
    }
}

/// What the reader of one report remembers between events, as a value of
/// the model.
pub struct ReaderState {
    /// The source directories, in the order in which they are tried.
    pub sources: Seq<Seq<char>>,
    /// Whether character data is the path of a source directory.
    pub collect_source: bool,
    /// The file that `line` elements belong to.
    pub current: Option<Seq<char>>,
}

/// The reader at the beginning of a report: the only source directory is
/// the empty one, and no file was named.
pub open spec fn reader_start() -> ReaderState {
    ReaderState { sources: seq![Seq::<char>::empty()], collect_source: false, current: None }
}

/// The reader and the files after the start of an element.
///
/// - Character data that follows is a source directory only after a `source`
///   element.
/// - A `class` element names a file for each of its `filename` attributes;
///   `resolved` holds a path for each of them, or the report is refused. The
///   last of them is the file of the lines that follow.
/// - A `line` element records its hits for its number in that file. One
///   whose number is below 1 is passed over.
pub open spec fn element_step(
    state: ReaderState,
    files: Seq<FileHits>,
    name: Seq<char>,
    attributes: Seq<AttributeText>,
    resolved: Seq<Option<Seq<char>>>,
) -> Result<(ReaderState, Seq<FileHits>), ReportError> {
    let next = ReaderState { collect_source: name == "source"@, ..state };
    if name == "class"@ {
        if resolved.len() == file_names(attributes).len() && all_found(resolved) {
            let paths = found_paths(resolved);
            Ok(
                (
                    ReaderState {
                        current: if paths.len() > 0 {
                            Some(paths.last())
                        } else {
                            state.current
                        },
                        ..next
                    },
                    with_files(files, paths),
                ),
            )
        } else {
            Err(ReportError::Unresolvable)
        }
    } else if name == "line"@ {
        match line_entry(attributes) {
            None => Err(ReportError::Malformed),
            Some(entry) => if entry.number > 0 {
                match state.current {
                    Some(path) => match position_of(files, path) {
                        Some(index) => Ok(
                            (next, with_line(files, index, entry.number, entry.hits)),
                        ),
                        None => Err(ReportError::NoFile),
                    },
                    None => Err(ReportError::NoFile),
                }
            } else {
                Ok((next, files))
            },
        }
    } else {
        Ok((next, files))
    }
}

/// The reader after character data.
pub open spec fn characters_step(state: ReaderState, text: Seq<char>) -> ReaderState {
    if state.collect_source {
        ReaderState { sources: state.sources.push(with_slash(text)), ..state }
    } else {
        state
    }
}

/// The reader of one coverage report.
#[derive(Clone, Debug)]
pub struct ReportReader {
    sources: Vec<String>,
    collect_source: bool,
    current: Option<String>,
}

impl View for ReportReader {
    type V = ReaderState;

    closed spec fn view(&self) -> ReaderState {
        ReaderState {
            sources: texts(self.sources@),
            collect_source: self.collect_source,
            current: match self.current {
                Some(path) => Some(path@),
                None => None,
            },
        }
    }
}

impl ReportReader {
    /// A reader at the beginning of a report.
    pub fn new() -> (reader: ReportReader)
        ensures
            reader@ == reader_start(),
    {
        let mut sources: Vec<String> = Vec::new();
        sources.push(String::new());
        let reader = ReportReader { sources, collect_source: false, current: None };
        assert(reader@.sources =~= seq![Seq::<char>::empty()]);
        reader
    }

    /// The source directories, in the order in which they are tried.
    pub fn sources(&self) -> (sources: &Vec<String>)
        ensures
            texts(sources@) == self@.sources,
    {
        &self.sources
    }

    /// Takes the start of an element. `resolved` holds, for each name that
    /// the element needs resolved, the path that was found for it.
    pub fn start_element(
        &mut self,
        map: &mut CoverageMap,
        name: &str,
        attributes: &Vec<Attribute>,
        resolved: &Vec<Option<String>>,
    ) -> (outcome: Result<(), ReportError>)
        ensures
            match element_step(
                old(self)@,
                old(map)@,
                name@,
                attribute_texts(attributes@),
                found_texts(resolved@),
            ) {
                Ok((state, files)) => outcome is Ok && final(self)@ == state && final(map)@
                    == files,
                Err(error) => outcome == Err::<(), ReportError>(error) && final(self)@ == old(
                    self,
                )@ && final(map)@ == old(map)@,
            },
    {
        let ghost found = found_texts(resolved@);
        let is_source = same_text(name, "source");
        if same_text(name, "class") {
            let names = class_file_names(name, attributes);
            assert(texts(names@).len() == names@.len());
            if resolved.len() != names.len() {
                return Err(ReportError::Unresolvable);
            }
            let mut index: usize = 0;
            while index < resolved.len()
                invariant
                    index <= resolved.len(),
                    found == found_texts(resolved@),
                    name@ == "class"@,
                    self@ == old(self)@,
                    map@ == old(map)@,
                    forall|i: int| 0 <= i < index ==> (#[trigger] found[i]) is Some,
                decreases resolved.len() - index,
            {
                if resolved[index].is_none() {
                    assert(found[index as int] is None);
                    return Err(ReportError::Unresolvable);
                }
                index += 1;
            }
            let ghost paths = found_paths(found);
            let ghost files = map@;
            let ghost current = self@.current;
            index = 0;
            while index < resolved.len()
                invariant
                    index <= resolved.len(),
                    found == found_texts(resolved@),
                    all_found(found),
                    paths == found_paths(found),
                    map@ == with_files(files, paths.take(index as int)),
                    self@.sources == old(self)@.sources,
                    self@.collect_source == old(self)@.collect_source,
                    self@.current == if index > 0 {
                        Some(paths[index - 1])
                    } else {
                        current
                    },
                decreases resolved.len() - index,
            {
                proof {
                    assert(paths.take(index + 1).drop_last() == paths.take(index as int));
                    assert(paths.take(index + 1).last() == paths[index as int]);
                    assert(found[index as int] is Some);
                }
                match &resolved[index] {
                    Some(path) => {
                        map.entry(path.clone());
                        self.current = Some(path.clone());
                    },
                    None => {},
                }
                index += 1;
            }
            assert(paths.take(index as int) == paths);
        } else if same_text(name, "line") {
            match read_line_entry(attributes) {
                None => {
                    return Err(ReportError::Malformed);
                },
                Some(entry) => {
                    if entry.number > 0 {
                        let position = match &self.current {
                            Some(path) => map.position(path.as_str()),
                            None => None,
                        };
                        match position {
                            Some(index) => {
                                map.record(index, entry.number, entry.hits);
                            },
                            None => {
                                return Err(ReportError::NoFile);
                            },
                        }
                    }
                },
            }
        }
        self.collect_source = is_source;
        Ok(())
    }

    /// Takes character data.
    pub fn characters(&mut self, text: String)
        ensures
            final(self)@ == characters_step(old(self)@, text@),
    {
        if self.collect_source {
            let ghost before = self@.sources;
            self.sources.push(slashed(text));
            assert(self@.sources =~= before.push(with_slash(text@)));
        }
    }
}

} // verus!
