//! Scanning the lines of one source file: every line is resolved by the
//! region state machine, structural lines are set aside as maybe tested, and
//! the file-level markers decide whether the file keeps its lines or gets one
//! verdict as a whole.

use crate::annotation::{is_explicit, FlakyPolicy, LineAnnotation, LineMark};
use crate::diagnostic::{noted, Diagnostic, Issue};
use crate::mark::{read_mark, reading_of, LineReading};
use crate::pattern::{compile, is_match, pattern_compiles, pattern_matches};
use crate::region::{file_kind, resolution, resolve_line};
use crate::text::{chars_of, contains, occurs_in};
use vstd::prelude::*;

verus! {

/// The verdict on one file: an annotation for each of its lines, or one
/// verdict for the whole file.
#[derive(Clone, Debug, PartialEq, Eq)]
pub enum FileAnnotations {
    LineAnnotations(Vec<LineAnnotation>),
    MaybeTested,
    NotTested,
}

/// The verdict on one file, as a value of the model.
pub enum FileVerdict {
    Lines(Seq<LineAnnotation>),
    MaybeTested,
    NotTested,
}

impl View for FileAnnotations {
    type V = FileVerdict;

    open spec fn view(&self) -> FileVerdict {
        match self {
            FileAnnotations::LineAnnotations(lines) => FileVerdict::Lines(lines@),
            FileAnnotations::MaybeTested => FileVerdict::MaybeTested,
            FileAnnotations::NotTested => FileVerdict::NotTested,
        }
    }
}

/// The file-level markers seen so far in a file.
#[derive(Clone, Copy, Debug, PartialEq, Eq, Structural)]
pub struct FileMarks {
    pub maybe_tested: bool,
    pub not_tested: bool,
    pub flaky_tested: bool,
}

impl FileMarks {
    /// No marker seen.
    pub open spec fn none() -> FileMarks {
        FileMarks { maybe_tested: false, not_tested: false, flaky_tested: false }
    }

    /// Whether any marker was seen.
    pub open spec fn any(self) -> bool {
        self.maybe_tested || self.not_tested || self.flaky_tested
    }

    /// The markers after a line with `mark`.
    pub open spec fn with(self, mark: LineMark) -> FileMarks {
        match mark {
            LineMark::FileMaybeTested => FileMarks { maybe_tested: true, ..self },
            LineMark::FileNotTested => FileMarks { not_tested: true, ..self },
            LineMark::FileFlakyTested => FileMarks { flaky_tested: true, ..self },
            _ => self,
        }
    }

    /// Whether the file counts as maybe tested as a whole.
    pub open spec fn collapses_to_maybe(self, policy: FlakyPolicy) -> bool {
        self.maybe_tested || (self.flaky_tested && policy == FlakyPolicy::MaybeTested)
    }

    /// Whether the file counts as not tested as a whole.
    pub open spec fn collapses_to_not(self, policy: FlakyPolicy) -> bool {
        !self.collapses_to_maybe(policy) && (self.not_tested || (self.flaky_tested && policy
            == FlakyPolicy::NotTested))
    }
}

/// What the scan needs to know of one line.
#[derive(Clone, Copy, Debug, PartialEq, Eq, Structural)]
pub struct LineFacts {
    /// The marker of the line, and whether it uses the obsolete vocabulary.
    pub reading: LineReading,
    /// Whether the line holds unreachable code.
    pub unreachable: bool,
    /// Whether the line is structural: one that coverage tools report
    /// unreliably, such as a closing brace.
    pub untrusted: bool,
}

/// The pattern of a structural line: after leading blanks, a closing brace
/// followed by closing parentheses and a semicolon, if any; or an `else`
/// with or without its braces; or an attribute; or the header of an `impl`;
/// then possibly a comment, up to the end of the line. A blank line and a
/// line that is only a comment match as well.
pub const UNTRUSTED_LINE: &'static str = r"(?x)
    ^
    \s*
    (?:
            \}
            \s*
            (?:
                \)\s*
            )*
            (?:
                ;\s*
            )?
        |
            (?:
                \}\s*
            )?
            else
            \s*
            (?:
                \{\s*
            )?
        |
            \#
            !?
            \[.*\]\s*
        |
            impl
            [\s<]
            .*
    )?
    (?:
        /[/*].*
    )?
    $
";

/// The token that marks a line of unreachable code.
pub const UNREACHABLE: &'static str = "unreachable!()";

/// What the scan needs to know of a line with the given text.
pub open spec fn facts_of(line: Seq<char>) -> LineFacts {
    LineFacts {
        reading: reading_of(line),
        unreachable: occurs_in(line, UNREACHABLE@),
        untrusted: pattern_matches(UNTRUSTED_LINE@, line) == Some(true),
    }
}

/// What the scan needs to know of each of `lines`.
pub open spec fn line_facts(lines: Seq<String>) -> Seq<LineFacts> {
    Seq::new(lines.len(), |i: int| facts_of(lines[i]@))
}

/// A scan in progress, as a value of the model.
pub struct Scan {
    pub region: LineAnnotation,
    pub marks: FileMarks,
    pub annotations: Seq<LineAnnotation>,
    pub diagnostics: Seq<Diagnostic>,
}

/// The result of a scan, as a value of the model.
pub struct ScanResult {
    pub verdict: FileVerdict,
    pub diagnostics: Seq<Diagnostic>,
}

/// The scan before the first line.
pub open spec fn scan_start() -> Scan {
    Scan {
        region: LineAnnotation::Tested(false),
        marks: FileMarks::none(),
        annotations: Seq::empty(),
        diagnostics: Seq::empty(),
    }
}

/// What the line itself does wrong: the obsolete vocabulary, then what the
/// state machine found, then a file-level marker that is not the first.
pub open spec fn line_diagnostics(scan: Scan, facts: LineFacts) -> Seq<Diagnostic> {
    let index = scan.annotations.len() as int;
    let mark = facts.reading.mark;
    noted(index, if facts.reading.obsolete { Some(Issue::ObsoleteDirective) } else { None })
        + noted(index, resolution(scan.region, mark, facts.unreachable).issue) + noted(
        index,
        if file_kind(mark) is Some && scan.marks.any() {
            Some(Issue::RepeatedFile)
        } else {
            None
        },
    )
}

/// The scan after one more line. A structural line is maybe tested whatever
/// the state machine resolved; the region goes on as the state machine says.
pub open spec fn scan_step(scan: Scan, facts: LineFacts) -> Scan {
    let resolved = resolution(scan.region, facts.reading.mark, facts.unreachable);
    Scan {
        region: resolved.region,
        marks: scan.marks.with(facts.reading.mark),
        annotations: scan.annotations.push(
            if facts.untrusted {
                LineAnnotation::MaybeTested(false)
            } else {
                resolved.annotation
            },
        ),
        diagnostics: scan.diagnostics + line_diagnostics(scan, facts),
    }
}

/// The scan after all of `facts`, in order.
pub open spec fn scan_of(facts: Seq<LineFacts>) -> Scan
    decreases facts.len(),
{
    if facts.len() == 0 {
        scan_start()
    } else {
        scan_step(scan_of(facts.drop_last()), facts.last())
    }
}

/// One diagnostic for every explicit line, in order of the lines.
pub open spec fn explicit_lines(annotations: Seq<LineAnnotation>) -> Seq<Diagnostic>
    decreases annotations.len(),
{
    if annotations.len() == 0 {
        Seq::empty()
    } else {
        explicit_lines(annotations.drop_last()) + noted(
            annotations.len() - 1,
            if annotations.last().explicit() {
                Some(Issue::LineInUntestedFile)
            } else {
                None
            },
        )
    }
}

/// The result of a finished scan. A file-level marker for maybe tested wins
/// over one for not tested; a flaky file follows the policy, and under the
/// policy `Tested` keeps its lines. A file with a verdict as a whole should
/// carry no explicit line: each one is reported.
pub open spec fn scan_result(policy: FlakyPolicy, scan: Scan) -> ScanResult {
    if scan.marks.collapses_to_maybe(policy) {
        ScanResult {
            verdict: FileVerdict::MaybeTested,
            diagnostics: scan.diagnostics + explicit_lines(scan.annotations),
        }
    } else if scan.marks.collapses_to_not(policy) {
        ScanResult {
            verdict: FileVerdict::NotTested,
            diagnostics: scan.diagnostics + explicit_lines(scan.annotations),
        }
    } else {
        ScanResult { verdict: FileVerdict::Lines(scan.annotations), diagnostics: scan.diagnostics }
    }
}

/// The result of scanning one file.
#[derive(Clone, Debug, PartialEq, Eq)]
pub struct FileScan {
    pub annotations: FileAnnotations,
    pub diagnostics: Vec<Diagnostic>,
}

impl View for FileScan {
    type V = ScanResult;

    open spec fn view(&self) -> ScanResult {
        ScanResult { verdict: self.annotations@, diagnostics: self.diagnostics@ }
    }
}

/// Reports every explicit line of a file that has a verdict as a whole.
pub fn verify_untested_file_annotations(line_annotations: &Vec<LineAnnotation>) -> (found: Vec<
    Diagnostic,
>)
    ensures
        found@ == explicit_lines(line_annotations@),
{
    let mut found: Vec<Diagnostic> = Vec::new();
    let mut index: usize = 0;
    while index < line_annotations.len()
        invariant
            index <= line_annotations.len(),
            found@ == explicit_lines(line_annotations@.take(index as int)),
        decreases line_annotations.len() - index,
    {
        let explicit = is_explicit(line_annotations[index]);
        proof {
            let next = line_annotations@.take(index + 1);
            assert(next.drop_last() == line_annotations@.take(index as int));
            assert(next.last() == line_annotations@[index as int]);
        }
        index += 1;
        if explicit {
            found.push(Diagnostic { line: Some(index), issue: Issue::LineInUntestedFile });
        }
    }
    assert(line_annotations@.take(index as int) == line_annotations@);
    found
}

/// The scanner of one file: lines go in one by one, the result comes out at
/// the end.
pub struct FileScanner {
    region: LineAnnotation,
    marks: FileMarks,
    annotations: Vec<LineAnnotation>,
    diagnostics: Vec<Diagnostic>,
}

impl View for FileScanner {
    type V = Scan;

    closed spec fn view(&self) -> Scan {
        Scan {
            region: self.region,
            marks: self.marks,
            annotations: self.annotations@,
            diagnostics: self.diagnostics@,
        }
    }
}

impl FileScanner {
    /// A scanner before the first line.
    pub fn new() -> (scanner: FileScanner)
        ensures
            scanner@ == scan_start(),
    {
        FileScanner {
            region: LineAnnotation::Tested(false),
            marks: FileMarks { maybe_tested: false, not_tested: false, flaky_tested: false },
            annotations: Vec::new(),
            diagnostics: Vec::new(),
        }
    }

    /// Takes the next line.
    pub fn push_line(&mut self, facts: LineFacts)
        ensures
            final(self)@ == scan_step(old(self)@, facts),
    {
        let mark = facts.reading.mark;
        let resolved = resolve_line(self.region, mark, facts.unreachable);
        let repeated = self.marks.maybe_tested || self.marks.not_tested
            || self.marks.flaky_tested;
        let ghost before = self@;
        self.annotations.push(
            if facts.untrusted {
                LineAnnotation::MaybeTested(false)
            } else {
                resolved.annotation
            },
        );
        let line = self.annotations.len();
        if facts.reading.obsolete {
            self.diagnostics.push(Diagnostic { line: Some(line), issue: Issue::ObsoleteDirective });
        }
        match resolved.issue {
            Some(issue) => {
                self.diagnostics.push(Diagnostic { line: Some(line), issue });
            },
            None => {},
        }
        let file_level = match mark {
            LineMark::FileMaybeTested => {
                self.marks.maybe_tested = true;
                true
            },
            LineMark::FileNotTested => {
                self.marks.not_tested = true;
                true
            },
            LineMark::FileFlakyTested => {
                self.marks.flaky_tested = true;
                true
            },
            _ => false,
        };
        if file_level && repeated {
            self.diagnostics.push(Diagnostic { line: Some(line), issue: Issue::RepeatedFile });
        }
        self.region = resolved.region;
        proof {
            assert(file_level == (file_kind(mark) is Some));
            assert(self.diagnostics@ =~= before.diagnostics + line_diagnostics(before, facts));
        }
    }

    /// Ends the scan.
    pub fn finish(self, flaky_policy: FlakyPolicy) -> (scan: FileScan)
        ensures
            scan@ == scan_result(flaky_policy, self@),
    {
        let maybe = self.marks.maybe_tested || (self.marks.flaky_tested && matches!(
            flaky_policy,
            FlakyPolicy::MaybeTested
        ));
        let not = self.marks.not_tested || (self.marks.flaky_tested && matches!(
            flaky_policy,
            FlakyPolicy::NotTested
        ));
        if maybe || not {
            let mut diagnostics = self.diagnostics;
            let mut explicit = verify_untested_file_annotations(&self.annotations);
            diagnostics.append(&mut explicit);
            FileScan {
                annotations: if maybe {
                    FileAnnotations::MaybeTested
                } else {
                    FileAnnotations::NotTested
                },
                diagnostics,
            }
        } else {
            FileScan {
                annotations: FileAnnotations::LineAnnotations(self.annotations),
                diagnostics: self.diagnostics,
            }
        }
    }
}

/// Why a file cannot be scanned.
#[derive(Clone, Copy, Debug, PartialEq, Eq, Structural)]
pub enum ScanError {
    /// The regular expression engine does not accept the pattern of
    /// structural lines.
    PatternRejected,
}

/// Whether `scan` is what scanning `lines` gives: the result of the scan of
/// the facts of the lines, or an error where the regular expression engine
/// does not accept the pattern of structural lines.
pub open spec fn is_scan_of(
    scan: Result<FileScan, ScanError>,
    policy: FlakyPolicy,
    lines: Seq<String>,
) -> bool {
    if pattern_compiles(UNTRUSTED_LINE@) {
        scan matches Ok(scan) && scan@ == scan_result(policy, scan_of(line_facts(lines)))
    } else {
        scan == Err::<FileScan, ScanError>(ScanError::PatternRejected)
    }
}

/// Scans the lines of one source file.
pub fn collect_file_annotations(flaky_policy: FlakyPolicy, lines: &Vec<String>) -> (scan: Result<
    FileScan,
    ScanError,
>)
    ensures
        is_scan_of(scan, flaky_policy, lines@),
{
    let untrusted = match compile(UNTRUSTED_LINE) {
        Ok(untrusted) => untrusted,
        Err(_) => {
            return Err(ScanError::PatternRejected);
        },
    };
    let mut scanner = FileScanner::new();
    let mut index: usize = 0;
    while index < lines.len()
        invariant
            index <= lines.len(),
            scanner@ == scan_of(line_facts(lines@).take(index as int)),
            forall|text: Seq<char>|
                pattern_matches(UNTRUSTED_LINE@, text) == Some(
                    #[trigger] crate::pattern::regex_matches(untrusted, text),
                ),
        decreases lines.len() - index,
    {
        let line = lines[index].as_str();
        let chars = chars_of(line);
        let facts = LineFacts {
            reading: read_mark(&chars),
            unreachable: contains(&chars, UNREACHABLE),
            untrusted: is_match(&untrusted, line),
        };
        proof {
            let next = line_facts(lines@).take(index + 1);
            assert(next.drop_last() == line_facts(lines@).take(index as int));
            assert(next.last() == facts);
        }
        scanner.push_line(facts);
        index += 1;
    }
    assert(line_facts(lines@).take(index as int) == line_facts(lines@));
    Ok(scanner.finish(flaky_policy))
}

} // verus!
