//! The cross-check: the annotations of each file against the lines that the
//! coverage map knows of it.

use crate::annotation::{Coverage, FlakyPolicy, LineAnnotation};
use crate::coverage::{hit_at, position_of, CoverageMap, FileCoverage, FileHits};
use crate::diagnostic::{noted, Diagnostic, Issue};
use crate::paths::{is_tracked, lies_in};
use crate::region::kind_of;
use crate::scan::{FileAnnotations, FileVerdict};
use crate::sources::{noted_at, FileNotes, SourceMap};
use crate::text::chars_of;
use vstd::prelude::*;

verus! {

/// The kind that a line counts as when it is held against its hits: a flaky
/// line counts as the policy says, any other as it is.
pub open spec fn effective(policy: FlakyPolicy, kind: Coverage) -> Coverage {
    match kind {
        Coverage::FlakyTested => match policy {
            FlakyPolicy::NotTested => Coverage::NotTested,
            FlakyPolicy::MaybeTested => Coverage::MaybeTested,
            FlakyPolicy::Tested => Coverage::Tested,
        },
        _ => kind,
    }
}

/// What is wrong with one line, given what the coverage map knows of it.
///
/// - A line that was not hit is wrong where it counts as tested.
/// - A line that was hit is wrong where it counts as not tested.
/// - A line without entry is not executable: it is wrong where it carries its
///   own marker for tested, not tested or maybe tested.
pub open spec fn line_issue(policy: FlakyPolicy, annotation: LineAnnotation, hit: Option<bool>)
    -> Option<Issue> {
    match hit {
        Some(false) => if effective(policy, annotation.kind()) == Coverage::Tested {
            Some(Issue::WrongTested)
        } else {
            None
        },
        Some(true) => if effective(policy, annotation.kind()) == Coverage::NotTested {
            Some(Issue::WrongNotTested)
        } else {
            None
        },
        None => if annotation.explicit() && annotation.kind() != Coverage::FlakyTested {
            Some(Issue::NonExecutable(annotation.kind()))
        } else {
            None
        },
    }
}

/// What is wrong with the lines of a file, in the order of the lines.
pub open spec fn lines_issues(
    policy: FlakyPolicy,
    annotations: Seq<LineAnnotation>,
    lines: Map<i32, bool>,
) -> Seq<Diagnostic>
    decreases annotations.len(),
{
    if annotations.len() == 0 {
        Seq::empty()
    } else {
        lines_issues(policy, annotations.drop_last(), lines) + noted(
            annotations.len() - 1,
            line_issue(policy, annotations.last(), hit_at(lines, annotations.len() as int)),
        )
    }
}

/// What is wrong with a file that the coverage map holds. A file that is
/// maybe tested as a whole is never wrong; one that is not tested as a whole
/// is wrong, since it was executed.
pub open spec fn file_issues(policy: FlakyPolicy, verdict: FileVerdict, lines: Map<i32, bool>)
    -> Seq<Diagnostic> {
    match verdict {
        FileVerdict::MaybeTested => Seq::empty(),
        FileVerdict::NotTested => seq![Diagnostic::whole_file(Issue::WrongFileNotTested)],
        FileVerdict::Lines(annotations) => lines_issues(policy, annotations, lines),
    }
}

/// What is wrong with a file that the coverage map does not hold: it was
/// never executed, so it should have a verdict as a whole.
pub open spec fn uncovered_issues(verdict: FileVerdict) -> Seq<Diagnostic> {
    match verdict {
        FileVerdict::Lines(_) => seq![Diagnostic::whole_file(Issue::MissingFileNotTested)],
        _ => Seq::empty(),
    }
}

/// Computes `effective`.
pub fn effective_kind(policy: FlakyPolicy, kind: Coverage) -> (counted: Coverage)
    ensures
        counted == effective(policy, kind),
{
    match kind {
        Coverage::FlakyTested => match policy {
            FlakyPolicy::NotTested => Coverage::NotTested,
            FlakyPolicy::MaybeTested => Coverage::MaybeTested,
            FlakyPolicy::Tested => Coverage::Tested,
        },
        _ => kind,
    }
}

/// Holds one line against what the coverage map knows of it.
pub fn check_line(policy: FlakyPolicy, annotation: LineAnnotation, hit: Option<bool>) -> (issue:
    Option<Issue>)
    ensures
        issue == line_issue(policy, annotation, hit),
{
    let kind = kind_of(annotation);
    match hit {
        Some(false) => match effective_kind(policy, kind) {
            Coverage::Tested => Some(Issue::WrongTested),
            _ => None,
        },
        Some(true) => match effective_kind(policy, kind) {
            Coverage::NotTested => Some(Issue::WrongNotTested),
            _ => None,
        },
        None => match annotation {
            LineAnnotation::Tested(true) | LineAnnotation::NotTested(true)
            | LineAnnotation::MaybeTested(true) => Some(Issue::NonExecutable(kind)),
            _ => None,
        },
    }
}

/// Holds the annotations of a file against its lines in the coverage map.
pub fn report_file_wrong_annotations(
    flaky_policy: FlakyPolicy,
    coverage_file_annotations: &FileCoverage,
    source_file_annotation: &FileAnnotations,
) -> (found: Vec<Diagnostic>)
    ensures
        found@ == file_issues(flaky_policy, source_file_annotation@, coverage_file_annotations@),
{
    let mut found: Vec<Diagnostic> = Vec::new();
    match source_file_annotation {
        FileAnnotations::MaybeTested => {},
        FileAnnotations::NotTested => {
            found.push(Diagnostic { line: None, issue: Issue::WrongFileNotTested });
            assert(found@ =~= seq![Diagnostic::whole_file(Issue::WrongFileNotTested)]);
        },
        FileAnnotations::LineAnnotations(annotations) => {
            let mut index: usize = 0;
            while index < annotations.len()
                invariant
                    index <= annotations.len(),
                    found@ == lines_issues(
                        flaky_policy,
                        annotations@.take(index as int),
                        coverage_file_annotations@,
                    ),
                decreases annotations.len() - index,
            {
                let annotation = annotations[index];
                proof {
                    let next = annotations@.take(index + 1);
                    assert(next.drop_last() == annotations@.take(index as int));
                    assert(next.last() == annotation);
                }
                index += 1;
                match check_line(flaky_policy, annotation, coverage_file_annotations.hit(index)) {
                    Some(issue) => {
                        found.push(Diagnostic { line: Some(index), issue });
                    },
                    None => {},
                }
            }
            assert(annotations@.take(index as int) == annotations@);
        },
    }
    found
}

/// Reports a file that the coverage map does not hold.
pub fn report_uncovered_file_annotations(source_file_annotations: &FileAnnotations) -> (found: Vec<
    Diagnostic,
>)
    ensures
        found@ == uncovered_issues(source_file_annotations@),
{
    let mut found: Vec<Diagnostic> = Vec::new();
    match source_file_annotations {
        FileAnnotations::LineAnnotations(_) => {
            found.push(Diagnostic { line: None, issue: Issue::MissingFileNotTested });
            assert(found@ =~= seq![Diagnostic::whole_file(Issue::MissingFileNotTested)]);
        },
        _ => {},
    }
    found
}

/// A diagnostic on a file, as a value of the model.
pub struct FindingText {
    pub path: Seq<char>,
    pub diagnostic: Diagnostic,
}

/// A diagnostic on a file.
#[derive(Clone, Debug, PartialEq, Eq)]
pub struct Finding {
    pub path: String,
    pub diagnostic: Diagnostic,
}

impl View for Finding {
    type V = FindingText;

    open spec fn view(&self) -> FindingText {
        FindingText { path: self.path@, diagnostic: self.diagnostic }
    }
}

/// The findings, as values of the model.
pub open spec fn finding_texts(findings: Seq<Finding>) -> Seq<FindingText> {
    Seq::new(findings.len(), |i: int| findings[i]@)
}

/// The diagnostics of one file, each under the path of the file.
pub open spec fn tagged(path: Seq<char>, diagnostics: Seq<Diagnostic>) -> Seq<FindingText> {
    Seq::new(diagnostics.len(), |i: int| FindingText { path, diagnostic: diagnostics[i] })
}

/// Whether the file at `index` of the coverage map is tracked and was not
/// scanned.
pub open spec fn is_unscanned(
    coverage: Seq<FileHits>,
    sources: Seq<FileNotes>,
    src: Seq<char>,
    tests: Seq<char>,
    index: int,
) -> bool {
    &&& 0 <= index < coverage.len()
    &&& is_tracked(coverage[index].path, src, tests)
    &&& noted_at(sources, coverage[index].path) is None
}

/// Whether the file at `index` is the first of the coverage map that is
/// tracked and was not scanned.
pub open spec fn is_first_unscanned(
    coverage: Seq<FileHits>,
    sources: Seq<FileNotes>,
    src: Seq<char>,
    tests: Seq<char>,
    index: int,
) -> bool {
    &&& is_unscanned(coverage, sources, src, tests, index)
    &&& forall|i: int| 0 <= i < index ==> !is_unscanned(coverage, sources, src, tests, i)
}

/// The first file of the coverage map that is tracked and was not scanned.
pub open spec fn first_unscanned(
    coverage: Seq<FileHits>,
    sources: Seq<FileNotes>,
    src: Seq<char>,
    tests: Seq<char>,
) -> Option<int> {
    if exists|index: int| is_first_unscanned(coverage, sources, src, tests, index) {
        Some(choose|index: int| is_first_unscanned(coverage, sources, src, tests, index))
    } else {
        None
    }
}

/// The findings on one file of the coverage map: those of a tracked file
/// that was scanned.
pub open spec fn covered_file_findings(
    policy: FlakyPolicy,
    file: FileHits,
    sources: Seq<FileNotes>,
    src: Seq<char>,
    tests: Seq<char>,
) -> Seq<FindingText> {
    match noted_at(sources, file.path) {
        Some(index) => if is_tracked(file.path, src, tests) {
            tagged(file.path, file_issues(policy, sources[index].verdict, file.lines))
        } else {
            Seq::empty()
        },
        None => Seq::empty(),
    }
}

/// The findings on the files of the coverage map, in the order of the map.
pub open spec fn covered_findings(
    policy: FlakyPolicy,
    coverage: Seq<FileHits>,
    sources: Seq<FileNotes>,
    src: Seq<char>,
    tests: Seq<char>,
) -> Seq<FindingText>
    decreases coverage.len(),
{
    if coverage.len() == 0 {
        Seq::empty()
    } else {
        covered_findings(policy, coverage.drop_last(), sources, src, tests)
            + covered_file_findings(policy, coverage.last(), sources, src, tests)
    }
}

/// The findings on one scanned file: those of a tracked file that the
/// coverage map does not hold.
pub open spec fn uncovered_file_findings(
    file: FileNotes,
    coverage: Seq<FileHits>,
    src: Seq<char>,
    tests: Seq<char>,
) -> Seq<FindingText> {
    if is_tracked(file.path, src, tests) && position_of(coverage, file.path) is None {
        tagged(file.path, uncovered_issues(file.verdict))
    } else {
        Seq::empty()
    }
}

/// The findings on the scanned files, in the order in which they were
/// scanned.
pub open spec fn uncovered_findings(
    sources: Seq<FileNotes>,
    coverage: Seq<FileHits>,
    src: Seq<char>,
    tests: Seq<char>,
) -> Seq<FindingText>
    decreases sources.len(),
{
    if sources.len() == 0 {
        Seq::empty()
    } else {
        uncovered_findings(sources.drop_last(), coverage, src, tests) + uncovered_file_findings(
            sources.last(),
            coverage,
            src,
            tests,
        )
    }
}

/// All findings: first on the files that were executed, then on those that
/// were not.
pub open spec fn all_findings(
    policy: FlakyPolicy,
    coverage: Seq<FileHits>,
    sources: Seq<FileNotes>,
    src: Seq<char>,
    tests: Seq<char>,
) -> Seq<FindingText> {
    covered_findings(policy, coverage, sources, src, tests) + uncovered_findings(
        sources,
        coverage,
        src,
        tests,
    )
}

/// The exit status for the given findings: 1 where there is one, else 0.
pub open spec fn status_of(findings: Seq<FindingText>) -> i32 {
    if findings.len() > 0 {
        1i32
    } else {
        0i32
    }
}

/// The outcome of the cross-check.
#[derive(Clone, Debug, PartialEq, Eq)]
pub struct Report {
    pub findings: Vec<Finding>,
    pub exit_status: i32,
}

/// A tracked file of the coverage map that was not scanned: the cross-check
/// has nothing to hold its lines against.
#[derive(Clone, Copy, Debug, PartialEq, Eq, Structural)]
pub struct Unscanned {
    /// The position of the file in the coverage map.
    pub file: usize,
}

/// Whether `outcome` is what the cross-check gives: the first tracked file
/// of the coverage map that was not scanned, or else all findings with
/// their exit status.
pub open spec fn is_check_of(
    outcome: Result<Report, Unscanned>,
    policy: FlakyPolicy,
    coverage: Seq<FileHits>,
    sources: Seq<FileNotes>,
    src: Seq<char>,
    tests: Seq<char>,
) -> bool {
    match first_unscanned(coverage, sources, src, tests) {
        Some(index) => outcome == Err::<Report, Unscanned>(Unscanned { file: index as usize }),
        None => outcome matches Ok(report) && finding_texts(report.findings@) == all_findings(
            policy,
            coverage,
            sources,
            src,
            tests,
        ) && report.exit_status == status_of(finding_texts(report.findings@)),
    }
}

/// Puts the diagnostics of one file under its path.
fn tag(path: &String, diagnostics: &Vec<Diagnostic>, findings: &mut Vec<Finding>)
    ensures
        finding_texts(final(findings)@) == finding_texts(old(findings)@) + tagged(
            path@,
            diagnostics@,
        ),
{
    let ghost before = finding_texts(findings@);
    let mut index: usize = 0;
    assert(finding_texts(findings@) =~= before + tagged(path@, diagnostics@.take(0)));
    while index < diagnostics.len()
        invariant
            index <= diagnostics.len(),
            finding_texts(findings@) == before + tagged(path@, diagnostics@.take(index as int)),
        decreases diagnostics.len() - index,
    {
        let ghost so_far = finding_texts(findings@);
        findings.push(Finding { path: path.clone(), diagnostic: diagnostics[index] });
        index += 1;
        assert(finding_texts(findings@) =~= before + tagged(
            path@,
            diagnostics@.take(index as int),
        )) by {
            assert(finding_texts(findings@) =~= so_far.push(
                FindingText { path: path@, diagnostic: diagnostics@[index - 1] },
            ));
        }
    }
    assert(diagnostics@.take(index as int) == diagnostics@);
}

/// Tests whether a file lies under one of the two tracked directories.
pub fn lies_under(path: &str, src: &str, tests: &str) -> (under: bool)
    ensures
        under == is_tracked(path@, src@, tests@),
{
    let chars = chars_of(path);
    lies_in(&chars, src) || lies_in(&chars, tests)
}

/// Cross-checks the scanned files against the coverage map. `src` and
/// `tests` are the paths of the two tracked directories; files elsewhere are
/// passed over.
///
/// Fails on the first tracked file of the coverage map that was not scanned.
pub fn report_wrong_annotations(
    flaky_policy: FlakyPolicy,
    coverage_annotations: &CoverageMap,
    source_annotations: &SourceMap,
    src: &str,
    tests: &str,
) -> (outcome: Result<Report, Unscanned>)
    ensures
        is_check_of(
            outcome,
            flaky_policy,
            coverage_annotations@,
            source_annotations@,
            src@,
            tests@,
        ),
{
    let ghost coverage = coverage_annotations@;
    let ghost sources = source_annotations@;
    let mut findings: Vec<Finding> = Vec::new();
    let mut index: usize = 0;
    assert(finding_texts(findings@) =~= Seq::<FindingText>::empty());
    while index < coverage_annotations.len()
        invariant
            index <= coverage.len(),
            coverage == coverage_annotations@,
            sources == source_annotations@,
            forall|i: int| 0 <= i < index ==> !is_unscanned(coverage, sources, src@, tests@, i),
            finding_texts(findings@) == covered_findings(
                flaky_policy,
                coverage.take(index as int),
                sources,
                src@,
                tests@,
            ),
        decreases coverage.len() - index,
    {
        let file = coverage_annotations.file(index);
        proof {
            assert(coverage.take(index + 1).drop_last() == coverage.take(index as int));
            assert(coverage.take(index + 1).last() == coverage[index as int]);
        }
        let scanned = source_annotations.get(file.path.as_str());
        if lies_under(file.path.as_str(), src, tests) {
            match scanned {
                Some(annotations) => {
                    let found = report_file_wrong_annotations(
                        flaky_policy,
                        &file.lines,
                        annotations,
                    );
                    tag(&file.path, &found, &mut findings);
                },
                None => {
                    proof {
                        assert(is_first_unscanned(coverage, sources, src@, tests@, index as int));
                        let first = first_unscanned(coverage, sources, src@, tests@)->0;
                        assert(is_first_unscanned(coverage, sources, src@, tests@, first));
                        if first < index {
                        } else if index < first {
                        }
                    }
                    return Err(Unscanned { file: index });
                },
            }
        }
        index += 1;
    }
    proof {
        assert(coverage.take(index as int) == coverage);
        assert(first_unscanned(coverage, sources, src@, tests@) is None);
    }
    let ghost covered = finding_texts(findings@);
    index = 0;
    while index < source_annotations.len()
        invariant
            index <= sources.len(),
            coverage == coverage_annotations@,
            sources == source_annotations@,
            finding_texts(findings@) == covered + uncovered_findings(
                sources.take(index as int),
                coverage,
                src@,
                tests@,
            ),
        decreases sources.len() - index,
    {
        let file = source_annotations.file(index);
        proof {
            assert(sources.take(index + 1).drop_last() == sources.take(index as int));
            assert(sources.take(index + 1).last() == sources[index as int]);
        }
        if lies_under(file.path.as_str(), src, tests) && coverage_annotations.position(
            file.path.as_str(),
        ).is_none() {
            let found = report_uncovered_file_annotations(&file.annotations);
            tag(&file.path, &found, &mut findings);
        }
        index += 1;
    }
    proof {
        assert(sources.take(index as int) == sources);
    }
    let exit_status: i32 = if findings.len() > 0 {
        1
    } else {
        0
    };
    Ok(Report { findings, exit_status })
}

} // verus!
