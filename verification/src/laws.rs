//! What holds of the scan and of the cross-check on every input.

use crate::annotation::{Coverage, FlakyPolicy, LineAnnotation, LineMark};
use crate::check::{
    all_findings, covered_file_findings, covered_findings, file_issues, finding_texts,
    is_check_of, line_issue, lines_issues, tagged, uncovered_file_findings, uncovered_findings,
    uncovered_issues, FindingText, Report, Unscanned,
};
use crate::coverage::{
    distinct_paths, file_paths, hit_at, known, position_of, recorded, FileHits,
};
use crate::diagnostic::{noted, Diagnostic, Issue};
use crate::mark::LineReading;
use crate::paths::{is_first_at, is_tracked, lemma_first_index};
use crate::region::{begin_kind, resolution};
use crate::scan::{
    explicit_lines, is_scan_of, line_diagnostics, scan_of, scan_result, scan_start, scan_step,
    FileMarks, FileScan, FileVerdict, LineFacts, Scan, ScanError,
};
use crate::sources::{noted_at, noted_paths, FileNotes};
use vstd::prelude::*;

verus! {

/// The diagnostics on the line with the 1-based number `line`.
pub open spec fn on_line(diagnostics: Seq<Diagnostic>, line: usize) -> Seq<Diagnostic> {
    diagnostics.filter(|d: Diagnostic| d.line == Some(line))
}

/// The facts of a line without marker, in the current vocabulary.
pub open spec fn is_plain(facts: LineFacts) -> bool {
    facts.reading == (LineReading { mark: LineMark::Unmarked, obsolete: false })
}

/// The annotation that a line gets in a region.
pub open spec fn annotation_in(region: LineAnnotation, facts: LineFacts) -> LineAnnotation {
    if facts.untrusted {
        LineAnnotation::MaybeTested(false)
    } else {
        resolution(region, facts.reading.mark, facts.unreachable).annotation
    }
}

/// A scan holds one annotation for each line.
pub proof fn lemma_scan_len(facts: Seq<LineFacts>)
    ensures
        scan_of(facts).annotations.len() == facts.len(),
    decreases facts.len(),
{
    if facts.len() > 0 {
        lemma_scan_len(facts.drop_last());
    }
}

/// The annotation of a line depends on the lines before it only through the
/// region that they leave open.
pub proof fn lemma_scan_line(facts: Seq<LineFacts>, index: int)
    requires
        0 <= index < facts.len(),
    ensures
        scan_of(facts).annotations.len() == facts.len(),
        scan_of(facts).annotations[index] == annotation_in(
            scan_of(facts.take(index)).region,
            facts[index],
        ),
    decreases facts.len(),
{
    lemma_scan_len(facts);
    lemma_scan_len(facts.drop_last());
    if index == facts.len() - 1 {
        assert(facts.take(index) == facts.drop_last());
    } else {
        lemma_scan_line(facts.drop_last(), index);
        assert(facts.drop_last().take(index) == facts.take(index));
    }
}

/// No diagnostic on the lines of a file is on a line after its last.
pub proof fn lemma_no_issue_past_the_end(
    policy: FlakyPolicy,
    annotations: Seq<LineAnnotation>,
    lines: Map<i32, bool>,
    line: usize,
)
    requires
        annotations.len() < line,
    ensures
        on_line(lines_issues(policy, annotations, lines), line) == Seq::<Diagnostic>::empty(),
    decreases annotations.len(),
{
    reveal(Seq::filter);
    if annotations.len() > 0 {
        let rest = lines_issues(policy, annotations.drop_last(), lines);
        let last = noted(
            annotations.len() - 1,
            line_issue(policy, annotations.last(), hit_at(lines, annotations.len() as int)),
        );
        lemma_no_issue_past_the_end(policy, annotations.drop_last(), lines, line);
        Seq::filter_distributes_over_add(rest, last, |d: Diagnostic| d.line == Some(line));
        lemma_on_line_of_one(
            annotations.len() - 1,
            line_issue(policy, annotations.last(), hit_at(lines, annotations.len() as int)),
            line,
        );
    }
}

/// The diagnostics of one line are on that line and on no other.
pub proof fn lemma_on_line_of_one(index: int, issue: Option<Issue>, line: usize)
    requires
        0 <= index < usize::MAX,
    ensures
        on_line(noted(index, issue), line) == if line == index + 1 {
            noted(index, issue)
        } else {
            Seq::<Diagnostic>::empty()
        },
{
    reveal_with_fuel(Seq::filter, 2);
    let one = noted(index, issue);
    if one.len() > 0 {
        assert(one.drop_last() =~= Seq::<Diagnostic>::empty());
        assert(one =~= Seq::<Diagnostic>::empty().push(one.last()));
    }
    assert(on_line(one, line) =~= if line == index + 1 {
        one
    } else {
        Seq::<Diagnostic>::empty()
    });
}

/// Each line of a file is held against its own entry of the coverage map,
/// and what is found is reported on that line, once.
pub proof fn lemma_issues_on_line(
    policy: FlakyPolicy,
    annotations: Seq<LineAnnotation>,
    lines: Map<i32, bool>,
    index: int,
)
    requires
        0 <= index < annotations.len() <= usize::MAX,
    ensures
        on_line(lines_issues(policy, annotations, lines), (index + 1) as usize) == noted(
            index,
            line_issue(policy, annotations[index], hit_at(lines, index + 1)),
        ),
    decreases annotations.len(),
{
    let line = (index + 1) as usize;
    let count = annotations.len() as int;
    let head = annotations.drop_last();
    let rest = lines_issues(policy, head, lines);
    let last_issue = line_issue(policy, annotations.last(), hit_at(lines, count));
    let last = noted(count - 1, last_issue);
    let found = noted(index, line_issue(policy, annotations[index], hit_at(lines, index + 1)));
    assert(lines_issues(policy, annotations, lines) == rest + last);
    assert(on_line(rest + last, line) == on_line(rest, line) + on_line(last, line)) by {
        Seq::filter_distributes_over_add(rest, last, |d: Diagnostic| d.line == Some(line));
    }
    lemma_on_line_of_one(count - 1, last_issue, line);
    if index == count - 1 {
        lemma_no_issue_past_the_end(policy, head, lines, line);
        assert(on_line(last, line) == found);
        assert(Seq::<Diagnostic>::empty() + found =~= found);
    } else {
        lemma_issues_on_line(policy, head, lines, index);
        assert(head[index] == annotations[index]);
        assert(on_line(rest, line) == found);
        assert(on_line(last, line) == Seq::<Diagnostic>::empty());
        assert(found + Seq::<Diagnostic>::empty() =~= found);
    }
}

/// Between lines the region is never explicit: what a line inherits from
/// its region is not a marker of its own.
pub proof fn lemma_region_is_never_explicit(facts: Seq<LineFacts>)
    ensures
        !scan_of(facts).region.explicit(),
    decreases facts.len(),
{
    if facts.len() > 0 {
        lemma_region_is_never_explicit(facts.drop_last());
    }
}

/// A line that is known as hit stays hit, whatever is reported later.
pub proof fn lemma_hit_is_never_lost(lines: Map<i32, bool>, number: i32, hits: i32, line: i32)
    requires
        known(lines, line) == Some(true),
    ensures
        known(recorded(lines, number, hits), line) == Some(true),
{
}

/// What is known of the lines of a file does not depend on the order in
/// which two reports are taken in.
pub proof fn lemma_reports_commute(
    lines: Map<i32, bool>,
    first: (i32, i32),
    second: (i32, i32),
)
    ensures
        recorded(recorded(lines, first.0, first.1), second.0, second.1) == recorded(
            recorded(lines, second.0, second.1),
            first.0,
            first.1,
        ),
{
    assert(recorded(recorded(lines, first.0, first.1), second.0, second.1) =~= recorded(
        recorded(lines, second.0, second.1),
        first.0,
        first.1,
    ));
}

/// Scanning the same lines again gives the same verdict and the same
/// diagnostics.
pub proof fn lemma_scan_repeats(
    policy: FlakyPolicy,
    lines: Seq<String>,
    first: Result<FileScan, ScanError>,
    second: Result<FileScan, ScanError>,
)
    requires
        is_scan_of(first, policy, lines),
        is_scan_of(second, policy, lines),
    ensures
        match first {
            Ok(first) => second matches Ok(second) && first@ == second@,
            Err(error) => second == Err::<FileScan, ScanError>(error),
        },
{
}

/// Cross-checking the same files against the same coverage map again gives
/// the same findings and the same exit status, or fails on the same file.
pub proof fn lemma_check_repeats(
    policy: FlakyPolicy,
    coverage: Seq<FileHits>,
    sources: Seq<FileNotes>,
    src: Seq<char>,
    tests: Seq<char>,
    first: Result<Report, Unscanned>,
    second: Result<Report, Unscanned>,
)
    requires
        is_check_of(first, policy, coverage, sources, src, tests),
        is_check_of(second, policy, coverage, sources, src, tests),
    ensures
        match first {
            Ok(first) => second matches Ok(second) && finding_texts(first.findings@)
                == finding_texts(second.findings@) && first.exit_status == second.exit_status,
            Err(unscanned) => second == Err::<Report, Unscanned>(unscanned),
        },
{
}

/// Lines of which none is wrong give no diagnostic.
pub proof fn lemma_no_issue(
    policy: FlakyPolicy,
    annotations: Seq<LineAnnotation>,
    lines: Map<i32, bool>,
)
    requires
        forall|i: int|
            0 <= i < annotations.len() ==> line_issue(
                policy,
                #[trigger] annotations[i],
                hit_at(lines, i + 1),
            ) is None,
    ensures
        lines_issues(policy, annotations, lines) == Seq::<Diagnostic>::empty(),
    decreases annotations.len(),
{
    if annotations.len() > 0 {
        assert(line_issue(
            policy,
            annotations[annotations.len() - 1],
            hit_at(lines, annotations.len() as int),
        ) is None);
        lemma_no_issue(policy, annotations.drop_last(), lines);
    }
}

/// A file without any marker is scanned without diagnostic: outside any
/// region from beginning to end, with no file-level marker.
pub proof fn lemma_plain_scan(facts: Seq<LineFacts>)
    requires
        forall|i: int| 0 <= i < facts.len() ==> is_plain(#[trigger] facts[i]),
    ensures
        scan_of(facts).region == LineAnnotation::Tested(false),
        scan_of(facts).marks == FileMarks::none(),
        scan_of(facts).diagnostics == Seq::<Diagnostic>::empty(),
    decreases facts.len(),
{
    if facts.len() > 0 {
        assert(is_plain(facts[facts.len() - 1]));
        lemma_plain_scan(facts.drop_last());
    }
}

/// A file without any marker, of which every line was hit, is consistent:
/// neither the scan nor the cross-check reports anything.
///
/// This holds of files without a line of unreachable code, or where each
/// such line is structural: a line of unreachable code counts as not tested,
/// and is wrong when it is hit.
pub proof fn lemma_unmarked_and_hit_is_consistent(
    policy: FlakyPolicy,
    facts: Seq<LineFacts>,
    lines: Map<i32, bool>,
)
    requires
        forall|i: int| 0 <= i < facts.len() ==> is_plain(#[trigger] facts[i]),
        forall|i: int| 0 <= i < facts.len() && (#[trigger] facts[i]).unreachable ==> facts[i].untrusted,
        forall|i: int| 0 <= i < facts.len() ==> #[trigger] hit_at(lines, i + 1) == Some(true),
    ensures
        scan_result(policy, scan_of(facts)).diagnostics == Seq::<Diagnostic>::empty(),
        scan_result(policy, scan_of(facts)).verdict == FileVerdict::Lines(
            scan_of(facts).annotations,
        ),
        file_issues(policy, scan_result(policy, scan_of(facts)).verdict, lines) == Seq::<
            Diagnostic,
        >::empty(),
{
    lemma_plain_scan(facts);
    lemma_scan_len(facts);
    let annotations = scan_of(facts).annotations;
    assert forall|i: int| 0 <= i < annotations.len() implies line_issue(
        policy,
        #[trigger] annotations[i],
        hit_at(lines, i + 1),
    ) is None by {
        lemma_scan_line(facts, i);
        lemma_plain_scan(facts.take(i));
        assert(is_plain(facts[i]));
        assert(hit_at(lines, i + 1) == Some(true));
    }
    lemma_no_issue(policy, annotations, lines);
}

/// A structural line is never wrong, whatever its marker, its region and
/// its hits.
pub proof fn lemma_structural_line_is_exempt(
    policy: FlakyPolicy,
    region: LineAnnotation,
    facts: LineFacts,
    hit: Option<bool>,
)
    requires
        facts.untrusted,
    ensures
        line_issue(policy, annotation_in(region, facts), hit) is None,
{
}

/// A line with its own marker for not tested that was hit gets exactly one
/// diagnostic: that it is wrongly annotated as not tested.
///
/// This holds of lines that are not structural, in a file that keeps its
/// lines: a structural line is maybe tested whatever its marker, and a file
/// with a verdict as a whole is not checked line by line.
pub proof fn lemma_not_tested_line_that_was_hit(
    policy: FlakyPolicy,
    facts: Seq<LineFacts>,
    lines: Map<i32, bool>,
    index: int,
)
    requires
        0 <= index < facts.len() <= usize::MAX,
        facts[index].reading.mark == LineMark::LineNotTested,
        !facts[index].untrusted,
        hit_at(lines, index + 1) == Some(true),
        scan_result(policy, scan_of(facts)).verdict is Lines,
    ensures
        on_line(
            file_issues(policy, scan_result(policy, scan_of(facts)).verdict, lines),
            (index + 1) as usize,
        ) == seq![Diagnostic::at(index, Issue::WrongNotTested)],
{
    let annotations = scan_of(facts).annotations;
    assert(annotations.len() == facts.len() && annotations[index] == LineAnnotation::NotTested(
        true,
    )) by {
        lemma_scan_line(facts, index);
    }
    lemma_issues_on_line(policy, annotations, lines, index);
    assert(scan_result(policy, scan_of(facts)).verdict == FileVerdict::Lines(annotations));
}

/// After the marker that opens a region of `kind`, and as long as no line
/// carries a marker, the region stays open and every line that is not
/// structural has that kind, or is not tested where it holds unreachable
/// code.
pub proof fn lemma_region_lines(facts: Seq<LineFacts>, kind: Coverage, begin: int, line: int)
    requires
        0 <= begin <= line < facts.len(),
        scan_of(facts.take(begin)).region.kind() == Coverage::Tested,
        begin_kind(facts[begin].reading.mark) == Some(kind),
        forall|i: int| begin < i <= line ==> (#[trigger] facts[i]).reading.mark == LineMark::Unmarked,
    ensures
        scan_of(facts.take(line + 1)).region == LineAnnotation::of(kind, false),
        !facts[line].untrusted ==> scan_of(facts).annotations[line] == if begin < line
            && facts[line].unreachable {
            LineAnnotation::NotTested(false)
        } else {
            LineAnnotation::of(kind, false)
        },
    decreases line - begin,
{
    lemma_scan_line(facts, line);
    assert(facts.take(line + 1).drop_last() == facts.take(line));
    assert(facts.take(line + 1).last() == facts[line]);
    if begin < line {
        lemma_region_lines(facts, kind, begin, line - 1);
    }
}

/// In a region that is not tested, opened outside any region and without a
/// marker on its lines, every line that was hit gets exactly one diagnostic:
/// that it is wrongly annotated as not tested.
///
/// This holds of lines that are not structural, in a file that keeps its
/// lines.
pub proof fn lemma_not_tested_region_lines_are_reported(
    policy: FlakyPolicy,
    facts: Seq<LineFacts>,
    lines: Map<i32, bool>,
    begin: int,
    line: int,
)
    requires
        0 <= begin <= line < facts.len() <= usize::MAX,
        scan_of(facts.take(begin)).region.kind() == Coverage::Tested,
        facts[begin].reading.mark == LineMark::BeginNotTested,
        forall|i: int| begin < i <= line ==> (#[trigger] facts[i]).reading.mark == LineMark::Unmarked,
        !facts[line].untrusted,
        hit_at(lines, line + 1) == Some(true),
        scan_result(policy, scan_of(facts)).verdict is Lines,
    ensures
        on_line(
            file_issues(policy, scan_result(policy, scan_of(facts)).verdict, lines),
            (line + 1) as usize,
        ) == seq![Diagnostic::at(line, Issue::WrongNotTested)],
{
    let annotations = scan_of(facts).annotations;
    assert(annotations[line] == LineAnnotation::NotTested(false)) by {
        lemma_region_lines(facts, Coverage::NotTested, begin, line);
    }
    assert(annotations.len() == facts.len()) by {
        lemma_scan_len(facts);
    }
    lemma_issues_on_line(policy, annotations, lines, line);
    assert(scan_result(policy, scan_of(facts)).verdict == FileVerdict::Lines(annotations));
}

/// A marker that opens a region inside a region gets exactly one
/// diagnostic, that it is ignored, and the region stays as it is.
pub proof fn lemma_nested_begin_is_ignored(scan: Scan, facts: LineFacts, kind: Coverage)
    requires
        scan.region.kind() != Coverage::Tested,
        begin_kind(facts.reading.mark) == Some(kind),
        !facts.reading.obsolete,
    ensures
        scan_step(scan, facts).region == scan.region,
        scan_step(scan, facts).diagnostics == scan.diagnostics.push(
            Diagnostic::at(scan.annotations.len() as int, Issue::NestedBegin(kind)),
        ),
        !facts.untrusted ==> scan_step(scan, facts).annotations.last() == scan.region,
{
    assert(line_diagnostics(scan, facts) =~= seq![
        Diagnostic::at(scan.annotations.len() as int, Issue::NestedBegin(kind)),
    ]);
}

/// The findings on the file at `path`.
pub open spec fn on_file(findings: Seq<FindingText>, path: Seq<char>) -> Seq<FindingText> {
    findings.filter(|f: FindingText| f.path == path)
}

/// What the cross-check finds on one file: nothing on a file that is not
/// tracked or was not scanned; on a file that the coverage map holds, what
/// is wrong between its annotations and its lines; on one that it does not
/// hold, that the file has no verdict as a whole.
pub open spec fn file_findings(
    policy: FlakyPolicy,
    path: Seq<char>,
    coverage: Seq<FileHits>,
    sources: Seq<FileNotes>,
    src: Seq<char>,
    tests: Seq<char>,
) -> Seq<FindingText> {
    match noted_at(sources, path) {
        Some(scanned) => if is_tracked(path, src, tests) {
            match position_of(coverage, path) {
                Some(covered) => tagged(
                    path,
                    file_issues(policy, sources[scanned].verdict, coverage[covered].lines),
                ),
                None => tagged(path, uncovered_issues(sources[scanned].verdict)),
            }
        } else {
            Seq::empty()
        },
        None => Seq::empty(),
    }
}

/// The diagnostics of one file are on that file and on no other.
pub proof fn lemma_on_file_of_one(owner: Seq<char>, diagnostics: Seq<Diagnostic>, path: Seq<char>)
    ensures
        on_file(tagged(owner, diagnostics), path) == if owner == path {
            tagged(owner, diagnostics)
        } else {
            Seq::<FindingText>::empty()
        },
    decreases diagnostics.len(),
{
    reveal(Seq::filter);
    let all = tagged(owner, diagnostics);
    if diagnostics.len() > 0 {
        assert(all.drop_last() =~= tagged(owner, diagnostics.drop_last()));
        lemma_on_file_of_one(owner, diagnostics.drop_last(), path);
        if owner == path {
            assert(all.drop_last().push(all.last()) =~= all);
        }
    } else {
        assert(all =~= Seq::<FindingText>::empty());
    }
}

/// Among the findings on the files of the coverage map, those on one file
/// are what is wrong between its annotations and its lines.
pub proof fn lemma_covered_findings_on_file(
    policy: FlakyPolicy,
    path: Seq<char>,
    coverage: Seq<FileHits>,
    sources: Seq<FileNotes>,
    src: Seq<char>,
    tests: Seq<char>,
)
    requires
        distinct_paths(coverage),
    ensures
        on_file(covered_findings(policy, coverage, sources, src, tests), path) == match position_of(
            coverage,
            path,
        ) {
            Some(covered) => covered_file_findings(policy, coverage[covered], sources, src, tests),
            None => Seq::<FindingText>::empty(),
        },
    decreases coverage.len(),
{
    reveal(Seq::filter);
    if coverage.len() > 0 {
        let rest = coverage.drop_last();
        let last = coverage.last();
        let paths = file_paths(coverage);
        assert(file_paths(rest) =~= paths.drop_last());
        assert(distinct_paths(rest));
        lemma_covered_findings_on_file(policy, path, rest, sources, src, tests);
        Seq::filter_distributes_over_add(
            covered_findings(policy, rest, sources, src, tests),
            covered_file_findings(policy, last, sources, src, tests),
            |f: FindingText| f.path == path,
        );
        match noted_at(sources, last.path) {
            Some(scanned) => {
                lemma_on_file_of_one(
                    last.path,
                    file_issues(policy, sources[scanned].verdict, last.lines),
                    path,
                );
            },
            None => {},
        }
        assert(paths[coverage.len() - 1] == last.path);
        if last.path == path {
            assert forall|i: int| 0 <= i < rest.len() implies #[trigger] file_paths(rest)[i]
                != path by {
                assert(paths[i] == file_paths(rest)[i]);
            }
            lemma_first_index(file_paths(rest), path, 0);
            assert(is_first_at(paths, path, coverage.len() - 1));
            lemma_first_index(paths, path, coverage.len() - 1);
        } else {
            lemma_first_index(file_paths(rest), path, 0);
            lemma_first_index(paths, path, 0);
            match position_of(rest, path) {
                Some(covered) => {
                    assert(is_first_at(paths, path, covered));
                    lemma_first_index(paths, path, covered);
                },
                None => {
                    assert forall|i: int| 0 <= i < paths.len() implies #[trigger] paths[i]
                        != path by {
                        if i < rest.len() {
                            assert(paths[i] == file_paths(rest)[i]);
                        }
                    }
                },
            }
        }
    } else {
        lemma_first_index(file_paths(coverage), path, 0);
    }
}

/// Among the findings on the scanned files, those on one file are that it
/// was never executed and has no verdict as a whole.
pub proof fn lemma_uncovered_findings_on_file(
    path: Seq<char>,
    coverage: Seq<FileHits>,
    sources: Seq<FileNotes>,
    src: Seq<char>,
    tests: Seq<char>,
)
    requires
        crate::paths::distinct(noted_paths(sources)),
    ensures
        on_file(uncovered_findings(sources, coverage, src, tests), path) == match noted_at(
            sources,
            path,
        ) {
            Some(scanned) => uncovered_file_findings(sources[scanned], coverage, src, tests),
            None => Seq::<FindingText>::empty(),
        },
    decreases sources.len(),
{
    reveal(Seq::filter);
    if sources.len() > 0 {
        let rest = sources.drop_last();
        let last = sources.last();
        let paths = noted_paths(sources);
        assert(noted_paths(rest) =~= paths.drop_last());
        lemma_uncovered_findings_on_file(path, coverage, rest, src, tests);
        Seq::filter_distributes_over_add(
            uncovered_findings(rest, coverage, src, tests),
            uncovered_file_findings(last, coverage, src, tests),
            |f: FindingText| f.path == path,
        );
        lemma_on_file_of_one(last.path, uncovered_issues(last.verdict), path);
        assert(paths[sources.len() - 1] == last.path);
        if last.path == path {
            assert forall|i: int| 0 <= i < rest.len() implies #[trigger] noted_paths(rest)[i]
                != path by {
                assert(paths[i] == noted_paths(rest)[i]);
            }
            lemma_first_index(noted_paths(rest), path, 0);
            assert(is_first_at(paths, path, sources.len() - 1));
            lemma_first_index(paths, path, sources.len() - 1);
        } else {
            lemma_first_index(noted_paths(rest), path, 0);
            lemma_first_index(paths, path, 0);
            match noted_at(rest, path) {
                Some(scanned) => {
                    assert(is_first_at(paths, path, scanned));
                    lemma_first_index(paths, path, scanned);
                },
                None => {
                    assert forall|i: int| 0 <= i < paths.len() implies #[trigger] paths[i]
                        != path by {
                        if i < rest.len() {
                            assert(paths[i] == noted_paths(rest)[i]);
                        }
                    }
                },
            }
        }
    } else {
        lemma_first_index(noted_paths(sources), path, 0);
    }
}

/// The findings on one file depend on that file alone: on its annotations,
/// and on its lines in the coverage map.
pub proof fn lemma_findings_on_file(
    policy: FlakyPolicy,
    path: Seq<char>,
    coverage: Seq<FileHits>,
    sources: Seq<FileNotes>,
    src: Seq<char>,
    tests: Seq<char>,
)
    requires
        distinct_paths(coverage),
        crate::paths::distinct(noted_paths(sources)),
    ensures
        on_file(all_findings(policy, coverage, sources, src, tests), path) == file_findings(
            policy,
            path,
            coverage,
            sources,
            src,
            tests,
        ),
{
    lemma_covered_findings_on_file(policy, path, coverage, sources, src, tests);
    lemma_uncovered_findings_on_file(path, coverage, sources, src, tests);
    Seq::filter_distributes_over_add(
        covered_findings(policy, coverage, sources, src, tests),
        uncovered_findings(sources, coverage, src, tests),
        |f: FindingText| f.path == path,
    );
    lemma_first_index(file_paths(coverage), path, 0);
    lemma_first_index(noted_paths(sources), path, 0);
    match position_of(coverage, path) {
        Some(covered) => {
            assert(coverage[covered].path == file_paths(coverage)[covered]);
        },
        None => {},
    }
    match noted_at(sources, path) {
        Some(scanned) => {
            assert(sources[scanned].path == noted_paths(sources)[scanned]);
        },
        None => {},
    }
}

/// Lines of which none is explicit give no diagnostic when the file gets a
/// verdict as a whole.
pub proof fn lemma_no_explicit_line(annotations: Seq<LineAnnotation>)
    requires
        forall|i: int| 0 <= i < annotations.len() ==> !(#[trigger] annotations[i]).explicit(),
    ensures
        explicit_lines(annotations) == Seq::<Diagnostic>::empty(),
    decreases annotations.len(),
{
    if annotations.len() > 0 {
        assert(!annotations[annotations.len() - 1].explicit());
        lemma_no_explicit_line(annotations.drop_last());
    }
}

/// Whether the only marker of a file is one that declares the whole file
/// not tested, on its first line.
pub open spec fn only_declares_not_tested(facts: Seq<LineFacts>) -> bool {
    &&& facts.len() > 0
    &&& facts[0].reading == (LineReading { mark: LineMark::FileNotTested, obsolete: false })
    &&& forall|i: int| 0 < i < facts.len() ==> is_plain(#[trigger] facts[i])
}

/// A file whose only marker declares it not tested is scanned without
/// diagnostic, outside any region, and no line of it is explicit.
pub proof fn lemma_declared_not_tested_scan(facts: Seq<LineFacts>)
    requires
        only_declares_not_tested(facts),
    ensures
        scan_of(facts).region == LineAnnotation::Tested(false),
        scan_of(facts).marks == (FileMarks {
            maybe_tested: false,
            not_tested: true,
            flaky_tested: false,
        }),
        scan_of(facts).diagnostics == Seq::<Diagnostic>::empty(),
        forall|i: int|
            0 <= i < scan_of(facts).annotations.len() ==> !(#[trigger] scan_of(
                facts,
            ).annotations[i]).explicit(),
    decreases facts.len(),
{
    let rest = facts.drop_last();
    if facts.len() == 1 {
        assert(rest =~= Seq::<LineFacts>::empty());
        assert(scan_of(rest) == scan_start());
    } else {
        assert(is_plain(facts[facts.len() - 1]));
        assert(rest[0] == facts[0]);
        assert forall|i: int| 0 < i < rest.len() implies is_plain(#[trigger] rest[i]) by {
            assert(rest[i] == facts[i]);
        }
        lemma_declared_not_tested_scan(rest);
    }
}

/// A file whose only marker declares it not tested, and that the coverage
/// map does not hold, is consistent: the scan reports nothing, and the
/// cross-check finds nothing on the file.
pub proof fn lemma_declared_not_tested_and_not_executed(
    policy: FlakyPolicy,
    facts: Seq<LineFacts>,
    path: Seq<char>,
    coverage: Seq<FileHits>,
    sources: Seq<FileNotes>,
    src: Seq<char>,
    tests: Seq<char>,
)
    requires
        only_declares_not_tested(facts),
        distinct_paths(coverage),
        crate::paths::distinct(noted_paths(sources)),
        noted_at(sources, path) matches Some(scanned) && sources[scanned].verdict == scan_result(
            policy,
            scan_of(facts),
        ).verdict,
        position_of(coverage, path) is None,
    ensures
        scan_result(policy, scan_of(facts)).verdict == FileVerdict::NotTested,
        scan_result(policy, scan_of(facts)).diagnostics == Seq::<Diagnostic>::empty(),
        on_file(all_findings(policy, coverage, sources, src, tests), path) == Seq::<
            FindingText,
        >::empty(),
{
    lemma_declared_not_tested_scan(facts);
    lemma_no_explicit_line(scan_of(facts).annotations);
    lemma_findings_on_file(policy, path, coverage, sources, src, tests);
    assert(tagged(path, uncovered_issues(FileVerdict::NotTested)) =~= Seq::<FindingText>::empty());
}

/// A file whose only marker declares it not tested, and that the coverage
/// map holds, gets exactly one finding: that the declaration is wrong.
///
/// This holds of files under a tracked directory: others are not checked.
pub proof fn lemma_declared_not_tested_and_executed(
    policy: FlakyPolicy,
    facts: Seq<LineFacts>,
    path: Seq<char>,
    coverage: Seq<FileHits>,
    sources: Seq<FileNotes>,
    src: Seq<char>,
    tests: Seq<char>,
)
    requires
        only_declares_not_tested(facts),
        distinct_paths(coverage),
        crate::paths::distinct(noted_paths(sources)),
        noted_at(sources, path) matches Some(scanned) && sources[scanned].verdict == scan_result(
            policy,
            scan_of(facts),
        ).verdict,
        position_of(coverage, path) is Some,
        is_tracked(path, src, tests),
    ensures
        on_file(all_findings(policy, coverage, sources, src, tests), path) == seq![
            FindingText { path, diagnostic: Diagnostic::whole_file(Issue::WrongFileNotTested) },
        ],
{
    lemma_declared_not_tested_scan(facts);
    lemma_findings_on_file(policy, path, coverage, sources, src, tests);
    assert(tagged(path, seq![Diagnostic::whole_file(Issue::WrongFileNotTested)]) =~= seq![
        FindingText { path, diagnostic: Diagnostic::whole_file(Issue::WrongFileNotTested) },
    ]);
}

/// A file that keeps its lines, and that the coverage map does not hold,
/// gets exactly one finding: that it is not declared not tested.
///
/// This holds of files under a tracked directory: others are not checked.
pub proof fn lemma_lines_and_not_executed(
    policy: FlakyPolicy,
    path: Seq<char>,
    coverage: Seq<FileHits>,
    sources: Seq<FileNotes>,
    src: Seq<char>,
    tests: Seq<char>,
)
    requires
        distinct_paths(coverage),
        crate::paths::distinct(noted_paths(sources)),
        noted_at(sources, path) matches Some(scanned) && sources[scanned].verdict is Lines,
        position_of(coverage, path) is None,
        is_tracked(path, src, tests),
    ensures
        on_file(all_findings(policy, coverage, sources, src, tests), path) == seq![
            FindingText { path, diagnostic: Diagnostic::whole_file(Issue::MissingFileNotTested) },
        ],
{
    lemma_findings_on_file(policy, path, coverage, sources, src, tests);
    assert(tagged(path, seq![Diagnostic::whole_file(Issue::MissingFileNotTested)]) =~= seq![
        FindingText { path, diagnostic: Diagnostic::whole_file(Issue::MissingFileNotTested) },
    ]);
}

/// A flaky line is held against its hits as the policy says: under
/// `Tested` as a tested line, under `NotTested` as a line that is not tested,
/// and under `MaybeTested` it is never wrong, hit or not.
pub proof fn lemma_flaky_line_follows_policy(
    policy: FlakyPolicy,
    explicit: bool,
    other: bool,
    hit: bool,
)
    ensures
        line_issue(FlakyPolicy::Tested, LineAnnotation::FlakyTested(explicit), Some(hit))
            == line_issue(policy, LineAnnotation::Tested(other), Some(hit)),
        line_issue(FlakyPolicy::Tested, LineAnnotation::FlakyTested(explicit), Some(false))
            == Some(Issue::WrongTested),
        line_issue(FlakyPolicy::NotTested, LineAnnotation::FlakyTested(explicit), Some(hit))
            == line_issue(policy, LineAnnotation::NotTested(other), Some(hit)),
        line_issue(FlakyPolicy::NotTested, LineAnnotation::FlakyTested(explicit), Some(true))
            == Some(Issue::WrongNotTested),
        line_issue(FlakyPolicy::MaybeTested, LineAnnotation::FlakyTested(explicit), Some(hit))
            is None,
{
}

} // verus!
