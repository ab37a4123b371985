use coverage_annotations::annotation::{Coverage, LineAnnotation, LineMark};
use coverage_annotations::diagnostic::Issue;
use coverage_annotations::region::{annotation_of, kind_of, resolve_line, Resolution};

const TESTED: LineAnnotation = LineAnnotation::Tested(false);
const NOT_TESTED: LineAnnotation = LineAnnotation::NotTested(false);
const MAYBE_TESTED: LineAnnotation = LineAnnotation::MaybeTested(false);
const FLAKY_TESTED: LineAnnotation = LineAnnotation::FlakyTested(false);

#[test]
fn plain_line_inherits_the_region() {
    for region in [TESTED, NOT_TESTED, MAYBE_TESTED, FLAKY_TESTED] {
        assert_eq!(
            resolve_line(region, LineMark::Unmarked, false),
            Resolution { annotation: region, region, issue: None }
        );
    }
}

#[test]
fn unreachable_line_is_not_tested_in_any_region() {
    for region in [TESTED, NOT_TESTED, MAYBE_TESTED, FLAKY_TESTED] {
        assert_eq!(
            resolve_line(region, LineMark::Unmarked, true),
            Resolution { annotation: LineAnnotation::NotTested(false), region, issue: None }
        );
    }
}

#[test]
fn unreachable_code_does_not_override_a_marker() {
    assert_eq!(
        resolve_line(TESTED, LineMark::LineMaybeTested, true),
        Resolution { annotation: LineAnnotation::MaybeTested(true), region: TESTED, issue: None }
    );
}

#[test]
fn line_marker_is_explicit_and_leaves_the_region() {
    assert_eq!(
        resolve_line(TESTED, LineMark::LineNotTested, false),
        Resolution { annotation: LineAnnotation::NotTested(true), region: TESTED, issue: None }
    );
    assert_eq!(
        resolve_line(NOT_TESTED, LineMark::LineTested, false),
        Resolution { annotation: LineAnnotation::Tested(true), region: NOT_TESTED, issue: None }
    );
    assert_eq!(
        resolve_line(MAYBE_TESTED, LineMark::LineFlakyTested, false),
        Resolution {
            annotation: LineAnnotation::FlakyTested(true),
            region: MAYBE_TESTED,
            issue: None
        }
    );
}

#[test]
fn line_marker_of_the_region_is_redundant() {
    assert_eq!(
        resolve_line(TESTED, LineMark::LineTested, false),
        Resolution {
            annotation: LineAnnotation::Tested(true),
            region: TESTED,
            issue: Some(Issue::Redundant(Coverage::Tested))
        }
    );
    assert_eq!(
        resolve_line(LineAnnotation::NotTested(true), LineMark::LineNotTested, false),
        Resolution {
            annotation: LineAnnotation::NotTested(true),
            region: NOT_TESTED,
            issue: Some(Issue::Redundant(Coverage::NotTested))
        }
    );
    assert_eq!(
        resolve_line(MAYBE_TESTED, LineMark::LineMaybeTested, false).issue,
        Some(Issue::Redundant(Coverage::MaybeTested))
    );
    assert_eq!(
        resolve_line(FLAKY_TESTED, LineMark::LineFlakyTested, false).issue,
        Some(Issue::Redundant(Coverage::FlakyTested))
    );
}

#[test]
fn begin_opens_a_region_outside_any() {
    assert_eq!(
        resolve_line(TESTED, LineMark::BeginNotTested, false),
        Resolution { annotation: NOT_TESTED, region: NOT_TESTED, issue: None }
    );
    assert_eq!(
        resolve_line(TESTED, LineMark::BeginMaybeTested, false),
        Resolution { annotation: MAYBE_TESTED, region: MAYBE_TESTED, issue: None }
    );
    assert_eq!(
        resolve_line(TESTED, LineMark::BeginFlakyTested, false),
        Resolution { annotation: FLAKY_TESTED, region: FLAKY_TESTED, issue: None }
    );
}

#[test]
fn begin_inside_a_region_is_ignored() {
    assert_eq!(
        resolve_line(NOT_TESTED, LineMark::BeginNotTested, false),
        Resolution {
            annotation: NOT_TESTED,
            region: NOT_TESTED,
            issue: Some(Issue::NestedBegin(Coverage::NotTested))
        }
    );
    assert_eq!(
        resolve_line(MAYBE_TESTED, LineMark::BeginFlakyTested, false),
        Resolution {
            annotation: MAYBE_TESTED,
            region: MAYBE_TESTED,
            issue: Some(Issue::NestedBegin(Coverage::FlakyTested))
        }
    );
}

#[test]
fn end_closes_the_region_of_its_kind() {
    assert_eq!(
        resolve_line(NOT_TESTED, LineMark::EndNotTested, false),
        Resolution { annotation: NOT_TESTED, region: TESTED, issue: None }
    );
    assert_eq!(
        resolve_line(MAYBE_TESTED, LineMark::EndMaybeTested, false),
        Resolution { annotation: MAYBE_TESTED, region: TESTED, issue: None }
    );
    assert_eq!(
        resolve_line(FLAKY_TESTED, LineMark::EndFlakyTested, false),
        Resolution { annotation: FLAKY_TESTED, region: TESTED, issue: None }
    );
}

#[test]
fn end_of_another_region_is_ignored() {
    assert_eq!(
        resolve_line(TESTED, LineMark::EndNotTested, false),
        Resolution {
            annotation: TESTED,
            region: TESTED,
            issue: Some(Issue::NestedEnd(Coverage::NotTested))
        }
    );
    assert_eq!(
        resolve_line(NOT_TESTED, LineMark::EndMaybeTested, false),
        Resolution {
            annotation: NOT_TESTED,
            region: NOT_TESTED,
            issue: Some(Issue::NestedEnd(Coverage::MaybeTested))
        }
    );
}

#[test]
fn file_marker_changes_no_line() {
    for mark in [LineMark::FileMaybeTested, LineMark::FileNotTested, LineMark::FileFlakyTested] {
        assert_eq!(
            resolve_line(NOT_TESTED, mark, true),
            Resolution { annotation: NOT_TESTED, region: NOT_TESTED, issue: None }
        );
    }
}

#[test]
fn kinds_and_annotations_convert() {
    assert_eq!(kind_of(LineAnnotation::FlakyTested(true)), Coverage::FlakyTested);
    assert_eq!(kind_of(LineAnnotation::Tested(false)), Coverage::Tested);
    assert_eq!(annotation_of(Coverage::NotTested, true), LineAnnotation::NotTested(true));
    assert_eq!(annotation_of(Coverage::MaybeTested, false), LineAnnotation::MaybeTested(false));
}
