use coverage_annotations::annotation::{Coverage, FlakyPolicy, LineAnnotation, LineMark};
use coverage_annotations::diagnostic::{Diagnostic, Issue};
use coverage_annotations::mark::LineReading;
use coverage_annotations::scan::{
    collect_file_annotations, verify_untested_file_annotations, FileAnnotations, FileScan,
    FileScanner, LineFacts,
};

fn scan(policy: FlakyPolicy, lines: &[&str]) -> FileScan {
    let lines: Vec<String> = lines.iter().map(|line| line.to_string()).collect();
    collect_file_annotations(policy, &lines).unwrap()
}

fn at(line: usize, issue: Issue) -> Diagnostic {
    Diagnostic { line: Some(line), issue }
}

const TESTED: LineAnnotation = LineAnnotation::Tested(false);
const NOT_TESTED: LineAnnotation = LineAnnotation::NotTested(false);
const MAYBE_TESTED: LineAnnotation = LineAnnotation::MaybeTested(false);
const FLAKY_TESTED: LineAnnotation = LineAnnotation::FlakyTested(false);

#[test]
fn empty_file_has_no_lines() {
    assert_eq!(
        scan(FlakyPolicy::MaybeTested, &[]),
        FileScan { annotations: FileAnnotations::LineAnnotations(vec![]), diagnostics: vec![] }
    );
}

#[test]
fn plain_code_is_tested_by_default() {
    assert_eq!(
        scan(FlakyPolicy::MaybeTested, &["fn f() -> u32 {", "    let x = 1;", "    x + 1"]),
        FileScan {
            annotations: FileAnnotations::LineAnnotations(vec![TESTED, TESTED, TESTED]),
            diagnostics: vec![],
        }
    );
}

#[test]
fn structural_lines_are_maybe_tested() {
    for line in [
        "}",
        "    }",
        "})",
        "} ) )",
        "};",
        "    }; ",
        "});",
        "    })) ;",
        "else",
        "} else {",
        "    } else",
        "else {",
        "#[derive(Debug)]",
        "#![allow(dead_code)]",
        "impl Foo {",
        "impl<T> Foo<T> {",
        "// a comment",
        "    /* a comment */",
        "}; // the end",
        "} // the end",
        "}) /* the end */",
        "",
        "    ",
    ] {
        assert_eq!(
            scan(FlakyPolicy::MaybeTested, &[line]).annotations,
            FileAnnotations::LineAnnotations(vec![MAYBE_TESTED]),
            "{line:?}"
        );
    }
}

#[test]
fn bare_closing_brace_is_structural() {
    assert_eq!(
        scan(FlakyPolicy::MaybeTested, &["fn f() {", "}"]).annotations,
        FileAnnotations::LineAnnotations(vec![TESTED, MAYBE_TESTED])
    );
}

#[test]
fn other_lines_are_not_structural() {
    for line in [
        "let x = 1;",
        "x } ",
        "} x",
        "elsewhere",
        "implement();",
        "foo(); // a comment",
        "#[derive(Debug)] struct S;",
        "}}",
        "} ;;",
        "{",
        "};)",
    ] {
        assert_eq!(
            scan(FlakyPolicy::MaybeTested, &[line]).annotations,
            FileAnnotations::LineAnnotations(vec![TESTED]),
            "{line:?}"
        );
    }
}

#[test]
fn structural_line_loses_its_own_marker_and_keeps_the_region() {
    let found = scan(
        FlakyPolicy::MaybeTested,
        &["// BEGIN NOT TESTED", "foo();", "} // TESTED", "bar();", "// END NOT TESTED", "baz();"],
    );
    assert_eq!(
        found.annotations,
        FileAnnotations::LineAnnotations(vec![
            MAYBE_TESTED,
            NOT_TESTED,
            MAYBE_TESTED,
            NOT_TESTED,
            MAYBE_TESTED,
            TESTED
        ])
    );
    assert_eq!(found.diagnostics, vec![]);
}

#[test]
fn region_covers_its_lines() {
    let found = scan(
        FlakyPolicy::MaybeTested,
        &[
            "a();",
            "b(); // BEGIN NOT TESTED",
            "c();",
            "d(); // TESTED",
            "e();",
            "f(); // END NOT TESTED",
            "g();",
        ],
    );
    assert_eq!(
        found.annotations,
        FileAnnotations::LineAnnotations(vec![
            TESTED,
            NOT_TESTED,
            NOT_TESTED,
            LineAnnotation::Tested(true),
            NOT_TESTED,
            NOT_TESTED,
            TESTED
        ])
    );
    assert_eq!(found.diagnostics, vec![]);
}

#[test]
fn region_opened_twice_is_reported_once_and_stays() {
    let found = scan(
        FlakyPolicy::MaybeTested,
        &[
            "a(); // BEGIN NOT TESTED",
            "b();",
            "c(); // BEGIN NOT TESTED",
            "d();",
            "e(); // END NOT TESTED",
            "f();",
        ],
    );
    assert_eq!(
        found.annotations,
        FileAnnotations::LineAnnotations(vec![
            NOT_TESTED, NOT_TESTED, NOT_TESTED, NOT_TESTED, NOT_TESTED, TESTED
        ])
    );
    assert_eq!(found.diagnostics, vec![at(3, Issue::NestedBegin(Coverage::NotTested))]);
}

#[test]
fn redundant_marker_is_reported() {
    let found = scan(FlakyPolicy::MaybeTested, &["a(); // TESTED", "b();"]);
    assert_eq!(
        found.annotations,
        FileAnnotations::LineAnnotations(vec![LineAnnotation::Tested(true), TESTED])
    );
    assert_eq!(found.diagnostics, vec![at(1, Issue::Redundant(Coverage::Tested))]);
}

#[test]
fn end_without_begin_is_reported() {
    let found = scan(FlakyPolicy::MaybeTested, &["a(); // END FLAKY TESTED", "b();"]);
    assert_eq!(found.annotations, FileAnnotations::LineAnnotations(vec![TESTED, TESTED]));
    assert_eq!(found.diagnostics, vec![at(1, Issue::NestedEnd(Coverage::FlakyTested))]);
}

#[test]
fn unreachable_line_is_not_tested() {
    let found = scan(FlakyPolicy::MaybeTested, &["a();", "    unreachable!()", "b();"]);
    assert_eq!(
        found.annotations,
        FileAnnotations::LineAnnotations(vec![TESTED, NOT_TESTED, TESTED])
    );
}

#[test]
fn obsolete_vocabulary_is_reported_with_its_line() {
    let found = scan(FlakyPolicy::MaybeTested, &["a();", "b(); // APPEARS NOT TESTED"]);
    assert_eq!(found.annotations, FileAnnotations::LineAnnotations(vec![TESTED, TESTED]));
    assert_eq!(found.diagnostics, vec![at(2, Issue::ObsoleteDirective)]);
}

#[test]
fn file_not_tested_collapses_the_file() {
    let found = scan(FlakyPolicy::MaybeTested, &["// FILE NOT TESTED", "a();", "b();"]);
    assert_eq!(found, FileScan { annotations: FileAnnotations::NotTested, diagnostics: vec![] });
}

#[test]
fn file_maybe_tested_collapses_the_file_and_wins() {
    let found = scan(
        FlakyPolicy::MaybeTested,
        &["a(); // FILE NOT TESTED", "b(); /* FILE MAYBE TESTED */"],
    );
    assert_eq!(found.annotations, FileAnnotations::MaybeTested);
    assert_eq!(found.diagnostics, vec![at(2, Issue::RepeatedFile)]);
}

#[test]
fn file_marker_anywhere_in_the_file_counts() {
    let found = scan(FlakyPolicy::MaybeTested, &["a();", "b();", "c(); // FILE NOT TESTED"]);
    assert_eq!(found.annotations, FileAnnotations::NotTested);
}

#[test]
fn every_repeated_file_marker_is_reported() {
    let found = scan(
        FlakyPolicy::MaybeTested,
        &["// FILE NOT TESTED", "// FILE NOT TESTED", "a();", "// FILE FLAKY TESTED"],
    );
    assert_eq!(found.annotations, FileAnnotations::MaybeTested);
    assert_eq!(found.diagnostics, vec![at(2, Issue::RepeatedFile), at(4, Issue::RepeatedFile)]);
}

#[test]
fn flaky_file_follows_the_policy() {
    let lines = ["// FILE FLAKY TESTED", "a();"];
    assert_eq!(scan(FlakyPolicy::MaybeTested, &lines).annotations, FileAnnotations::MaybeTested);
    assert_eq!(scan(FlakyPolicy::NotTested, &lines).annotations, FileAnnotations::NotTested);
    assert_eq!(
        scan(FlakyPolicy::Tested, &lines).annotations,
        FileAnnotations::LineAnnotations(vec![MAYBE_TESTED, TESTED])
    );
}

#[test]
fn explicit_lines_in_a_collapsed_file_are_reported_after_the_rest() {
    let found = scan(
        FlakyPolicy::MaybeTested,
        &[
            "// FILE NOT TESTED",
            "a(); // NOT TESTED",
            "b(); // END MAYBE TESTED",
            "c(); /* MAYBE TESTED */",
            "}; // TESTED",
        ],
    );
    assert_eq!(found.annotations, FileAnnotations::NotTested);
    assert_eq!(
        found.diagnostics,
        vec![
            at(3, Issue::NestedEnd(Coverage::MaybeTested)),
            at(5, Issue::Redundant(Coverage::Tested)),
            at(2, Issue::LineInUntestedFile),
            at(4, Issue::LineInUntestedFile),
        ]
    );
}

#[test]
fn explicit_lines_are_listed_with_their_numbers() {
    assert_eq!(
        verify_untested_file_annotations(&vec![
            TESTED,
            LineAnnotation::Tested(true),
            FLAKY_TESTED,
            LineAnnotation::FlakyTested(true),
            LineAnnotation::MaybeTested(true),
            NOT_TESTED,
            LineAnnotation::NotTested(true),
        ]),
        vec![
            at(2, Issue::LineInUntestedFile),
            at(4, Issue::LineInUntestedFile),
            at(5, Issue::LineInUntestedFile),
            at(7, Issue::LineInUntestedFile),
        ]
    );
    assert_eq!(verify_untested_file_annotations(&vec![]), vec![]);
}

#[test]
fn scanner_takes_facts_line_by_line() {
    let mut scanner = FileScanner::new();
    scanner.push_line(LineFacts {
        reading: LineReading { mark: LineMark::BeginFlakyTested, obsolete: false },
        unreachable: false,
        untrusted: false,
    });
    scanner.push_line(LineFacts {
        reading: LineReading { mark: LineMark::Unmarked, obsolete: true },
        unreachable: true,
        untrusted: false,
    });
    scanner.push_line(LineFacts {
        reading: LineReading { mark: LineMark::LineFlakyTested, obsolete: false },
        unreachable: false,
        untrusted: true,
    });
    scanner.push_line(LineFacts {
        reading: LineReading { mark: LineMark::Unmarked, obsolete: false },
        unreachable: false,
        untrusted: false,
    });
    let found = scanner.finish(FlakyPolicy::Tested);
    assert_eq!(
        found.annotations,
        FileAnnotations::LineAnnotations(vec![FLAKY_TESTED, NOT_TESTED, MAYBE_TESTED, FLAKY_TESTED])
    );
    assert_eq!(
        found.diagnostics,
        vec![at(2, Issue::ObsoleteDirective), at(3, Issue::Redundant(Coverage::FlakyTested))]
    );
}

#[test]
fn scanning_twice_gives_the_same() {
    let lines = ["a(); // BEGIN NOT TESTED", "}", "b(); // BEGIN NOT TESTED", "// FILE NOT TESTED"];
    assert_eq!(scan(FlakyPolicy::NotTested, &lines), scan(FlakyPolicy::NotTested, &lines));
}
