use coverage_annotations::annotation::LineMark;
use coverage_annotations::mark::{extract_line_mark, LineReading};

fn mark(line: &str) -> LineMark {
    let reading = extract_line_mark(line);
    assert!(!reading.obsolete, "{line}");
    reading.mark
}

#[test]
fn plain_line_has_no_mark() {
    assert_eq!(mark("let x = 1;"), LineMark::Unmarked);
    assert_eq!(mark(""), LineMark::Unmarked);
    assert_eq!(mark("// an ordinary comment"), LineMark::Unmarked);
}

#[test]
fn line_markers_in_both_comment_styles() {
    assert_eq!(mark("foo(); // TESTED"), LineMark::LineTested);
    assert_eq!(mark("foo(); /* TESTED */"), LineMark::LineTested);
    assert_eq!(mark("foo(); // MAYBE TESTED"), LineMark::LineMaybeTested);
    assert_eq!(mark("foo(); /* MAYBE TESTED */"), LineMark::LineMaybeTested);
    assert_eq!(mark("foo(); // NOT TESTED"), LineMark::LineNotTested);
    assert_eq!(mark("foo(); /* NOT TESTED */"), LineMark::LineNotTested);
    assert_eq!(mark("foo(); // FLAKY TESTED"), LineMark::LineFlakyTested);
    assert_eq!(mark("foo(); /* FLAKY TESTED */"), LineMark::LineFlakyTested);
}

#[test]
fn region_markers_in_both_comment_styles() {
    assert_eq!(mark("// BEGIN MAYBE TESTED"), LineMark::BeginMaybeTested);
    assert_eq!(mark("/* BEGIN MAYBE TESTED */"), LineMark::BeginMaybeTested);
    assert_eq!(mark("// BEGIN NOT TESTED"), LineMark::BeginNotTested);
    assert_eq!(mark("/* BEGIN NOT TESTED */"), LineMark::BeginNotTested);
    assert_eq!(mark("// BEGIN FLAKY TESTED"), LineMark::BeginFlakyTested);
    assert_eq!(mark("/* BEGIN FLAKY TESTED */"), LineMark::BeginFlakyTested);
    assert_eq!(mark("// END MAYBE TESTED"), LineMark::EndMaybeTested);
    assert_eq!(mark("/* END MAYBE TESTED */"), LineMark::EndMaybeTested);
    assert_eq!(mark("// END NOT TESTED"), LineMark::EndNotTested);
    assert_eq!(mark("/* END NOT TESTED */"), LineMark::EndNotTested);
    assert_eq!(mark("// END FLAKY TESTED"), LineMark::EndFlakyTested);
    assert_eq!(mark("/* END FLAKY TESTED */"), LineMark::EndFlakyTested);
}

#[test]
fn file_markers_in_both_comment_styles() {
    assert_eq!(mark("// FILE MAYBE TESTED"), LineMark::FileMaybeTested);
    assert_eq!(mark("/* FILE MAYBE TESTED */"), LineMark::FileMaybeTested);
    assert_eq!(mark("// FILE NOT TESTED"), LineMark::FileNotTested);
    assert_eq!(mark("/* FILE NOT TESTED */"), LineMark::FileNotTested);
    assert_eq!(mark("// FILE FLAKY TESTED"), LineMark::FileFlakyTested);
    assert_eq!(mark("/* FILE FLAKY TESTED */"), LineMark::FileFlakyTested);
}

#[test]
fn marker_is_found_anywhere_in_the_line() {
    assert_eq!(mark("    x += 1; // NOT TESTED because of the weather"), LineMark::LineNotTested);
    assert_eq!(mark("a /* FLAKY TESTED */ b"), LineMark::LineFlakyTested);
}

#[test]
fn marker_needs_the_comment_opening_and_one_blank() {
    assert_eq!(mark("NOT TESTED"), LineMark::Unmarked);
    assert_eq!(mark("//NOT TESTED"), LineMark::Unmarked);
    assert_eq!(mark("//  NOT TESTED"), LineMark::Unmarked);
    assert_eq!(mark("// not tested"), LineMark::Unmarked);
}

#[test]
fn earlier_family_wins() {
    assert_eq!(mark("// NOT TESTED // TESTED"), LineMark::LineTested);
    assert_eq!(mark("// BEGIN NOT TESTED /* MAYBE TESTED */"), LineMark::LineMaybeTested);
    assert_eq!(mark("// FILE NOT TESTED // END NOT TESTED"), LineMark::EndNotTested);
    assert_eq!(mark("// FILE FLAKY TESTED // FILE MAYBE TESTED"), LineMark::FileMaybeTested);
}

#[test]
fn obsolete_vocabulary_is_reported_and_gives_no_mark() {
    for line in [
        "x(); // APPEARS NOT TESTED",
        "x(); /* APPEARS NOT TESTED */",
        "// BEGIN APPEARS NOT TESTED",
        "/* BEGIN APPEARS NOT TESTED */",
        "// END APPEARS NOT TESTED",
        "/* END APPEARS NOT TESTED */",
        "// FILE APPEARS NOT TESTED",
        "/* FILE APPEARS NOT TESTED */",
    ] {
        assert_eq!(
            extract_line_mark(line),
            LineReading { mark: LineMark::Unmarked, obsolete: true },
            "{line}"
        );
    }
}

#[test]
fn obsolete_vocabulary_wins_over_a_marker_on_the_same_line() {
    assert_eq!(
        extract_line_mark("// TESTED // APPEARS NOT TESTED"),
        LineReading { mark: LineMark::Unmarked, obsolete: true }
    );
}

#[test]
fn marker_after_text_that_is_not_ascii() {
    assert_eq!(mark("let s = \"héllo wörld ✓\"; // NOT TESTED"), LineMark::LineNotTested);
}
