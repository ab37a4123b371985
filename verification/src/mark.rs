//! Reading the marker that the comment of a line carries.
//!
//! A marker is recognised wherever its words follow the opening of a comment,
//! `// ` or `/* `, anywhere in the line. The families are tried in a fixed
//! order and the first that is found wins.

use crate::annotation::LineMark;
use crate::text::{chars_of, contains, occurs_in};
use vstd::prelude::*;

verus! {

/// What was read from one line: its marker, and whether the line uses the
/// obsolete vocabulary.
#[derive(Clone, Copy, Debug, PartialEq, Eq, Structural)]
pub struct LineReading {
    pub mark: LineMark,
    pub obsolete: bool,
}

/// Whether one of the two spellings of a marker stands in the line.
pub open spec fn mentions(line: Seq<char>, slashes: Seq<char>, stars: Seq<char>) -> bool {
    occurs_in(line, slashes) || occurs_in(line, stars)
}

/// Whether the line uses the obsolete `APPEARS NOT TESTED` vocabulary.
pub open spec fn is_obsolete(line: Seq<char>) -> bool {
    ||| mentions(line, "// APPEARS NOT TESTED"@, "/* APPEARS NOT TESTED"@)
    ||| mentions(line, "// BEGIN APPEARS NOT TESTED"@, "/* BEGIN APPEARS NOT TESTED"@)
    ||| mentions(line, "// END APPEARS NOT TESTED"@, "/* END APPEARS NOT TESTED"@)
    ||| mentions(line, "// FILE APPEARS NOT TESTED"@, "/* FILE APPEARS NOT TESTED"@)
}

/// The marker of a line.
pub open spec fn mark_of(line: Seq<char>) -> LineMark {
    if is_obsolete(line) {
        LineMark::Unmarked
    } else if mentions(line, "// TESTED"@, "/* TESTED"@) {
        LineMark::LineTested
    } else if mentions(line, "// MAYBE TESTED"@, "/* MAYBE TESTED"@) {
        LineMark::LineMaybeTested
    } else if mentions(line, "// NOT TESTED"@, "/* NOT TESTED"@) {
        LineMark::LineNotTested
    } else if mentions(line, "// FLAKY TESTED"@, "/* FLAKY TESTED"@) {
        LineMark::LineFlakyTested
    } else if mentions(line, "// BEGIN MAYBE TESTED"@, "/* BEGIN MAYBE TESTED"@) {
        LineMark::BeginMaybeTested
    } else if mentions(line, "// BEGIN NOT TESTED"@, "/* BEGIN NOT TESTED"@) {
        LineMark::BeginNotTested
    } else if mentions(line, "// BEGIN FLAKY TESTED"@, "/* BEGIN FLAKY TESTED"@) {
        LineMark::BeginFlakyTested
    } else if mentions(line, "// END MAYBE TESTED"@, "/* END MAYBE TESTED"@) {
        LineMark::EndMaybeTested
    } else if mentions(line, "// END NOT TESTED"@, "/* END NOT TESTED"@) {
        LineMark::EndNotTested
    } else if mentions(line, "// END FLAKY TESTED"@, "/* END FLAKY TESTED"@) {
        LineMark::EndFlakyTested
    } else if mentions(line, "// FILE MAYBE TESTED"@, "/* FILE MAYBE TESTED"@) {
        LineMark::FileMaybeTested
    } else if mentions(line, "// FILE NOT TESTED"@, "/* FILE NOT TESTED"@) {
        LineMark::FileNotTested
    } else if mentions(line, "// FILE FLAKY TESTED"@, "/* FILE FLAKY TESTED"@) {
        LineMark::FileFlakyTested
    } else {
        LineMark::Unmarked
    }
}

/// What is read from a line.
pub open spec fn reading_of(line: Seq<char>) -> LineReading {
    LineReading { mark: mark_of(line), obsolete: is_obsolete(line) }
}

/// Tests whether one of the two spellings of a marker stands in the line.
fn has_either(line: &Vec<char>, slashes: &str, stars: &str) -> (found: bool)
    ensures
        found == mentions(line@, slashes@, stars@),
{
    contains(line, slashes) || contains(line, stars)
}

/// Tests whether the line uses the obsolete vocabulary.
fn has_obsolete(line: &Vec<char>) -> (found: bool)
    ensures
        found == is_obsolete(line@),
{
    has_either(line, "// APPEARS NOT TESTED", "/* APPEARS NOT TESTED")
        || has_either(line, "// BEGIN APPEARS NOT TESTED", "/* BEGIN APPEARS NOT TESTED")
        || has_either(line, "// END APPEARS NOT TESTED", "/* END APPEARS NOT TESTED")
        || has_either(line, "// FILE APPEARS NOT TESTED", "/* FILE APPEARS NOT TESTED")
}

/// Reads the marker from the characters of a line.
pub fn read_mark(line: &Vec<char>) -> (reading: LineReading)
    ensures
        reading == reading_of(line@),
{
    if has_obsolete(line) {
        LineReading { mark: LineMark::Unmarked, obsolete: true }
    } else {
        let mark = if has_either(line, "// TESTED", "/* TESTED") {
            LineMark::LineTested
        } else if has_either(line, "// MAYBE TESTED", "/* MAYBE TESTED") {
            LineMark::LineMaybeTested
        } else if has_either(line, "// NOT TESTED", "/* NOT TESTED") {
            LineMark::LineNotTested
        } else if has_either(line, "// FLAKY TESTED", "/* FLAKY TESTED") {
            LineMark::LineFlakyTested
        } else if has_either(line, "// BEGIN MAYBE TESTED", "/* BEGIN MAYBE TESTED") {
            LineMark::BeginMaybeTested
        } else if has_either(line, "// BEGIN NOT TESTED", "/* BEGIN NOT TESTED") {
            LineMark::BeginNotTested
        } else if has_either(line, "// BEGIN FLAKY TESTED", "/* BEGIN FLAKY TESTED") {
            LineMark::BeginFlakyTested
        } else if has_either(line, "// END MAYBE TESTED", "/* END MAYBE TESTED") {
            LineMark::EndMaybeTested
        } else if has_either(line, "// END NOT TESTED", "/* END NOT TESTED") {
            LineMark::EndNotTested
        } else if has_either(line, "// END FLAKY TESTED", "/* END FLAKY TESTED") {
            LineMark::EndFlakyTested
        } else if has_either(line, "// FILE MAYBE TESTED", "/* FILE MAYBE TESTED") {
            LineMark::FileMaybeTested
        } else if has_either(line, "// FILE NOT TESTED", "/* FILE NOT TESTED") {
            LineMark::FileNotTested
        } else if has_either(line, "// FILE FLAKY TESTED", "/* FILE FLAKY TESTED") {
            LineMark::FileFlakyTested
        } else {
            LineMark::Unmarked
        };
        LineReading { mark, obsolete: false }
    }
}

/// Reads the marker that the comment of `line` carries.
pub fn extract_line_mark(line: &str) -> (reading: LineReading)
    ensures
        reading == reading_of(line@),
{
    let chars = chars_of(line);
    read_mark(&chars)
}

} // verus!
