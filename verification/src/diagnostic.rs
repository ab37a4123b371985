//! What the scan of a file and the cross-check report: an issue, and the line
//! it was found on.

use crate::annotation::Coverage;
use vstd::prelude::*;

verus! {

/// One kind of inconsistency.
#[derive(Clone, Copy, Debug, PartialEq, Eq, Structural)]
pub enum Issue {
    /// The line uses the `APPEARS NOT TESTED` vocabulary, which is no longer
    /// recognised.
    ObsoleteDirective,
    /// The line repeats the annotation of the region it stands in.
    Redundant(Coverage),
    /// A region is opened while another one is open.
    NestedBegin(Coverage),
    /// A region is closed that is not the open one.
    NestedEnd(Coverage),
    /// The file carries more than one file-level marker.
    RepeatedFile,
    /// A line carries its own marker in a file declared untested as a whole.
    LineInUntestedFile,
    /// The file is declared not tested, and was executed.
    WrongFileNotTested,
    /// The line counts as tested, and was not hit.
    WrongTested,
    /// The line counts as not tested, and was hit.
    WrongNotTested,
    /// The line carries its own marker, and is not executable.
    NonExecutable(Coverage),
    /// The file was never executed, and is not declared so.
    MissingFileNotTested,
}

/// An issue together with its place. `line` is the 1-based number of the
/// line, or `None` where the issue concerns the file as a whole.
#[derive(Clone, Copy, Debug, PartialEq, Eq)]
pub struct Diagnostic {
    pub line: Option<usize>,
    pub issue: Issue,
}

impl Diagnostic {
    /// The diagnostic for `issue` on the line at index `index` (0-based).
    pub open spec fn at(index: int, issue: Issue) -> Diagnostic {
        Diagnostic { line: Some((index + 1) as usize), issue }
    }

    /// The diagnostic for `issue` on the file as a whole.
    pub open spec fn whole_file(issue: Issue) -> Diagnostic {
        Diagnostic { line: None, issue }
    }
}

/// At most one diagnostic, on the line at `index`.
pub open spec fn noted(index: int, issue: Option<Issue>) -> Seq<Diagnostic> {
    match issue {
        Some(issue) => seq![Diagnostic::at(index, issue)],
        None => Seq::empty(),
    }
}

/// The words of a coverage kind, as they are written in a marker.
pub open spec fn coverage_words(kind: Coverage) -> Seq<char> {
    match kind {
        Coverage::Tested => "TESTED"@,
        Coverage::MaybeTested => "MAYBE TESTED"@,
        Coverage::NotTested => "NOT TESTED"@,
        Coverage::FlakyTested => "FLAKY TESTED"@,
    }
}

/// The text that describes an issue to the user.
pub open spec fn issue_text(issue: Issue) -> Seq<char> {
    match issue {
        Issue::ObsoleteDirective => "obsolete APPEARS TESTED directive, use FLAKY TESTED instead"@,
        Issue::Redundant(kind) => "redundant "@ + coverage_words(kind) + " coverage annotation"@,
        Issue::NestedBegin(kind) => "ignored nested BEGIN "@ + coverage_words(kind)
            + " coverage annotation"@,
        Issue::NestedEnd(kind) => "ignored nested END "@ + coverage_words(kind)
            + " coverage annotation"@,
        Issue::RepeatedFile => "repeated FILE NOT/MAYBE/FLAKY TESTED coverage annotation"@,
        Issue::LineInUntestedFile =>
            "line coverage annotation in a FILE which is NOT/MAYBE/FLAKY TESTED"@,
        Issue::WrongFileNotTested => "wrong FILE NOT TESTED coverage annotation"@,
        Issue::WrongTested => "wrong TESTED coverage annotation"@,
        Issue::WrongNotTested => "wrong NOT TESTED coverage annotation"@,
        Issue::NonExecutable(kind) => "explicit "@ + coverage_words(kind)
            + " coverage annotation for a non-executable line"@,
        Issue::MissingFileNotTested => "missing FILE NOT TESTED coverage annotation"@,
    }
}

/// The words of a coverage kind.
pub fn words(kind: Coverage) -> (text: &'static str)
    ensures
        text@ == coverage_words(kind),
{
    match kind {
        Coverage::Tested => "TESTED",
        Coverage::MaybeTested => "MAYBE TESTED",
        Coverage::NotTested => "NOT TESTED",
        Coverage::FlakyTested => "FLAKY TESTED",
    }
}

/// The message for an issue.
pub fn message(issue: Issue) -> (text: String)
    ensures
        text@ == issue_text(issue),
{
    match issue {
        Issue::ObsoleteDirective => String::from_str(
            "obsolete APPEARS TESTED directive, use FLAKY TESTED instead",
        ),
        Issue::Redundant(kind) => String::from_str("redundant ").concat(words(kind)).concat(
            " coverage annotation",
        ),
        Issue::NestedBegin(kind) => String::from_str("ignored nested BEGIN ").concat(
            words(kind),
        ).concat(" coverage annotation"),
        Issue::NestedEnd(kind) => String::from_str("ignored nested END ").concat(
            words(kind),
        ).concat(" coverage annotation"),
        Issue::RepeatedFile => String::from_str(
            "repeated FILE NOT/MAYBE/FLAKY TESTED coverage annotation",
        ),
        Issue::LineInUntestedFile => String::from_str(
            "line coverage annotation in a FILE which is NOT/MAYBE/FLAKY TESTED",
        ),
        Issue::WrongFileNotTested => String::from_str("wrong FILE NOT TESTED coverage annotation"),
        Issue::WrongTested => String::from_str("wrong TESTED coverage annotation"),
        Issue::WrongNotTested => String::from_str("wrong NOT TESTED coverage annotation"),
        Issue::NonExecutable(kind) => String::from_str("explicit ").concat(words(kind)).concat(
            " coverage annotation for a non-executable line",
        ),
        Issue::MissingFileNotTested => String::from_str(
            "missing FILE NOT TESTED coverage annotation",
        ),
    }
}

} // verus!
