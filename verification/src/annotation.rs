//! The vocabulary shared by every stage: marks found in comments, the
//! annotation resolved for a line, the verdict of a whole file and the policy
//! for flaky code.

use vstd::prelude::*;

verus! {

/// The explicit marker carried by the comment of one line, if any.
#[derive(Clone, Copy, Debug, PartialEq, Eq, Structural)]
pub enum LineMark {
    Unmarked,
    LineTested,
    LineMaybeTested,
    LineNotTested,
    LineFlakyTested,
    BeginMaybeTested,
    BeginNotTested,
    BeginFlakyTested,
    EndMaybeTested,
    EndNotTested,
    EndFlakyTested,
    FileMaybeTested,
    FileNotTested,
    FileFlakyTested,
}

/// The annotation resolved for one line. The flag is true when the line
/// itself carried the marker, false when the value is inherited from the
/// enclosing region or is the default.
#[derive(Clone, Copy, Debug, PartialEq, Eq, Structural)]
pub enum LineAnnotation {
    Tested(bool),
    MaybeTested(bool),
    NotTested(bool),
    FlakyTested(bool),
}

/// How flaky lines, regions and files are treated when cross-checking.
#[derive(Clone, Copy, Debug, PartialEq, Eq, Structural)]
pub enum FlakyPolicy {
    NotTested,
    MaybeTested,
    Tested,
}

impl Default for FlakyPolicy {
    /// Flaky code is maybe tested unless the user says otherwise.
    fn default() -> (policy: FlakyPolicy)
        ensures
            policy == FlakyPolicy::MaybeTested,
    {
        FlakyPolicy::MaybeTested
    }
}

/// The kind of an annotation, without its flag.
#[derive(Clone, Copy, Debug, PartialEq, Eq, Structural)]
pub enum Coverage {
    Tested,
    MaybeTested,
    NotTested,
    FlakyTested,
}

impl LineAnnotation {
    /// The kind of this annotation.
    pub open spec fn kind(self) -> Coverage {
        match self {
            LineAnnotation::Tested(_) => Coverage::Tested,
            LineAnnotation::MaybeTested(_) => Coverage::MaybeTested,
            LineAnnotation::NotTested(_) => Coverage::NotTested,
            LineAnnotation::FlakyTested(_) => Coverage::FlakyTested,
        }
    }

    /// The flag of this annotation.
    pub open spec fn explicit(self) -> bool {
        match self {
            LineAnnotation::Tested(e) => e,
            LineAnnotation::MaybeTested(e) => e,
            LineAnnotation::NotTested(e) => e,
            LineAnnotation::FlakyTested(e) => e,
        }
    }

    /// The annotation of the given kind and flag.
    pub open spec fn of(kind: Coverage, explicit: bool) -> LineAnnotation {
        match kind {
            Coverage::Tested => LineAnnotation::Tested(explicit),
            Coverage::MaybeTested => LineAnnotation::MaybeTested(explicit),
            Coverage::NotTested => LineAnnotation::NotTested(explicit),
            Coverage::FlakyTested => LineAnnotation::FlakyTested(explicit),
        }
    }
}

/// Whether the line itself carried the marker of its annotation.
pub fn is_explicit(line_annotation: LineAnnotation) -> (explicit: bool)
    ensures
        explicit == line_annotation.explicit(),
{
    match line_annotation {
        LineAnnotation::Tested(e) => e,
        LineAnnotation::MaybeTested(e) => e,
        LineAnnotation::NotTested(e) => e,
        LineAnnotation::FlakyTested(e) => e,
    }
}

} // verus!
