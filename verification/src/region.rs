//! The region state machine: from the region that is open and the marker of
//! a line to the annotation of that line and the region that is open after
//! it. Regions do not nest.

use crate::annotation::{Coverage, LineAnnotation, LineMark};
use crate::diagnostic::Issue;
use vstd::prelude::*;

verus! {

/// The outcome of one line: its annotation, the region open after it, and
/// what was found wrong with its marker.
#[derive(Clone, Copy, Debug, PartialEq, Eq)]
pub struct Resolution {
    pub annotation: LineAnnotation,
    pub region: LineAnnotation,
    pub issue: Option<Issue>,
}

/// The kind that a marker gives to its own line alone.
pub open spec fn line_kind(mark: LineMark) -> Option<Coverage> {
    match mark {
        LineMark::LineTested => Some(Coverage::Tested),
        LineMark::LineMaybeTested => Some(Coverage::MaybeTested),
        LineMark::LineNotTested => Some(Coverage::NotTested),
        LineMark::LineFlakyTested => Some(Coverage::FlakyTested),
        _ => None,
    }
}

/// The kind of the region that a marker opens.
pub open spec fn begin_kind(mark: LineMark) -> Option<Coverage> {
    match mark {
        LineMark::BeginMaybeTested => Some(Coverage::MaybeTested),
        LineMark::BeginNotTested => Some(Coverage::NotTested),
        LineMark::BeginFlakyTested => Some(Coverage::FlakyTested),
        _ => None,
    }
}

/// The kind of the region that a marker closes.
pub open spec fn end_kind(mark: LineMark) -> Option<Coverage> {
    match mark {
        LineMark::EndMaybeTested => Some(Coverage::MaybeTested),
        LineMark::EndNotTested => Some(Coverage::NotTested),
        LineMark::EndFlakyTested => Some(Coverage::FlakyTested),
        _ => None,
    }
}

/// The kind that a marker gives to the whole file.
pub open spec fn file_kind(mark: LineMark) -> Option<Coverage> {
    match mark {
        LineMark::FileMaybeTested => Some(Coverage::MaybeTested),
        LineMark::FileNotTested => Some(Coverage::NotTested),
        LineMark::FileFlakyTested => Some(Coverage::FlakyTested),
        _ => None,
    }
}

/// The region outside any region: tested, by default.
pub open spec fn ambient() -> LineAnnotation {
    LineAnnotation::Tested(false)
}

/// The transition table.
///
/// - No marker, or a file-level one: the line inherits the region, which
///   stays. A line without marker that holds unreachable code is not tested,
///   whatever the region.
/// - A marker for the line alone: the line gets that kind, explicitly. Where
///   the region is of the same kind the marker is redundant, and the region
///   goes on as that kind, not explicit; else the region stays.
/// - A marker that opens a region: outside any region, the line and the
///   region get that kind. Inside a region it is ignored.
/// - A marker that closes a region: in a region of that kind, the line still
///   has that kind and the region ends. Else it is ignored.
pub open spec fn resolution(region: LineAnnotation, mark: LineMark, unreachable: bool)
    -> Resolution {
    if let Some(kind) = line_kind(mark) {
        if region.kind() == kind {
            Resolution {
                annotation: LineAnnotation::of(kind, true),
                region: LineAnnotation::of(kind, false),
                issue: Some(Issue::Redundant(kind)),
            }
        } else {
            Resolution { annotation: LineAnnotation::of(kind, true), region, issue: None }
        }
    } else if let Some(kind) = begin_kind(mark) {
        if region.kind() == Coverage::Tested {
            Resolution {
                annotation: LineAnnotation::of(kind, false),
                region: LineAnnotation::of(kind, false),
                issue: None,
            }
        } else {
            Resolution { annotation: region, region, issue: Some(Issue::NestedBegin(kind)) }
        }
    } else if let Some(kind) = end_kind(mark) {
        if region.kind() == kind {
            Resolution {
                annotation: LineAnnotation::of(kind, false),
                region: ambient(),
                issue: None,
            }
        } else {
            Resolution { annotation: region, region, issue: Some(Issue::NestedEnd(kind)) }
        }
    } else if mark == LineMark::Unmarked && unreachable {
        Resolution { annotation: LineAnnotation::NotTested(false), region, issue: None }
    } else {
        Resolution { annotation: region, region, issue: None }
    }
}

/// The kind of an annotation.
pub fn kind_of(annotation: LineAnnotation) -> (kind: Coverage)
    ensures
        kind == annotation.kind(),
{
    match annotation {
        LineAnnotation::Tested(_) => Coverage::Tested,
        LineAnnotation::MaybeTested(_) => Coverage::MaybeTested,
        LineAnnotation::NotTested(_) => Coverage::NotTested,
        LineAnnotation::FlakyTested(_) => Coverage::FlakyTested,
    }
}

/// The annotation of a kind, explicit or not.
pub fn annotation_of(kind: Coverage, explicit: bool) -> (annotation: LineAnnotation)
    ensures
        annotation == LineAnnotation::of(kind, explicit),
{
    match kind {
        Coverage::Tested => LineAnnotation::Tested(explicit),
        Coverage::MaybeTested => LineAnnotation::MaybeTested(explicit),
        Coverage::NotTested => LineAnnotation::NotTested(explicit),
        Coverage::FlakyTested => LineAnnotation::FlakyTested(explicit),
    }
}

/// A marker for the line alone, in a region.
fn resolve_own(region: LineAnnotation, kind: Coverage) -> (resolved: Resolution)
    ensures
        forall|mark: LineMark, unreachable: bool|
            line_kind(mark) == Some(kind) ==> resolved == #[trigger] resolution(
                region,
                mark,
                unreachable,
            ),
{
    if kind_of(region) == kind {
        Resolution {
            annotation: annotation_of(kind, true),
            region: annotation_of(kind, false),
            issue: Some(Issue::Redundant(kind)),
        }
    } else {
        Resolution { annotation: annotation_of(kind, true), region, issue: None }
    }
}

/// A marker that opens a region, in a region.
fn resolve_begin(region: LineAnnotation, kind: Coverage) -> (resolved: Resolution)
    ensures
        forall|mark: LineMark, unreachable: bool|
            begin_kind(mark) == Some(kind) ==> resolved == #[trigger] resolution(
                region,
                mark,
                unreachable,
            ),
{
    if kind_of(region) == Coverage::Tested {
        Resolution {
            annotation: annotation_of(kind, false),
            region: annotation_of(kind, false),
            issue: None,
        }
    } else {
        Resolution { annotation: region, region, issue: Some(Issue::NestedBegin(kind)) }
    }
}

/// A marker that closes a region, in a region.
fn resolve_end(region: LineAnnotation, kind: Coverage) -> (resolved: Resolution)
    ensures
        forall|mark: LineMark, unreachable: bool|
            end_kind(mark) == Some(kind) ==> resolved == #[trigger] resolution(
                region,
                mark,
                unreachable,
            ),
{
    if kind_of(region) == kind {
        Resolution {
            annotation: annotation_of(kind, false),
            region: LineAnnotation::Tested(false),
            issue: None,
        }
    } else {
        Resolution { annotation: region, region, issue: Some(Issue::NestedEnd(kind)) }
    }
}

/// Resolves one line: `region` is the region open before it, `mark` its
/// marker, and `unreachable` says whether it holds unreachable code.
pub fn resolve_line(region: LineAnnotation, mark: LineMark, unreachable: bool) -> (resolved:
    Resolution)
    ensures
        resolved == resolution(region, mark, unreachable),
{
    match mark {
        LineMark::Unmarked => {
            if unreachable {
                Resolution { annotation: LineAnnotation::NotTested(false), region, issue: None }
            } else {
                Resolution { annotation: region, region, issue: None }
            }
        },
        LineMark::LineTested => resolve_own(region, Coverage::Tested),
        LineMark::LineMaybeTested => resolve_own(region, Coverage::MaybeTested),
        LineMark::LineNotTested => resolve_own(region, Coverage::NotTested),
        LineMark::LineFlakyTested => resolve_own(region, Coverage::FlakyTested),
        LineMark::BeginMaybeTested => resolve_begin(region, Coverage::MaybeTested),
        LineMark::BeginNotTested => resolve_begin(region, Coverage::NotTested),
        LineMark::BeginFlakyTested => resolve_begin(region, Coverage::FlakyTested),
        LineMark::EndMaybeTested => resolve_end(region, Coverage::MaybeTested),
        LineMark::EndNotTested => resolve_end(region, Coverage::NotTested),
        LineMark::EndFlakyTested => resolve_end(region, Coverage::FlakyTested),
        LineMark::FileMaybeTested | LineMark::FileNotTested | LineMark::FileFlakyTested => {
            Resolution { annotation: region, region, issue: None }
        },
    }
}

} // verus!
