//! Reads the argument of the attribute: the path of the reporting macro.

use crate::model::{
    CallableReference, CallableView, ReportMode, TransformError, TransformErrorView,
};
use crate::syntax::{parsed_path, read_path, RawPath, RawPathView};
use vstd::prelude::*;

verus! {

/// The message for a path that parses but cannot name a macro.
pub const NOT_A_MACRO_PATH: &'static str =
    "expected a path to a macro, made of identifiers, such as `bevy::log::warn`";

/// A parsed path can name a macro when no attribute precedes it, it is not
/// qualified, it has a segment, and no segment carries generic arguments.
pub open spec fn names_macro(p: RawPathView) -> bool {
    &&& p.attributes == 0
    &&& !p.qualified
    &&& p.segments.len() > 0
    &&& forall|i: int| 0 <= i < p.segments.len() ==> (#[trigger] p.segments[i]).plain
}

/// The reference that a parsed path stands for in a mode.
pub open spec fn callable_of(p: RawPathView, mode: ReportMode) -> CallableView {
    CallableView {
        leading_colon: p.leading_colon,
        segments: Seq::new(p.segments.len(), |i: int| p.segments[i].name),
        mode,
    }
}

/// What the argument of the attribute comes to, given what `syn` made of
/// it: the parser's error, the error for a path that names no macro, or
/// the reference.
pub open spec fn payload_outcome(
    parsed: Result<RawPathView, Seq<char>>,
    mode: ReportMode,
) -> Result<CallableView, TransformErrorView> {
    match parsed {
        Err(message) => Err(TransformErrorView::AttributePayload { message }),
        Ok(p) => if names_macro(p) {
            Ok(callable_of(p, mode))
        } else {
            Err(TransformErrorView::AttributePayload { message: NOT_A_MACRO_PATH@ })
        },
    }
}

/// The view of a reference or of the error in its place.
pub open spec fn callable_result_view(r: Result<CallableReference, TransformError>) -> Result<
    CallableView,
    TransformErrorView,
> {
    match r {
        Ok(c) => Ok(c@),
        Err(e) => Err(e@),
    }
}

/// Whether every segment is without generic arguments.
fn all_plain(path: &RawPath) -> (b: bool)
    ensures
        b == forall|i: int| 0 <= i < path@.segments.len() ==> (#[trigger] path@.segments[i]).plain,
{
    let mut i: usize = 0;
    while i < path.segments.len()
        invariant
            i <= path.segments.len(),
            forall|j: int| 0 <= j < i ==> (#[trigger] path@.segments[j]).plain,
        decreases path.segments.len() - i,
    {
        if !path.segments[i].plain {
            assert(!path@.segments[i as int].plain);
            return false;
        }
        i += 1;
    }
    true
}

/// Makes the reference of a parsed path, or refuses a path that cannot
/// name a macro.
pub fn callable_from_path(path: RawPath, mode: ReportMode) -> (r: Result<
    CallableReference,
    TransformError,
>)
    ensures
        callable_result_view(r) == payload_outcome(Ok(path@), mode),
        r matches Ok(c) ==> c.well_formed(),
{
    if path.attributes != 0 || path.qualified || path.segments.len() == 0 || !all_plain(&path) {
        return Err(TransformError::AttributePayload { message: NOT_A_MACRO_PATH.to_owned() });
    }
    let mut segments: Vec<String> = Vec::new();
    let mut i: usize = 0;
    while i < path.segments.len()
        invariant
            i <= path.segments.len(),
            segments@.len() == i,
            forall|j: int| 0 <= j < i ==> (#[trigger] segments@[j])@ == path.segments@[j].name@,
        decreases path.segments.len() - i,
    {
        segments.push(path.segments[i].name.clone());
        i += 1;
    }
    let c = CallableReference { leading_colon: path.leading_colon, segments, mode };
    assert(c@.segments =~= callable_of(path@, mode).segments);
    Ok(c)
}

/// Reads the argument of the attribute as the path of a reporting macro to
/// be called in `mode`. Fails where `syn` does not parse the text as a path
/// expression, and where the path cannot name a macro.
pub fn parse_callable(text: &str, mode: ReportMode) -> (r: Result<CallableReference, TransformError>)
    ensures
        callable_result_view(r) == payload_outcome(parsed_path(text@), mode),
        r matches Ok(c) ==> c.well_formed(),
{
    match read_path(text) {
        Ok(path) => callable_from_path(path, mode),
        Err(message) => Err(TransformError::AttributePayload { message }),
    }
}

} // verus!
