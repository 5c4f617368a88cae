//! The whole rewrite, from the attribute's argument and the annotated
//! function to the text of the replacement.
//!
//! The return type of the annotated function is not looked at. Where it is
//! not a `Result` whose success carries nothing, the replacement is still
//! written, and the compiler refuses it later.

use crate::emit::{emit, transformed_text};
use crate::extract::{extract_function, extraction};
use crate::model::{
    CallableReference, FunctionItem, ReportMode, TransformError, TransformErrorView,
};
use crate::reporter::{parse_callable, payload_outcome};
use crate::synth::{transform_item, transformed};
use crate::syntax::{parsed_function, parsed_path, RawFunctionView, RawPathView};
use vstd::prelude::*;

verus! {

/// What a rewrite comes to, given what `syn` made of the function and of
/// the attribute's argument: the error of the function if it has one, else
/// the error of the argument if it has one, else the replacement written
/// out.
pub open spec fn rewriting(
    function: Result<RawFunctionView, Seq<char>>,
    path: Result<RawPathView, Seq<char>>,
    mode: ReportMode,
) -> Result<Seq<char>, TransformErrorView> {
    match extraction(function) {
        Err(e) => Err(e),
        Ok(f) => match payload_outcome(path, mode) {
            Err(e) => Err(e),
            Ok(c) => Ok(transformed_text(transformed(f, c))),
        },
    }
}

/// The view of a text or of the error in its place.
pub open spec fn text_result_view(r: Result<String, TransformError>) -> Result<
    Seq<char>,
    TransformErrorView,
> {
    match r {
        Ok(s) => Ok(s@),
        Err(e) => Err(e@),
    }
}

/// Writes the replacement for a function that reports to `reporter`.
pub fn rewrite(item: FunctionItem, reporter: CallableReference) -> (out: String)
    ensures
        out@ == transformed_text(transformed(item@, reporter@)),
{
    let t = transform_item(item, reporter);
    emit(&t)
}

/// Rewrites the function in `item` so that it returns nothing and reports
/// a failure to the macro that `attr` names, called as `mode` says.
pub fn transform(attr: &str, item: &str, mode: ReportMode) -> (r: Result<String, TransformError>)
    ensures
        text_result_view(r) == rewriting(parsed_function(item@), parsed_path(attr@), mode),
{
    let function = match extract_function(item) {
        Ok(function) => function,
        Err(e) => {
            return Err(e);
        },
    };
    let reporter = match parse_callable(attr, mode) {
        Ok(reporter) => reporter,
        Err(e) => {
            return Err(e);
        },
    };
    Ok(rewrite(function, reporter))
}

/// Rewrites the function in `item` so that it returns nothing and hands a
/// failure to the macro that `attr` names, the error as its only argument.
pub fn res_system(attr: &str, item: &str) -> (r: Result<String, TransformError>)
    ensures
        text_result_view(r) == rewriting(
            parsed_function(item@),
            parsed_path(attr@),
            ReportMode::Direct,
        ),
{
    transform(attr, item, ReportMode::Direct)
}

/// Rewrites the function in `item` so that it returns nothing and hands a
/// failure to the macro that `attr` names, after the template `"{}"`.
pub fn ressys_fmt(attr: &str, item: &str) -> (r: Result<String, TransformError>)
    ensures
        text_result_view(r) == rewriting(
            parsed_function(item@),
            parsed_path(attr@),
            ReportMode::Formatted,
        ),
{
    transform(attr, item, ReportMode::Formatted)
}

} // verus!
