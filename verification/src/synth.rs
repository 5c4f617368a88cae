//! Builds the replacement from the parts of the annotated function.

use crate::forward::{forwarding, forwarding_arguments};
use crate::model::{
    forward_views, parameter_views, CallableReference, CallableView, ForwardArg, ForwardView,
    FunctionItem, FunctionView, Parameter, ParameterView, ReportArg, ReportMode,
    TransformedFunction, TransformedView,
};
use vstd::prelude::*;

verus! {

/// The name under which the annotated function is nested in its replacement.
pub const INNER_NAME: &'static str = "inner_fn_for_res_system";

/// A parameter as the replacement declares it: a named binding without
/// `mut`, anything else unchanged.
pub open spec fn stripped(p: ParameterView) -> ParameterView {
    match p {
        ParameterView::Simple { attributes, by_ref, mutable, name, ty } => ParameterView::Simple {
            attributes,
            by_ref,
            mutable: false,
            name,
            ty,
        },
        ParameterView::Unsupported { .. } => p,
    }
}

/// The parameters of the replacement: those of the annotated function, each
/// stripped.
pub open spec fn outer_params(params: Seq<ParameterView>) -> Seq<ParameterView> {
    Seq::new(params.len(), |i: int| stripped(params[i]))
}

/// The arguments with which the reporting macro is called in a mode: the
/// error alone, or the template and the error.
pub open spec fn report_arguments_for(mode: ReportMode) -> Seq<ReportArg> {
    match mode {
        ReportMode::Direct => seq![ReportArg::ErrorValue],
        ReportMode::Formatted => seq![ReportArg::Template, ReportArg::ErrorValue],
    }
}

/// The annotated function under the fixed name, nothing else changed.
pub open spec fn renamed(item: FunctionView) -> FunctionView {
    FunctionView { name: INNER_NAME@, ..item }
}

/// The replacement for `item` that calls the nested function with
/// `arguments` and reports to `reporter`.
pub open spec fn assembled(
    item: FunctionView,
    reporter: CallableView,
    arguments: Seq<ForwardView>,
) -> TransformedView {
    TransformedView {
        name: item.name,
        params: outer_params(item.params),
        inner: renamed(item),
        arguments,
        reporter,
        report_arguments: report_arguments_for(reporter.mode),
    }
}

/// The replacement for `item` that reports to `reporter`: the one that
/// passes every parameter on.
pub open spec fn transformed(item: FunctionView, reporter: CallableView) -> TransformedView {
    assembled(item, reporter, forwarding(item.params))
}

/// The parameter as the replacement declares it.
pub fn strip_mutability(param: &Parameter) -> (out: Parameter)
    ensures
        out@ == stripped(param@),
{
    match param {
        Parameter::Simple { attributes, by_ref, mutable, name, ty } => Parameter::Simple {
            attributes: attributes.clone(),
            by_ref: *by_ref,
            mutable: false,
            name: name.clone(),
            ty: ty.clone(),
        },
        Parameter::Unsupported { text, receiver } => Parameter::Unsupported {
            text: text.clone(),
            receiver: *receiver,
        },
    }
}

/// The parameters of the replacement: as many as given, in the same order.
pub fn outer_parameters(params: &Vec<Parameter>) -> (out: Vec<Parameter>)
    ensures
        parameter_views(out@) == outer_params(parameter_views(params@)),
{
    let mut out: Vec<Parameter> = Vec::new();
    let mut i: usize = 0;
    while i < params.len()
        invariant
            i <= params.len(),
            out@.len() == i,
            forall|j: int| 0 <= j < i ==> (#[trigger] out@[j])@ == stripped(params@[j]@),
        decreases params.len() - i,
    {
        out.push(strip_mutability(&params[i]));
        i += 1;
    }
    out
}

/// The arguments of the call of the reporting macro in a mode.
pub fn report_arguments(mode: ReportMode) -> (args: Vec<ReportArg>)
    ensures
        args@ == report_arguments_for(mode),
{
    let mut args: Vec<ReportArg> = Vec::new();
    match mode {
        ReportMode::Direct => {},
        ReportMode::Formatted => {
            args.push(ReportArg::Template);
        },
    }
    args.push(ReportArg::ErrorValue);
    args
}

/// Builds the replacement for `item`: same name, the parameters without
/// `mut`, `item` itself nested under `INNER_NAME`, called with `arguments`,
/// its failure reported to `reporter` as the mode of `reporter` says.
pub fn synthesize(item: FunctionItem, reporter: CallableReference, arguments: Vec<ForwardArg>) -> (out:
    TransformedFunction)
    ensures
        out@ == assembled(item@, reporter@, forward_views(arguments@)),
{
    let params = outer_parameters(&item.params);
    let report_arguments = report_arguments(reporter.mode);
    let FunctionItem {
        attributes,
        visibility,
        qualifiers,
        name,
        generics,
        params: declared,
        trailing_comma,
        variadic,
        return_type,
        where_clause,
        body,
    } = item;
    let inner = FunctionItem {
        attributes,
        visibility,
        qualifiers,
        name: INNER_NAME.to_owned(),
        generics,
        params: declared,
        trailing_comma,
        variadic,
        return_type,
        where_clause,
        body,
    };
    TransformedFunction { name, params, inner, arguments, reporter, report_arguments }
}

/// Builds the replacement for `item` that passes every parameter on.
pub fn transform_item(item: FunctionItem, reporter: CallableReference) -> (out: TransformedFunction)
    ensures
        out@ == transformed(item@, reporter@),
{
    let arguments = forwarding_arguments(&item.params);
    synthesize(item, reporter, arguments)
}

} // verus!
