//! What holds of every rewrite, proved from the definitions of the stages.

use crate::emit::{
    inputs_text, joined, report_texts, signature_text, transformed_text, ERROR_NAME, TEMPLATE,
};
use crate::extract::{extraction, function_of};
use crate::forward::forward_of;
use crate::model::{
    CallableView, ForwardView, FunctionView, ParamShape, ParameterView, ReportArg, ReportMode,
    TransformErrorView,
};
use crate::reporter::{callable_of, payload_outcome};
use crate::synth::{transformed, INNER_NAME};
use crate::syntax::{RawFunctionView, RawPathView, RawSegmentView};
use crate::transform::rewriting;
use vstd::prelude::*;

verus! {

/// The replacement, the function nested in it and the call of that
/// function have as many parameters and arguments as the annotated function
/// has parameters; the nested function has the parameters of the annotated
/// function, and the replacement has its name.
pub proof fn law_counts_agree(item: FunctionView, reporter: CallableView)
    ensures
        transformed(item, reporter).params.len() == item.params.len(),
        transformed(item, reporter).inner.params.len() == item.params.len(),
        transformed(item, reporter).arguments.len() == item.params.len(),
        transformed(item, reporter).name == item.name,
{
}

/// Where every parameter of the annotated function is a named binding, the
/// replacement has the same number of parameters with the same names in
/// the same order, and the call of the nested function passes each of them
/// on by its name, in that order.
pub proof fn law_simple_parameters_forwarded(item: FunctionView, reporter: CallableView)
    requires
        forall|i: int|
            0 <= i < item.params.len() ==> (#[trigger] item.params[i]).shape()
                == ParamShape::Simple,
    ensures
        transformed(item, reporter).params.len() == item.params.len(),
        transformed(item, reporter).arguments.len() == item.params.len(),
        forall|i: int|
            0 <= i < item.params.len() ==> {
                &&& (#[trigger] transformed(item, reporter).params[i]).shape() == ParamShape::Simple
                &&& transformed(item, reporter).params[i].name() == item.params[i].name()
                &&& item.params[i].name() matches Some(name) && transformed(
                    item,
                    reporter,
                ).arguments[i] == ForwardView::Name(name)
            },
        transformed(item, reporter).inner.name == INNER_NAME@,
{
}

/// The signature of the replacement does not depend on the return type of
/// the annotated function: it declares none.
pub proof fn law_return_type_erased(
    item: FunctionView,
    other_return_type: Seq<char>,
    reporter: CallableView,
)
    ensures
        signature_text(transformed(item, reporter)) == signature_text(
            transformed(FunctionView { return_type: other_return_type, ..item }, reporter),
        ),
{
}

/// The nested function has the same name in every replacement, whatever
/// the annotated function is called and whatever macro is reported to.
pub proof fn law_inner_name_fixed(
    first: FunctionView,
    first_reporter: CallableView,
    second: FunctionView,
    second_reporter: CallableView,
)
    ensures
        transformed(first, first_reporter).inner.name == INNER_NAME@,
        transformed(first, first_reporter).inner.name == transformed(
            second,
            second_reporter,
        ).inner.name,
{
}

/// No named binding of the replacement is declared `mut`, and the nested
/// function keeps every parameter exactly as the annotated function declares
/// it, and everything else of that function but its name.
pub proof fn law_mutability_stripped_outside_only(item: FunctionView, reporter: CallableView)
    ensures
        forall|i: int|
            0 <= i < item.params.len() ==> !(#[trigger] transformed(
                item,
                reporter,
            ).params[i]).is_mutable(),
        transformed(item, reporter).inner.params == item.params,
        transformed(item, reporter).inner == (FunctionView { name: INNER_NAME@, ..item }),
{
}

/// In the `Direct` mode the reporting macro is called with the error value
/// as its only argument.
pub proof fn law_direct_reports_error_alone(item: FunctionView, reporter: CallableView)
    requires
        reporter.mode == ReportMode::Direct,
    ensures
        transformed(item, reporter).report_arguments == seq![ReportArg::ErrorValue],
        transformed(item, reporter).reporter == reporter,
        joined(report_texts(transformed(item, reporter).report_arguments), " , "@) == ERROR_NAME@,
{
}

/// In the `Formatted` mode the reporting macro is called with the template
/// and then the error value.
pub proof fn law_formatted_reports_template_then_error(item: FunctionView, reporter: CallableView)
    requires
        reporter.mode == ReportMode::Formatted,
    ensures
        transformed(item, reporter).report_arguments == seq![
            ReportArg::Template,
            ReportArg::ErrorValue,
        ],
        transformed(item, reporter).reporter == reporter,
        joined(report_texts(transformed(item, reporter).report_arguments), " , "@) == TEMPLATE@
            + " , "@ + ERROR_NAME@,
{
    let parts = report_texts(transformed(item, reporter).report_arguments);
    assert(joined(parts.drop_last(), " , "@) == TEMPLATE@);
}

/// A parameter that cannot be passed on puts the marker at its own
/// position in the call of the nested function, and every other position
/// holds what its own parameter alone determines.
pub proof fn law_marker_is_local(item: FunctionView, reporter: CallableView, position: int)
    requires
        0 <= position < item.params.len(),
        item.params[position].shape() == ParamShape::Unsupported,
    ensures
        item.params[position] matches ParameterView::Unsupported { receiver, .. } && transformed(
            item,
            reporter,
        ).arguments[position] == (ForwardView::Marker { receiver }),
        transformed(item, reporter).params[position] == item.params[position],
        forall|j: int|
            0 <= j < item.params.len() ==> #[trigger] transformed(item, reporter).arguments[j]
                == forward_of(item.params[j]),
        forall|j: int, other: ParameterView|
            0 <= j < item.params.len() && j != position ==> #[trigger] transformed(
                FunctionView { params: item.params.update(position, other), ..item },
                reporter,
            ).arguments[j] == transformed(item, reporter).arguments[j],
{
}

/// No input of a function makes the rewrite fail: a text that parses as a
/// function is rewritten whenever the attribute's argument names a macro.
pub proof fn law_parameters_never_abort(
    function: RawFunctionView,
    path: Result<RawPathView, Seq<char>>,
    mode: ReportMode,
)
    ensures
        extraction(Ok(function)) == Ok::<FunctionView, TransformErrorView>(
            function_of(function),
        ),
        function_of(function).params.len() == function.inputs.len(),
        rewriting(Ok(function), path, mode) is Ok <==> payload_outcome(path, mode) is Ok,
{
}

/// A function `boom` that takes nothing and returns an error, rewritten in
/// the `Direct` mode with the path `report::warn`, becomes a function
/// `boom` that takes and returns nothing, holds the function nested under
/// the fixed name, calls it without arguments, and hands the error to
/// `report::warn` where the call fails.
pub proof fn law_boom_is_reported(function: RawFunctionView, path: RawPathView)
    requires
        function.attributes.len() == 0,
        function.visibility.len() == 0,
        function.qualifiers.len() == 0,
        function.name == "boom"@,
        function.generics.len() == 0,
        function.inputs.len() == 0,
        function.variadic.len() == 0,
        function.output == "-> Result < () , String >"@,
        function.where_clause.len() == 0,
        function.body == "Err (\"boom\" . to_owned ())"@,
        path.attributes == 0,
        !path.qualified,
        !path.leading_colon,
        path.segments == seq![
            RawSegmentView { name: "report"@, plain: true },
            RawSegmentView { name: "warn"@, plain: true },
        ],
    ensures
        rewriting(Ok(function), Ok(path), ReportMode::Direct) == Ok::<
            Seq<char>,
            TransformErrorView,
        >(
            "fn boom ( ) { fn inner_fn_for_res_system ( ) -> Result < () , String > { Err (\"boom\" . to_owned ()) } if let Err ( err ) = inner_fn_for_res_system ( ) { report :: warn ! ( err ) } }"@,
        ),
{
    reveal_strlit("boom");
    reveal_strlit("-> Result < () , String >");
    reveal_strlit("Err (\"boom\" . to_owned ())");
    reveal_strlit("report");
    reveal_strlit("warn");
    reveal_strlit("inner_fn_for_res_system");
    reveal_strlit("err");
    reveal_strlit("fn ");
    reveal_strlit("( ");
    reveal_strlit(") ");
    reveal_strlit("{ ");
    reveal_strlit("}");
    reveal_strlit(" ");
    reveal_strlit(" , ");
    reveal_strlit(" :: ");
    reveal_strlit("if let Err ( ");
    reveal_strlit(") = ");
    reveal_strlit(") { ");
    reveal_strlit("! ( ");
    reveal_strlit(") }");
    reveal_strlit(
        "fn boom ( ) { fn inner_fn_for_res_system ( ) -> Result < () , String > { Err (\"boom\" . to_owned ()) } if let Err ( err ) = inner_fn_for_res_system ( ) { report :: warn ! ( err ) } }",
    );
    let f = function_of(function);
    let c = callable_of(path, ReportMode::Direct);
    let t = transformed(f, c);
    assert(inputs_text(t.params, t.inner.trailing_comma, t.inner.variadic)
        =~= Seq::<char>::empty());
    assert(joined(c.segments.drop_last(), " :: "@) =~= "report"@);
    assert(transformed_text(t)
        =~= "fn boom ( ) { fn inner_fn_for_res_system ( ) -> Result < () , String > { Err (\"boom\" . to_owned ()) } if let Err ( err ) = inner_fn_for_res_system ( ) { report :: warn ! ( err ) } }"@);
}

} // verus!
