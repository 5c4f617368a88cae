//! Reads a function from its source text and sorts its parameters into
//! those that can be passed on and those that cannot.

use crate::model::{
    FunctionItem, FunctionView, Parameter, ParameterView, TransformError, TransformErrorView,
};
use crate::syntax::{
    parsed_function, read_binding, read_inputs, read_item, read_signature, RawFunctionView,
    RawInput, RawInputView, RawItem, RawSignature,
};
use vstd::prelude::*;

verus! {

/// The parameter that an input is: a named binding where it is an
/// identifier pattern without a subpattern, and otherwise unsupported, its
/// text and its kind kept.
pub open spec fn parameter_of(input: RawInputView) -> ParameterView {
    match input.binding {
        Some(b) => if b.nested {
            ParameterView::Unsupported { text: input.text, receiver: input.receiver }
        } else {
            ParameterView::Simple {
                attributes: b.attributes,
                by_ref: b.by_ref,
                mutable: b.mutable,
                name: b.name,
                ty: b.ty,
            }
        },
        None => ParameterView::Unsupported { text: input.text, receiver: input.receiver },
    }
}

/// The function that a parsed function is: every part as it is, each input
/// sorted.
pub open spec fn function_of(f: RawFunctionView) -> FunctionView {
    FunctionView {
        attributes: f.attributes,
        visibility: f.visibility,
        qualifiers: f.qualifiers,
        name: f.name,
        generics: f.generics,
        params: Seq::new(f.inputs.len(), |i: int| parameter_of(f.inputs[i])),
        trailing_comma: f.trailing_comma,
        variadic: f.variadic,
        return_type: f.output,
        where_clause: f.where_clause,
        body: f.body,
    }
}

/// What a source text comes to, given what `syn` made of it: the parser's
/// error, or the function. No parameter makes the extraction fail.
pub open spec fn extraction(parsed: Result<RawFunctionView, Seq<char>>) -> Result<
    FunctionView,
    TransformErrorView,
> {
    match parsed {
        Err(message) => Err(TransformErrorView::Item { message }),
        Ok(f) => Ok(function_of(f)),
    }
}

/// The view of a function or of the error in its place.
pub open spec fn function_result_view(r: Result<FunctionItem, TransformError>) -> Result<
    FunctionView,
    TransformErrorView,
> {
    match r {
        Ok(f) => Ok(f@),
        Err(e) => Err(e@),
    }
}

/// Sorts one input.
pub fn classify_input(input: RawInput) -> (param: Parameter)
    ensures
        param@ == parameter_of(input@),
{
    match input.binding {
        Some(b) => {
            if b.nested {
                Parameter::Unsupported { text: input.text, receiver: input.receiver }
            } else {
                Parameter::Simple {
                    attributes: b.attributes,
                    by_ref: b.by_ref,
                    mutable: b.mutable,
                    name: b.name,
                    ty: b.ty,
                }
            }
        },
        None => Parameter::Unsupported { text: input.text, receiver: input.receiver },
    }
}

/// Puts a function together from what was read of it.
pub fn assemble(
    item: RawItem,
    signature: RawSignature,
    params: Vec<Parameter>,
    trailing_comma: bool,
) -> (f: FunctionItem)
    ensures
        f.trailing_comma == trailing_comma,
        f.attributes == item.attributes,
        f.visibility == item.visibility,
        f.body == item.body,
        f.qualifiers == signature.qualifiers,
        f.name == signature.name,
        f.generics == signature.generics,
        f.variadic == signature.variadic,
        f.return_type == signature.output,
        f.where_clause == signature.where_clause,
        f.params == params,
{
    FunctionItem {
        attributes: item.attributes,
        visibility: item.visibility,
        qualifiers: signature.qualifiers,
        name: signature.name,
        generics: signature.generics,
        params,
        trailing_comma,
        variadic: signature.variadic,
        return_type: signature.output,
        where_clause: signature.where_clause,
        body: item.body,
    }
}

/// Reads a function from its source text. Fails only where `syn` does not
/// parse the text as a function; an input that cannot be passed on is
/// recorded as unsupported.
pub fn extract_function(source: &str) -> (r: Result<FunctionItem, TransformError>)
    ensures
        function_result_view(r) == extraction(parsed_function(source@)),
{
    let item = match read_item(source) {
        Ok(item) => item,
        Err(message) => {
            return Err(TransformError::Item { message });
        },
    };
    let ghost parsed = parsed_function(source@)->Ok_0;
    let signature = read_signature(source).unwrap();
    let inputs = read_inputs(source).unwrap();
    let n = inputs.texts.len();
    let mut params: Vec<Parameter> = Vec::new();
    let mut i: usize = 0;
    while i < n
        invariant
            i <= n,
            n == parsed.inputs.len(),
            inputs.texts@.len() == n,
            inputs.receivers@.len() == n,
            forall|j: int| 0 <= j < n ==> (#[trigger] inputs.texts@[j])@ == parsed.inputs[j].text,
            forall|j: int| 0 <= j < n ==> #[trigger] inputs.receivers@[j] == parsed.inputs[j].receiver,
            parsed_function(source@) == Ok::<RawFunctionView, Seq<char>>(parsed),
            params@.len() == i,
            forall|j: int| 0 <= j < i ==> (#[trigger] params@[j])@ == parameter_of(parsed.inputs[j]),
        decreases n - i,
    {
        let binding = read_binding(source, i);
        let input = RawInput { text: inputs.texts[i].clone(), receiver: inputs.receivers[i], binding };
        params.push(classify_input(input));
        i += 1;
    }
    let f = assemble(item, signature, params, inputs.trailing_comma);
    assert(f@.params =~= function_of(parsed).params);
    Ok(f)
}

} // verus!
