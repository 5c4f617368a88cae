//! Writes a function and its replacement out as source text.
//!
//! The text is a sequence of tokens separated by single spaces. A part that
//! is not written, such as a visibility, is an empty text and leaves no
//! space behind.

use crate::model::{
    attribute_views, forward_views, parameter_views, texts, Attribute, AttributeView,
    CallableReference, CallableView, ForwardArg, ForwardView, FunctionItem, FunctionView,
    Parameter, ParameterView, ReportArg, TransformedFunction, TransformedView,
};
use vstd::prelude::*;

verus! {

/// What the marker for a receiver is written as: a call that stops
/// compilation with a message, at the place of the argument it stands for.
/// The message is part of the output, spelling included.
pub const RECEIVER_MARKER: &'static str = "compile_error ! (\"Ran into Reciever type in macro\")";

/// What the marker for a pattern is written as.
pub const PATTERN_MARKER: &'static str =
    "compile_error ! (\"Ran into a parameter that is not a plain name in macro\")";

/// The formatting template of the `Formatted` mode.
pub const TEMPLATE: &'static str = "\"{}\"";

/// The name that the replacement gives to the error it reports.
pub const ERROR_NAME: &'static str = "err";

/// The parts in order, with `sep` between each two of them.
pub open spec fn joined(parts: Seq<Seq<char>>, sep: Seq<char>) -> Seq<char>
    decreases parts.len(),
{
    if parts.len() == 0 {
        Seq::empty()
    } else if parts.len() == 1 {
        parts[0]
    } else {
        joined(parts.drop_last(), sep) + sep + parts.last()
    }
}

/// Joins the parts with `sep` between each two of them.
pub fn join(parts: &Vec<String>, sep: &str) -> (out: String)
    ensures
        out@ == joined(texts(parts@), sep@),
{
    let mut out = String::new();
    let mut i: usize = 0;
    let ghost all = texts(parts@);
    while i < parts.len()
        invariant
            i <= parts.len(),
            all == texts(parts@),
            out@ == joined(all.take(i as int), sep@),
        decreases parts.len() - i,
    {
        proof {
            assert(all.take(i + 1).drop_last() =~= all.take(i as int));
        }
        if i > 0 {
            out.append(sep);
        }
        out.append(parts[i].as_str());
        i += 1;
    }
    assert(all.take(i as int) =~= all);
    out
}

/// A part followed by a space, or nothing where the part is empty.
pub open spec fn word(part: Seq<char>) -> Seq<char> {
    if part.len() == 0 {
        part
    } else {
        part + " "@
    }
}

/// A parameter as it is declared: the attributes, `ref` and `mut` where
/// they are set, the name, a colon and the type; or the text that was kept.
pub open spec fn parameter_text(p: ParameterView) -> Seq<char> {
    match p {
        ParameterView::Simple { attributes, by_ref, mutable, name, ty } => word(attributes) + (
        if by_ref {
            "ref "@
        } else {
            Seq::empty()
        }) + (if mutable {
            "mut "@
        } else {
            Seq::empty()
        }) + name + " : "@ + ty,
        ParameterView::Unsupported { text, .. } => text,
    }
}

/// The declarations of the parameters, in order.
pub open spec fn parameter_texts(params: Seq<ParameterView>) -> Seq<Seq<char>> {
    Seq::new(params.len(), |i: int| parameter_text(params[i]))
}

/// What is written for a forwarded argument: the name, or the marker of
/// its kind.
pub open spec fn forward_text(a: ForwardView) -> Seq<char> {
    match a {
        ForwardView::Name(name) => name,
        ForwardView::Marker { receiver } => if receiver {
            RECEIVER_MARKER@
        } else {
            PATTERN_MARKER@
        },
    }
}

/// What is written for each forwarded argument, in order.
pub open spec fn forward_texts(args: Seq<ForwardView>) -> Seq<Seq<char>> {
    Seq::new(args.len(), |i: int| forward_text(args[i]))
}

/// What is written for an argument of the reporting macro.
pub open spec fn report_text(a: ReportArg) -> Seq<char> {
    match a {
        ReportArg::Template => TEMPLATE@,
        ReportArg::ErrorValue => ERROR_NAME@,
    }
}

/// What is written for each argument of the reporting macro, in order.
pub open spec fn report_texts(args: Seq<ReportArg>) -> Seq<Seq<char>> {
    Seq::new(args.len(), |i: int| report_text(args[i]))
}

/// The path of the reporting macro: `::` where it leads, then the segments
/// with `::` between them.
pub open spec fn callable_text(c: CallableView) -> Seq<char> {
    (if c.leading_colon {
        ":: "@
    } else {
        Seq::empty()
    }) + joined(c.segments, " :: "@)
}

/// The attributes that are inner, or those that are not, in order, each
/// as a word.
pub open spec fn attributes_text(attributes: Seq<AttributeView>, inner: bool) -> Seq<char>
    decreases attributes.len(),
{
    if attributes.len() == 0 {
        Seq::empty()
    } else {
        attributes_text(attributes.drop_last(), inner) + (if attributes.last().inner == inner {
            word(attributes.last().text)
        } else {
            Seq::empty()
        })
    }
}

/// What stands between the parentheses of a signature: the parameters with
/// commas between them, a comma after the last one where the list has one,
/// then the variadic argument if there is one, after a comma of its own
/// where a parameter precedes it and no comma does.
pub open spec fn inputs_text(
    params: Seq<ParameterView>,
    trailing_comma: bool,
    variadic: Seq<char>,
) -> Seq<char> {
    joined(parameter_texts(params), " , "@) + (if params.len() > 0 && trailing_comma {
        " ,"@
    } else {
        Seq::empty()
    }) + (if variadic.len() == 0 {
        variadic
    } else if params.len() == 0 {
        variadic
    } else if trailing_comma {
        " "@ + variadic
    } else {
        " , "@ + variadic
    })
}

/// What precedes the name of a function and of its replacement: the outer
/// attributes, the visibility, the qualifiers and `fn`.
pub open spec fn head_text(f: FunctionView) -> Seq<char> {
    attributes_text(f.attributes, false) + word(f.visibility) + word(f.qualifiers) + "fn "@
}

/// A function written out.
pub open spec fn function_text(f: FunctionView) -> Seq<char> {
    head_text(f) + word(f.name) + word(f.generics) + "( "@ + word(
        inputs_text(f.params, f.trailing_comma, f.variadic),
    ) + ") "@ + word(f.return_type) + word(f.where_clause) + "{ "@ + attributes_text(
        f.attributes,
        true,
    ) + word(f.body) + "}"@
}

/// The statement that calls the nested function and reports its failure.
pub open spec fn dispatch_text(t: TransformedView) -> Seq<char> {
    "if let Err ( "@ + word(ERROR_NAME@) + ") = "@ + word(t.inner.name) + "( "@ + word(
        joined(forward_texts(t.arguments), " , "@),
    ) + ") { "@ + word(callable_text(t.reporter)) + "! ( "@ + word(
        joined(report_texts(t.report_arguments), " , "@),
    ) + ") }"@
}

/// The signature of a replacement: the head and the generics of the nested
/// function, its own name and parameters, the `where` clause, and no return
/// type.
pub open spec fn signature_text(t: TransformedView) -> Seq<char> {
    head_text(t.inner) + word(t.name) + word(t.inner.generics) + "( "@ + word(
        inputs_text(t.params, t.inner.trailing_comma, t.inner.variadic),
    ) + ") "@ + word(t.inner.where_clause)
}

/// A replacement written out: its signature, and a body that holds the
/// inner attributes, the nested function and the statement that calls it.
pub open spec fn transformed_text(t: TransformedView) -> Seq<char> {
    signature_text(t) + "{ "@ + attributes_text(t.inner.attributes, true) + word(
        function_text(t.inner),
    ) + word(dispatch_text(t)) + "}"@
}

/// Appends a part and a space to a text, or nothing where the part is empty.
pub fn put(out: &mut String, part: &str)
    ensures
        final(out)@ == old(out)@ + word(part@),
{
    if !part.is_empty() {
        out.append(part);
        out.append(" ");
    }
}

/// Writes a parameter as it is declared.
pub fn write_parameter(param: &Parameter) -> (out: String)
    ensures
        out@ == parameter_text(param@),
{
    match param {
        Parameter::Simple { attributes, by_ref, mutable, name, ty } => {
            let mut out = String::new();
            put(&mut out, attributes.as_str());
            if *by_ref {
                out.append("ref ");
            }
            if *mutable {
                out.append("mut ");
            }
            out.append(name.as_str());
            out.append(" : ");
            out.append(ty.as_str());
            out
        },
        Parameter::Unsupported { text, .. } => text.clone(),
    }
}

/// Writes each parameter as it is declared.
pub fn write_parameters(params: &Vec<Parameter>) -> (out: Vec<String>)
    ensures
        texts(out@) == parameter_texts(parameter_views(params@)),
{
    let mut out: Vec<String> = Vec::new();
    let mut i: usize = 0;
    while i < params.len()
        invariant
            i <= params.len(),
            out@.len() == i,
            forall|j: int| 0 <= j < i ==> (#[trigger] out@[j])@ == parameter_text(params@[j]@),
        decreases params.len() - i,
    {
        out.push(write_parameter(&params[i]));
        i += 1;
    }
    out
}

/// Writes a forwarded argument.
pub fn write_forward(arg: &ForwardArg) -> (out: String)
    ensures
        out@ == forward_text(arg@),
{
    match arg {
        ForwardArg::Name(name) => name.clone(),
        ForwardArg::Marker { receiver } => {
            if *receiver {
                RECEIVER_MARKER.to_owned()
            } else {
                PATTERN_MARKER.to_owned()
            }
        },
    }
}

/// Writes each forwarded argument.
pub fn write_forwards(args: &Vec<ForwardArg>) -> (out: Vec<String>)
    ensures
        texts(out@) == forward_texts(forward_views(args@)),
{
    let mut out: Vec<String> = Vec::new();
    let mut i: usize = 0;
    while i < args.len()
        invariant
            i <= args.len(),
            out@.len() == i,
            forall|j: int| 0 <= j < i ==> (#[trigger] out@[j])@ == forward_text(args@[j]@),
        decreases args.len() - i,
    {
        out.push(write_forward(&args[i]));
        i += 1;
    }
    out
}

/// Writes each argument of the reporting macro.
pub fn write_report_arguments(args: &Vec<ReportArg>) -> (out: Vec<String>)
    ensures
        texts(out@) == report_texts(args@),
{
    let mut out: Vec<String> = Vec::new();
    let mut i: usize = 0;
    while i < args.len()
        invariant
            i <= args.len(),
            out@.len() == i,
            forall|j: int| 0 <= j < i ==> (#[trigger] out@[j])@ == report_text(args@[j]),
        decreases args.len() - i,
    {
        let text = match args[i] {
            ReportArg::Template => TEMPLATE.to_owned(),
            ReportArg::ErrorValue => ERROR_NAME.to_owned(),
        };
        out.push(text);
        i += 1;
    }
    out
}

/// Writes the path of the reporting macro.
pub fn write_callable(reporter: &CallableReference) -> (out: String)
    ensures
        out@ == callable_text(reporter@),
{
    let mut out = String::new();
    if reporter.leading_colon {
        out.append(":: ");
    }
    let path = join(&reporter.segments, " :: ");
    out.append(path.as_str());
    out
}

/// Writes the attributes that are inner, or those that are not.
pub fn write_attributes(attributes: &Vec<Attribute>, inner: bool) -> (out: String)
    ensures
        out@ == attributes_text(attribute_views(attributes@), inner),
{
    let mut out = String::new();
    let mut i: usize = 0;
    let ghost all = attribute_views(attributes@);
    while i < attributes.len()
        invariant
            i <= attributes.len(),
            all == attribute_views(attributes@),
            out@ == attributes_text(all.take(i as int), inner),
        decreases attributes.len() - i,
    {
        proof {
            assert(all.take(i + 1).drop_last() =~= all.take(i as int));
        }
        if attributes[i].inner == inner {
            put(&mut out, attributes[i].text.as_str());
        }
        i += 1;
    }
    assert(all.take(i as int) =~= all);
    out
}

/// Writes what stands between the parentheses of a signature.
pub fn write_inputs(params: &Vec<Parameter>, trailing_comma: bool, variadic: &String) -> (out:
    String)
    ensures
        out@ == inputs_text(parameter_views(params@), trailing_comma, variadic@),
{
    let declared = write_parameters(params);
    let mut out = join(&declared, " , ");
    if params.len() > 0 && trailing_comma {
        out.append(" ,");
    }
    if !variadic.as_str().is_empty() && params.len() > 0 {
        if trailing_comma {
            out.append(" ");
        } else {
            out.append(" , ");
        }
    }
    out.append(variadic.as_str());
    out
}

/// Writes what precedes the name of a function.
pub fn write_head(item: &FunctionItem) -> (out: String)
    ensures
        out@ == head_text(item@),
{
    let mut out = write_attributes(&item.attributes, false);
    put(&mut out, item.visibility.as_str());
    put(&mut out, item.qualifiers.as_str());
    out.append("fn ");
    out
}

/// Writes a function out.
pub fn write_function(item: &FunctionItem) -> (out: String)
    ensures
        out@ == function_text(item@),
{
    let mut out = write_head(item);
    put(&mut out, item.name.as_str());
    put(&mut out, item.generics.as_str());
    out.append("( ");
    let inputs = write_inputs(&item.params, item.trailing_comma, &item.variadic);
    put(&mut out, inputs.as_str());
    out.append(") ");
    put(&mut out, item.return_type.as_str());
    put(&mut out, item.where_clause.as_str());
    out.append("{ ");
    let inner = write_attributes(&item.attributes, true);
    out.append(inner.as_str());
    put(&mut out, item.body.as_str());
    out.append("}");
    out
}

/// Writes the statement that calls the nested function and reports its
/// failure.
pub fn write_dispatch(t: &TransformedFunction) -> (out: String)
    ensures
        out@ == dispatch_text(t@),
{
    let mut out = "if let Err ( ".to_owned();
    put(&mut out, ERROR_NAME);
    out.append(") = ");
    put(&mut out, t.inner.name.as_str());
    out.append("( ");
    let forwards = write_forwards(&t.arguments);
    let arguments = join(&forwards, " , ");
    put(&mut out, arguments.as_str());
    out.append(") { ");
    let path = write_callable(&t.reporter);
    put(&mut out, path.as_str());
    out.append("! ( ");
    let reports = write_report_arguments(&t.report_arguments);
    let reported = join(&reports, " , ");
    put(&mut out, reported.as_str());
    out.append(") }");
    out
}

/// Writes the signature of a replacement.
pub fn write_signature(t: &TransformedFunction) -> (out: String)
    ensures
        out@ == signature_text(t@),
{
    let mut out = write_head(&t.inner);
    put(&mut out, t.name.as_str());
    put(&mut out, t.inner.generics.as_str());
    out.append("( ");
    let inputs = write_inputs(&t.params, t.inner.trailing_comma, &t.inner.variadic);
    put(&mut out, inputs.as_str());
    out.append(") ");
    put(&mut out, t.inner.where_clause.as_str());
    out
}

/// Writes a replacement out.
pub fn emit(t: &TransformedFunction) -> (out: String)
    ensures
        out@ == transformed_text(t@),
{
    let mut out = write_signature(t);
    out.append("{ ");
    let inner = write_attributes(&t.inner.attributes, true);
    out.append(inner.as_str());
    let nested = write_function(&t.inner);
    put(&mut out, nested.as_str());
    let dispatch = write_dispatch(t);
    put(&mut out, dispatch.as_str());
    out.append("}");
    out
}

} // verus!
