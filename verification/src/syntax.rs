//! What `syn` reads in a source text, as plain values.
//!
//! A parsed tree cannot be looked into by verified code, so each reader below
//! parses the text itself and hands back strings, flags and counts. Nothing in
//! this module is proved: the readers are believed to return what the two
//! names `parsed_path` and `parsed_function` stand for, which is whatever
//! `syn` makes of the text.
//!
//! `proc_macro2` reads and prints tokens in one of two ways: with the
//! compiler's lexer and printer while a procedural macro is expanded, with
//! its own everywhere else. Every reader begins by calling
//! `proc_macro2::fallback::force`, which pins it to its own, so that a text is
//! read and written out in the same way in every process. That call is for
//! the whole process, and it stays in force after the reader returns. A
//! thread that calls `proc_macro2::fallback::unforce` while a reader runs
//! in another is not provided for.
//!
//! `syn` parses by recursive descent and bounds no depth: a text nested
//! more deeply than the stack of the thread allows ends the process. No
//! reader can leave such a text out, since nothing but the parse measures it.

use crate::model::{attribute_views, Attribute, AttributeView};
use quote::ToTokens;
use quote::TokenStreamExt;
use vstd::prelude::*;

verus! {

/// One segment of a path as `syn` parsed it.
#[derive(Clone, Debug, PartialEq, Eq)]
pub struct RawSegment {
    /// The identifier.
    pub name: String,
    /// Whether the segment carries no generic arguments.
    pub plain: bool,
}

pub struct RawSegmentView {
    pub name: Seq<char>,
    pub plain: bool,
}

impl View for RawSegment {
    type V = RawSegmentView;

    open spec fn view(&self) -> RawSegmentView {
        RawSegmentView { name: self.name@, plain: self.plain }
    }
}

/// A path expression as `syn` parsed it.
#[derive(Clone, Debug, PartialEq, Eq)]
pub struct RawPath {
    /// How many attributes precede the path.
    pub attributes: usize,
    /// Whether the path is qualified, as in `<T as Trait>::name`.
    pub qualified: bool,
    /// Whether the path starts with `::`.
    pub leading_colon: bool,
    pub segments: Vec<RawSegment>,
}

pub struct RawPathView {
    pub attributes: nat,
    pub qualified: bool,
    pub leading_colon: bool,
    pub segments: Seq<RawSegmentView>,
}

impl View for RawPath {
    type V = RawPathView;

    open spec fn view(&self) -> RawPathView {
        RawPathView {
            attributes: self.attributes as nat,
            qualified: self.qualified,
            leading_colon: self.leading_colon,
            segments: Seq::new(self.segments@.len(), |i: int| self.segments@[i]@),
        }
    }
}

/// What `syn::parse_str::<syn::ExprPath>` makes of a text once
/// `proc_macro2` is pinned to its own lexer: the path it parsed, or the
/// message of the error it reported.
pub uninterp spec fn parsed_path(text: Seq<char>) -> Result<RawPathView, Seq<char>>;

/// Pins `proc_macro2` to its own lexer and parses `text` with
/// `syn::parse_str::<syn::ExprPath>`.
///
/// Believed: the result is `parsed_path` of the text, the parsed path copied
/// field by field and the error given by its message.
#[verifier::external_body]
pub(crate) fn read_path(text: &str) -> (r: Result<RawPath, String>)
    ensures
        r is Ok <==> parsed_path(text@) is Ok,
        r is Ok ==> r->Ok_0@ == parsed_path(text@)->Ok_0,
        r is Err ==> r->Err_0@ == parsed_path(text@)->Err_0,
{
    proc_macro2::fallback::force();
    let p = syn::parse_str::<syn::ExprPath>(text).map_err(|e| e.to_string())?;
    Ok(RawPath {
        attributes: p.attrs.len(),
        qualified: p.qself.is_some(),
        leading_colon: p.path.leading_colon.is_some(),
        segments: p.path.segments.iter().map(|s| RawSegment {
            name: s.ident.to_string(),
            plain: s.arguments.is_none(),
        }).collect(),
    })
}

/// What surrounds the signature of a parsed function.
#[derive(Clone, Debug, PartialEq, Eq)]
pub struct RawItem {
    pub attributes: Vec<Attribute>,
    /// The visibility, empty where none is written.
    pub visibility: String,
    /// The statements of the body, without its braces.
    pub body: String,
}

/// The signature of a parsed function, its inputs left out.
#[derive(Clone, Debug, PartialEq, Eq)]
pub struct RawSignature {
    /// `const`, `async`, `unsafe` and the ABI, as far as they are written.
    pub qualifiers: String,
    pub name: String,
    /// The generic parameters with their angle brackets, or nothing.
    pub generics: String,
    /// The variadic argument, or nothing.
    pub variadic: String,
    /// The arrow and the return type, or nothing.
    pub output: String,
    /// The `where` clause, or nothing.
    pub where_clause: String,
}

/// An input that is an identifier pattern with a type, in its parts.
#[derive(Clone, Debug, PartialEq, Eq)]
pub struct RawBinding {
    /// The attributes on the input.
    pub attributes: String,
    /// Whether the pattern says `ref`.
    pub by_ref: bool,
    /// Whether the pattern says `mut`.
    pub mutable: bool,
    pub name: String,
    /// Whether a subpattern follows the name, as in `pair @ (a, b)`.
    pub nested: bool,
    /// The type, without the colon.
    pub ty: String,
}

pub struct RawBindingView {
    pub attributes: Seq<char>,
    pub by_ref: bool,
    pub mutable: bool,
    pub name: Seq<char>,
    pub nested: bool,
    pub ty: Seq<char>,
}

impl View for RawBinding {
    type V = RawBindingView;

    open spec fn view(&self) -> RawBindingView {
        RawBindingView {
            attributes: self.attributes@,
            by_ref: self.by_ref,
            mutable: self.mutable,
            name: self.name@,
            nested: self.nested,
            ty: self.ty@,
        }
    }
}

/// The inputs of a parsed function as they stand in its signature.
#[derive(Clone, Debug, PartialEq, Eq)]
pub struct RawInputs {
    /// The tokens of each input, in order.
    pub texts: Vec<String>,
    /// For each input, whether it is a receiver: `self` in one of its forms.
    pub receivers: Vec<bool>,
    /// Whether a comma follows the last input.
    pub trailing_comma: bool,
}

/// One input of a parsed function.
#[derive(Clone, Debug, PartialEq, Eq)]
pub struct RawInput {
    /// The tokens of the whole input.
    pub text: String,
    /// Whether it is a receiver: `self` in one of its forms.
    pub receiver: bool,
    /// Its parts where it is an identifier pattern with a type; `None` for a
    /// receiver and for every other pattern.
    pub binding: Option<RawBinding>,
}

pub struct RawInputView {
    pub text: Seq<char>,
    pub receiver: bool,
    pub binding: Option<RawBindingView>,
}

impl View for RawInput {
    type V = RawInputView;

    open spec fn view(&self) -> RawInputView {
        RawInputView {
            text: self.text@,
            receiver: self.receiver,
            binding: match self.binding {
                Some(b) => Some(b@),
                None => None,
            },
        }
    }
}

/// A function as `syn` parsed it, every part written out as text.
pub struct RawFunctionView {
    pub attributes: Seq<AttributeView>,
    pub visibility: Seq<char>,
    pub qualifiers: Seq<char>,
    pub name: Seq<char>,
    pub generics: Seq<char>,
    pub inputs: Seq<RawInputView>,
    /// Whether a comma follows the last input.
    pub trailing_comma: bool,
    pub variadic: Seq<char>,
    pub output: Seq<char>,
    pub where_clause: Seq<char>,
    pub body: Seq<char>,
}

/// What `syn::parse_str::<syn::ItemFn>` makes of a text once `proc_macro2`
/// is pinned to its own lexer and printer: the function it parsed, each
/// part in the tokens that `proc_macro2` then prints, or the message of the
/// error it reported.
pub uninterp spec fn parsed_function(source: Seq<char>) -> Result<RawFunctionView, Seq<char>>;

/// Pins `proc_macro2` to its own lexer and printer, parses `source` with
/// `syn::parse_str::<syn::ItemFn>` and writes out the attributes, the
/// visibility and the statements of the body.
///
/// Believed: the call fails exactly where `parsed_function` is an error, with
/// that message, and otherwise the three parts are those of `parsed_function`.
#[verifier::external_body]
pub(crate) fn read_item(source: &str) -> (r: Result<RawItem, String>)
    ensures
        r is Ok <==> parsed_function(source@) is Ok,
        r is Err ==> r->Err_0@ == parsed_function(source@)->Err_0,
        r is Ok ==> attribute_views(r->Ok_0.attributes@) == parsed_function(
            source@,
        )->Ok_0.attributes,
        r is Ok ==> r->Ok_0.visibility@ == parsed_function(source@)->Ok_0.visibility,
        r is Ok ==> r->Ok_0.body@ == parsed_function(source@)->Ok_0.body,
{
    proc_macro2::fallback::force();
    let f = syn::parse_str::<syn::ItemFn>(source).map_err(|e| e.to_string())?;
    let mut body = proc_macro2::TokenStream::new();
    body.append_all(&f.block.stmts);
    Ok(RawItem {
        attributes: f.attrs.iter().map(|a| Attribute {
            inner: matches!(a.style, syn::AttrStyle::Inner(_)),
            text: a.to_token_stream().to_string(),
        }).collect(),
        visibility: f.vis.to_token_stream().to_string(),
        body: body.to_string(),
    })
}

/// Pins `proc_macro2` to its own lexer and printer, parses `source` with
/// `syn::parse_str::<syn::ItemFn>` and writes out the parts of the signature
/// other than its inputs.
///
/// Believed: the result is `Some` of those parts of `parsed_function`.
#[verifier::external_body]
pub(crate) fn read_signature(source: &str) -> (r: Option<RawSignature>)
    requires
        parsed_function(source@) is Ok,
    ensures
        r is Some,
        r->0.qualifiers@ == parsed_function(source@)->Ok_0.qualifiers,
        r->0.name@ == parsed_function(source@)->Ok_0.name,
        r->0.generics@ == parsed_function(source@)->Ok_0.generics,
        r->0.variadic@ == parsed_function(source@)->Ok_0.variadic,
        r->0.output@ == parsed_function(source@)->Ok_0.output,
        r->0.where_clause@ == parsed_function(source@)->Ok_0.where_clause,
{
    proc_macro2::fallback::force();
    let sig = syn::parse_str::<syn::ItemFn>(source).ok()?.sig;
    let mut qualifiers = proc_macro2::TokenStream::new();
    sig.constness.to_tokens(&mut qualifiers);
    sig.asyncness.to_tokens(&mut qualifiers);
    sig.unsafety.to_tokens(&mut qualifiers);
    sig.abi.to_tokens(&mut qualifiers);
    Some(RawSignature {
        qualifiers: qualifiers.to_string(),
        name: sig.ident.to_string(),
        generics: sig.generics.to_token_stream().to_string(),
        variadic: sig.variadic.to_token_stream().to_string(),
        output: sig.output.to_token_stream().to_string(),
        where_clause: sig.generics.where_clause.to_token_stream().to_string(),
    })
}

/// Pins `proc_macro2` to its own lexer and printer, parses `source` with
/// `syn::parse_str::<syn::ItemFn>` and writes out each input of the
/// signature, whether it is `syn::FnArg::Receiver`, and whether the list
/// ends in a comma.
///
/// Believed: the result is `Some`, with one text and one flag for each input
/// of `parsed_function`, in order, and its trailing comma.
#[verifier::external_body]
pub(crate) fn read_inputs(source: &str) -> (r: Option<RawInputs>)
    requires
        parsed_function(source@) is Ok,
    ensures
        r is Some,
        r->0.texts@.len() == parsed_function(source@)->Ok_0.inputs.len(),
        r->0.receivers@.len() == parsed_function(source@)->Ok_0.inputs.len(),
        forall|i: int|
            0 <= i < r->0.texts@.len() ==> (#[trigger] r->0.texts@[i])@ == parsed_function(
                source@,
            )->Ok_0.inputs[i].text,
        forall|i: int|
            0 <= i < r->0.receivers@.len() ==> #[trigger] r->0.receivers@[i] == parsed_function(
                source@,
            )->Ok_0.inputs[i].receiver,
        r->0.trailing_comma == parsed_function(source@)->Ok_0.trailing_comma,
{
    proc_macro2::fallback::force();
    let inputs = syn::parse_str::<syn::ItemFn>(source).ok()?.sig.inputs;
    Some(RawInputs {
        texts: inputs.iter().map(|a| a.to_token_stream().to_string()).collect(),
        receivers: inputs.iter().map(|a| matches!(a, syn::FnArg::Receiver(_))).collect(),
        trailing_comma: inputs.trailing_punct(),
    })
}

/// Pins `proc_macro2` to its own lexer and printer, parses `source` with
/// `syn::parse_str::<syn::ItemFn>` and takes the input at `index` apart if
/// it is `syn::FnArg::Typed` with a `syn::Pat::Ident`.
///
/// Believed: the result is the binding of that input of `parsed_function`,
/// `None` where the input is a receiver or any other pattern.
#[verifier::external_body]
pub(crate) fn read_binding(source: &str, index: usize) -> (r: Option<RawBinding>)
    requires
        parsed_function(source@) is Ok,
        index < parsed_function(source@)->Ok_0.inputs.len(),
    ensures
        r is Some <==> parsed_function(source@)->Ok_0.inputs[index as int].binding is Some,
        r is Some ==> r->0@ == parsed_function(source@)->Ok_0.inputs[index as int].binding->0,
{
    proc_macro2::fallback::force();
    let arg = syn::parse_str::<syn::ItemFn>(source).ok()?.sig.inputs.into_iter().nth(index)?;
    let syn::FnArg::Typed(syn::PatType { attrs, pat, ty, .. }) = arg else { return None; };
    let syn::Pat::Ident(p) = *pat else { return None; };
    let mut attributes = proc_macro2::TokenStream::new();
    attributes.append_all(&attrs);
    Some(RawBinding {
        attributes: attributes.to_string(),
        by_ref: p.by_ref.is_some(),
        mutable: p.mutability.is_some(),
        name: p.ident.to_string(),
        nested: p.subpat.is_some(),
        ty: ty.to_token_stream().to_string(),
    })
}

} // verus!
