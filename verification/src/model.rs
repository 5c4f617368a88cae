//! The plain values that the stages of the rewrite hand to one another, each
//! with the mathematical view that the contracts speak of.

use vstd::prelude::*;

verus! {

/// How the reporting macro is called when the wrapped function fails.
#[derive(Clone, Copy, Debug, PartialEq, Eq, Structural)]
pub enum ReportMode {
    /// With the error value alone.
    Direct,
    /// With a formatting template, then the error value.
    Formatted,
}

/// The views of a sequence of strings, in order.
pub open spec fn texts(v: Seq<String>) -> Seq<Seq<char>> {
    Seq::new(v.len(), |i: int| v[i]@)
}

/// A path to a reporting macro, such as `bevy::log::warn`, and the way to call it.
#[derive(Clone, Debug, PartialEq, Eq)]
pub struct CallableReference {
    /// Whether the path starts with `::`.
    pub leading_colon: bool,
    /// The identifiers of the path, in order.
    pub segments: Vec<String>,
    pub mode: ReportMode,
}

pub struct CallableView {
    pub leading_colon: bool,
    pub segments: Seq<Seq<char>>,
    pub mode: ReportMode,
}

impl View for CallableReference {
    type V = CallableView;

    open spec fn view(&self) -> CallableView {
        CallableView {
            leading_colon: self.leading_colon,
            segments: texts(self.segments@),
            mode: self.mode,
        }
    }
}

impl CallableReference {
    /// The way the reporting macro is called.
    pub fn mode(&self) -> (m: ReportMode)
        ensures
            m == self@.mode,
    {
        self.mode
    }
}

impl CallableReference {
    /// A reference is usable when its path has at least one segment.
    pub open spec fn well_formed(&self) -> bool {
        self.segments@.len() > 0
    }
}

/// Whether the rewrite can forward a parameter.
#[derive(Clone, Copy, Debug, PartialEq, Eq, Structural)]
pub enum ParamShape {
    /// A named binding: `x: T`, `mut x: T`, `ref x: T`.
    Simple,
    /// Anything else: a receiver, a destructuring pattern, a wildcard.
    Unsupported,
}

/// One parameter of a function.
#[derive(Clone, Debug, PartialEq, Eq)]
pub enum Parameter {
    /// A named binding with its type.
    Simple {
        /// The attributes written before the binding, or nothing.
        attributes: String,
        /// Whether the binding is declared `ref`.
        by_ref: bool,
        /// Whether the binding is declared `mut`.
        mutable: bool,
        name: String,
        /// The type, without the colon.
        ty: String,
    },
    /// A parameter that cannot be forwarded, kept as it was written.
    Unsupported {
        text: String,
        /// Whether it is a receiver, `self` in one of its forms, and not a
        /// pattern.
        receiver: bool,
    },
}

pub enum ParameterView {
    Simple { attributes: Seq<char>, by_ref: bool, mutable: bool, name: Seq<char>, ty: Seq<char> },
    Unsupported { text: Seq<char>, receiver: bool },
}

impl View for Parameter {
    type V = ParameterView;

    open spec fn view(&self) -> ParameterView {
        match self {
            Parameter::Simple { attributes, by_ref, mutable, name, ty } => ParameterView::Simple {
                attributes: attributes@,
                by_ref: *by_ref,
                mutable: *mutable,
                name: name@,
                ty: ty@,
            },
            Parameter::Unsupported { text, receiver } => ParameterView::Unsupported {
                text: text@,
                receiver: *receiver,
            },
        }
    }
}

impl ParameterView {
    pub open spec fn shape(self) -> ParamShape {
        match self {
            ParameterView::Simple { .. } => ParamShape::Simple,
            ParameterView::Unsupported { .. } => ParamShape::Unsupported,
        }
    }

    /// Whether the parameter is declared `mut`; never for an unsupported one.
    pub open spec fn is_mutable(self) -> bool {
        match self {
            ParameterView::Simple { mutable, .. } => mutable,
            ParameterView::Unsupported { .. } => false,
        }
    }

    /// The bound name, if the parameter has one.
    pub open spec fn name(self) -> Option<Seq<char>> {
        match self {
            ParameterView::Simple { name, .. } => Some(name),
            ParameterView::Unsupported { .. } => None,
        }
    }
}

/// The views of a sequence of parameters, in order.
pub open spec fn parameter_views(v: Seq<Parameter>) -> Seq<ParameterView> {
    Seq::new(v.len(), |i: int| v[i]@)
}

impl Parameter {
    pub fn shape(&self) -> (s: ParamShape)
        ensures
            s == self@.shape(),
    {
        match self {
            Parameter::Simple { .. } => ParamShape::Simple,
            Parameter::Unsupported { .. } => ParamShape::Unsupported,
        }
    }

    pub fn is_mutable(&self) -> (m: bool)
        ensures
            m == self@.is_mutable(),
    {
        match self {
            Parameter::Simple { mutable, .. } => *mutable,
            Parameter::Unsupported { .. } => false,
        }
    }

    pub fn name(&self) -> (n: Option<String>)
        ensures
            match n {
                Some(text) => self@.name() == Some(text@),
                None => self@.name().is_none(),
            },
    {
        match self {
            Parameter::Simple { name, .. } => Some(name.clone()),
            Parameter::Unsupported { .. } => None,
        }
    }
}

/// One attribute of a function.
#[derive(Clone, Debug, PartialEq, Eq)]
pub struct Attribute {
    /// Whether it is an inner attribute, written `#![..]` within the body.
    pub inner: bool,
    /// Its tokens.
    pub text: String,
}

pub struct AttributeView {
    pub inner: bool,
    pub text: Seq<char>,
}

impl View for Attribute {
    type V = AttributeView;

    open spec fn view(&self) -> AttributeView {
        AttributeView { inner: self.inner, text: self.text@ }
    }
}

/// The views of a sequence of attributes, in order.
pub open spec fn attribute_views(v: Seq<Attribute>) -> Seq<AttributeView> {
    Seq::new(v.len(), |i: int| v[i]@)
}

/// A function, taken apart: every field but `params` and `attributes` is
/// the text of one part, empty where the part is not written.
#[derive(Clone, Debug, PartialEq, Eq)]
pub struct FunctionItem {
    pub attributes: Vec<Attribute>,
    pub visibility: String,
    /// `const`, `async`, `unsafe` and the ABI.
    pub qualifiers: String,
    pub name: String,
    /// The generic parameters with their angle brackets.
    pub generics: String,
    pub params: Vec<Parameter>,
    /// Whether a comma follows the last parameter.
    pub trailing_comma: bool,
    /// The variadic argument.
    pub variadic: String,
    /// The arrow and the return type.
    pub return_type: String,
    pub where_clause: String,
    /// The statements of the body, without its braces.
    pub body: String,
}

pub struct FunctionView {
    pub attributes: Seq<AttributeView>,
    pub visibility: Seq<char>,
    pub qualifiers: Seq<char>,
    pub name: Seq<char>,
    pub generics: Seq<char>,
    pub params: Seq<ParameterView>,
    pub trailing_comma: bool,
    pub variadic: Seq<char>,
    pub return_type: Seq<char>,
    pub where_clause: Seq<char>,
    pub body: Seq<char>,
}

impl View for FunctionItem {
    type V = FunctionView;

    open spec fn view(&self) -> FunctionView {
        FunctionView {
            attributes: attribute_views(self.attributes@),
            visibility: self.visibility@,
            qualifiers: self.qualifiers@,
            name: self.name@,
            generics: self.generics@,
            params: parameter_views(self.params@),
            trailing_comma: self.trailing_comma,
            variadic: self.variadic@,
            return_type: self.return_type@,
            where_clause: self.where_clause@,
            body: self.body@,
        }
    }
}

/// What stands at one position of the call of the nested function.
#[derive(Clone, Debug, PartialEq, Eq)]
pub enum ForwardArg {
    /// The parameter of that name, passed on.
    Name(String),
    /// A marker that makes the compiler report an error at this position,
    /// for a receiver or for a pattern.
    Marker { receiver: bool },
}

pub enum ForwardView {
    Name(Seq<char>),
    Marker { receiver: bool },
}

impl View for ForwardArg {
    type V = ForwardView;

    open spec fn view(&self) -> ForwardView {
        match self {
            ForwardArg::Name(name) => ForwardView::Name(name@),
            ForwardArg::Marker { receiver } => ForwardView::Marker { receiver: *receiver },
        }
    }
}

/// The views of a sequence of forwarded arguments, in order.
pub open spec fn forward_views(v: Seq<ForwardArg>) -> Seq<ForwardView> {
    Seq::new(v.len(), |i: int| v[i]@)
}

/// One argument of the call of the reporting macro.
#[derive(Clone, Copy, Debug, PartialEq, Eq, Structural)]
pub enum ReportArg {
    /// The formatting template `"{}"`.
    Template,
    /// The error that the nested function returned.
    ErrorValue,
}

/// The replacement for a function: one of the same name that returns
/// nothing, holds the annotated function under a fixed name, calls it, and
/// reports its failure.
#[derive(Clone, Debug, PartialEq, Eq)]
pub struct TransformedFunction {
    /// The name of the replacement.
    pub name: String,
    /// The parameters of the replacement.
    pub params: Vec<Parameter>,
    /// The nested function. The replacement has its attributes, visibility,
    /// qualifiers, generics, variadic argument and `where` clause too.
    pub inner: FunctionItem,
    /// The arguments of the call of the nested function.
    pub arguments: Vec<ForwardArg>,
    /// The macro called on failure.
    pub reporter: CallableReference,
    /// The arguments of that call.
    pub report_arguments: Vec<ReportArg>,
}

pub struct TransformedView {
    pub name: Seq<char>,
    pub params: Seq<ParameterView>,
    pub inner: FunctionView,
    pub arguments: Seq<ForwardView>,
    pub reporter: CallableView,
    pub report_arguments: Seq<ReportArg>,
}

impl View for TransformedFunction {
    type V = TransformedView;

    open spec fn view(&self) -> TransformedView {
        TransformedView {
            name: self.name@,
            params: parameter_views(self.params@),
            inner: self.inner@,
            arguments: forward_views(self.arguments@),
            reporter: self.reporter@,
            report_arguments: self.report_arguments@,
        }
    }
}

/// Why a rewrite was given up.
#[derive(Clone, Debug, PartialEq, Eq)]
pub enum TransformError {
    /// The argument of the attribute is not a path to a macro.
    AttributePayload { message: String },
    /// The annotated item is not a function.
    Item { message: String },
}

pub enum TransformErrorView {
    AttributePayload { message: Seq<char> },
    Item { message: Seq<char> },
}

impl View for TransformError {
    type V = TransformErrorView;

    open spec fn view(&self) -> TransformErrorView {
        match self {
            TransformError::AttributePayload { message } => TransformErrorView::AttributePayload {
                message: message@,
            },
            TransformError::Item { message } => TransformErrorView::Item { message: message@ },
        }
    }
}

impl TransformError {
    /// The message of the error.
    pub fn message(&self) -> (m: String)
        ensures
            m@ == match self@ {
                TransformErrorView::AttributePayload { message } => message,
                TransformErrorView::Item { message } => message,
            },
    {
        match self {
            TransformError::AttributePayload { message } => message.clone(),
            TransformError::Item { message } => message.clone(),
        }
    }
}

} // verus!
