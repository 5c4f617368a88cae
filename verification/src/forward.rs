//! The arguments with which the replacement calls the nested function.

use crate::model::{forward_views, parameter_views, ForwardArg, ForwardView, Parameter, ParameterView};
use vstd::prelude::*;

verus! {

/// What is passed on for one parameter: its bare name, whatever it says of
/// `mut` and `ref`, or the marker of its kind where it binds no single name.
///
/// A binding declared `ref` is passed on by value like any other. Whether
/// it should be passed by reference instead is an open question; nothing
/// here settles it.
pub open spec fn forward_of(p: ParameterView) -> ForwardView {
    match p {
        ParameterView::Simple { name, .. } => ForwardView::Name(name),
        ParameterView::Unsupported { receiver, .. } => ForwardView::Marker { receiver },
    }
}

/// What is passed on for each of a list of parameters, in their order.
pub open spec fn forwarding(params: Seq<ParameterView>) -> Seq<ForwardView> {
    Seq::new(params.len(), |i: int| forward_of(params[i]))
}

/// The argument that passes one parameter on.
pub fn forward_argument(param: &Parameter) -> (arg: ForwardArg)
    ensures
        arg@ == forward_of(param@),
{
    match param {
        Parameter::Simple { name, .. } => ForwardArg::Name(name.clone()),
        Parameter::Unsupported { receiver, .. } => ForwardArg::Marker { receiver: *receiver },
    }
}

/// The arguments that pass the parameters on: one for each, in their order.
/// A parameter that cannot be passed on gets the marker and the others are
/// not affected.
pub fn forwarding_arguments(params: &Vec<Parameter>) -> (args: Vec<ForwardArg>)
    ensures
        forward_views(args@) == forwarding(parameter_views(params@)),
{
    let mut args: Vec<ForwardArg> = Vec::new();
    let mut i: usize = 0;
    while i < params.len()
        invariant
            i <= params.len(),
            args@.len() == i,
            forall|j: int| 0 <= j < i ==> (#[trigger] args@[j])@ == forward_of(params@[j]@),
        decreases params.len() - i,
    {
        args.push(forward_argument(&params[i]));
        i += 1;
    }
    args
}

} // verus!
