//! Finding the opaque type parameters in a generic-parameter list.

use vstd::prelude::*;
use crate::decl::{
    generic_param_views, GenericParam, GenericParamView, OpaqueTypeParam, OpaqueTypeParamView,
};

verus! {

/// The parameter itself if it is opaque.
pub open spec fn as_opaque(param: GenericParamView) -> Option<OpaqueTypeParamView> {
    match param {
        GenericParamView::OpaqueTypeParam(p) => Some(p),
        _ => None,
    }
}

/// The opaque parameters of a list, in the order of the list.
pub open spec fn opaque_params(params: Seq<GenericParamView>) -> Seq<OpaqueTypeParamView> {
    params.filter_map(|p: GenericParamView| as_opaque(p))
}

/// The views of a sequence of borrowed opaque parameters, in order.
pub open spec fn opaque_views(params: Seq<&OpaqueTypeParam>) -> Seq<OpaqueTypeParamView> {
    params.map_values(|p: &OpaqueTypeParam| p@)
}

/// Collects the opaque parameters of a list, in the order of the list.
pub fn scan<'a>(params: &'a Vec<GenericParam>) -> (flagged: Vec<&'a OpaqueTypeParam>)
    ensures
        opaque_views(flagged@) == opaque_params(generic_param_views(params@)),
{
    let ghost views = generic_param_views(params@);
    let ghost pick = |p: GenericParamView| as_opaque(p);
    let mut flagged: Vec<&'a OpaqueTypeParam> = Vec::new();
    let mut i: usize = 0;
    while i < params.len()
        invariant
            i <= params.len(),
            views == generic_param_views(params@),
            pick == (|p: GenericParamView| as_opaque(p)),
            opaque_views(flagged@) == views.take(i as int).filter_map(pick),
        decreases params.len() - i,
    {
        proof {
            views.lemma_filter_map_take_succ(pick, i as int);
        }
        match &params[i] {
            GenericParam::OpaqueTypeParam(p) => {
                flagged.push(p);
            },
            _ => {},
        }
        i += 1;
    }
    assert(views.take(i as int) == views);
    flagged
}

/// The scan keeps the opaque parameters and nothing else: a parameter is
/// among the flagged ones exactly if the list holds it as an opaque parameter.
pub proof fn lemma_flagged_are_the_opaque(params: Seq<GenericParamView>, param: OpaqueTypeParamView)
    ensures
        opaque_params(params).contains(param) <==> params.contains(
            GenericParamView::OpaqueTypeParam(param),
        ),
    decreases params.len(),
{
    let pick = |p: GenericParamView| as_opaque(p);
    let wanted = GenericParamView::OpaqueTypeParam(param);
    if params.len() > 0 {
        let rest = params.drop_last();
        let last = params.last();
        lemma_flagged_are_the_opaque(rest, param);
        if opaque_params(params).contains(param) {
            let i = choose|i: int|
                0 <= i < opaque_params(params).len() && opaque_params(params)[i] == param;
            if i < rest.filter_map(pick).len() {
                assert(rest.filter_map(pick)[i] == param);
                let j = choose|j: int| 0 <= j < rest.len() && rest[j] == wanted;
                assert(params[j] == wanted);
            } else {
                assert(last == wanted);
                assert(params[params.len() - 1] == wanted);
            }
        }
        if params.contains(wanted) {
            let j = choose|j: int| 0 <= j < params.len() && params[j] == wanted;
            if j < rest.len() {
                assert(rest[j] == wanted);
                let i = choose|i: int|
                    0 <= i < opaque_params(rest).len() && opaque_params(rest)[i] == param;
                assert(opaque_params(params)[i] == param);
            } else {
                assert(opaque_params(params).last() == param);
            }
        }
    }
}

/// A list without opaque parameters has nothing flagged.
pub proof fn lemma_nothing_flagged_without_opaque(params: Seq<GenericParamView>)
    requires
        forall|i: int| 0 <= i < params.len() ==> !(#[trigger] params[i] is OpaqueTypeParam),
    ensures
        opaque_params(params) == Seq::<OpaqueTypeParamView>::empty(),
    decreases params.len(),
{
    if params.len() > 0 {
        let rest = params.drop_last();
        assert forall|i: int| 0 <= i < rest.len() implies !(#[trigger] rest[i] is OpaqueTypeParam) by {
            assert(rest[i] == params[i]);
        }
        lemma_nothing_flagged_without_opaque(rest);
        assert(!(params[params.len() - 1] is OpaqueTypeParam));
    }
}

} // verus!
