//! Where the suggested type parameter goes, and the text that is put there.

use vstd::prelude::*;
use vstd::string::*;
use crate::decl::{
    Generics, GenericsView, Ident, IdentView, OpaqueTypeParam, OpaqueTypeParamView,
    OPAQUE_PREFIX_LEN,
};
use crate::diagnostic::{Applicability, SuggestedEdit, SuggestedEditView, SuggestionStyle};
use crate::span::{Span, SpanData};

verus! {

/// The label of every suggested edit.
pub open spec fn edit_message() -> Seq<char> {
    "add a type parameter"@
}

/// The text that adds a parameter with the given bound to a written list.
pub open spec fn appended_param(bound: Seq<char>) -> Seq<char> {
    ", { /* Generic name */ }: "@ + bound
}

/// The text of a new list whose one parameter has the given bound.
pub open spec fn new_param_list(bound: Seq<char>) -> Seq<char> {
    "<{ /* Generic name */ }: "@ + bound + ">"@
}

/// The place of a new list for a declaration that has none: from one byte
/// before the first value parameter to the end of the identifier, with the
/// identifier's provenance.
pub open spec fn new_list_span(ident: IdentView, first_param_span: SpanData) -> SpanData {
    SpanData::spanning(
        (first_param_span.lo - 1) as u32,
        ident.span.hi,
        ident.span.ctxt,
        ident.span.parent,
    )
}

/// The inputs on which an edit can be computed: the synthetic name holds its
/// prefix, and where a new list has to be placed, the first value parameter
/// does not start at offset 0.
pub open spec fn resolvable(
    param: OpaqueTypeParamView,
    generics: GenericsView,
    first_param_span: SpanData,
) -> bool {
    &&& param.has_prefix()
    &&& generics.span_for_param_suggestion() is None ==> first_param_span.lo >= 1
}

/// The edit that names the flagged parameter.
///
/// A declaration with a written list gets the parameter appended to it; one
/// without gets a new list behind its identifier.
pub open spec fn suggested_edit(
    param: OpaqueTypeParamView,
    ident: IdentView,
    generics: GenericsView,
    first_param_span: SpanData,
) -> SuggestedEditView {
    match generics.span_for_param_suggestion() {
        Some(at) => SuggestedEditView {
            span: at,
            message: edit_message(),
            replacement: appended_param(param.bound_text()),
            applicability: Applicability::HasPlaceholders,
            style: SuggestionStyle::ShowAlways,
        },
        None => SuggestedEditView {
            span: new_list_span(ident, first_param_span),
            message: edit_message(),
            replacement: new_param_list(param.bound_text()),
            applicability: Applicability::HasPlaceholders,
            style: SuggestionStyle::ShowAlways,
        },
    }
}

/// Tells whether an edit can be computed on these inputs.
pub fn is_resolvable(
    param: &OpaqueTypeParam,
    generics: &Generics,
    first_param_span: Span,
) -> (ok: bool)
    ensures
        ok == resolvable(param@, generics@, first_param_span@),
{
    let has_prefix = param.synthetic_name.as_str().unicode_len() >= OPAQUE_PREFIX_LEN;
    let has_place = generics.span_for_param_suggestion().is_some() || first_param_span.lo() >= 1;
    has_prefix && has_place
}

/// Computes the edit that names the flagged parameter.
pub fn resolve(
    param: &OpaqueTypeParam,
    ident: &Ident,
    generics: &Generics,
    first_param_span: Span,
) -> (edit: SuggestedEdit)
    requires
        resolvable(param@, generics@, first_param_span@),
    ensures
        edit@ == suggested_edit(param@, ident@, generics@, first_param_span@),
{
    let bound = param.bound_text();
    match generics.span_for_param_suggestion() {
        Some(at) => {
            let mut replacement = String::from_str(", { /* Generic name */ }: ");
            replacement.append(bound);
            SuggestedEdit {
                span: at,
                message: String::from_str("add a type parameter"),
                replacement,
                applicability: Applicability::HasPlaceholders,
                style: SuggestionStyle::ShowAlways,
            }
        },
        None => {
            let mut replacement = String::from_str("<{ /* Generic name */ }: ");
            replacement.append(bound);
            replacement.append(">");
            SuggestedEdit {
                span: Span::new(
                    first_param_span.lo() - 1,
                    ident.span.hi(),
                    ident.span.ctxt(),
                    ident.span.parent(),
                ),
                message: String::from_str("add a type parameter"),
                replacement,
                applicability: Applicability::HasPlaceholders,
                style: SuggestionStyle::ShowAlways,
            }
        },
    }
}

/// The two texts never coincide, whatever the bounds: one starts with a
/// comma, the other with an opening bracket.
pub proof fn lemma_templates_differ(appended_bound: Seq<char>, listed_bound: Seq<char>)
    ensures
        appended_param(appended_bound) != new_param_list(listed_bound),
{
    reveal_strlit(", { /* Generic name */ }: ");
    reveal_strlit("<{ /* Generic name */ }: ");
    assert(appended_param(appended_bound)[0] == ',');
    assert(new_param_list(listed_bound)[0] == '<');
}

/// Each edit is made from exactly one of the two texts, and which one is
/// decided by the declaration alone: a declaration with a written list has its
/// list extended at the insertion point, one without gets a new list, and no
/// edit is both or neither.
pub proof fn lemma_exactly_one_branch(
    param: OpaqueTypeParamView,
    ident: IdentView,
    generics: GenericsView,
    first_param_span: SpanData,
)
    ensures
        ({
            let edit = suggested_edit(param, ident, generics, first_param_span);
            let at = generics.span_for_param_suggestion();
            let appended = edit.replacement == appended_param(param.bound_text());
            let listed = edit.replacement == new_param_list(param.bound_text());
            &&& appended != listed
            &&& appended <==> at is Some
            &&& listed <==> at is None
            &&& at is Some ==> edit.span == at->0
            &&& at is None ==> edit.span == new_list_span(ident, first_param_span)
        }),
{
    lemma_templates_differ(param.bound_text(), param.bound_text());
}

/// The insertion point of a written list lies inside the list, one byte
/// before its end, and has the provenance of the list.
pub proof fn lemma_insertion_point_inside_list(generics: GenericsView)
    requires
        generics.span.wf(),
        !generics.span.is_empty(),
    ensures
        generics.span_for_param_suggestion() matches Some(at) && {
            &&& at.is_empty()
            &&& generics.span.lo <= at.lo
            &&& at.hi + 1 == generics.span.hi
            &&& at.ctxt == generics.span.ctxt
            &&& at.parent == generics.span.parent
        },
{
}

/// The place of a new list has its endpoints in order and the provenance of
/// the identifier, wherever the first value parameter starts. Where that
/// parameter starts one byte behind the identifier, the place is the empty
/// span at the end of the identifier.
pub proof fn lemma_new_list_span(ident: IdentView, first_param_span: SpanData)
    requires
        first_param_span.lo >= 1,
    ensures
        new_list_span(ident, first_param_span).wf(),
        new_list_span(ident, first_param_span).ctxt == ident.span.ctxt,
        new_list_span(ident, first_param_span).parent == ident.span.parent,
        first_param_span.lo == ident.span.hi + 1 ==> new_list_span(ident, first_param_span)
            == ident.span.shrink_to_hi(),
{
}

/// Resolving is a function of its inputs: two edits that were resolved from
/// the same parameter in the same declaration are the same edit.
pub proof fn lemma_resolve_deterministic(
    first: SuggestedEdit,
    second: SuggestedEdit,
    param: OpaqueTypeParamView,
    ident: IdentView,
    generics: GenericsView,
    first_param_span: SpanData,
)
    requires
        first@ == suggested_edit(param, ident, generics, first_param_span),
        second@ == suggested_edit(param, ident, generics, first_param_span),
    ensures
        first@ == second@,
{
}

/// Every edit asks for a person to complete it and is always shown.
pub proof fn lemma_edit_is_incomplete_by_design(
    param: OpaqueTypeParamView,
    ident: IdentView,
    generics: GenericsView,
    first_param_span: SpanData,
)
    ensures
        suggested_edit(param, ident, generics, first_param_span).applicability
            == Applicability::HasPlaceholders,
        suggested_edit(param, ident, generics, first_param_span).style
            == SuggestionStyle::ShowAlways,
        suggested_edit(param, ident, generics, first_param_span).message == edit_message(),
{
}

} // verus!
