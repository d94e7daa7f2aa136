//! The declarations that are inspected: identifiers, generic-parameter lists
//! and the three shapes of function-like declaration.

use vstd::prelude::*;
use vstd::string::*;
use crate::span::{Span, SpanData};

verus! {

/// Number of characters that precede the bound in the name of an opaque type
/// parameter.
pub const OPAQUE_PREFIX_LEN: usize = 5;

/// The views of a sequence of spans, in order.
pub open spec fn span_views(spans: Seq<Span>) -> Seq<SpanData> {
    spans.map_values(|s: Span| s@)
}

/// The contents of an [`Ident`] as plain values.
pub struct IdentView {
    pub name: Seq<char>,
    pub span: SpanData,
}

/// A name together with the place where it is written.
#[derive(Clone, Debug, PartialEq, Eq)]
pub struct Ident {
    pub name: String,
    pub span: Span,
}

impl View for Ident {
    type V = IdentView;

    open spec fn view(&self) -> IdentView {
        IdentView { name: self.name@, span: self.span@ }
    }
}

/// The contents of an [`OpaqueTypeParam`] as plain values.
pub struct OpaqueTypeParamView {
    pub synthetic_name: Seq<char>,
    pub span: SpanData,
}

impl OpaqueTypeParamView {
    /// The synthetic name is long enough to hold the prefix.
    pub open spec fn has_prefix(self) -> bool {
        self.synthetic_name.len() >= OPAQUE_PREFIX_LEN
    }

    /// The bound as it was written: the synthetic name without its prefix.
    pub open spec fn bound_text(self) -> Seq<char> {
        self.synthetic_name.skip(OPAQUE_PREFIX_LEN as int)
    }
}

/// The implicit type parameter that stands for an `impl Trait` written in
/// value-parameter position.
///
/// Its synthetic name is the text of the parameter's type: a prefix of
/// [`OPAQUE_PREFIX_LEN`] characters followed by the bound. Its span is the
/// place of that type in the signature.
#[derive(Clone, Debug, PartialEq, Eq)]
pub struct OpaqueTypeParam {
    pub synthetic_name: String,
    pub span: Span,
}

impl View for OpaqueTypeParam {
    type V = OpaqueTypeParamView;

    open spec fn view(&self) -> OpaqueTypeParamView {
        OpaqueTypeParamView { synthetic_name: self.synthetic_name@, span: self.span@ }
    }
}

impl OpaqueTypeParam {
    /// The bound as it was written. The prefix is cut off by position; what it
    /// holds is not examined.
    pub fn bound_text(&self) -> (text: &str)
        requires
            self@.has_prefix(),
        ensures
            text@ == self@.bound_text(),
    {
        let name = self.synthetic_name.as_str();
        let len = name.unicode_len();
        name.substring_char(OPAQUE_PREFIX_LEN, len)
    }
}

/// The contents of a [`GenericParam`] as plain values.
pub enum GenericParamView {
    Lifetime,
    Type,
    Const,
    OpaqueTypeParam(OpaqueTypeParamView),
}

/// One entry of a generic-parameter list.
#[derive(Clone, Debug, PartialEq, Eq)]
pub enum GenericParam {
    Lifetime,
    Type,
    Const,
    OpaqueTypeParam(OpaqueTypeParam),
}

impl View for GenericParam {
    type V = GenericParamView;

    open spec fn view(&self) -> GenericParamView {
        match self {
            GenericParam::Lifetime => GenericParamView::Lifetime,
            GenericParam::Type => GenericParamView::Type,
            GenericParam::Const => GenericParamView::Const,
            GenericParam::OpaqueTypeParam(p) => GenericParamView::OpaqueTypeParam(p@),
        }
    }
}

/// The views of a sequence of generic parameters, in order.
pub open spec fn generic_param_views(params: Seq<GenericParam>) -> Seq<GenericParamView> {
    params.map_values(|p: GenericParam| p@)
}

/// The contents of a [`Generics`] as plain values.
pub struct GenericsView {
    pub params: Seq<GenericParamView>,
    pub span: SpanData,
}

impl GenericsView {
    /// Where a further entry can be appended to the written list: the empty
    /// span just before its closing bracket. There is none when no list is
    /// written.
    pub open spec fn span_for_param_suggestion(self) -> Option<SpanData> {
        if self.span.is_empty() {
            None
        } else {
            let at = (self.span.hi - 1) as u32;
            Some(SpanData { lo: at, hi: at, ctxt: self.span.ctxt, parent: self.span.parent })
        }
    }
}

/// The generic parameters of a declaration.
///
/// `params` holds the written parameters and the opaque ones, each opaque one
/// at the position of its value parameter among them. `span` covers the
/// bracketed list with its brackets, and is empty when no list is written.
#[derive(Clone, Debug, PartialEq, Eq)]
pub struct Generics {
    pub params: Vec<GenericParam>,
    pub span: Span,
}

impl View for Generics {
    type V = GenericsView;

    open spec fn view(&self) -> GenericsView {
        GenericsView { params: generic_param_views(self.params@), span: self.span@ }
    }
}

impl Generics {
    /// Where a further entry can be appended to the written list, if there is
    /// one.
    pub fn span_for_param_suggestion(&self) -> (at: Option<Span>)
        ensures
            match at {
                Some(s) => self@.span_for_param_suggestion() == Some(s@),
                None => self@.span_for_param_suggestion() is None,
            },
    {
        if self.span.is_empty() {
            None
        } else {
            let hi = self.span.hi();
            Some(self.span.with_lo(hi - 1).shrink_to_lo())
        }
    }
}

/// The contents of a [`FreeFunction`] as plain values.
pub struct FreeFunctionView {
    pub ident: IdentView,
    pub generics: GenericsView,
    pub params: Seq<SpanData>,
    pub is_public: bool,
    pub in_test: bool,
}

/// A function that is an item of its own.
///
/// `params` holds the spans of its value parameters in order. `is_public`
/// says whether the item is visible outside its crate, `in_test` whether the
/// function stands in a test-only context.
#[derive(Clone, Debug, PartialEq, Eq)]
pub struct FreeFunction {
    pub ident: Ident,
    pub generics: Generics,
    pub params: Vec<Span>,
    pub is_public: bool,
    pub in_test: bool,
}

impl View for FreeFunction {
    type V = FreeFunctionView;

    open spec fn view(&self) -> FreeFunctionView {
        FreeFunctionView {
            ident: self.ident@,
            generics: self.generics@,
            params: span_views(self.params@),
            is_public: self.is_public,
            in_test: self.in_test,
        }
    }
}

/// The contents of an [`InherentMethod`] as plain values.
pub struct InherentMethodView {
    pub ident: IdentView,
    pub generics: GenericsView,
    pub params: Seq<SpanData>,
    pub is_public: bool,
    pub impl_of_trait: bool,
    pub in_test: bool,
}

/// A method with a body inside an `impl` block.
///
/// `impl_of_trait` says whether the block implements a trait; the signature
/// of the method is then the trait's to decide.
#[derive(Clone, Debug, PartialEq, Eq)]
pub struct InherentMethod {
    pub ident: Ident,
    pub generics: Generics,
    pub params: Vec<Span>,
    pub is_public: bool,
    pub impl_of_trait: bool,
    pub in_test: bool,
}

impl View for InherentMethod {
    type V = InherentMethodView;

    open spec fn view(&self) -> InherentMethodView {
        InherentMethodView {
            ident: self.ident@,
            generics: self.generics@,
            params: span_views(self.params@),
            is_public: self.is_public,
            impl_of_trait: self.impl_of_trait,
            in_test: self.in_test,
        }
    }
}

/// The contents of a [`TraitMethod`] as plain values.
pub struct TraitMethodView {
    pub ident: IdentView,
    pub generics: GenericsView,
    pub params: Seq<SpanData>,
    pub trait_vis_span: SpanData,
    pub in_test: bool,
}

/// A method declared in a trait, with or without a body.
///
/// `params` holds the spans of its value parameters in order.
/// `trait_vis_span` is the span of the visibility written before the trait;
/// it is empty when none is written, which leaves the trait private.
#[derive(Clone, Debug, PartialEq, Eq)]
pub struct TraitMethod {
    pub ident: Ident,
    pub generics: Generics,
    pub params: Vec<Span>,
    pub trait_vis_span: Span,
    pub in_test: bool,
}

impl View for TraitMethod {
    type V = TraitMethodView;

    open spec fn view(&self) -> TraitMethodView {
        TraitMethodView {
            ident: self.ident@,
            generics: self.generics@,
            params: span_views(self.params@),
            trait_vis_span: self.trait_vis_span@,
            in_test: self.in_test,
        }
    }
}

/// The contents of a [`Declaration`] as plain values.
pub enum DeclarationView {
    FreeFunction(FreeFunctionView),
    InherentMethod(InherentMethodView),
    TraitMethod(TraitMethodView),
}

/// A function-like declaration of any of the three shapes.
#[derive(Clone, Debug, PartialEq, Eq)]
pub enum Declaration {
    FreeFunction(FreeFunction),
    InherentMethod(InherentMethod),
    TraitMethod(TraitMethod),
}

impl View for Declaration {
    type V = DeclarationView;

    open spec fn view(&self) -> DeclarationView {
        match self {
            Declaration::FreeFunction(f) => DeclarationView::FreeFunction(f@),
            Declaration::InherentMethod(m) => DeclarationView::InherentMethod(m@),
            Declaration::TraitMethod(t) => DeclarationView::TraitMethod(t@),
        }
    }
}

} // verus!
