//! The lint itself: one entry point for each shape of declaration, and the
//! diagnostic that each flagged parameter gets.

use vstd::prelude::*;
use vstd::string::*;
use crate::decl::{
    Declaration, DeclarationView, FreeFunction, FreeFunctionView, Generics, GenericsView, Ident,
    IdentView, InherentMethod, InherentMethodView, OpaqueTypeParam, OpaqueTypeParamView,
    TraitMethod, TraitMethodView,
};
use crate::diagnostic::{diagnostic_views, Diagnostic, DiagnosticView};
use crate::resolver::{is_resolvable, resolvable, resolve, suggested_edit};
use crate::scanner::{opaque_params, opaque_views, scan};
use crate::span::{Span, SpanData};

verus! {

/// What every diagnostic of this lint says.
pub open spec fn lint_message() -> Seq<char> {
    "`impl Trait` used as a function parameter"@
}

/// The diagnostic for one flagged parameter: it points at the parameter and
/// carries the edit that names it.
pub open spec fn diagnostic_for(
    param: OpaqueTypeParamView,
    ident: IdentView,
    generics: GenericsView,
    first_param_span: SpanData,
) -> DiagnosticView {
    DiagnosticView {
        span: param.span,
        message: lint_message(),
        suggestion: suggested_edit(param, ident, generics, first_param_span),
    }
}

/// The diagnostics of a declaration that is looked at: one for each opaque
/// parameter, in the order of the parameters.
pub open spec fn diagnostics_for(
    ident: IdentView,
    generics: GenericsView,
    first_param_span: SpanData,
) -> Seq<DiagnosticView> {
    opaque_params(generics.params).map_values(
        |p: OpaqueTypeParamView| diagnostic_for(p, ident, generics, first_param_span),
    )
}

/// An edit can be computed for every opaque parameter of the list.
pub open spec fn all_resolvable(generics: GenericsView, first_param_span: SpanData) -> bool {
    forall|i: int|
        0 <= i < opaque_params(generics.params).len() ==> resolvable(
            #[trigger] opaque_params(generics.params)[i],
            generics,
            first_param_span,
        )
}

impl FreeFunctionView {
    /// The function can be checked: if it is looked at and has an opaque
    /// parameter, it has a value parameter and every edit can be computed.
    pub open spec fn checkable(self) -> bool {
        self.is_eligible() && opaque_params(self.generics.params).len() > 0 ==> {
            &&& self.params.len() > 0
            &&& all_resolvable(self.generics, self.params[0])
        }
    }

    /// What the function is told: nothing unless it is looked at, else one
    /// diagnostic for each opaque parameter.
    pub open spec fn diagnostics(self) -> Seq<DiagnosticView> {
        if self.is_eligible() {
            diagnostics_for(self.ident, self.generics, self.params[0])
        } else {
            Seq::empty()
        }
    }
}

impl InherentMethodView {
    /// The method can be checked: if it is looked at and has an opaque
    /// parameter, it has a value parameter and every edit can be computed.
    pub open spec fn checkable(self) -> bool {
        self.is_eligible() && opaque_params(self.generics.params).len() > 0 ==> {
            &&& self.params.len() > 0
            &&& all_resolvable(self.generics, self.params[0])
        }
    }

    /// What the method is told: nothing unless it is looked at, else one
    /// diagnostic for each opaque parameter.
    pub open spec fn diagnostics(self) -> Seq<DiagnosticView> {
        if self.is_eligible() {
            diagnostics_for(self.ident, self.generics, self.params[0])
        } else {
            Seq::empty()
        }
    }
}

impl TraitMethodView {
    /// The method can be checked: if it is looked at and has an opaque
    /// parameter, it has a value parameter and every edit can be computed.
    pub open spec fn checkable(self, avoid_breaking_exported_api: bool) -> bool {
        self.is_eligible(avoid_breaking_exported_api) && opaque_params(self.generics.params).len()
            > 0 ==> {
            &&& self.params.len() > 0
            &&& all_resolvable(self.generics, self.params[0])
        }
    }

    /// What the method is told: nothing unless it is looked at, else one
    /// diagnostic for each opaque parameter.
    pub open spec fn diagnostics(self, avoid_breaking_exported_api: bool) -> Seq<DiagnosticView> {
        if self.is_eligible(avoid_breaking_exported_api) {
            diagnostics_for(self.ident, self.generics, self.params[0])
        } else {
            Seq::empty()
        }
    }
}

impl DeclarationView {
    /// The declaration can be checked, by the rule of its shape.
    pub open spec fn checkable(self, avoid_breaking_exported_api: bool) -> bool {
        match self {
            DeclarationView::FreeFunction(f) => f.checkable(),
            DeclarationView::InherentMethod(m) => m.checkable(),
            DeclarationView::TraitMethod(t) => t.checkable(avoid_breaking_exported_api),
        }
    }

    /// What the declaration is told, by the rule of its shape.
    pub open spec fn diagnostics(self, avoid_breaking_exported_api: bool) -> Seq<DiagnosticView> {
        match self {
            DeclarationView::FreeFunction(f) => f.diagnostics(),
            DeclarationView::InherentMethod(m) => m.diagnostics(),
            DeclarationView::TraitMethod(t) => t.diagnostics(avoid_breaking_exported_api),
        }
    }
}

/// Builds the diagnostic for one flagged parameter.
pub fn report(
    param: &OpaqueTypeParam,
    ident: &Ident,
    generics: &Generics,
    first_param_span: Span,
) -> (diagnostic: Diagnostic)
    requires
        resolvable(param@, generics@, first_param_span@),
    ensures
        diagnostic@ == diagnostic_for(param@, ident@, generics@, first_param_span@),
{
    Diagnostic {
        span: param.span,
        message: String::from_str("`impl Trait` used as a function parameter"),
        suggestion: resolve(param, ident, generics, first_param_span),
    }
}

/// Builds the diagnostics for the flagged parameters of one declaration, in
/// their order.
fn report_each(
    flagged: &Vec<&OpaqueTypeParam>,
    ident: &Ident,
    generics: &Generics,
    first_param_span: Span,
) -> (diagnostics: Vec<Diagnostic>)
    requires
        opaque_views(flagged@) == opaque_params(generics@.params),
        all_resolvable(generics@, first_param_span@),
    ensures
        diagnostic_views(diagnostics@) == diagnostics_for(ident@, generics@, first_param_span@),
{
    let ghost expected = diagnostics_for(ident@, generics@, first_param_span@);
    let mut diagnostics: Vec<Diagnostic> = Vec::new();
    let mut i: usize = 0;
    while i < flagged.len()
        invariant
            i <= flagged.len(),
            opaque_views(flagged@) == opaque_params(generics@.params),
            all_resolvable(generics@, first_param_span@),
            expected == diagnostics_for(ident@, generics@, first_param_span@),
            expected.len() == flagged@.len(),
            diagnostic_views(diagnostics@) == expected.take(i as int),
        decreases flagged.len() - i,
    {
        let ghost before = diagnostics@;
        assert(opaque_views(flagged@)[i as int] == flagged@[i as int]@);
        let diagnostic = report(flagged[i], ident, generics, first_param_span);
        diagnostics.push(diagnostic);
        assert(diagnostic_views(diagnostics@) == diagnostic_views(before).push(diagnostic@));
        assert(expected.take(i + 1) == expected.take(i as int).push(expected[i as int]));
        i += 1;
    }
    assert(expected.take(i as int) == expected);
    diagnostics
}

/// Tells whether an edit can be computed for every flagged parameter.
fn each_resolvable(
    flagged: &Vec<&OpaqueTypeParam>,
    generics: &Generics,
    first_param_span: Span,
) -> (ok: bool)
    requires
        opaque_views(flagged@) == opaque_params(generics@.params),
    ensures
        ok == all_resolvable(generics@, first_param_span@),
{
    let mut i: usize = 0;
    while i < flagged.len()
        invariant
            i <= flagged.len(),
            opaque_views(flagged@) == opaque_params(generics@.params),
            forall|j: int|
                0 <= j < i ==> resolvable(
                    #[trigger] opaque_params(generics@.params)[j],
                    generics@,
                    first_param_span@,
                ),
        decreases flagged.len() - i,
    {
        assert(opaque_views(flagged@)[i as int] == flagged@[i as int]@);
        if !is_resolvable(flagged[i], generics, first_param_span) {
            return false;
        }
        i += 1;
    }
    assert(opaque_views(flagged@).len() == flagged@.len());
    true
}

impl FreeFunction {
    /// Tells whether [`check_fn`] can be called on this function.
    pub fn checkable(&self) -> (ok: bool)
        ensures
            ok == self@.checkable(),
    {
        if !self.is_eligible() {
            return true;
        }
        let flagged = scan(&self.generics.params);
        if flagged.len() == 0 {
            return true;
        }
        self.params.len() > 0 && each_resolvable(&flagged, &self.generics, self.params[0])
    }
}

impl InherentMethod {
    /// Tells whether [`check_impl_item`] can be called on this method.
    pub fn checkable(&self) -> (ok: bool)
        ensures
            ok == self@.checkable(),
    {
        if !self.is_eligible() {
            return true;
        }
        let flagged = scan(&self.generics.params);
        if flagged.len() == 0 {
            return true;
        }
        self.params.len() > 0 && each_resolvable(&flagged, &self.generics, self.params[0])
    }
}

impl TraitMethod {
    /// Tells whether [`check_trait_item`] can be called on this method.
    pub fn checkable(&self, avoid_breaking_exported_api: bool) -> (ok: bool)
        ensures
            ok == self@.checkable(avoid_breaking_exported_api),
    {
        if !self.is_eligible(avoid_breaking_exported_api) {
            return true;
        }
        let flagged = scan(&self.generics.params);
        if flagged.len() == 0 {
            return true;
        }
        self.params.len() > 0 && each_resolvable(&flagged, &self.generics, self.params[0])
    }
}

/// Checks a free function.
pub fn check_fn(function: &FreeFunction) -> (diagnostics: Vec<Diagnostic>)
    requires
        function@.checkable(),
    ensures
        diagnostic_views(diagnostics@) == function@.diagnostics(),
{
    if function.is_eligible() {
        let flagged = scan(&function.generics.params);
        if flagged.len() > 0 {
            return report_each(&flagged, &function.ident, &function.generics, function.params[0]);
        }
    }
    Vec::new()
}

/// Checks a method in an `impl` block.
pub fn check_impl_item(method: &InherentMethod) -> (diagnostics: Vec<Diagnostic>)
    requires
        method@.checkable(),
    ensures
        diagnostic_views(diagnostics@) == method@.diagnostics(),
{
    if method.is_eligible() {
        let flagged = scan(&method.generics.params);
        if flagged.len() > 0 {
            return report_each(&flagged, &method.ident, &method.generics, method.params[0]);
        }
    }
    Vec::new()
}

/// Checks a method declared in a trait.
pub fn check_trait_item(
    method: &TraitMethod,
    avoid_breaking_exported_api: bool,
) -> (diagnostics: Vec<Diagnostic>)
    requires
        method@.checkable(avoid_breaking_exported_api),
    ensures
        diagnostic_views(diagnostics@) == method@.diagnostics(avoid_breaking_exported_api),
{
    if method.is_eligible(avoid_breaking_exported_api) {
        let flagged = scan(&method.generics.params);
        if flagged.len() > 0 {
            return report_each(&flagged, &method.ident, &method.generics, method.params[0]);
        }
    }
    Vec::new()
}

impl Declaration {
    /// Tells whether [`Declaration::check`] can be called on this
    /// declaration.
    pub fn checkable(&self, avoid_breaking_exported_api: bool) -> (ok: bool)
        ensures
            ok == self@.checkable(avoid_breaking_exported_api),
    {
        match self {
            Declaration::FreeFunction(f) => f.checkable(),
            Declaration::InherentMethod(m) => m.checkable(),
            Declaration::TraitMethod(t) => t.checkable(avoid_breaking_exported_api),
        }
    }

    /// Checks the declaration by the entry point of its shape.
    pub fn check(&self, avoid_breaking_exported_api: bool) -> (diagnostics: Vec<Diagnostic>)
        requires
            self@.checkable(avoid_breaking_exported_api),
        ensures
            diagnostic_views(diagnostics@) == self@.diagnostics(avoid_breaking_exported_api),
    {
        match self {
            Declaration::FreeFunction(f) => check_fn(f),
            Declaration::InherentMethod(m) => check_impl_item(m),
            Declaration::TraitMethod(t) => check_trait_item(t, avoid_breaking_exported_api),
        }
    }
}

/// A declaration that is looked at gets exactly one diagnostic for each of
/// its opaque parameters, in their order, and each diagnostic points at the
/// span of its parameter and carries the edit for it.
pub proof fn lemma_one_diagnostic_per_opaque_param(
    ident: IdentView,
    generics: GenericsView,
    first_param_span: SpanData,
)
    ensures
        diagnostics_for(ident, generics, first_param_span).len() == opaque_params(
            generics.params,
        ).len(),
        forall|i: int|
            0 <= i < opaque_params(generics.params).len() ==> {
                let diagnostic = #[trigger] diagnostics_for(ident, generics, first_param_span)[i];
                let param = opaque_params(generics.params)[i];
                &&& diagnostic.span == param.span
                &&& diagnostic.message == lint_message()
                &&& diagnostic.suggestion == suggested_edit(
                    param,
                    ident,
                    generics,
                    first_param_span,
                )
            },
{
}

/// A public free function outside test code gets exactly one diagnostic for
/// each of its opaque parameters, each at the span of its parameter. Any other
/// free function gets none.
pub proof fn lemma_free_function_diagnostics(function: FreeFunctionView)
    ensures
        function.is_public && !function.in_test ==> {
            &&& function.diagnostics().len() == opaque_params(function.generics.params).len()
            &&& forall|i: int|
                0 <= i < function.diagnostics().len() ==> (#[trigger] function.diagnostics()[i]).span
                    == opaque_params(function.generics.params)[i].span
        },
        !function.is_public || function.in_test ==> function.diagnostics().len() == 0,
{
    lemma_one_diagnostic_per_opaque_param(function.ident, function.generics, function.params[0]);
}

/// A method in an `impl` block that implements a trait gets no diagnostic,
/// whatever its visibility and its parameters.
pub proof fn lemma_trait_impl_method_has_no_diagnostics(method: InherentMethodView)
    requires
        method.impl_of_trait,
    ensures
        method.diagnostics() == Seq::<DiagnosticView>::empty(),
{
}

/// A public method outside test code, in an `impl` block that implements no
/// trait, gets the diagnostics that a public free function with the same
/// signature gets: one for each opaque parameter, each at the span of its
/// parameter.
pub proof fn lemma_inherent_method_diagnostics(method: InherentMethodView)
    requires
        !method.impl_of_trait,
        method.is_public,
        !method.in_test,
    ensures
        method.diagnostics() == (FreeFunctionView {
            ident: method.ident,
            generics: method.generics,
            params: method.params,
            is_public: true,
            in_test: false,
        }).diagnostics(),
        method.diagnostics().len() == opaque_params(method.generics.params).len(),
        forall|i: int|
            0 <= i < method.diagnostics().len() ==> (#[trigger] method.diagnostics()[i]).span
                == opaque_params(method.generics.params)[i].span,
{
    lemma_one_diagnostic_per_opaque_param(method.ident, method.generics, method.params[0]);
}

/// A trait method gets no diagnostic while changes to the exported interface
/// are to be avoided. Otherwise a method of a public trait outside test code
/// gets the diagnostics that a public free function with the same signature
/// gets: one for each opaque parameter, each at the span of its parameter. A
/// method of any other trait gets none.
pub proof fn lemma_trait_method_diagnostics(
    method: TraitMethodView,
    avoid_breaking_exported_api: bool,
)
    ensures
        avoid_breaking_exported_api ==> method.diagnostics(avoid_breaking_exported_api).len() == 0,
        !avoid_breaking_exported_api && !method.trait_vis_span.is_empty() && !method.in_test ==> {
            let diagnostics = method.diagnostics(avoid_breaking_exported_api);
            &&& diagnostics == (FreeFunctionView {
                ident: method.ident,
                generics: method.generics,
                params: method.params,
                is_public: true,
                in_test: false,
            }).diagnostics()
            &&& diagnostics.len() == opaque_params(method.generics.params).len()
            &&& forall|i: int|
                0 <= i < diagnostics.len() ==> (#[trigger] diagnostics[i]).span == opaque_params(
                    method.generics.params,
                )[i].span
        },
        method.trait_vis_span.is_empty() || method.in_test ==> method.diagnostics(
            avoid_breaking_exported_api,
        ).len() == 0,
{
    lemma_one_diagnostic_per_opaque_param(method.ident, method.generics, method.params[0]);
}

/// Whatever its shape, a declaration that is not looked at gets no diagnostic,
/// and one that is looked at gets exactly one for each of its opaque
/// parameters, each at the span of its parameter.
pub proof fn lemma_declaration_diagnostics(
    declaration: DeclarationView,
    avoid_breaking_exported_api: bool,
)
    ensures
        ({
            let diagnostics = declaration.diagnostics(avoid_breaking_exported_api);
            let generics = match declaration {
                DeclarationView::FreeFunction(f) => f.generics,
                DeclarationView::InherentMethod(m) => m.generics,
                DeclarationView::TraitMethod(t) => t.generics,
            };
            if declaration.is_eligible(avoid_breaking_exported_api) {
                &&& diagnostics.len() == opaque_params(generics.params).len()
                &&& forall|i: int|
                    0 <= i < diagnostics.len() ==> (#[trigger] diagnostics[i]).span
                        == opaque_params(generics.params)[i].span
            } else {
                diagnostics.len() == 0
            }
        }),
{
    match declaration {
        DeclarationView::FreeFunction(f) => lemma_free_function_diagnostics(f),
        DeclarationView::InherentMethod(m) => {
            if m.is_eligible() {
                lemma_inherent_method_diagnostics(m);
            }
        },
        DeclarationView::TraitMethod(t) => lemma_trait_method_diagnostics(
            t,
            avoid_breaking_exported_api,
        ),
    }
}

} // verus!
