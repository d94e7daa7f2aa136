//! Which declarations are looked at.

use vstd::prelude::*;
use crate::decl::{
    Declaration, DeclarationView, FreeFunction, FreeFunctionView, InherentMethod,
    InherentMethodView, TraitMethod, TraitMethodView,
};

verus! {

impl FreeFunctionView {
    /// A free function is looked at when it is public and outside test code.
    pub open spec fn is_eligible(self) -> bool {
        self.is_public && !self.in_test
    }
}

impl InherentMethodView {
    /// A method in an `impl` block is looked at when the block implements no
    /// trait and the method is public and outside test code.
    pub open spec fn is_eligible(self) -> bool {
        !self.impl_of_trait && self.is_public && !self.in_test
    }
}

impl TraitMethodView {
    /// A trait method is looked at when changes to the exported interface are
    /// allowed and the trait is public and outside test code.
    pub open spec fn is_eligible(self, avoid_breaking_exported_api: bool) -> bool {
        !avoid_breaking_exported_api && !self.trait_vis_span.is_empty() && !self.in_test
    }
}

impl DeclarationView {
    /// Whether the declaration is looked at, by the rule of its shape.
    pub open spec fn is_eligible(self, avoid_breaking_exported_api: bool) -> bool {
        match self {
            DeclarationView::FreeFunction(f) => f.is_eligible(),
            DeclarationView::InherentMethod(m) => m.is_eligible(),
            DeclarationView::TraitMethod(t) => t.is_eligible(avoid_breaking_exported_api),
        }
    }
}

impl FreeFunction {
    /// Whether the function is looked at.
    pub fn is_eligible(&self) -> (eligible: bool)
        ensures
            eligible == self@.is_eligible(),
    {
        self.is_public && !self.in_test
    }
}

impl InherentMethod {
    /// Whether the method is looked at.
    pub fn is_eligible(&self) -> (eligible: bool)
        ensures
            eligible == self@.is_eligible(),
    {
        !self.impl_of_trait && self.is_public && !self.in_test
    }
}

impl TraitMethod {
    /// Whether the method is looked at under the given setting.
    pub fn is_eligible(&self, avoid_breaking_exported_api: bool) -> (eligible: bool)
        ensures
            eligible == self@.is_eligible(avoid_breaking_exported_api),
    {
        !avoid_breaking_exported_api && !self.trait_vis_span.is_empty() && !self.in_test
    }
}

impl Declaration {
    /// Whether the declaration is looked at. The setting only bears on trait
    /// methods.
    pub fn is_eligible(&self, avoid_breaking_exported_api: bool) -> (eligible: bool)
        ensures
            eligible == self@.is_eligible(avoid_breaking_exported_api),
    {
        match self {
            Declaration::FreeFunction(f) => f.is_eligible(),
            Declaration::InherentMethod(m) => m.is_eligible(),
            Declaration::TraitMethod(t) => t.is_eligible(avoid_breaking_exported_api),
        }
    }
}

} // verus!
