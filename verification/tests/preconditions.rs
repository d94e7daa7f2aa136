use impl_trait_in_params::decl::{
    FreeFunction, GenericParam, Generics, Ident, InherentMethod, OpaqueTypeParam, TraitMethod,
};
use impl_trait_in_params::lint::check_trait_item;
use impl_trait_in_params::span::Span;

fn flagged_param(name: &str) -> GenericParam {
    GenericParam::OpaqueTypeParam(OpaqueTypeParam {
        synthetic_name: name.to_string(),
        span: Span::new(12, 12 + name.len() as u32, 0, None),
    })
}

fn free_function(params: Vec<GenericParam>, value_params: Vec<Span>) -> FreeFunction {
    FreeFunction {
        ident: Ident { name: "f".to_string(), span: Span::new(7, 8, 0, None) },
        generics: Generics { params, span: Span::new(8, 8, 0, None) },
        params: value_params,
        is_public: true,
        in_test: false,
    }
}

#[test]
fn function_without_value_parameters_is_checkable_unless_flagged() {
    assert!(free_function(vec![GenericParam::Type], vec![]).checkable());
    assert!(!free_function(vec![flagged_param("impl Trait")], vec![]).checkable());
}

#[test]
fn ineligible_function_is_always_checkable() {
    let mut function = free_function(vec![flagged_param("x")], vec![]);
    assert!(!function.checkable());
    function.is_public = false;
    assert!(function.checkable());
    function.is_public = true;
    function.in_test = true;
    assert!(function.checkable());
}

#[test]
fn function_with_a_short_synthetic_name_is_not_checkable() {
    let value_params = vec![Span::new(9, 22, 0, None)];
    assert!(!free_function(
        vec![flagged_param("impl Trait"), flagged_param("imp")],
        value_params.clone()
    )
    .checkable());
    assert!(free_function(
        vec![flagged_param("impl Trait"), flagged_param("impl X")],
        value_params
    )
    .checkable());
}

#[test]
fn function_whose_first_parameter_starts_the_file_is_not_checkable() {
    let mut function = free_function(vec![flagged_param("impl Trait")], vec![Span::new(0, 13, 0, None)]);
    assert!(!function.checkable());
    function.generics.span = Span::new(8, 11, 0, None);
    assert!(function.checkable());
}

#[test]
fn inherent_method_is_checkable_as_a_free_function_is() {
    let mut method = InherentMethod {
        ident: Ident { name: "f".to_string(), span: Span::new(7, 8, 0, None) },
        generics: Generics { params: vec![flagged_param("impl Trait")], span: Span::new(8, 8, 0, None) },
        params: vec![],
        is_public: true,
        impl_of_trait: false,
        in_test: false,
    };
    assert!(!method.checkable());
    method.impl_of_trait = true;
    assert!(method.checkable());
    method.impl_of_trait = false;
    method.params = vec![Span::new(9, 22, 0, None)];
    assert!(method.checkable());
}

#[test]
fn trait_method_is_checkable_as_a_free_function_is() {
    let mut method = TraitMethod {
        ident: Ident { name: "f".to_string(), span: Span::new(7, 8, 0, None) },
        generics: Generics { params: vec![flagged_param("impl Trait")], span: Span::new(8, 8, 0, None) },
        params: vec![],
        trait_vis_span: Span::new(0, 3, 0, None),
        in_test: false,
    };
    assert!(!method.checkable(false));
    assert!(method.checkable(true));
    method.params = vec![Span::new(0, 13, 0, None)];
    assert!(!method.checkable(false));
    method.params = vec![Span::new(9, 22, 0, None)];
    assert!(method.checkable(false));
    method.generics.params.push(flagged_param("impl"));
    assert!(!method.checkable(false));
    method.trait_vis_span = Span::new(0, 0, 0, None);
    assert!(method.checkable(false));
}

#[test]
fn trait_method_whose_name_ends_at_the_last_offset_is_checkable() {
    let method = TraitMethod {
        ident: Ident { name: "f".to_string(), span: Span::new(u32::MAX - 1, u32::MAX, 9, Some(4)) },
        generics: Generics {
            params: vec![flagged_param("impl Trait")],
            span: Span::new(u32::MAX, u32::MAX, 0, None),
        },
        params: vec![Span::new(u32::MAX, u32::MAX, 0, None)],
        trait_vis_span: Span::new(0, 3, 0, None),
        in_test: false,
    };
    assert!(method.checkable(false));
    let diagnostics = check_trait_item(&method, false);
    assert_eq!(diagnostics.len(), 1);
    assert_eq!(diagnostics[0].suggestion.span, Span::new(u32::MAX - 1, u32::MAX, 9, Some(4)));
}
