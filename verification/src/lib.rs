//! Detection of opaque `impl Trait` parameters in public signatures, with a
//! suggested rewrite into a named generic parameter.

pub mod decl;
pub mod diagnostic;
pub mod eligibility;
pub mod lint;
pub mod resolver;
pub mod scanner;
pub mod span;
