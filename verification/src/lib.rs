//! Derivation of a `Debug` implementation for a struct, with a format
//! template per field.
//!
//! A derivation starts from a parsed type declaration. [`derive`] decides
//! three things: whether the declaration can be derived for at all, how each
//! field is shown, and which type parameters must implement `Debug`
//! themselves. Only the declaration of a struct is read into a
//! [`declaration::Declaration`]; of any other, no more than the kind and the
//! name is looked at. The answer is a
//! [`implementation::GeneratedImplementation`], or a
//! [`implementation::Diagnostic`] for a declaration that is not a struct.

use vstd::prelude::*;
use crate::declaration::DeclarationKind;
use crate::derivation::{derivation, derive_implementation, outcome_view, reject};
use crate::implementation::{Diagnostic, GeneratedImplementation};
use crate::read::{declaration_view, read_declaration};
use crate::syntax::{declared_kind, declared_name};

pub mod bounds;
pub mod declaration;
pub mod derivation;
pub mod implementation;
pub mod laws;
pub mod plan;
pub mod read;
pub mod readable;
pub mod syntax;

verus! {

/// Derives the `Debug` implementation for a parsed type declaration.
pub fn derive(input: &syn::DeriveInput) -> (outcome: Result<GeneratedImplementation, Diagnostic>)
    ensures
        outcome_view(outcome) == derivation(declaration_view(*input)),
{
    match declared_kind(input) {
        DeclarationKind::Struct => {
            let declaration = read_declaration(input);
            derive_implementation(&declaration)
        },
        _ => {
            let name = declared_name(input);
            Err(reject(&name))
        },
    }
}

} // verus!
