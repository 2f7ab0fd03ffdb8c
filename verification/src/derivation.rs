//! From a declaration to its `Debug` implementation.
//!
//! Only a struct is derived for. Its implementation shows the named fields in
//! declaration order, and its where-clause repeats the predicates that the
//! struct declares and adds `P: Debug` for each type parameter that needs it.

use vstd::prelude::*;
use crate::bounds::{bounded_parameters, synthesize_bounds, type_parameters};
use crate::declaration::{
    Declaration,
    DeclarationKind,
    DeclarationView,
    DeclaredField,
    GenericParameter,
};
use crate::implementation::{
    Diagnostic,
    DiagnosticKind,
    DiagnosticView,
    GeneratedImplementation,
    ImplementationView,
    Predicate,
    PredicateView,
};
use crate::plan::{plan_fields, plans_of};

verus! {

/// What the user is told about a declaration that is not a struct.
pub open spec fn unsupported_message() -> Seq<char> {
    "only structs are supported"@
}

/// The diagnostic for a declaration that is not a struct, attached to the
/// declaration's name.
pub open spec fn rejection(declaration: DeclarationView) -> DiagnosticView {
    DiagnosticView {
        kind: DiagnosticKind::NotSupported,
        anchor: declaration.name,
        message: unsupported_message(),
    }
}

/// The first `count` predicates of the declaration's own where-clause.
pub open spec fn declared_part(count: nat) -> Seq<PredicateView> {
    Seq::new(count, |position: int| PredicateView::Declared(position as nat))
}

/// `P: Debug` for each `P` of `bounds`.
pub open spec fn debug_part(bounds: Seq<Seq<char>>) -> Seq<PredicateView> {
    bounds.map_values(|parameter: Seq<char>| PredicateView::Debug(parameter))
}

/// The where-clause of the implementation: the declared predicates followed
/// by the added bounds. A declaration without a where-clause gets one only if
/// a bound is added.
pub open spec fn where_clause_of(declared: Option<nat>, bounds: Seq<Seq<char>>) -> Option<
    Seq<PredicateView>,
> {
    match declared {
        Some(count) => Some(declared_part(count) + debug_part(bounds)),
        None => if bounds.len() == 0 {
            None
        } else {
            Some(debug_part(bounds))
        },
    }
}

/// The implementation for a struct: it repeats the generic parameters, shows
/// the named fields in order, and bounds the type parameters that need it.
pub open spec fn implementation_of(declaration: DeclarationView) -> ImplementationView {
    ImplementationView {
        name: declaration.name,
        generics: declaration.generics,
        where_clause: where_clause_of(
            declaration.declared_predicates,
            bounded_parameters(declaration.type_parameters(), declaration.fields),
        ),
        plans: plans_of(declaration.fields),
    }
}

/// What a derivation yields: the implementation for a struct, the rejection
/// for anything else.
pub open spec fn derivation(declaration: DeclarationView) -> Result<
    ImplementationView,
    DiagnosticView,
> {
    if declaration.kind is Struct {
        Ok(implementation_of(declaration))
    } else {
        Err(rejection(declaration))
    }
}

/// The view of a derivation's outcome.
pub open spec fn outcome_view(outcome: Result<GeneratedImplementation, Diagnostic>) -> Result<
    ImplementationView,
    DiagnosticView,
> {
    match outcome {
        Ok(implementation) => Ok(implementation@),
        Err(diagnostic) => Err(diagnostic@),
    }
}

/// Writes the diagnostic for a declaration of this name that is not a
/// struct.
pub fn reject(name: &String) -> (diagnostic: Diagnostic)
    ensures
        diagnostic@ == (DiagnosticView {
            kind: DiagnosticKind::NotSupported,
            anchor: name@,
            message: unsupported_message(),
        }),
{
    Diagnostic {
        kind: DiagnosticKind::NotSupported,
        anchor: name.clone(),
        message: "only structs are supported".to_owned(),
    }
}

/// Hands out the fields of a struct and rejects every other declaration.
pub fn accept(declaration: &Declaration) -> (fields: Result<&Vec<DeclaredField>, Diagnostic>)
    ensures
        match fields {
            Ok(fields) => declaration.kind is Struct && *fields == declaration.fields,
            Err(diagnostic) => !(declaration.kind is Struct) && diagnostic@ == rejection(
                declaration@,
            ),
        },
{
    match declaration.kind {
        DeclarationKind::Struct => Ok(&declaration.fields),
        _ => Err(reject(&declaration.name)),
    }
}

/// Copies a list of generic parameters.
fn repeat_generics(generics: &Vec<GenericParameter>) -> (repeated: Vec<GenericParameter>)
    ensures
        repeated.deep_view() == generics.deep_view(),
{
    let mut repeated: Vec<GenericParameter> = Vec::new();
    let mut index: usize = 0;
    while index < generics.len()
        invariant
            index <= generics.len(),
            repeated.deep_view() == generics.deep_view().take(index as int),
        decreases generics.len() - index,
    {
        let ghost before = repeated.deep_view();
        let parameter = &generics[index];
        repeated.push(GenericParameter { kind: parameter.kind, name: parameter.name.clone() });
        assert(repeated.deep_view() =~= before.push(parameter@));
        assert(generics.deep_view()[index as int] == parameter@);
        index = index + 1;
    }
    assert(generics.deep_view().take(index as int) =~= generics.deep_view());
    repeated
}

/// Builds the where-clause of the implementation from the size of the
/// declared where-clause and the parameters that get a bound.
pub fn extend_where_clause(declared: Option<usize>, bounds: &Vec<String>) -> (clause: Option<
    Vec<Predicate>,
>)
    ensures
        clause.deep_view() == where_clause_of(
            match declared {
                Some(count) => Some(count as nat),
                None => None,
            },
            bounds.deep_view(),
        ),
{
    let count: usize = match declared {
        Some(count) => count,
        None => {
            if bounds.len() == 0 {
                return None;
            }
            0
        },
    };
    let mut predicates: Vec<Predicate> = Vec::new();
    let mut position: usize = 0;
    while position < count
        invariant
            position <= count,
            predicates.deep_view() == declared_part(position as nat),
        decreases count - position,
    {
        let ghost before = predicates.deep_view();
        predicates.push(Predicate::Declared(position));
        assert(predicates.deep_view() =~= before.push(PredicateView::Declared(position as nat)));
        position = position + 1;
    }
    let mut index: usize = 0;
    while index < bounds.len()
        invariant
            index <= bounds.len(),
            predicates.deep_view() == declared_part(count as nat) + debug_part(
                bounds.deep_view().take(index as int),
            ),
        decreases bounds.len() - index,
    {
        let ghost before = predicates.deep_view();
        predicates.push(Predicate::Debug(bounds[index].clone()));
        proof {
            assert(bounds.deep_view()[index as int] == bounds@[index as int]@);
            assert(predicates.deep_view() =~= before.push(PredicateView::Debug(bounds@[index as int]@)));
        }
        index = index + 1;
    }
    proof {
        assert(bounds.deep_view().take(index as int) =~= bounds.deep_view());
        if declared is None {
            assert(declared_part(0) + debug_part(bounds.deep_view()) =~= debug_part(
                bounds.deep_view(),
            ));
        }
    }
    Some(predicates)
}

/// Derives the `Debug` implementation for a declaration.
pub fn derive_implementation(declaration: &Declaration) -> (outcome: Result<
    GeneratedImplementation,
    Diagnostic,
>)
    ensures
        outcome_view(outcome) == derivation(declaration@),
{
    let fields = match accept(declaration) {
        Ok(fields) => fields,
        Err(diagnostic) => {
            return Err(diagnostic);
        },
    };
    let plans = plan_fields(fields);
    let parameters = type_parameters(&declaration.generics);
    let bounds = synthesize_bounds(&parameters, fields);
    let where_clause = extend_where_clause(declaration.declared_predicates, &bounds);
    let generics = repeat_generics(&declaration.generics);
    Ok(GeneratedImplementation { name: declaration.name.clone(), generics, where_clause, plans })
}

} // verus!
