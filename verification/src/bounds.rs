//! Which type parameters must themselves implement `Debug`.
//!
//! A type parameter needs the bound unless some field of the declaration is a
//! marker for it: a field whose type is a path that ends in `PhantomData`
//! with the parameter as its one argument. The rule looks no further: a
//! parameter with such a marker field is exempt even if another field holds
//! a value of it.

use vstd::prelude::*;
use crate::declaration::{
    type_parameter_name,
    Argument,
    ArgumentView,
    DeclaredField,
    DeclaredFieldView,
    FieldType,
    FieldTypeView,
    GenericParameter,
    GenericParameterView,
    ParameterKind,
};

verus! {

/// The name of the marker type.
pub open spec fn marker_name() -> Seq<char> {
    "PhantomData"@
}

/// Whether a field of type `ty` is a marker for the type parameter named
/// `parameter`: `ty` is a path, the last segment of the path is named
/// `PhantomData`, that segment has exactly one argument between angle
/// brackets, the argument is a path type, and the leading segment of that
/// path is named `parameter`.
pub open spec fn phantom_evidence(ty: FieldTypeView, parameter: Seq<char>) -> bool {
    &&& ty matches FieldTypeView::Path(segments)
    &&& segments.len() > 0
    &&& segments.last().name == marker_name()
    &&& segments.last().arguments matches Some(arguments)
    &&& arguments.len() == 1
    &&& arguments[0] matches ArgumentView::TypePath(path)
    &&& path.len() > 0
    &&& path[0] == parameter
}

/// Whether some field among `fields` is a marker for `parameter`.
pub open spec fn exempt(fields: Seq<DeclaredFieldView>, parameter: Seq<char>) -> bool {
    exists|i: int| 0 <= i < fields.len() && phantom_evidence(#[trigger] fields[i].ty, parameter)
}

/// The type parameters that get a `Debug` bound: those of `parameters` that
/// are not exempt, each as often and in the order in which it is listed.
pub open spec fn bounded_parameters(
    parameters: Seq<Seq<char>>,
    fields: Seq<DeclaredFieldView>,
) -> Seq<Seq<char>> {
    parameters.filter(|parameter: Seq<char>| !exempt(fields, parameter))
}

/// Tells whether `field` is a marker for the type parameter `type_param`.
pub fn is_phantom_data_of(field: &DeclaredField, type_param: &String) -> (evidence: bool)
    ensures
        evidence == phantom_evidence(field@.ty, type_param@),
{
    match &field.ty {
        FieldType::Path(segments) => {
            let count: usize = segments.len();
            if count == 0 {
                return false;
            }
            let last = &segments[count - 1];
            assert(segments.deep_view().last() == last@);
            let marker = "PhantomData".to_owned();
            if !(last.name == marker) {
                return false;
            }
            match &last.arguments {
                Some(arguments) => {
                    if arguments.len() != 1 {
                        return false;
                    }
                    assert(arguments.deep_view()[0] == arguments@[0]@);
                    match &arguments[0] {
                        Argument::TypePath(path) => {
                            if path.len() == 0 {
                                false
                            } else {
                                assert(path.deep_view()[0] == path@[0]@);
                                path[0] == *type_param
                            }
                        },
                        Argument::Other => false,
                    }
                },
                None => false,
            }
        },
        FieldType::Other => false,
    }
}

/// Tells whether `field` uses the type parameter `type_param` through an
/// associated type, as in `T::Item`. Such uses are not tracked: the answer is
/// `false` for every field.
pub fn associated_type_used(field: &DeclaredField, type_param: &String) -> (used: bool)
    ensures
        !used,
{
    false
}

/// Tells whether some field of `fields` is a marker for `parameter`.
pub fn is_exempt(fields: &Vec<DeclaredField>, parameter: &String) -> (found: bool)
    ensures
        found == exempt(fields.deep_view(), parameter@),
{
    let mut index: usize = 0;
    while index < fields.len()
        invariant
            index <= fields.len(),
            forall|i: int|
                0 <= i < index ==> !phantom_evidence(
                    #[trigger] fields.deep_view()[i].ty,
                    parameter@,
                ),
        decreases fields.len() - index,
    {
        assert(fields.deep_view()[index as int] == fields@[index as int]@);
        if is_phantom_data_of(&fields[index], parameter) {
            return true;
        }
        index = index + 1;
    }
    false
}

/// Picks the names of the type parameters out of the generic parameters.
pub fn type_parameters(generics: &Vec<GenericParameter>) -> (names: Vec<String>)
    ensures
        names.deep_view() == generics.deep_view().filter_map(
            |parameter: GenericParameterView| type_parameter_name(parameter),
        ),
{
    let ghost all = generics.deep_view();
    let ghost name = |parameter: GenericParameterView| type_parameter_name(parameter);
    let mut names: Vec<String> = Vec::new();
    let mut index: usize = 0;
    assert(all.take(0).filter_map(name) =~= Seq::<Seq<char>>::empty());
    while index < generics.len()
        invariant
            index <= generics.len(),
            all == generics.deep_view(),
            name == |parameter: GenericParameterView| type_parameter_name(parameter),
            names.deep_view() == all.take(index as int).filter_map(name),
        decreases generics.len() - index,
    {
        let ghost before = names.deep_view();
        let parameter = &generics[index];
        proof {
            assert(all[index as int] == parameter@);
            all.lemma_filter_map_take_succ(name, index as int);
        }
        match parameter.kind {
            ParameterKind::Type => {
                names.push(parameter.name.clone());
                assert(names.deep_view() =~= before + seq![parameter.name@]);
            },
            _ => {
                assert(before + Seq::<Seq<char>>::empty() =~= before);
            },
        }
        index = index + 1;
    }
    assert(all.take(index as int) =~= all);
    names
}

/// Lists the type parameters that get a `Debug` bound.
pub fn synthesize_bounds(type_parameters: &Vec<String>, fields: &Vec<DeclaredField>) -> (bounds: Vec<
    String,
>)
    ensures
        bounds.deep_view() == bounded_parameters(type_parameters.deep_view(), fields.deep_view()),
{
    let ghost parameters = type_parameters.deep_view();
    let ghost needs_bound = |parameter: Seq<char>| !exempt(fields.deep_view(), parameter);
    let mut bounds: Vec<String> = Vec::new();
    let mut index: usize = 0;
    proof {
        reveal(Seq::filter);
        assert(parameters.take(0).filter(needs_bound) =~= Seq::<Seq<char>>::empty());
    }
    while index < type_parameters.len()
        invariant
            index <= type_parameters.len(),
            parameters == type_parameters.deep_view(),
            needs_bound == |parameter: Seq<char>| !exempt(fields.deep_view(), parameter),
            bounds.deep_view() == parameters.take(index as int).filter(needs_bound),
        decreases type_parameters.len() - index,
    {
        let parameter = &type_parameters[index];
        let ghost before = bounds.deep_view();
        proof {
            assert(parameters[index as int] == parameter@);
            assert(parameters.take(index + 1) =~= parameters.take(index as int).push(parameter@));
            parameters.take(index as int).lemma_filter_push(parameter@, needs_bound);
        }
        if !is_exempt(fields, parameter) {
            bounds.push(parameter.clone());
            assert(bounds.deep_view() =~= before.push(parameter@));
        }
        index = index + 1;
    }
    assert(parameters.take(index as int) =~= parameters);
    bounds
}

} // verus!
