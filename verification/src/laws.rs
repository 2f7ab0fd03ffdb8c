//! What holds of every derivation.
//!
//! Each proof function states one law over the views that the contracts of
//! the crate use, for all declarations.

use vstd::prelude::*;
use crate::bounds::{bounded_parameters, exempt};
use crate::declaration::{AnnotationView, DeclarationView, DeclaredFieldView};
use crate::derivation::{debug_part, declared_part, implementation_of};
use crate::implementation::{EmissionView, FieldPlanView, PredicateView};
use crate::read::annotation_view;
use crate::readable::attribute_readable;
use crate::plan::{
    emission_of,
    first_template,
    lemma_first_template_skip,
    plan_of,
    plans_of,
    template_in,
    template_key,
};

verus! {

/// Whether an attribute is written `key = literal` with this key.
pub open spec fn has_key(annotation: AnnotationView, key: Seq<char>) -> bool {
    annotation matches AnnotationView::NameValue { key: Some(found), .. } && found == key
}

/// Whether `item` stands at `position` of `items` and nowhere else.
pub open spec fn occurs_only_at<A>(items: Seq<A>, item: A, position: int) -> bool {
    &&& 0 <= position < items.len()
    &&& items[position] == item
    &&& forall|j: int| 0 <= j < items.len() && #[trigger] items[j] == item ==> j == position
}

/// The positions of the named fields among `fields`, in increasing order.
pub open spec fn named_positions(fields: Seq<DeclaredFieldView>) -> Seq<int>
    decreases fields.len(),
{
    if fields.len() == 0 {
        Seq::empty()
    } else if fields.last().name is Some {
        named_positions(fields.drop_last()).push(fields.len() - 1)
    } else {
        named_positions(fields.drop_last())
    }
}

/// A struct without type parameters gets no `Debug` bound: the where-clause
/// of its implementation holds the declared predicates and nothing else, and
/// there is no where-clause at all if none was declared.
pub proof fn law_no_parameters_no_bounds(declaration: DeclarationView)
    requires
        declaration.type_parameters().len() == 0,
    ensures
        bounded_parameters(declaration.type_parameters(), declaration.fields).len() == 0,
        implementation_of(declaration).where_clause == match declaration.declared_predicates {
            Some(count) => Some(declared_part(count)),
            None => None,
        },
        implementation_of(declaration).where_clause matches Some(predicates) ==> forall|i: int|
            0 <= i < predicates.len() ==> #[trigger] predicates[i] is Declared,
{
    let bounds = bounded_parameters(declaration.type_parameters(), declaration.fields);
    declaration.type_parameters().lemma_filter_len(
        |parameter: Seq<char>| !exempt(declaration.fields, parameter),
    );
    assert(debug_part(bounds) =~= Seq::<PredicateView>::empty());
    match declaration.declared_predicates {
        Some(count) => {
            assert(declared_part(count) + debug_part(bounds) =~= declared_part(count));
        },
        None => {},
    }
}

/// A field that has no attribute with the key `debug` is shown by its own
/// `Debug` implementation.
pub proof fn law_unannotated_field_default(field: DeclaredFieldView)
    requires
        forall|i: int|
            0 <= i < field.annotations.len() ==> !has_key(
                #[trigger] field.annotations[i],
                template_key(),
            ),
    ensures
        emission_of(field.annotations) == EmissionView::Default,
        field.name matches Some(name) ==> plan_of(field) == Some(
            FieldPlanView { name, emission: EmissionView::Default },
        ),
{
    law_malformed_annotations_ignored(field);
}

/// Attributes that are not written `debug = "template"` count for nothing,
/// whatever their key: a field that has only such attributes is shown by its
/// own `Debug` implementation.
pub proof fn law_malformed_annotations_ignored(field: DeclaredFieldView)
    requires
        forall|i: int|
            0 <= i < field.annotations.len() ==> template_in(#[trigger] field.annotations[i])
                is None,
    ensures
        emission_of(field.annotations) == EmissionView::Default,
        field.name matches Some(name) ==> plan_of(field) == Some(
            FieldPlanView { name, emission: EmissionView::Default },
        ),
{
    lemma_first_template_skip(field.annotations, field.annotations.len() as int);
    assert(field.annotations.skip(field.annotations.len() as int).len() == 0);
}

/// An attribute that is not handed to the parser, because it holds a literal
/// that is no string literal or is nested too deep, supplies no template.
pub proof fn law_unreadable_attribute_ignored(attribute: syn::Attribute)
    requires
        !attribute_readable(attribute),
    ensures
        annotation_view(attribute) == AnnotationView::Other,
        template_in(annotation_view(attribute)) is None,
{
}

/// A field is shown through the template of its first attribute that is
/// written `debug = "template"`.
pub proof fn law_first_template_applied(field: DeclaredFieldView, position: int)
    requires
        0 <= position < field.annotations.len(),
        template_in(field.annotations[position]) is Some,
        forall|i: int|
            0 <= i < position ==> template_in(#[trigger] field.annotations[i]) is None,
    ensures
        emission_of(field.annotations) == EmissionView::Template(
            template_in(field.annotations[position])->0,
        ),
        field.name matches Some(name) ==> plan_of(field) == Some(
            FieldPlanView {
                name,
                emission: EmissionView::Template(template_in(field.annotations[position])->0),
            },
        ),
{
    lemma_first_template_skip(field.annotations, position);
    assert(field.annotations.skip(position).first() == field.annotations[position]);
}

/// Two fields with the same template are shown through the same template,
/// character for character, whatever else differs between them.
pub proof fn law_same_template_same_emission(
    first: DeclaredFieldView,
    second: DeclaredFieldView,
    template: Seq<char>,
)
    requires
        first_template(first.annotations) == Some(template),
        first_template(second.annotations) == Some(template),
    ensures
        emission_of(first.annotations) == EmissionView::Template(template),
        emission_of(second.annotations) == emission_of(first.annotations),
{
}

/// Filtering a sequence without duplicates leaves no duplicates.
proof fn lemma_filter_no_duplicates<A>(items: Seq<A>, keep: spec_fn(A) -> bool)
    requires
        items.no_duplicates(),
    ensures
        items.filter(keep).no_duplicates(),
    decreases items.len(),
{
    reveal(Seq::filter);
    if items.len() > 0 {
        let rest = items.drop_last();
        lemma_filter_no_duplicates(rest, keep);
        if keep(items.last()) {
            let kept = rest.filter(keep);
            assert forall|i: int| 0 <= i < kept.len() implies kept[i] != items.last() by {
                if kept[i] == items.last() {
                    assert(kept.contains(items.last()));
                    rest.lemma_filter_contains_rev(keep, items.last());
                    let j = choose|j: int| 0 <= j < rest.len() && rest[j] == items.last();
                    assert(items[j] == items[items.len() - 1]);
                }
            }
        }
    }
}

/// A type parameter with a marker field gets no `Debug` bound.
pub proof fn law_marker_parameter_unbounded(declaration: DeclarationView, parameter: Seq<char>)
    requires
        exempt(declaration.fields, parameter),
    ensures
        !bounded_parameters(declaration.type_parameters(), declaration.fields).contains(parameter),
        implementation_of(declaration).where_clause matches Some(predicates) ==> forall|i: int|
            0 <= i < predicates.len() ==> #[trigger] predicates[i] != PredicateView::Debug(
                parameter,
            ),
{
    let needs_bound = |parameter: Seq<char>| !exempt(declaration.fields, parameter);
    let bounds = bounded_parameters(declaration.type_parameters(), declaration.fields);
    assert forall|i: int| 0 <= i < bounds.len() implies bounds[i] != parameter by {
        declaration.type_parameters().lemma_filter_pred(needs_bound, i);
    }
}

/// A type parameter without a marker field gets its `Debug` bound, and gets
/// it once: exactly one predicate of the where-clause is the bound.
pub proof fn law_other_parameter_bounded_once(declaration: DeclarationView, parameter: Seq<char>)
    requires
        declaration.well_formed(),
        declaration.type_parameters().contains(parameter),
        !exempt(declaration.fields, parameter),
    ensures
        bounded_parameters(declaration.type_parameters(), declaration.fields).contains(parameter),
        bounded_parameters(declaration.type_parameters(), declaration.fields).no_duplicates(),
        implementation_of(declaration).where_clause is Some,
        exists|i: int|
            occurs_only_at(
                implementation_of(declaration).where_clause->0,
                PredicateView::Debug(parameter),
                i,
            ),
{
    let needs_bound = |parameter: Seq<char>| !exempt(declaration.fields, parameter);
    let parameters = declaration.type_parameters();
    let bounds = bounded_parameters(parameters, declaration.fields);
    let at = choose|at: int| 0 <= at < parameters.len() && parameters[at] == parameter;
    parameters.lemma_filter_contains(needs_bound, at);
    lemma_filter_no_duplicates(parameters, needs_bound);
    let k = choose|k: int| 0 <= k < bounds.len() && bounds[k] == parameter;
    let added = debug_part(bounds);
    assert(added[k] == PredicateView::Debug(parameter));
    match declaration.declared_predicates {
        Some(count) => {
            let predicates = declared_part(count) + added;
            assert(predicates[count + k] == PredicateView::Debug(parameter));
            assert forall|j: int|
                0 <= j < predicates.len() && #[trigger] predicates[j] == PredicateView::Debug(
                    parameter,
                ) implies j == count + k by {
                if j >= count {
                    assert(predicates[j] == added[j - count]);
                    assert(bounds[j - count] == parameter);
                }
            }
            assert(implementation_of(declaration).where_clause->0 == predicates);
            assert(occurs_only_at(predicates, PredicateView::Debug(parameter), count + k));
        },
        None => {
            assert forall|j: int|
                0 <= j < added.len() && #[trigger] added[j] == PredicateView::Debug(
                    parameter,
                ) implies j == k by {
                assert(bounds[j] == parameter);
            }
            assert(implementation_of(declaration).where_clause->0 == added);
            assert(occurs_only_at(added, PredicateView::Debug(parameter), k));
        },
    }
}

/// The fields are shown in declaration order: the plans are those of the
/// named fields, taken by increasing position.
pub proof fn law_plans_in_declaration_order(fields: Seq<DeclaredFieldView>)
    ensures
        plans_of(fields).len() == named_positions(fields).len(),
        forall|k: int|
            0 <= k < named_positions(fields).len() ==> {
                &&& 0 <= #[trigger] named_positions(fields)[k] < fields.len()
                &&& plan_of(fields[named_positions(fields)[k]]) == Some(plans_of(fields)[k])
            },
        forall|a: int, b: int|
            0 <= a < b < named_positions(fields).len() ==> #[trigger] named_positions(fields)[a]
                < #[trigger] named_positions(fields)[b],
        forall|i: int|
            0 <= i < fields.len() && (#[trigger] fields[i]).name is Some ==> named_positions(
                fields,
            ).contains(i),
    decreases fields.len(),
{
    let plan = |field: DeclaredFieldView| plan_of(field);
    if fields.len() > 0 {
        let rest = fields.drop_last();
        law_plans_in_declaration_order(rest);
        assert(plans_of(rest) == rest.filter_map(plan));
        let positions = named_positions(fields);
        let earlier = named_positions(rest);
        assert forall|i: int|
            0 <= i < fields.len() && (#[trigger] fields[i]).name is Some implies positions.contains(
            i,
        ) by {
            if i < fields.len() - 1 {
                assert(rest[i].name is Some);
                let k = choose|k: int| 0 <= k < earlier.len() && earlier[k] == i;
                assert(positions[k] == i);
            } else {
                assert(positions[positions.len() - 1] == i);
            }
        }
        assert forall|k: int| 0 <= k < positions.len() implies {
            &&& 0 <= #[trigger] positions[k] < fields.len()
            &&& plan_of(fields[positions[k]]) == Some(plans_of(fields)[k])
        } by {
            if k < earlier.len() {
                assert(positions[k] == earlier[k]);
                assert(fields[earlier[k]] == rest[earlier[k]]);
            }
        }
    }
}

/// In a struct whose fields are all named there is one plan per field, and
/// the plan at each position is that of the field at the same position.
pub proof fn law_named_fields_keep_positions(fields: Seq<DeclaredFieldView>)
    requires
        forall|i: int| 0 <= i < fields.len() ==> (#[trigger] fields[i]).name is Some,
    ensures
        plans_of(fields).len() == fields.len(),
        forall|i: int|
            0 <= i < fields.len() ==> plan_of(#[trigger] fields[i]) == Some(plans_of(fields)[i]),
    decreases fields.len(),
{
    if fields.len() > 0 {
        let rest = fields.drop_last();
        assert forall|i: int| 0 <= i < rest.len() implies (#[trigger] rest[i]).name is Some by {
            assert(rest[i] == fields[i]);
        }
        law_named_fields_keep_positions(rest);
        assert(plans_of(rest) == rest.filter_map(|field: DeclaredFieldView| plan_of(field)));
        assert forall|i: int| 0 <= i < fields.len() implies plan_of(#[trigger] fields[i]) == Some(
            plans_of(fields)[i],
        ) by {
            if i < rest.len() {
                assert(fields[i] == rest[i]);
            }
        }
    }
}

} // verus!
