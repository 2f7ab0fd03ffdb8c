//! How each field is shown.
//!
//! A field is shown through a format template when one of its attributes is
//! written `#[debug = "template"]`; the first such attribute decides.
//! Attributes of any other shape, `debug` ones among them, are passed over.
//! Without a template the field is shown by its own `Debug` implementation.
//! Positional fields are not shown at all.

use vstd::prelude::*;
use crate::declaration::{Annotation, AnnotationView, DeclaredField, DeclaredFieldView};
use crate::implementation::{Emission, EmissionView, FieldPlan, FieldPlanView};

verus! {

/// The key of the attribute that carries a format template.
pub open spec fn template_key() -> Seq<char> {
    "debug"@
}

/// The format template that one attribute supplies, if it supplies one: the
/// attribute is written `debug = "template"`.
pub open spec fn template_in(annotation: AnnotationView) -> Option<Seq<char>> {
    match annotation {
        AnnotationView::NameValue { key: Some(key), value: template } => {
            if key == template_key() {
                Some(template)
            } else {
                None
            }
        },
        _ => None,
    }
}

/// The format template of a field with these attributes: the one that the
/// first attribute that supplies any supplies.
pub open spec fn first_template(annotations: Seq<AnnotationView>) -> Option<Seq<char>>
    decreases annotations.len(),
{
    if annotations.len() == 0 {
        None
    } else if template_in(annotations.first()) is Some {
        template_in(annotations.first())
    } else {
        first_template(annotations.drop_first())
    }
}

/// How a field with these attributes is shown.
pub open spec fn emission_of(annotations: Seq<AnnotationView>) -> EmissionView {
    match first_template(annotations) {
        Some(template) => EmissionView::Template(template),
        None => EmissionView::Default,
    }
}

/// The plan for one field; `None` for a positional field.
pub open spec fn plan_of(field: DeclaredFieldView) -> Option<FieldPlanView> {
    match field.name {
        Some(name) => Some(FieldPlanView { name, emission: emission_of(field.annotations) }),
        None => None,
    }
}

/// The plans for the fields of a declaration: one per named field, in the
/// order of the fields.
pub open spec fn plans_of(fields: Seq<DeclaredFieldView>) -> Seq<FieldPlanView> {
    fields.filter_map(|field: DeclaredFieldView| plan_of(field))
}

/// `first_template` looks past leading attributes that supply no template.
pub proof fn lemma_first_template_skip(annotations: Seq<AnnotationView>, count: int)
    requires
        0 <= count <= annotations.len(),
        forall|i: int| 0 <= i < count ==> template_in(#[trigger] annotations[i]) is None,
    ensures
        first_template(annotations) == first_template(annotations.skip(count)),
    decreases count,
{
    if count == 0 {
        assert(annotations.skip(0) =~= annotations);
    } else {
        assert(template_in(annotations[0]) is None);
        let rest = annotations.drop_first();
        assert forall|i: int| 0 <= i < count - 1 implies template_in(#[trigger] rest[i]) is None by {
            assert(rest[i] == annotations[i + 1]);
        }
        lemma_first_template_skip(rest, count - 1);
        assert(rest.skip(count - 1) =~= annotations.skip(count));
    }
}

/// Reads the format template out of one attribute.
pub fn template_of(annotation: &Annotation) -> (template: Option<String>)
    ensures
        template.deep_view() == template_in(annotation@),
{
    match annotation {
        Annotation::NameValue { key: Some(key), value: text } => {
            let expected = "debug".to_owned();
            if *key == expected {
                Some(text.clone())
            } else {
                None
            }
        },
        _ => None,
    }
}

/// Finds the format template of a field with these attributes.
pub fn find_template(annotations: &Vec<Annotation>) -> (template: Option<String>)
    ensures
        template.deep_view() == first_template(annotations.deep_view()),
{
    let ghost all = annotations.deep_view();
    let mut index: usize = 0;
    while index < annotations.len()
        invariant
            index <= annotations.len(),
            all == annotations.deep_view(),
            forall|i: int| 0 <= i < index ==> template_in(#[trigger] all[i]) is None,
        decreases annotations.len() - index,
    {
        let found = template_of(&annotations[index]);
        proof {
            assert(all[index as int] == annotations@[index as int]@);
            lemma_first_template_skip(all, index as int);
            assert(all.skip(index as int).first() == all[index as int]);
        }
        if found.is_some() {
            return found;
        }
        index = index + 1;
    }
    proof {
        lemma_first_template_skip(all, index as int);
        assert(all.skip(index as int).len() == 0);
    }
    None
}

/// Decides how one field is shown; `None` for a positional field.
pub fn plan_field(field: &DeclaredField) -> (plan: Option<FieldPlan>)
    ensures
        plan.deep_view() == plan_of(field@),
{
    match &field.name {
        Some(name) => {
            let emission = match find_template(&field.annotations) {
                Some(template) => Emission::Template(template),
                None => Emission::Default,
            };
            Some(FieldPlan { name: name.clone(), emission })
        },
        None => None,
    }
}

/// Decides how the fields of a declaration are shown.
pub fn plan_fields(fields: &Vec<DeclaredField>) -> (plans: Vec<FieldPlan>)
    ensures
        plans.deep_view() == plans_of(fields.deep_view()),
{
    let ghost all = fields.deep_view();
    let ghost plan = |field: DeclaredFieldView| plan_of(field);
    let mut plans: Vec<FieldPlan> = Vec::new();
    let mut index: usize = 0;
    assert(all.take(0).filter_map(plan) =~= Seq::<FieldPlanView>::empty());
    while index < fields.len()
        invariant
            index <= fields.len(),
            all == fields.deep_view(),
            plan == |field: DeclaredFieldView| plan_of(field),
            plans.deep_view() == all.take(index as int).filter_map(plan),
        decreases fields.len() - index,
    {
        let ghost before = plans.deep_view();
        proof {
            assert(all[index as int] == fields@[index as int]@);
            all.lemma_filter_map_take_succ(plan, index as int);
        }
        match plan_field(&fields[index]) {
            Some(next) => {
                plans.push(next);
                assert(plans.deep_view() =~= before + seq![next@]);
            },
            None => {
                assert(before + Seq::<FieldPlanView>::empty() =~= before);
            },
        }
        index = index + 1;
    }
    assert(all.take(index as int) =~= all);
    plans
}

} // verus!
