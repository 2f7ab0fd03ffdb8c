//! From the syntax tree to a [`Declaration`].

use vstd::prelude::*;
use crate::declaration::{
    Annotation,
    AnnotationView,
    Declaration,
    DeclarationView,
    DeclaredField,
    FieldType,
    FieldTypeView,
    DeclaredFieldView,
    Argument,
    ArgumentView,
    Segment,
    SegmentView,
};
use crate::readable::{attribute_readable, is_attribute_readable};
use crate::syntax::{
    argument_path,
    attribute_name_value,
    declared_fields,
    declared_kind,
    declared_name,
    declared_predicates,
    declared_generics,
    field_attributes,
    field_name,
    field_type_segments,
    name_value_key,
    name_value_text,
    segment_arguments,
    segment_name,
    spec_argument_path,
    spec_attribute_name_value,
    spec_declared_fields,
    spec_declared_kind,
    spec_declared_name,
    spec_declared_predicates,
    spec_declared_generics,
    spec_field_attributes,
    spec_field_name,
    spec_field_type_segments,
    spec_name_value_key,
    spec_name_value_text,
    spec_segment_arguments,
    spec_segment_name,
};

verus! {

/// What a generic argument of the syntax tree is in a declaration.
pub open spec fn argument_view(argument: syn::GenericArgument) -> ArgumentView {
    match spec_argument_path(argument) {
        Some(names) => ArgumentView::TypePath(names),
        None => ArgumentView::Other,
    }
}

/// What a path segment of the syntax tree is in a declaration.
pub open spec fn segment_view(segment: syn::PathSegment) -> SegmentView {
    SegmentView {
        name: spec_segment_name(segment),
        arguments: match spec_segment_arguments(segment) {
            Some(arguments) => Some(
                arguments.map_values(|argument: syn::GenericArgument| argument_view(argument)),
            ),
            None => None,
        },
    }
}

/// What the type of a field of the syntax tree is in a declaration.
pub open spec fn field_type_view(field: syn::Field) -> FieldTypeView {
    match spec_field_type_segments(field) {
        Some(segments) => FieldTypeView::Path(
            segments.map_values(|segment: syn::PathSegment| segment_view(segment)),
        ),
        None => FieldTypeView::Other,
    }
}

/// What an attribute of the syntax tree is in a declaration: a name-value
/// pair if it is handed to the parser and the parser finds one with a string
/// literal on the right, and an attribute of another shape otherwise.
pub open spec fn annotation_view(attribute: syn::Attribute) -> AnnotationView {
    if !attribute_readable(attribute) {
        AnnotationView::Other
    } else {
        match spec_attribute_name_value(attribute) {
            Some(pair) => match spec_name_value_text(pair) {
                Some(value) => AnnotationView::NameValue { key: spec_name_value_key(pair), value },
                None => AnnotationView::Other,
            },
            None => AnnotationView::Other,
        }
    }
}

/// What a field of the syntax tree is in a declaration.
pub open spec fn field_view(field: syn::Field) -> DeclaredFieldView {
    DeclaredFieldView {
        name: spec_field_name(field),
        ty: field_type_view(field),
        annotations: spec_field_attributes(field).map_values(
            |attribute: syn::Attribute| annotation_view(attribute),
        ),
    }
}

/// The declaration that a syntax tree stands for.
pub open spec fn declaration_view(input: syn::DeriveInput) -> DeclarationView {
    DeclarationView {
        name: spec_declared_name(input),
        kind: spec_declared_kind(input),
        generics: spec_declared_generics(input),
        declared_predicates: match spec_declared_predicates(input) {
            Some(count) => Some(count as nat),
            None => None,
        },
        fields: spec_declared_fields(input).map_values(|field: syn::Field| field_view(field)),
    }
}

fn read_argument(argument: &syn::GenericArgument) -> (read: Argument)
    ensures
        read@ == argument_view(*argument),
{
    match argument_path(argument) {
        Some(names) => Argument::TypePath(names),
        None => Argument::Other,
    }
}

fn read_segment(segment: &syn::PathSegment) -> (read: Segment)
    ensures
        read@ == segment_view(*segment),
{
    let name = segment_name(segment);
    let arguments = match segment_arguments(segment) {
        Some(arguments) => {
            let mut read: Vec<Argument> = Vec::new();
            let mut index: usize = 0;
            while index < arguments.len()
                invariant
                    index <= arguments.len(),
                    read.deep_view() == arguments@.take(index as int).map_values(
                        |argument: syn::GenericArgument| argument_view(argument),
                    ),
                decreases arguments.len() - index,
            {
                let ghost before = read.deep_view();
                let next = read_argument(&arguments[index]);
                read.push(next);
                assert(read.deep_view() =~= before.push(argument_view(arguments@[index as int])));
                assert(arguments@.take(index + 1) =~= arguments@.take(index as int).push(
                    arguments@[index as int],
                ));
                index = index + 1;
            }
            assert(arguments@.take(index as int) =~= arguments@);
            Some(read)
        },
        None => None,
    };
    Segment { name, arguments }
}

fn read_field_type(field: &syn::Field) -> (read: FieldType)
    ensures
        read@ == field_type_view(*field),
{
    match field_type_segments(field) {
        Some(segments) => {
            let mut read: Vec<Segment> = Vec::new();
            let mut index: usize = 0;
            while index < segments.len()
                invariant
                    index <= segments.len(),
                    read.deep_view() == segments@.take(index as int).map_values(
                        |segment: syn::PathSegment| segment_view(segment),
                    ),
                decreases segments.len() - index,
            {
                let ghost before = read.deep_view();
                let next = read_segment(&segments[index]);
                read.push(next);
                assert(read.deep_view() =~= before.push(segment_view(segments@[index as int])));
                assert(segments@.take(index + 1) =~= segments@.take(index as int).push(
                    segments@[index as int],
                ));
                index = index + 1;
            }
            assert(segments@.take(index as int) =~= segments@);
            FieldType::Path(read)
        },
        None => FieldType::Other,
    }
}

fn read_annotation(attribute: &syn::Attribute) -> (read: Annotation)
    ensures
        read@ == annotation_view(*attribute),
{
    if !is_attribute_readable(attribute) {
        return Annotation::Other;
    }
    match attribute_name_value(attribute) {
        Some(pair) => match name_value_text(&pair) {
            Some(value) => Annotation::NameValue { key: name_value_key(&pair), value },
            None => Annotation::Other,
        },
        None => Annotation::Other,
    }
}

fn read_field(field: &syn::Field) -> (read: DeclaredField)
    ensures
        read@ == field_view(*field),
{
    let name = field_name(field);
    let ty = read_field_type(field);
    let attributes = field_attributes(field);
    let mut annotations: Vec<Annotation> = Vec::new();
    let mut index: usize = 0;
    while index < attributes.len()
        invariant
            index <= attributes.len(),
            annotations.deep_view() == attributes@.take(index as int).map_values(
                |attribute: syn::Attribute| annotation_view(attribute),
            ),
        decreases attributes.len() - index,
    {
        let ghost before = annotations.deep_view();
        let next = read_annotation(&attributes[index]);
        annotations.push(next);
        assert(annotations.deep_view() =~= before.push(annotation_view(attributes@[index as int])));
        assert(attributes@.take(index + 1) =~= attributes@.take(index as int).push(
            attributes@[index as int],
        ));
        index = index + 1;
    }
    assert(attributes@.take(index as int) =~= attributes@);
    DeclaredField { name, ty, annotations }
}

/// Reads a parsed type declaration into a [`Declaration`].
pub fn read_declaration(input: &syn::DeriveInput) -> (declaration: Declaration)
    ensures
        declaration@ == declaration_view(*input),
{
    let name = declared_name(input);
    let kind = declared_kind(input);
    let generics = declared_generics(input);
    let predicates = declared_predicates(input);
    let declared = declared_fields(input);
    let mut fields: Vec<DeclaredField> = Vec::new();
    let mut index: usize = 0;
    while index < declared.len()
        invariant
            index <= declared.len(),
            fields.deep_view() == declared@.take(index as int).map_values(
                |field: syn::Field| field_view(field),
            ),
        decreases declared.len() - index,
    {
        let ghost before = fields.deep_view();
        let next = read_field(&declared[index]);
        fields.push(next);
        assert(fields.deep_view() =~= before.push(field_view(declared@[index as int])));
        assert(declared@.take(index + 1) =~= declared@.take(index as int).push(
            declared@[index as int],
        ));
        index = index + 1;
    }
    assert(declared@.take(index as int) =~= declared@);
    Declaration { name, kind, generics, declared_predicates: predicates, fields }
}

} // verus!
