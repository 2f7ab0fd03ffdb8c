//! The syntax tree of `syn`, as far as a derivation reads it.
//!
//! Nothing in this module is proved. Each syntax tree type is opaque to the
//! verifier; each function below makes one read of such a value, and its
//! contract gives what was read a name, so that the code that assembles a
//! `Declaration` from these reads can be held to an exact statement. Every
//! name stands for a function of the value read and of nothing else.
//!
//! One read calls the parser of attributes, which does not return on every
//! attribute. Its precondition admits only attributes that verified code has
//! looked through token by token; see [`crate::readable`].

use vstd::prelude::*;
use crate::declaration::{DeclarationKind, GenericParameter, GenericParameterView, ParameterKind};
use crate::readable::attribute_readable;

verus! {

#[verifier::external_type_specification]
#[verifier::external_body]
pub struct ExDeriveInput(syn::DeriveInput);

#[verifier::external_type_specification]
#[verifier::external_body]
pub struct ExField(syn::Field);

#[verifier::external_type_specification]
#[verifier::external_body]
pub struct ExAttribute(syn::Attribute);

#[verifier::external_type_specification]
#[verifier::external_body]
pub struct ExMetaNameValue(syn::MetaNameValue);

#[verifier::external_type_specification]
#[verifier::external_body]
pub struct ExPathSegment(syn::PathSegment);

#[verifier::external_type_specification]
#[verifier::external_body]
pub struct ExGenericArgument(syn::GenericArgument);

#[verifier::external_type_specification]
#[verifier::external_body]
pub struct ExTokenTree(proc_macro2::TokenTree);

/// The text of `input.ident`.
pub uninterp spec fn spec_declared_name(input: syn::DeriveInput) -> Seq<char>;

/// Which variant of `syn::Data` `input.data` is.
pub uninterp spec fn spec_declared_kind(input: syn::DeriveInput) -> DeclarationKind;

/// The fields directly under `input.data`, in order.
pub uninterp spec fn spec_declared_fields(input: syn::DeriveInput) -> Seq<syn::Field>;

/// The kinds and the names of the parameters in `input.generics.params`, in
/// order.
pub uninterp spec fn spec_declared_generics(input: syn::DeriveInput) -> Seq<GenericParameterView>;

/// The number of predicates in `input.generics.where_clause`, if there is a
/// where-clause.
pub uninterp spec fn spec_declared_predicates(input: syn::DeriveInput) -> Option<usize>;

/// The text of `field.ident`, if the field has an identifier.
pub uninterp spec fn spec_field_name(field: syn::Field) -> Option<Seq<char>>;

/// `field.attrs`.
pub uninterp spec fn spec_field_attributes(field: syn::Field) -> Seq<syn::Attribute>;

/// The segments of the path of `field.ty`, if `field.ty` is a `Type::Path`.
pub uninterp spec fn spec_field_type_segments(field: syn::Field) -> Option<Seq<syn::PathSegment>>;

/// The token trees at the top of `attribute.tokens`, in order.
pub uninterp spec fn spec_attribute_tokens(attribute: syn::Attribute) -> Seq<
    proc_macro2::TokenTree,
>;

/// The text of `token`, if `token` is a literal.
pub uninterp spec fn spec_token_literal(token: proc_macro2::TokenTree) -> Option<Seq<char>>;

/// The token trees at the top of the stream inside `token`, in order, if
/// `token` is a group.
pub uninterp spec fn spec_token_group(token: proc_macro2::TokenTree) -> Option<
    Seq<proc_macro2::TokenTree>,
>;

/// The name-value pair that `attribute.parse_meta()` yields, if it yields
/// one.
pub uninterp spec fn spec_attribute_name_value(attribute: syn::Attribute) -> Option<
    syn::MetaNameValue,
>;

/// The text of the identifier that `pair.path.get_ident()` yields, if it
/// yields one.
pub uninterp spec fn spec_name_value_key(pair: syn::MetaNameValue) -> Option<Seq<char>>;

/// The string that `pair.lit` denotes, if `pair.lit` is a `Lit::Str`.
pub uninterp spec fn spec_name_value_text(pair: syn::MetaNameValue) -> Option<Seq<char>>;

/// The text of `segment.ident`.
pub uninterp spec fn spec_segment_name(segment: syn::PathSegment) -> Seq<char>;

/// The arguments of `segment.arguments`, if these are angle-bracketed.
pub uninterp spec fn spec_segment_arguments(segment: syn::PathSegment) -> Option<
    Seq<syn::GenericArgument>,
>;

/// The texts of the identifiers of the segments of the path of `argument`,
/// if `argument` is a type and that type is a `Type::Path`.
pub uninterp spec fn spec_argument_path(argument: syn::GenericArgument) -> Option<Seq<Seq<char>>>;

/// Reads the field `ident` of `syn::DeriveInput` and turns it into text with
/// `Ident::to_string`. The contract names the text.
#[verifier::external_body]
pub(crate) fn declared_name(input: &syn::DeriveInput) -> (name: String)
    ensures
        name@ == spec_declared_name(*input),
{
    input.ident.to_string()
}

/// Tells the three variants of `syn::Data` apart. The contract names the
/// answer.
#[verifier::external_body]
pub(crate) fn declared_kind(input: &syn::DeriveInput) -> (kind: DeclarationKind)
    ensures
        kind == spec_declared_kind(*input),
{
    match input.data {
        syn::Data::Struct(_) => DeclarationKind::Struct,
        syn::Data::Enum(_) => DeclarationKind::Enum,
        syn::Data::Union(_) => DeclarationKind::Union,
    }
}

/// Copies out the fields that `syn::Fields::iter` walks: those of a struct or
/// of a union. An enum has variants and no fields of its own. The contract
/// names the sequence.
#[verifier::external_body]
pub(crate) fn declared_fields(input: &syn::DeriveInput) -> (fields: Vec<syn::Field>)
    ensures
        fields@ == spec_declared_fields(*input),
{
    match &input.data {
        syn::Data::Struct(data) => data.fields.iter().cloned().collect(),
        syn::Data::Enum(_) => Vec::new(),
        syn::Data::Union(data) => data.fields.named.iter().cloned().collect(),
    }
}

/// Walks the field `params` of `syn::Generics` and, having told the three
/// variants of `syn::GenericParam` apart, turns the identifier of a type or
/// of a constant into text with `Ident::to_string` and a lifetime with
/// `Lifetime::to_string`, which puts the apostrophe first. The contract names
/// the sequence.
#[verifier::external_body]
pub(crate) fn declared_generics(input: &syn::DeriveInput) -> (generics: Vec<GenericParameter>)
    ensures
        generics.deep_view() == spec_declared_generics(*input),
{
    input.generics.params.iter().map(|parameter| match parameter {
        syn::GenericParam::Type(ty) => {
            GenericParameter { kind: ParameterKind::Type, name: ty.ident.to_string() }
        },
        syn::GenericParam::Lifetime(definition) => {
            GenericParameter { kind: ParameterKind::Lifetime, name: definition.lifetime.to_string() }
        },
        syn::GenericParam::Const(constant) => {
            GenericParameter { kind: ParameterKind::Constant, name: constant.ident.to_string() }
        },
    }).collect()
}

/// Reads the field `where_clause` of `syn::Generics` and, where there is a
/// clause, the length of its `predicates`. The contract names the result.
#[verifier::external_body]
pub(crate) fn declared_predicates(input: &syn::DeriveInput) -> (count: Option<usize>)
    ensures
        count == spec_declared_predicates(*input),
{
    input.generics.where_clause.as_ref().map(|clause| clause.predicates.len())
}

/// Reads the field `ident` of `syn::Field` and turns it into text with
/// `Ident::to_string`. The contract names the text.
#[verifier::external_body]
pub(crate) fn field_name(field: &syn::Field) -> (name: Option<String>)
    ensures
        name.deep_view() == spec_field_name(*field),
{
    field.ident.as_ref().map(|ident| ident.to_string())
}

/// Copies out the field `attrs` of `syn::Field`. The contract names the
/// sequence.
#[verifier::external_body]
pub(crate) fn field_attributes(field: &syn::Field) -> (attributes: Vec<syn::Attribute>)
    ensures
        attributes@ == spec_field_attributes(*field),
{
    field.attrs.clone()
}

/// Tells `syn::Type::Path` from the other variants of the field `ty` of
/// `syn::Field` and copies out the segments of the path. The contract names
/// the result.
#[verifier::external_body]
pub(crate) fn field_type_segments(field: &syn::Field) -> (segments: Option<Vec<syn::PathSegment>>)
    ensures
        match segments {
            Some(segments) => spec_field_type_segments(*field) == Some(segments@),
            None => spec_field_type_segments(*field) is None,
        },
{
    match &field.ty {
        syn::Type::Path(ty) => Some(ty.path.segments.iter().cloned().collect()),
        _ => None,
    }
}

/// Copies out the token trees that the field `tokens` of `syn::Attribute`
/// yields when it is walked; what lies inside a group stays inside it. The
/// contract names the sequence.
#[verifier::external_body]
pub(crate) fn attribute_tokens(attribute: &syn::Attribute) -> (tokens: Vec<
    proc_macro2::TokenTree,
>)
    ensures
        tokens@ == spec_attribute_tokens(*attribute),
{
    attribute.tokens.clone().into_iter().collect()
}

/// Tells `proc_macro2::TokenTree::Literal` from the other three variants and
/// turns the literal into text with `Literal::to_string`, the text that the
/// parser of `syn` goes by. The contract names the text.
#[verifier::external_body]
pub(crate) fn token_literal(token: &proc_macro2::TokenTree) -> (text: Option<String>)
    ensures
        text.deep_view() == spec_token_literal(*token),
{
    match token {
        proc_macro2::TokenTree::Literal(literal) => Some(literal.to_string()),
        proc_macro2::TokenTree::Group(_) => None,
        proc_macro2::TokenTree::Ident(_) => None,
        proc_macro2::TokenTree::Punct(_) => None,
    }
}

/// Tells `proc_macro2::TokenTree::Group` from the other three variants and
/// copies out the token trees that `Group::stream` yields when it is walked.
/// The contract names the sequence.
#[verifier::external_body]
pub(crate) fn token_group(token: &proc_macro2::TokenTree) -> (inner: Option<
    Vec<proc_macro2::TokenTree>,
>)
    ensures
        match inner {
            Some(inner) => spec_token_group(*token) == Some(inner@),
            None => spec_token_group(*token) is None,
        },
{
    match token {
        proc_macro2::TokenTree::Group(group) => Some(group.stream().into_iter().collect()),
        proc_macro2::TokenTree::Literal(_) => None,
        proc_macro2::TokenTree::Ident(_) => None,
        proc_macro2::TokenTree::Punct(_) => None,
    }
}

/// Calls `syn::Attribute::parse_meta` and keeps what it yields if that is a
/// `syn::Meta::NameValue`; an error and the other two variants give `None`.
/// The contract names the result.
///
/// `parse_meta` hands every literal that it comes to, in a list as well as
/// after `=`, to `syn::Lit::new`, which panics on a literal of a kind that it
/// does not know, and it descends once for each list inside a list. The
/// precondition leaves both out: it admits an attribute only if every literal
/// in it is a string literal, which `Lit::new` reads, and if its groups are
/// nested no deeper than `GROUP_DEPTH`.
#[verifier::external_body]
pub(crate) fn attribute_name_value(attribute: &syn::Attribute) -> (pair: Option<
    syn::MetaNameValue,
>)
    requires
        attribute_readable(*attribute),
    ensures
        pair == spec_attribute_name_value(*attribute),
{
    match attribute.parse_meta() {
        Ok(syn::Meta::NameValue(pair)) => Some(pair),
        _ => None,
    }
}

/// Calls `syn::Path::get_ident` on the field `path` of `syn::MetaNameValue`,
/// which yields the identifier of a path that is one identifier and nothing
/// more, and turns it into text with `Ident::to_string`. The contract names
/// the text.
#[verifier::external_body]
pub(crate) fn name_value_key(pair: &syn::MetaNameValue) -> (key: Option<String>)
    ensures
        key.deep_view() == spec_name_value_key(*pair),
{
    pair.path.get_ident().map(|ident| ident.to_string())
}

/// Tells `syn::Lit::Str` from the other variants of the field `lit` of
/// `syn::MetaNameValue` and calls `syn::LitStr::value`, which yields the
/// string that the literal denotes. The contract names the string.
#[verifier::external_body]
pub(crate) fn name_value_text(pair: &syn::MetaNameValue) -> (text: Option<String>)
    ensures
        text.deep_view() == spec_name_value_text(*pair),
{
    match &pair.lit {
        syn::Lit::Str(literal) => Some(literal.value()),
        _ => None,
    }
}

/// Reads the field `ident` of `syn::PathSegment` and turns it into text with
/// `Ident::to_string`. The contract names the text.
#[verifier::external_body]
pub(crate) fn segment_name(segment: &syn::PathSegment) -> (name: String)
    ensures
        name@ == spec_segment_name(*segment),
{
    segment.ident.to_string()
}

/// Tells the three variants of `syn::PathArguments` apart and copies out the
/// arguments of the angle-bracketed one. The contract names the result.
#[verifier::external_body]
pub(crate) fn segment_arguments(segment: &syn::PathSegment) -> (arguments: Option<
    Vec<syn::GenericArgument>,
>)
    ensures
        match arguments {
            Some(arguments) => spec_segment_arguments(*segment) == Some(arguments@),
            None => spec_segment_arguments(*segment) is None,
        },
{
    match &segment.arguments {
        syn::PathArguments::None => None,
        syn::PathArguments::AngleBracketed(list) => Some(list.args.iter().cloned().collect()),
        syn::PathArguments::Parenthesized(_) => None,
    }
}

/// Tells a `syn::GenericArgument::Type` that holds a `syn::Type::Path` from
/// every other argument and turns the identifier of each segment of the path
/// into text with `Ident::to_string`. The contract names the sequence of
/// texts.
#[verifier::external_body]
pub(crate) fn argument_path(argument: &syn::GenericArgument) -> (names: Option<Vec<String>>)
    ensures
        names.deep_view() == spec_argument_path(*argument),
{
    match argument {
        syn::GenericArgument::Type(syn::Type::Path(ty)) => Some(
            ty.path.segments.iter().map(|segment| segment.ident.to_string()).collect(),
        ),
        _ => None,
    }
}

} // verus!
