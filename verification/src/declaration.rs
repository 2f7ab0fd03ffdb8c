//! The parsed description of a type that a derivation starts from.
//!
//! A [`Declaration`] holds, as plain values, everything the derivation reads:
//! the name, the kind, the generic parameters, the size of the where-clause
//! and the fields. Each type has a view that replaces strings and vectors by
//! sequences; the contracts of the crate are stated over these views.

use vstd::prelude::*;

verus! {

/// What kind of type a declaration introduces.
#[derive(Clone, Copy, Debug, PartialEq, Eq, Structural)]
pub enum DeclarationKind {
    Struct,
    Enum,
    Union,
}

/// What kind of generic parameter a declaration lists.
#[derive(Clone, Copy, Debug, PartialEq, Eq, Structural)]
pub enum ParameterKind {
    Lifetime,
    Type,
    Constant,
}

/// One generic parameter of a declaration. The bounds and the default that
/// the declaration may give it are not held: the derivation never reads
/// them.
#[derive(Clone, Debug, PartialEq, Eq)]
pub struct GenericParameter {
    pub kind: ParameterKind,
    /// The parameter's name; that of a lifetime begins with its apostrophe.
    pub name: String,
}

/// The view of [`GenericParameter`]: the same value over sequences.
#[verifier::ext_equal]
pub struct GenericParameterView {
    pub kind: ParameterKind,
    pub name: Seq<char>,
}

impl View for GenericParameter {
    type V = GenericParameterView;

    open spec fn view(&self) -> GenericParameterView {
        GenericParameterView { kind: self.kind, name: self.name@ }
    }
}

impl DeepView for GenericParameter {
    type V = GenericParameterView;

    open spec fn deep_view(&self) -> GenericParameterView {
        self@
    }
}

/// The name of a generic parameter if it is a type parameter.
pub open spec fn type_parameter_name(parameter: GenericParameterView) -> Option<Seq<char>> {
    if parameter.kind is Type {
        Some(parameter.name)
    } else {
        None
    }
}

/// One argument between the angle brackets of a path segment.
#[derive(Clone, Debug, PartialEq, Eq)]
pub enum Argument {
    /// A type argument that is itself a path, such as `T` or `T::Item`; the
    /// names of the path's segments, leading segment first.
    TypePath(Vec<String>),
    /// Any other argument: a lifetime, a constant, a binding, or a type that
    /// is not a path.
    Other,
}

/// The view of [`Argument`]: the same value over sequences.
#[verifier::ext_equal]
pub enum ArgumentView {
    TypePath(Seq<Seq<char>>),
    Other,
}

impl View for Argument {
    type V = ArgumentView;

    open spec fn view(&self) -> ArgumentView {
        match self {
            Argument::TypePath(names) => ArgumentView::TypePath(names.deep_view()),
            Argument::Other => ArgumentView::Other,
        }
    }
}

impl DeepView for Argument {
    type V = ArgumentView;

    open spec fn deep_view(&self) -> ArgumentView {
        self@
    }
}

/// One segment of a path type, such as `PhantomData<T>` in
/// `std::marker::PhantomData<T>`.
#[derive(Clone, Debug, PartialEq, Eq)]
pub struct Segment {
    pub name: String,
    /// The arguments between angle brackets, if the segment has angle
    /// brackets at all. `Some` of an empty vector stands for `<>`.
    pub arguments: Option<Vec<Argument>>,
}

/// The view of [`Segment`]: the same value over sequences.
#[verifier::ext_equal]
pub struct SegmentView {
    pub name: Seq<char>,
    pub arguments: Option<Seq<ArgumentView>>,
}

impl View for Segment {
    type V = SegmentView;

    open spec fn view(&self) -> SegmentView {
        SegmentView { name: self.name@, arguments: self.arguments.deep_view() }
    }
}

impl DeepView for Segment {
    type V = SegmentView;

    open spec fn deep_view(&self) -> SegmentView {
        self@
    }
}

/// The declared type of a field, as far as the derivation looks into it.
#[derive(Clone, Debug, PartialEq, Eq)]
pub enum FieldType {
    /// A path type; its segments in order.
    Path(Vec<Segment>),
    /// Any type that is not a path: a reference, a tuple, an array, ...
    Other,
}

/// The view of [`FieldType`]: the same value over sequences.
#[verifier::ext_equal]
pub enum FieldTypeView {
    Path(Seq<SegmentView>),
    Other,
}

impl View for FieldType {
    type V = FieldTypeView;

    open spec fn view(&self) -> FieldTypeView {
        match self {
            FieldType::Path(segments) => FieldTypeView::Path(segments.deep_view()),
            FieldType::Other => FieldTypeView::Other,
        }
    }
}

impl DeepView for FieldType {
    type V = FieldTypeView;

    open spec fn deep_view(&self) -> FieldTypeView {
        self@
    }
}

/// One attribute attached to a field.
#[derive(Clone, Debug, PartialEq, Eq)]
pub enum Annotation {
    /// An attribute written `#[key = "value"]`, with a string literal on the
    /// right; `value` is the string that the literal denotes. The key is
    /// `None` when the path on the left is more than a single identifier.
    NameValue { key: Option<String>, value: String },
    /// An attribute of any other shape: a bare path, a list, a value that is
    /// not a string literal, or tokens that form no meta item.
    Other,
}

/// The view of [`Annotation`]: the same value over sequences.
#[verifier::ext_equal]
pub enum AnnotationView {
    NameValue { key: Option<Seq<char>>, value: Seq<char> },
    Other,
}

impl View for Annotation {
    type V = AnnotationView;

    open spec fn view(&self) -> AnnotationView {
        match self {
            Annotation::NameValue { key, value } => AnnotationView::NameValue {
                key: key.deep_view(),
                value: value@,
            },
            Annotation::Other => AnnotationView::Other,
        }
    }
}

impl DeepView for Annotation {
    type V = AnnotationView;

    open spec fn deep_view(&self) -> AnnotationView {
        self@
    }
}

/// One field of a declaration.
#[derive(Clone, Debug, PartialEq, Eq)]
pub struct DeclaredField {
    /// The field's identifier; `None` for a positional field.
    pub name: Option<String>,
    pub ty: FieldType,
    /// The field's attributes, in the order they are written.
    pub annotations: Vec<Annotation>,
}

/// The view of [`DeclaredField`]: the same value over sequences.
#[verifier::ext_equal]
pub struct DeclaredFieldView {
    pub name: Option<Seq<char>>,
    pub ty: FieldTypeView,
    pub annotations: Seq<AnnotationView>,
}

impl View for DeclaredField {
    type V = DeclaredFieldView;

    open spec fn view(&self) -> DeclaredFieldView {
        DeclaredFieldView {
            name: self.name.deep_view(),
            ty: self.ty@,
            annotations: self.annotations.deep_view(),
        }
    }
}

impl DeepView for DeclaredField {
    type V = DeclaredFieldView;

    open spec fn deep_view(&self) -> DeclaredFieldView {
        self@
    }
}

/// A type declaration: the input of a derivation.
#[derive(Clone, Debug, PartialEq, Eq)]
pub struct Declaration {
    pub name: String,
    pub kind: DeclarationKind,
    /// The generic parameters, in declaration order.
    pub generics: Vec<GenericParameter>,
    /// How many predicates the declaration's own where-clause holds; `None`
    /// when the declaration has no where-clause. The derivation carries the
    /// predicates over unread, so each is known by its position only.
    pub declared_predicates: Option<usize>,
    /// The fields, in declaration order.
    pub fields: Vec<DeclaredField>,
}

/// The view of [`Declaration`]: the same value over sequences.
#[verifier::ext_equal]
pub struct DeclarationView {
    pub name: Seq<char>,
    pub kind: DeclarationKind,
    pub generics: Seq<GenericParameterView>,
    pub declared_predicates: Option<nat>,
    pub fields: Seq<DeclaredFieldView>,
}

impl DeclarationView {
    /// The names of the type parameters, in declaration order.
    pub open spec fn type_parameters(self) -> Seq<Seq<char>> {
        self.generics.filter_map(|parameter: GenericParameterView| type_parameter_name(parameter))
    }

    /// No two type parameters share a name.
    pub open spec fn well_formed(self) -> bool {
        self.type_parameters().no_duplicates()
    }
}

impl View for Declaration {
    type V = DeclarationView;

    open spec fn view(&self) -> DeclarationView {
        DeclarationView {
            name: self.name@,
            kind: self.kind,
            generics: self.generics.deep_view(),
            declared_predicates: match self.declared_predicates {
                Some(count) => Some(count as nat),
                None => None,
            },
            fields: self.fields.deep_view(),
        }
    }
}

} // verus!
