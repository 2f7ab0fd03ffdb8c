//! What a derivation produces: the plan of a `Debug` implementation, or the
//! diagnostic that explains why there is none.

use vstd::prelude::*;
use crate::declaration::{GenericParameter, GenericParameterView};

verus! {

/// How the value of one field is handed to the formatter.
#[derive(Clone, Debug, PartialEq, Eq)]
pub enum Emission {
    /// The field's value itself, shown by its own `Debug` implementation.
    Default,
    /// The field's value formatted through this template, as
    /// `format_args!(template, value)` does.
    Template(String),
}

/// The view of [`Emission`]: the same value over sequences.
#[verifier::ext_equal]
pub enum EmissionView {
    Default,
    Template(Seq<char>),
}

impl View for Emission {
    type V = EmissionView;

    open spec fn view(&self) -> EmissionView {
        match self {
            Emission::Default => EmissionView::Default,
            Emission::Template(template) => EmissionView::Template(template@),
        }
    }
}

impl DeepView for Emission {
    type V = EmissionView;

    open spec fn deep_view(&self) -> EmissionView {
        self@
    }
}

/// The decision for one named field: under which name it is registered with
/// the formatter, and what is registered.
#[derive(Clone, Debug, PartialEq, Eq)]
pub struct FieldPlan {
    pub name: String,
    pub emission: Emission,
}

/// The view of [`FieldPlan`]: the same value over sequences.
#[verifier::ext_equal]
pub struct FieldPlanView {
    pub name: Seq<char>,
    pub emission: EmissionView,
}

impl View for FieldPlan {
    type V = FieldPlanView;

    open spec fn view(&self) -> FieldPlanView {
        FieldPlanView { name: self.name@, emission: self.emission@ }
    }
}

impl DeepView for FieldPlan {
    type V = FieldPlanView;

    open spec fn deep_view(&self) -> FieldPlanView {
        self@
    }
}

/// One predicate of the where-clause of the implementation.
#[derive(Clone, Debug, PartialEq, Eq)]
pub enum Predicate {
    /// The predicate at this position of the declaration's own where-clause,
    /// repeated unchanged.
    Declared(usize),
    /// `P: Debug` for the type parameter named `P`.
    Debug(String),
}

/// The view of [`Predicate`]: the same value over sequences.
#[verifier::ext_equal]
pub enum PredicateView {
    Declared(nat),
    Debug(Seq<char>),
}

impl View for Predicate {
    type V = PredicateView;

    open spec fn view(&self) -> PredicateView {
        match self {
            Predicate::Declared(position) => PredicateView::Declared(*position as nat),
            Predicate::Debug(parameter) => PredicateView::Debug(parameter@),
        }
    }
}

impl DeepView for Predicate {
    type V = PredicateView;

    open spec fn deep_view(&self) -> PredicateView {
        self@
    }
}

/// A `Debug` implementation for one struct.
///
/// It stands for
///
/// ```text
/// impl<generics> Debug for name<generics> where where_clause {
///     fn fmt(&self, f: &mut Formatter) -> Result {
///         f.debug_struct("name")
///             .field("plans[0].name", plans[0].emission)
///             .field("plans[1].name", plans[1].emission)
///             .finish()
///     }
/// }
/// ```
///
/// where the header lists each generic parameter as the declaration does and
/// the type is named with each of them as its argument.
#[derive(Clone, Debug, PartialEq, Eq)]
pub struct GeneratedImplementation {
    pub name: String,
    /// The generic parameters of the implementation, in order.
    pub generics: Vec<GenericParameter>,
    /// The predicates of the where-clause in order, or `None` when the
    /// implementation has no where-clause.
    pub where_clause: Option<Vec<Predicate>>,
    /// One plan per field that is registered, in registration order.
    pub plans: Vec<FieldPlan>,
}

/// The view of [`GeneratedImplementation`]: the same value over sequences.
#[verifier::ext_equal]
pub struct ImplementationView {
    pub name: Seq<char>,
    pub generics: Seq<GenericParameterView>,
    pub where_clause: Option<Seq<PredicateView>>,
    pub plans: Seq<FieldPlanView>,
}

impl View for GeneratedImplementation {
    type V = ImplementationView;

    open spec fn view(&self) -> ImplementationView {
        ImplementationView {
            name: self.name@,
            generics: self.generics.deep_view(),
            where_clause: self.where_clause.deep_view(),
            plans: self.plans.deep_view(),
        }
    }
}

/// Why a derivation produced no implementation.
#[derive(Clone, Copy, Debug, PartialEq, Eq, Structural)]
pub enum DiagnosticKind {
    /// The declaration is of a kind that cannot be derived for.
    NotSupported,
}

/// A message for the user, reported in place of an implementation.
#[derive(Clone, Debug, PartialEq, Eq)]
pub struct Diagnostic {
    pub kind: DiagnosticKind,
    /// The name of the declaration that the message is attached to.
    pub anchor: String,
    pub message: String,
}

/// The view of [`Diagnostic`]: the same value over sequences.
#[verifier::ext_equal]
pub struct DiagnosticView {
    pub kind: DiagnosticKind,
    pub anchor: Seq<char>,
    pub message: Seq<char>,
}

impl View for Diagnostic {
    type V = DiagnosticView;

    open spec fn view(&self) -> DiagnosticView {
        DiagnosticView { kind: self.kind, anchor: self.anchor@, message: self.message@ }
    }
}

} // verus!
