use derive_debug::bounds::{
    associated_type_used, is_exempt, is_phantom_data_of, synthesize_bounds, type_parameters,
};
use derive_debug::declaration::{
    Annotation, Argument, Declaration, DeclarationKind, DeclaredField, FieldType,
    GenericParameter, ParameterKind, Segment,
};
use derive_debug::derivation::{accept, derive_implementation, extend_where_clause, reject};
use derive_debug::implementation::{
    Diagnostic, DiagnosticKind, Emission, FieldPlan, GeneratedImplementation, Predicate,
};
use derive_debug::plan::{find_template, plan_field, plan_fields, template_of};

fn text(text: &str) -> String {
    text.to_string()
}

fn segment(name: &str, arguments: Option<Vec<Argument>>) -> Segment {
    Segment { name: text(name), arguments }
}

fn path_argument(names: &[&str]) -> Argument {
    Argument::TypePath(names.iter().map(|name| text(name)).collect())
}

fn field(name: Option<&str>, ty: FieldType, annotations: Vec<Annotation>) -> DeclaredField {
    DeclaredField { name: name.map(text), ty, annotations }
}

fn of_type(name: &str) -> FieldType {
    FieldType::Path(vec![segment(name, None)])
}

fn marker_of(parameter: &str) -> FieldType {
    FieldType::Path(vec![segment("PhantomData", Some(vec![path_argument(&[parameter])]))])
}

fn keyed(key: &str, value: &str) -> Annotation {
    Annotation::NameValue { key: Some(text(key)), value: text(value) }
}

fn template(value: &str) -> Annotation {
    keyed("debug", value)
}

fn parameter(kind: ParameterKind, name: &str) -> GenericParameter {
    GenericParameter { kind, name: text(name) }
}

fn generics() -> Vec<GenericParameter> {
    vec![
        parameter(ParameterKind::Lifetime, "'a"),
        parameter(ParameterKind::Type, "T"),
        parameter(ParameterKind::Constant, "N"),
        parameter(ParameterKind::Type, "U"),
    ]
}

fn declaration(kind: DeclarationKind) -> Declaration {
    Declaration {
        name: text("Sample"),
        kind,
        generics: generics(),
        declared_predicates: Some(2),
        fields: vec![
            field(Some("a"), marker_of("T"), vec![template("{:?}")]),
            field(None, of_type("u8"), vec![template("{:x}")]),
            field(Some("b"), of_type("U"), vec![]),
        ],
    }
}

#[test]
fn marker_is_evidence_for_its_parameter_only() {
    let marker = field(Some("m"), marker_of("T"), vec![]);
    assert!(is_phantom_data_of(&marker, &text("T")));
    assert!(!is_phantom_data_of(&marker, &text("U")));
    assert!(!is_phantom_data_of(&marker, &text("")));
}

#[test]
fn evidence_needs_the_marker_name() {
    let other = FieldType::Path(vec![segment("Phantom", Some(vec![path_argument(&["T"])]))]);
    assert!(!is_phantom_data_of(&field(Some("m"), other, vec![]), &text("T")));
    let lower = FieldType::Path(vec![segment("phantomdata", Some(vec![path_argument(&["T"])]))]);
    assert!(!is_phantom_data_of(&field(Some("m"), lower, vec![]), &text("T")));
}

#[test]
fn evidence_needs_a_path() {
    assert!(!is_phantom_data_of(&field(Some("m"), FieldType::Other, vec![]), &text("T")));
    assert!(!is_phantom_data_of(&field(Some("m"), FieldType::Path(vec![]), vec![]), &text("T")));
}

#[test]
fn evidence_reads_the_last_segment() {
    let qualified = FieldType::Path(vec![
        segment("std", None),
        segment("marker", Some(vec![path_argument(&["U"])])),
        segment("PhantomData", Some(vec![path_argument(&["T"])])),
    ]);
    let qualified = field(Some("m"), qualified, vec![]);
    assert!(is_phantom_data_of(&qualified, &text("T")));
    assert!(!is_phantom_data_of(&qualified, &text("U")));
    let inner = FieldType::Path(vec![
        segment("PhantomData", Some(vec![path_argument(&["T"])])),
        segment("Out", None),
    ]);
    assert!(!is_phantom_data_of(&field(Some("m"), inner, vec![]), &text("T")));
}

#[test]
fn evidence_needs_exactly_one_argument() {
    let none = FieldType::Path(vec![segment("PhantomData", None)]);
    assert!(!is_phantom_data_of(&field(Some("m"), none, vec![]), &text("T")));
    let empty = FieldType::Path(vec![segment("PhantomData", Some(vec![]))]);
    assert!(!is_phantom_data_of(&field(Some("m"), empty, vec![]), &text("T")));
    let two = FieldType::Path(vec![segment(
        "PhantomData",
        Some(vec![path_argument(&["T"]), path_argument(&["U"])]),
    )]);
    assert!(!is_phantom_data_of(&field(Some("m"), two, vec![]), &text("T")));
}

#[test]
fn evidence_reads_the_leading_segment_of_the_argument() {
    let projected =
        FieldType::Path(vec![segment("PhantomData", Some(vec![path_argument(&["T", "Item"])]))]);
    let projected = field(Some("m"), projected, vec![]);
    assert!(is_phantom_data_of(&projected, &text("T")));
    assert!(!is_phantom_data_of(&projected, &text("Item")));
    let other = FieldType::Path(vec![segment("PhantomData", Some(vec![Argument::Other]))]);
    assert!(!is_phantom_data_of(&field(Some("m"), other, vec![]), &text("T")));
    let hollow = FieldType::Path(vec![segment("PhantomData", Some(vec![path_argument(&[])]))]);
    assert!(!is_phantom_data_of(&field(Some("m"), hollow, vec![]), &text("T")));
}

#[test]
fn associated_types_are_not_tracked() {
    let projected = FieldType::Path(vec![segment("T", None), segment("Item", None)]);
    assert!(!associated_type_used(&field(Some("m"), projected, vec![]), &text("T")));
    assert!(!associated_type_used(&field(Some("m"), marker_of("T"), vec![]), &text("T")));
}

#[test]
fn type_parameters_are_picked_in_order() {
    assert_eq!(type_parameters(&generics()), vec![text("T"), text("U")]);
    assert_eq!(type_parameters(&vec![]), Vec::<String>::new());
    assert_eq!(
        type_parameters(&vec![
            parameter(ParameterKind::Lifetime, "'a"),
            parameter(ParameterKind::Constant, "N"),
        ]),
        Vec::<String>::new()
    );
}

#[test]
fn rejection_names_the_declaration() {
    assert_eq!(
        reject(&text("Choice")),
        Diagnostic {
            kind: DiagnosticKind::NotSupported,
            anchor: text("Choice"),
            message: text("only structs are supported"),
        }
    );
}

#[test]
fn any_marker_field_exempts() {
    let fields = vec![
        field(Some("a"), of_type("T"), vec![]),
        field(None, marker_of("U"), vec![]),
        field(Some("c"), marker_of("T"), vec![]),
    ];
    assert!(is_exempt(&fields, &text("T")));
    assert!(is_exempt(&fields, &text("U")));
    assert!(!is_exempt(&fields, &text("V")));
    assert!(!is_exempt(&vec![], &text("T")));
}

#[test]
fn bounds_keep_the_order_of_the_parameters() {
    let fields = vec![field(Some("m"), marker_of("B"), vec![])];
    let parameters = vec![text("C"), text("B"), text("A")];
    assert_eq!(synthesize_bounds(&parameters, &fields), vec![text("C"), text("A")]);
    assert_eq!(synthesize_bounds(&vec![], &fields), Vec::<String>::new());
    assert_eq!(synthesize_bounds(&vec![text("B")], &fields), Vec::<String>::new());
}

#[test]
fn repeated_parameter_is_bound_as_often_as_listed() {
    let parameters = vec![text("T"), text("T")];
    assert_eq!(synthesize_bounds(&parameters, &vec![]), vec![text("T"), text("T")]);
}

#[test]
fn template_needs_key_and_string() {
    assert_eq!(template_of(&template("{:x}")), Some(text("{:x}")));
    assert_eq!(template_of(&keyed("debug", "")), Some(text("")));
    assert_eq!(template_of(&keyed("Debug", "{:x}")), None);
    assert_eq!(template_of(&keyed("debu", "{:x}")), None);
    assert_eq!(template_of(&keyed("debugs", "{:x}")), None);
    assert_eq!(template_of(&Annotation::NameValue { key: None, value: text("{:x}") }), None);
    assert_eq!(template_of(&Annotation::Other), None);
}

#[test]
fn first_supplier_decides() {
    assert_eq!(find_template(&vec![]), None);
    assert_eq!(
        find_template(&vec![
            Annotation::Other,
            Annotation::NameValue { key: None, value: text("{:e}") },
            keyed("doc", "{:o}"),
            template("{:b}"),
            template("{:x}"),
        ]),
        Some(text("{:b}"))
    );
    assert_eq!(find_template(&vec![Annotation::Other, keyed("doc", "{:o}")]), None);
}

#[test]
fn plan_of_a_positional_field_is_none() {
    assert_eq!(plan_field(&field(None, of_type("u8"), vec![template("{:x}")])), None);
    assert_eq!(
        plan_field(&field(Some("a"), of_type("u8"), vec![template("{:x}")])),
        Some(FieldPlan { name: text("a"), emission: Emission::Template(text("{:x}")) })
    );
    assert_eq!(
        plan_field(&field(Some("a"), of_type("u8"), vec![])),
        Some(FieldPlan { name: text("a"), emission: Emission::Default })
    );
}

#[test]
fn plans_pass_over_positional_fields() {
    let plans = plan_fields(&declaration(DeclarationKind::Struct).fields);
    assert_eq!(
        plans,
        vec![
            FieldPlan { name: text("a"), emission: Emission::Template(text("{:?}")) },
            FieldPlan { name: text("b"), emission: Emission::Default },
        ]
    );
    assert_eq!(plan_fields(&vec![]), vec![]);
}

#[test]
fn where_clause_is_made_only_when_needed() {
    assert_eq!(extend_where_clause(None, &vec![]), None);
    assert_eq!(extend_where_clause(Some(0), &vec![]), Some(vec![]));
    assert_eq!(
        extend_where_clause(None, &vec![text("T")]),
        Some(vec![Predicate::Debug(text("T"))])
    );
    assert_eq!(
        extend_where_clause(Some(2), &vec![text("T"), text("U")]),
        Some(vec![
            Predicate::Declared(0),
            Predicate::Declared(1),
            Predicate::Debug(text("T")),
            Predicate::Debug(text("U")),
        ])
    );
}

#[test]
fn only_a_struct_is_accepted() {
    let sample = declaration(DeclarationKind::Struct);
    assert_eq!(accept(&sample), Ok(&sample.fields));
    for kind in [DeclarationKind::Enum, DeclarationKind::Union] {
        assert_eq!(
            accept(&declaration(kind)),
            Err(Diagnostic {
                kind: DiagnosticKind::NotSupported,
                anchor: text("Sample"),
                message: text("only structs are supported"),
            })
        );
    }
}

#[test]
fn implementation_of_a_struct() {
    assert_eq!(
        derive_implementation(&declaration(DeclarationKind::Struct)),
        Ok(GeneratedImplementation {
            name: text("Sample"),
            generics: generics(),
            where_clause: Some(vec![
                Predicate::Declared(0),
                Predicate::Declared(1),
                Predicate::Debug(text("U")),
            ]),
            plans: vec![
                FieldPlan { name: text("a"), emission: Emission::Template(text("{:?}")) },
                FieldPlan { name: text("b"), emission: Emission::Default },
            ],
        })
    );
}

#[test]
fn no_implementation_for_an_enum() {
    assert_eq!(
        derive_implementation(&declaration(DeclarationKind::Enum)),
        Err(Diagnostic {
            kind: DiagnosticKind::NotSupported,
            anchor: text("Sample"),
            message: text("only structs are supported"),
        })
    );
}
