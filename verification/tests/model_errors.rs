use openapi_lambda::ir::{Body, CompileErrorKind, CompiledKind, CompiledType, TypeExpr};
use openapi_lambda::model::{
    generate_components, generate_model, inline_integer, inline_number, inline_string,
    reference_schema_name, type_of,
};
use openapi_lambda::schema::{Additional, Discriminator, Schema, SchemaKind, SchemaRef};

fn s(text: &str) -> String {
    text.to_string()
}

fn schema(kind: SchemaKind) -> Schema {
    Schema { description: None, discriminator: None, kind, rest: String::new() }
}

fn item(kind: SchemaKind) -> SchemaRef {
    SchemaRef::Item(schema(kind))
}

fn reference(name: &str) -> SchemaRef {
    SchemaRef::Reference(format!("#/components/schemas/{name}"))
}

fn string(format: Option<&str>) -> SchemaKind {
    SchemaKind::String { format: format.map(s), enumeration: vec![] }
}

fn string_enum(literals: &[&str]) -> SchemaKind {
    SchemaKind::String {
        format: None,
        enumeration: literals.iter().map(|literal| Some(s(literal))).collect(),
    }
}

fn integer(format: Option<&str>) -> SchemaKind {
    SchemaKind::Integer { format: format.map(s), enumeration: vec![] }
}

fn number(format: Option<&str>) -> SchemaKind {
    SchemaKind::Number { format: format.map(s), enumeration: vec![] }
}

fn boolean() -> SchemaKind {
    SchemaKind::Boolean { enumeration: vec![] }
}

fn array(items: Option<SchemaRef>, unique_items: bool) -> SchemaKind {
    SchemaKind::Array { items: items.map(Box::new), unique_items }
}

fn object(properties: Vec<(&str, SchemaRef)>, required: &[&str], additional: Additional) -> SchemaKind {
    SchemaKind::Object {
        properties: properties.into_iter().map(|(name, r)| (s(name), r)).collect(),
        required: required.iter().map(|name| s(name)).collect(),
        additional,
    }
}

fn table(entries: Vec<(&str, SchemaRef)>) -> Vec<(String, SchemaRef)> {
    entries.into_iter().map(|(name, r)| (s(name), r)).collect()
}

fn compile(schemas: Vec<(String, SchemaRef)>, name: &str) -> Result<Vec<CompiledType>, CompileErrorKind> {
    let mut models = Vec::new();
    let mut stack = indexmap::IndexSet::new();
    let target = match &schemas.iter().find(|(entry, _)| entry == name).unwrap().1 {
        SchemaRef::Item(schema) => schema,
        SchemaRef::Reference(_) => unreachable!(),
    };
    match generate_model(&schemas, name, target, &mut models, &mut stack) {
        Ok(_) => Ok(models),
        Err(error) => Err(error.kind),
    }
}

fn plain_object(name: &str) -> SchemaRef {
    item(object(vec![(name, item(string(None)))], &[], Additional::Absent))
}

fn tagged(mapping: Vec<(&str, &str)>, branches: Vec<SchemaRef>, property: &str) -> SchemaRef {
    SchemaRef::Item(Schema {
        description: None,
        discriminator: Some(Discriminator {
            property_name: s(property),
            mapping: mapping.into_iter().map(|(tag, r)| (s(tag), s(r))).collect(),
        }),
        kind: SchemaKind::OneOf(branches),
        rest: String::new(),
    })
}

#[test]
fn unsupported_schemas_are_errors() {
    assert_eq!(
        compile(table(vec![("Foo", item(SchemaKind::AnyOf(vec![reference("Bar")])))]), "Foo"),
        Err(CompileErrorKind::AnyOf)
    );
    assert_eq!(
        compile(table(vec![("Foo", item(SchemaKind::Not(Box::new(reference("Bar")))))]), "Foo"),
        Err(CompileErrorKind::Not)
    );
    assert_eq!(
        compile(table(vec![("Foo", item(SchemaKind::Any { trivial: false }))]), "Foo"),
        Err(CompileErrorKind::FreeForm)
    );
    assert_eq!(compile(table(vec![("Foo", item(SchemaKind::Any { trivial: true }))]), "Foo"), Ok(vec![]));
}

#[test]
fn only_strings_can_be_enumerated() {
    let one = || vec![Some(s("1"))];
    assert_eq!(
        compile(
            table(vec![("Foo", item(SchemaKind::Integer { format: None, enumeration: one() }))]),
            "Foo"
        ),
        Err(CompileErrorKind::ScalarEnum)
    );
    assert_eq!(
        compile(
            table(vec![("Foo", item(SchemaKind::Number { format: None, enumeration: one() }))]),
            "Foo"
        ),
        Err(CompileErrorKind::ScalarEnum)
    );
    assert_eq!(
        compile(table(vec![("Foo", item(SchemaKind::Boolean { enumeration: one() }))]), "Foo"),
        Err(CompileErrorKind::ScalarEnum)
    );
    assert_eq!(
        compile(
            table(vec![(
                "Foo",
                item(SchemaKind::Integer { format: None, enumeration: vec![Some(s("1")), None] })
            )]),
            "Foo"
        ),
        Err(CompileErrorKind::NullableEnum)
    );
}

#[test]
fn what_needs_a_name_cannot_stand_in_place() {
    let holder = |inner: SchemaRef| table(vec![("Foo", item(object(vec![("x", inner)], &[], Additional::Absent)))]);
    assert_eq!(compile(holder(plain_object("y")), "Foo"), Err(CompileErrorKind::InlineObject));
    assert_eq!(
        compile(holder(item(string_enum(&["a"]))), "Foo"),
        Err(CompileErrorKind::InlineEnum)
    );
    assert_eq!(
        compile(holder(item(SchemaKind::Boolean { enumeration: vec![Some(s("true"))] })), "Foo"),
        Err(CompileErrorKind::InlineEnum)
    );
    for composite in [
        SchemaKind::OneOf(vec![]),
        SchemaKind::AllOf(vec![]),
        SchemaKind::AnyOf(vec![]),
        SchemaKind::Not(Box::new(item(string(None)))),
    ] {
        assert_eq!(compile(holder(item(composite)), "Foo"), Err(CompileErrorKind::InlineComposite));
    }
    assert_eq!(
        compile(holder(item(SchemaKind::Any { trivial: false })), "Foo"),
        Err(CompileErrorKind::FreeForm)
    );
}

#[test]
fn references_must_lead_to_a_shared_schema() {
    let holder = |r: SchemaRef| {
        table(vec![
            ("Foo", item(object(vec![("x", r)], &[], Additional::Absent))),
            ("Alias", reference("Foo")),
        ])
    };
    assert_eq!(
        compile(holder(SchemaRef::Reference(s("#/components/responses/Foo"))), "Foo"),
        Err(CompileErrorKind::ForeignReference)
    );
    assert_eq!(compile(holder(reference("Nope")), "Foo"), Err(CompileErrorKind::MissingSchema));
    assert_eq!(compile(holder(reference("Alias")), "Foo"), Err(CompileErrorKind::ReferenceChain));

    assert_eq!(reference_schema_name("#/components/schemas/Pet").unwrap(), "Pet");
    assert_eq!(reference_schema_name("#/components/schemas/").unwrap(), "");
    let error = reference_schema_name("pets.yaml#/components/schemas/Pet").unwrap_err();
    assert_eq!(error.kind, CompileErrorKind::ForeignReference);
    assert_eq!(error.subject, "pets.yaml#/components/schemas/Pet");
}

#[test]
fn a_made_up_format_must_be_a_type() {
    assert_eq!(inline_string(&Some(s("uuid::Uuid")), &vec![]), Ok(TypeExpr::Custom(s("uuid::Uuid"))));
    assert_eq!(inline_integer(&Some(s("u8")), &vec![]), Ok(TypeExpr::Custom(s("u8"))));
    assert_eq!(inline_number(&Some(s("float")), &vec![]), Ok(TypeExpr::Float));
    assert_eq!(inline_number(&None, &vec![]), Ok(TypeExpr::Double));
    for broken in ["(", "a ) b", "'"] {
        let error = inline_string(&Some(s(broken)), &vec![]).unwrap_err();
        assert_eq!(error.kind, CompileErrorKind::InvalidFormat);
        assert_eq!(error.subject, broken);
    }
    assert_eq!(
        inline_integer(&Some(s("\"")), &vec![]).unwrap_err().kind,
        CompileErrorKind::InvalidFormat
    );
}

#[test]
fn an_intersection_gathers_objects_only() {
    let branches = |branches: Vec<SchemaRef>| {
        table(vec![
            ("Foo", item(SchemaKind::AllOf(branches))),
            ("Text", item(string(None))),
            ("Open", item(object(vec![("a", item(string(None)))], &[], Additional::Any(true)))),
            ("Closed", item(object(vec![("b", item(string(None)))], &[], Additional::Any(false)))),
            ("Loop", item(SchemaKind::AllOf(vec![reference("Loop")]))),
        ])
    };
    assert_eq!(
        compile(branches(vec![item(string(None))]), "Foo"),
        Err(CompileErrorKind::IntersectionBranch)
    );
    assert_eq!(
        compile(branches(vec![reference("Text")]), "Foo"),
        Err(CompileErrorKind::IntersectionBranch)
    );
    // Only one branch may speak of additional properties, even to forbid them.
    assert_eq!(
        compile(branches(vec![reference("Open"), reference("Closed")]), "Foo"),
        Err(CompileErrorKind::ConflictingAdditional)
    );
    assert_eq!(
        compile(branches(vec![reference("Loop")]), "Foo"),
        Err(CompileErrorKind::CyclicDependency)
    );
    // A nested intersection is gathered in turn.
    let models = compile(
        branches(vec![
            item(SchemaKind::AllOf(vec![reference("Closed"), plain_object("c")])),
            plain_object("d"),
        ]),
        "Foo",
    )
    .unwrap();
    match &models[0].kind {
        CompiledKind::Struct(Body::Named { fields, extra: None }) => {
            let names: Vec<&str> = fields.iter().map(|field| field.ident.as_str()).collect();
            assert_eq!(names, vec!["b", "c", "d"]);
        }
        other => panic!("expected a struct, found {other:?}"),
    }
}

#[test]
fn a_union_has_named_object_variants() {
    let with = |union: SchemaRef| {
        table(vec![("Foo", union), ("Bar", plain_object("bar")), ("Text", item(string(None)))])
    };
    assert_eq!(
        compile(with(tagged(vec![], vec![reference("Bar")], "")), "Foo"),
        Err(CompileErrorKind::EmptyDiscriminator)
    );
    assert_eq!(
        compile(with(tagged(vec![], vec![plain_object("x")], "kind")), "Foo"),
        Err(CompileErrorKind::InlineVariant)
    );
    assert_eq!(
        compile(with(item(SchemaKind::OneOf(vec![plain_object("x")]))), "Foo"),
        Err(CompileErrorKind::InlineVariant)
    );
    assert_eq!(
        compile(
            with(tagged(
                vec![("baz", "#/components/schemas/Baz")],
                vec![reference("Bar")],
                "kind"
            )),
            "Foo"
        ),
        Err(CompileErrorKind::UnknownVariant)
    );
    assert_eq!(
        compile(with(tagged(vec![], vec![reference("Text")], "kind")), "Foo"),
        Err(CompileErrorKind::VariantShape)
    );
    assert_eq!(
        compile(with(tagged(vec![], vec![reference("Nope")], "kind")), "Foo"),
        Err(CompileErrorKind::MissingSchema)
    );
}

#[test]
fn a_variant_without_fields_is_a_unit() {
    let models = compile(
        table(vec![
            ("Foo", tagged(vec![], vec![reference("Empty"), reference("OnlyTag")], "kind")),
            ("Empty", item(object(vec![], &[], Additional::Any(false)))),
            ("OnlyTag", item(object(vec![("kind", item(string(None)))], &[], Additional::Absent))),
        ]),
        "Foo",
    )
    .unwrap();
    match &models[0].kind {
        CompiledKind::Tagged { variants, .. } => {
            assert_eq!(variants[0].body, Body::Unit);
            assert_eq!(variants[1].body, Body::Named { fields: vec![], extra: None });
        }
        other => panic!("expected a tagged union, found {other:?}"),
    }
}

#[test]
fn an_object_without_properties_is_the_one_empty_type() {
    let schemas = table(vec![
        ("Empty", item(object(vec![], &[], Additional::Absent))),
        ("AlsoEmpty", item(object(vec![], &[], Additional::Any(false)))),
        (
            "Holder",
            item(object(
                vec![
                    ("a", reference("Empty")),
                    ("b", reference("AlsoEmpty")),
                    ("c", item(object(vec![], &[], Additional::Absent))),
                ],
                &[],
                Additional::Absent,
            )),
        ),
    ]);
    let models = generate_components(&schemas).unwrap();
    assert_eq!(models.len(), 1);
    match &models[0].kind {
        CompiledKind::Struct(Body::Named { fields, .. }) => {
            for field in fields {
                assert_eq!(field.ty, TypeExpr::EmptyModel);
            }
        }
        other => panic!("expected a struct, found {other:?}"),
    }
}

#[test]
fn types_are_read_without_making_models() {
    let schemas = table(vec![
        ("Pet", plain_object("name")),
        ("Names", item(array(Some(item(string(None))), false))),
        ("Loop", item(array(Some(reference("Loop")), false))),
    ]);
    let mut models = Vec::new();
    // Nothing has been compiled: the object cannot stand in place.
    assert_eq!(
        type_of(&schemas, &reference("Pet"), &mut models).unwrap_err().kind,
        CompileErrorKind::InlineObject
    );
    assert_eq!(
        type_of(&schemas, &reference("Names"), &mut models),
        Ok(TypeExpr::ListOf(Box::new(TypeExpr::Text)))
    );
    assert_eq!(
        type_of(&schemas, &reference("Loop"), &mut models).unwrap_err().kind,
        CompileErrorKind::CyclicDependency
    );
    assert!(models.is_empty());

    let mut models = generate_components(&table(vec![("Pet", plain_object("name"))])).unwrap();
    assert_eq!(type_of(&schemas, &reference("Pet"), &mut models), Ok(TypeExpr::Model(s("Pet"))));
    assert_eq!(models.len(), 1);
}

#[test]
fn models_are_made_once() {
    let schemas = table(vec![
        ("Owner", item(object(vec![("pet", reference("Pet")), ("other", reference("Pet"))], &[], Additional::Absent))),
        ("Pet", plain_object("name")),
    ]);
    let models = generate_components(&schemas).unwrap();
    let idents: Vec<&str> = models.iter().map(|model| model.ident.as_str()).collect();
    // What a model depends on is made before it, and only once.
    assert_eq!(idents, vec!["Pet", "Owner"]);
}

#[test]
fn after_an_error_no_schema_is_left_in_progress() {
    // The error is found three schemas deep: in a field, in a variant, in an intersection.
    let schemas = table(vec![
        ("Outer", item(object(vec![("inner", reference("Union"))], &[], Additional::Absent))),
        ("Union", tagged(vec![], vec![reference("Both")], "kind")),
        ("Both", item(SchemaKind::AllOf(vec![reference("Bar"), reference("Nope")]))),
        ("Bar", plain_object("bar")),
    ]);
    let target = match &schemas[0].1 {
        SchemaRef::Item(schema) => schema,
        SchemaRef::Reference(_) => unreachable!(),
    };
    let mut models = Vec::new();
    let mut stack = indexmap::IndexSet::new();
    stack.insert("Before".to_string());

    let error = generate_model(&schemas, "Outer", target, &mut models, &mut stack).unwrap_err();

    assert_eq!(error.kind, CompileErrorKind::MissingSchema);
    assert_eq!(stack.iter().collect::<Vec<_>>(), ["Before"]);
}

#[test]
fn a_cycle_leaves_no_schema_in_progress() {
    let schemas = table(vec![
        ("A", item(object(vec![("b", reference("B"))], &[], Additional::Absent))),
        ("B", item(object(vec![("a", reference("A"))], &[], Additional::Absent))),
    ]);
    let target = match &schemas[0].1 {
        SchemaRef::Item(schema) => schema,
        SchemaRef::Reference(_) => unreachable!(),
    };
    let mut models = Vec::new();
    let mut stack = indexmap::IndexSet::new();

    let error = generate_model(&schemas, "A", target, &mut models, &mut stack).unwrap_err();

    assert_eq!(error.kind, CompileErrorKind::CyclicDependency);
    assert!(stack.is_empty());
}
