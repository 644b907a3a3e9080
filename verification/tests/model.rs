use openapi_lambda::document::{
    Components, MediaType, Method, OpenApi, Operation, Parameter, ParameterFormat,
    ParameterLocation, PathItem, RefOr, Response, Responses, StatusCode,
};
use openapi_lambda::generator::generate_models;
use openapi_lambda::inline_document::inline_openapi;
use openapi_lambda::ir::{
    Body, CompileErrorKind, CompiledKind, CompiledType, Field, Literal, TypeExpr, Variant,
};
use openapi_lambda::model::unions::{check_mapping, tag_value};
use openapi_lambda::model::{generate_components, generate_model};
use openapi_lambda::schema::{Additional, Discriminator, Schema, SchemaKind, SchemaRef};

fn s(text: &str) -> String {
    text.to_string()
}

fn schema(kind: SchemaKind) -> Schema {
    Schema { description: None, discriminator: None, kind, rest: String::new() }
}

fn item(kind: SchemaKind) -> SchemaRef {
    SchemaRef::Item(schema(kind))
}

fn reference(name: &str) -> SchemaRef {
    SchemaRef::Reference(format!("#/components/schemas/{name}"))
}

fn string(format: Option<&str>) -> SchemaKind {
    SchemaKind::String { format: format.map(s), enumeration: vec![] }
}

fn string_enum(literals: &[&str]) -> SchemaKind {
    SchemaKind::String {
        format: None,
        enumeration: literals.iter().map(|literal| Some(s(literal))).collect(),
    }
}

fn integer(format: Option<&str>) -> SchemaKind {
    SchemaKind::Integer { format: format.map(s), enumeration: vec![] }
}

fn number(format: Option<&str>) -> SchemaKind {
    SchemaKind::Number { format: format.map(s), enumeration: vec![] }
}

fn boolean() -> SchemaKind {
    SchemaKind::Boolean { enumeration: vec![] }
}

fn array(items: Option<SchemaRef>, unique_items: bool) -> SchemaKind {
    SchemaKind::Array { items: items.map(Box::new), unique_items }
}

fn object(properties: Vec<(&str, SchemaRef)>, required: &[&str], additional: Additional) -> SchemaKind {
    SchemaKind::Object {
        properties: properties.into_iter().map(|(name, r)| (s(name), r)).collect(),
        required: required.iter().map(|name| s(name)).collect(),
        additional,
    }
}

fn table(entries: Vec<(&str, SchemaRef)>) -> Vec<(String, SchemaRef)> {
    entries.into_iter().map(|(name, r)| (s(name), r)).collect()
}

fn field(ident: &str, rename: Option<&str>, ty: TypeExpr, required: bool) -> Field {
    Field { ident: s(ident), rename: rename.map(s), ty, required, description: None }
}

fn named(fields: Vec<Field>, extra: Option<TypeExpr>) -> Body {
    Body::Named { fields, extra }
}

fn find<'a>(models: &'a [CompiledType], ident: &str) -> &'a CompiledType {
    models.iter().find(|model| model.ident == ident).expect("model should have been generated")
}

fn expect_model(schemas: Vec<(String, SchemaRef)>, model_name: &str, expected: CompiledType) {
    let mut models = Vec::new();
    let mut stack = indexmap::IndexSet::new();
    let target = match &schemas.iter().find(|(name, _)| name == model_name).unwrap().1 {
        SchemaRef::Item(schema) => schema,
        SchemaRef::Reference(reference) => panic!("should be an item; found reference {reference}"),
    };
    assert_eq!(generate_model(&schemas, model_name, target, &mut models, &mut stack), Ok(true));
    assert!(stack.is_empty());
    assert_eq!(find(&models, model_name), &expected);
}

fn expect_no_model(schemas: Vec<(String, SchemaRef)>, model_name: &str) {
    let mut models = Vec::new();
    let mut stack = indexmap::IndexSet::new();
    let target = match &schemas.iter().find(|(name, _)| name == model_name).unwrap().1 {
        SchemaRef::Item(schema) => schema,
        SchemaRef::Reference(reference) => panic!("should be an item; found reference {reference}"),
    };
    assert_eq!(generate_model(&schemas, model_name, target, &mut models, &mut stack), Ok(false));
    assert!(models.is_empty());
}

fn option_enum(ident: &str) -> CompiledType {
    CompiledType {
        ident: s(ident),
        description: None,
        kind: CompiledKind::Enumeration(vec![
            Literal { ident: s("OptionA"), literal: s("option_a") },
            Literal { ident: s("OptionB"), literal: s("option_b") },
        ]),
    }
}

#[test]
fn test_components() {
    let schemas = table(vec![
        (
            "foo_bar",
            item(object(
                vec![("foo", item(string(None))), ("bar", item(string(None)))],
                &["bar"],
                Additional::Absent,
            )),
        ),
        // No model for a string that enumerates nothing.
        ("Baz", item(string(None))),
        ("Enum", item(string_enum(&["option_a", "option_b"]))),
    ]);

    let models = generate_components(&schemas).unwrap();

    let mut idents: Vec<&str> = models.iter().map(|model| model.ident.as_str()).collect();
    idents.sort();
    assert_eq!(idents, vec!["Enum", "FooBar"]);

    assert_eq!(find(&models, "Enum"), &option_enum("Enum"));
    assert_eq!(
        find(&models, "FooBar"),
        &CompiledType {
            ident: s("FooBar"),
            description: None,
            kind: CompiledKind::Struct(named(
                vec![
                    field("foo", None, TypeExpr::Text, false),
                    field("bar", None, TypeExpr::Text, true),
                ],
                None,
            )),
        }
    );
}

#[test]
fn test_object_properties() {
    let custom_map = || {
        item(object(vec![], &[], Additional::Schema(Box::new(item(string(Some("foo::Bar")))))))
    };
    let mut string_plain = schema(string(None));
    string_plain.description = Some(s("Description `string_plain`"));
    let mut foo = schema(object(
        vec![
            ("string_plain", SchemaRef::Item(string_plain)),
            ("string_format", item(string(Some("foo::bar")))),
            ("string_date", item(string(Some("date")))),
            ("string_datetime", item(string(Some("date-time")))),
            ("string_byte", item(string(Some("byte")))),
            ("string_password", item(string(Some("password")))),
            ("string_binary", item(string(Some("binary")))),
            ("string_ref", reference("String")),
            ("integer", item(integer(None))),
            ("integer_format", item(integer(Some("foo::integer")))),
            ("integer32", item(integer(Some("int32")))),
            ("integer64", item(integer(Some("int64")))),
            ("number", item(number(None))),
            ("number_format", item(number(Some("foo::number")))),
            ("number_float", item(number(Some("double")))),
            ("number_double", item(number(Some("double")))),
            ("boolean", item(boolean())),
            ("array", item(array(Some(item(string(None))), false))),
            ("array_any", item(array(None, false))),
            ("array_obj_ref_properties", item(array(Some(reference("ObjectProperties")), false))),
            (
                "array_obj_ref_addl_properties",
                item(array(Some(reference("ObjectAdditionalProperties")), false)),
            ),
            ("array_unique", item(array(Some(item(string(None))), true))),
            (
                "obj_addl_properties",
                item(object(vec![], &[], Additional::Schema(Box::new(item(integer(None)))))),
            ),
            ("obj_empty", item(object(vec![], &[], Additional::Absent))),
            ("obj_ref_properties", reference("ObjectProperties")),
            ("obj_ref_addl_properties", reference("ObjectAdditionalProperties")),
            // Property names become snake case.
            ("SnakeCase", item(string(None))),
            // No identifier may be a keyword.
            ("type", item(string(None))),
        ],
        // Some of the fields, so that not everything is optional.
        &["string_plain", "integer32", "number", "array", "obj_ref_addl_properties"],
        Additional::Absent,
    ));
    foo.description = Some(s("Description Foo"));

    let schemas = table(vec![
        ("Foo", SchemaRef::Item(foo)),
        ("String", item(string(None))),
        (
            "ObjectProperties",
            item(object(vec![("bar", item(string(None)))], &[], Additional::Absent)),
        ),
        ("ObjectAdditionalProperties", custom_map()),
    ]);

    let custom = |path: &str| TypeExpr::Custom(s(path));
    let list = |inner: TypeExpr| TypeExpr::ListOf(Box::new(inner));
    let map = |inner: TypeExpr| TypeExpr::MapOf(Box::new(inner));
    let mut first = field("string_plain", None, TypeExpr::Text, true);
    first.description = Some(s("Description `string_plain`"));

    expect_model(
        schemas,
        "Foo",
        CompiledType {
            ident: s("Foo"),
            description: Some(s("Description Foo")),
            kind: CompiledKind::Struct(named(
                vec![
                    first,
                    field("string_format", None, custom("foo::bar"), false),
                    field("string_date", None, TypeExpr::Date, false),
                    field("string_datetime", None, TypeExpr::DateTime, false),
                    field("string_byte", None, TypeExpr::Text, false),
                    field("string_password", None, TypeExpr::Text, false),
                    field("string_binary", None, TypeExpr::Bytes, false),
                    field("string_ref", None, TypeExpr::Text, false),
                    field("integer", None, TypeExpr::Int64, false),
                    field("integer_format", None, custom("foo::integer"), false),
                    field("integer_32", Some("integer32"), TypeExpr::Int32, true),
                    field("integer_64", Some("integer64"), TypeExpr::Int64, false),
                    field("number", None, TypeExpr::Double, true),
                    field("number_format", None, custom("foo::number"), false),
                    field("number_float", None, TypeExpr::Double, false),
                    field("number_double", None, TypeExpr::Double, false),
                    field("boolean", None, TypeExpr::Bool, false),
                    field("array", None, list(TypeExpr::Text), true),
                    field("array_any", None, list(TypeExpr::AnyValue), false),
                    field(
                        "array_obj_ref_properties",
                        None,
                        list(TypeExpr::Model(s("ObjectProperties"))),
                        false,
                    ),
                    field(
                        "array_obj_ref_addl_properties",
                        None,
                        list(map(custom("foo::Bar"))),
                        false,
                    ),
                    field("array_unique", None, TypeExpr::SetOf(Box::new(TypeExpr::Text)), false),
                    field("obj_addl_properties", None, map(TypeExpr::Int64), false),
                    field("obj_empty", None, TypeExpr::EmptyModel, false),
                    field(
                        "obj_ref_properties",
                        None,
                        TypeExpr::Model(s("ObjectProperties")),
                        false,
                    ),
                    field("obj_ref_addl_properties", None, map(custom("foo::Bar")), true),
                    field("snake_case", Some("SnakeCase"), TypeExpr::Text, false),
                    field("r#type", Some("type"), TypeExpr::Text, false),
                ],
                None,
            )),
        },
    );
}

#[test]
fn test_object_properties_with_additional() {
    let foo = || {
        item(object(
            vec![("foo", item(string(None)))],
            &[],
            Additional::Schema(Box::new(reference("Bar"))),
        ))
    };

    expect_model(
        table(vec![("Foo", foo()), ("Bar", item(string(Some("foo::bar"))))]),
        "Foo",
        CompiledType {
            ident: s("Foo"),
            description: None,
            kind: CompiledKind::Struct(named(
                vec![field("foo", None, TypeExpr::Text, false)],
                Some(TypeExpr::Custom(s("foo::bar"))),
            )),
        },
    );

    expect_model(
        table(vec![
            ("Foo", foo()),
            ("Bar", item(object(vec![("bar", item(boolean()))], &[], Additional::Absent))),
        ]),
        "Foo",
        CompiledType {
            ident: s("Foo"),
            description: None,
            kind: CompiledKind::Struct(named(
                vec![field("foo", None, TypeExpr::Text, false)],
                Some(TypeExpr::Model(s("Bar"))),
            )),
        },
    );
}

#[test]
fn test_object_additional_properties() {
    expect_no_model(
        table(vec![(
            "Baz",
            item(object(vec![], &[], Additional::Schema(Box::new(item(string(Some("foo::Bar"))))))),
        )]),
        "Baz",
    );
}

#[test]
fn test_string() {
    expect_no_model(table(vec![("Foo", item(string(None)))]), "Foo");
}

#[test]
fn test_string_enum() {
    expect_model(
        table(vec![("Foo", item(string_enum(&["option_a", "option_b"])))]),
        "Foo",
        option_enum("Foo"),
    );
}

#[test]
fn test_array() {
    expect_no_model(table(vec![("Foo", item(array(Some(item(string(None))), false)))]), "Foo");
}

#[test]
fn test_integer() {
    expect_no_model(table(vec![("Foo", item(integer(None)))]), "Foo");
}

#[test]
fn test_number() {
    expect_no_model(table(vec![("Foo", item(number(None)))]), "Foo");
}

#[test]
fn test_bool() {
    expect_no_model(table(vec![("Foo", item(boolean()))]), "Foo");
}

fn union_branch(own: &str, discriminator_in_variants: bool) -> SchemaRef {
    let mut properties = vec![];
    let mut required = vec![];
    if discriminator_in_variants {
        properties.push(("foo", item(string(None))));
        required.push("foo");
    }
    properties.push((own, item(string(None))));
    required.push(own);
    item(object(properties, &required, Additional::Absent))
}

fn union(discriminator: Option<Discriminator>, composition: SchemaKind) -> SchemaRef {
    SchemaRef::Item(Schema {
        description: None,
        discriminator,
        kind: composition,
        rest: String::new(),
    })
}

fn variant(ident: &str, rename: Option<&str>, own: &str) -> Variant {
    Variant {
        ident: s(ident),
        rename: rename.map(s),
        description: None,
        body: named(vec![field(own, None, TypeExpr::Text, true)], None),
    }
}

#[test]
fn test_oneof_discriminator_mapping() {
    // The discriminator is taken as a string whether or not the variants declare it.
    for discriminator_in_variants in [true, false] {
        expect_model(
            table(vec![
                (
                    "Foo",
                    union(
                        Some(Discriminator {
                            property_name: s("foo"),
                            mapping: vec![
                                (s("bar"), s("#/components/schemas/Bar")),
                                (s("baz"), s("#/components/schemas/Baz")),
                            ],
                        }),
                        SchemaKind::OneOf(vec![reference("Bar"), reference("Baz")]),
                    ),
                ),
                ("Bar", union_branch("bar", discriminator_in_variants)),
                ("Baz", union_branch("baz", discriminator_in_variants)),
            ]),
            "Foo",
            CompiledType {
                ident: s("Foo"),
                description: None,
                kind: CompiledKind::Tagged {
                    tag: s("foo"),
                    // `foo` is no field of any variant.
                    variants: vec![
                        variant("Bar", Some("bar"), "bar"),
                        variant("Baz", Some("baz"), "baz"),
                    ],
                },
            },
        );
    }
}

#[test]
fn a_mapping_that_names_some_branches_leaves_the_others_their_own_names() {
    expect_model(
        table(vec![
            (
                "Foo",
                union(
                    Some(Discriminator {
                        property_name: s("foo"),
                        mapping: vec![(s("baz"), s("#/components/schemas/Baz"))],
                    }),
                    SchemaKind::OneOf(vec![reference("Bar"), reference("Baz")]),
                ),
            ),
            ("Bar", union_branch("bar", true)),
            ("Baz", union_branch("baz", false)),
        ]),
        "Foo",
        CompiledType {
            ident: s("Foo"),
            description: None,
            kind: CompiledKind::Tagged {
                tag: s("foo"),
                // One variant for each branch, in the order of the branches.
                variants: vec![variant("Bar", None, "bar"), variant("Baz", Some("baz"), "baz")],
            },
        },
    );
}

#[test]
fn a_branch_that_the_mapping_names_twice_is_one_variant_under_the_first_key() {
    expect_model(
        table(vec![
            (
                "Foo",
                union(
                    Some(Discriminator {
                        property_name: s("foo"),
                        mapping: vec![
                            (s("baz"), s("#/components/schemas/Baz")),
                            (s("bar"), s("#/components/schemas/Bar")),
                            (s("other"), s("#/components/schemas/Baz")),
                        ],
                    }),
                    SchemaKind::OneOf(vec![reference("Bar"), reference("Baz")]),
                ),
            ),
            ("Bar", union_branch("bar", true)),
            ("Baz", union_branch("baz", true)),
        ]),
        "Foo",
        CompiledType {
            ident: s("Foo"),
            description: None,
            kind: CompiledKind::Tagged {
                tag: s("foo"),
                variants: vec![
                    variant("Bar", Some("bar"), "bar"),
                    variant("Baz", Some("baz"), "baz"),
                ],
            },
        },
    );
}

#[test]
fn test_oneof_discriminator_no_mapping() {
    for discriminator_in_variants in [true, false] {
        expect_model(
            table(vec![
                (
                    "Foo",
                    union(
                        Some(Discriminator { property_name: s("foo"), mapping: vec![] }),
                        SchemaKind::OneOf(vec![reference("Bar"), reference("Baz")]),
                    ),
                ),
                ("Bar", union_branch("bar", discriminator_in_variants)),
                ("Baz", union_branch("baz", discriminator_in_variants)),
            ]),
            "Foo",
            CompiledType {
                ident: s("Foo"),
                description: None,
                kind: CompiledKind::Tagged {
                    tag: s("foo"),
                    variants: vec![variant("Bar", None, "bar"), variant("Baz", None, "baz")],
                },
            },
        );
    }
}

#[test]
fn test_oneof_no_discriminator() {
    expect_model(
        table(vec![
            ("Foo", union(None, SchemaKind::OneOf(vec![reference("Bar"), reference("Baz")]))),
            ("Bar", union_branch("bar", false)),
            ("Baz", union_branch("baz", false)),
        ]),
        "Foo",
        CompiledType {
            ident: s("Foo"),
            description: None,
            kind: CompiledKind::Untagged(vec![
                variant("Bar", None, "bar"),
                variant("Baz", None, "baz"),
            ]),
        },
    );
}

#[test]
fn test_allof_discriminator() {
    expect_model(
        table(vec![
            ("Foo", union(None, SchemaKind::AllOf(vec![reference("Bar"), reference("Baz")]))),
            ("Bar", union_branch("bar", false)),
            (
                "Baz",
                item(object(vec![("baz", item(string(None)))], &["baz"], Additional::Any(true))),
            ),
        ]),
        "Foo",
        CompiledType {
            ident: s("Foo"),
            description: None,
            kind: CompiledKind::Struct(named(
                vec![
                    field("bar", None, TypeExpr::Text, true),
                    field("baz", None, TypeExpr::Text, true),
                ],
                Some(TypeExpr::AnyValue),
            )),
        },
    );
}

#[test]
fn test_circular_reference() {
    let schemas = table(vec![
        ("Foo", item(object(vec![("bar", reference("Bar"))], &[], Additional::Absent))),
        ("Bar", item(object(vec![("foo", reference("Foo"))], &[], Additional::Absent))),
    ]);
    let mut models = Vec::new();
    let mut stack = indexmap::IndexSet::new();
    let target = match &schemas[0].1 {
        SchemaRef::Item(schema) => schema,
        SchemaRef::Reference(_) => unreachable!(),
    };

    let error = generate_model(&schemas, "Foo", target, &mut models, &mut stack).unwrap_err();

    assert_eq!(error.kind, CompileErrorKind::CyclicDependency);
    assert_eq!(error.subject, "Foo");
}

fn media(schema_ref: SchemaRef) -> MediaType {
    MediaType { schema: Some(schema_ref), examples: vec![], rest: String::new() }
}

fn query(name: &str, schema_ref: SchemaRef) -> Parameter {
    Parameter {
        location: ParameterLocation::Query,
        name: s(name),
        description: None,
        required: false,
        format: ParameterFormat::Schema(schema_ref),
        examples: vec![],
        rest: String::new(),
    }
}

fn response(description: &str, mime: &str, schema_ref: SchemaRef) -> Response {
    Response {
        description: s(description),
        headers: vec![],
        content: vec![(s(mime), media(schema_ref))],
        links: vec![],
        rest: String::new(),
    }
}

#[test]
fn test_unnamed_schemas() {
    let openapi = OpenApi {
        paths: vec![(
            s("/foo"),
            RefOr::Item(PathItem {
                operations: vec![(
                    Method::Get,
                    Operation {
                        operation_id: Some(s("listFoo")),
                        tags: vec![],
                        description: None,
                        parameters: vec![RefOr::Item(query(
                            "color",
                            item(string_enum(&["red", "green", "blue"])),
                        ))],
                        request_body: None,
                        responses: Responses {
                            default: Some(RefOr::Item(response(
                                "Default response",
                                "text/plain",
                                item(string_enum(&["foo", "bar", "baz"])),
                            ))),
                            responses: vec![(
                                StatusCode::Code(200),
                                RefOr::Item(response(
                                    "Success response",
                                    "application/json",
                                    item(object(
                                        vec![("foo_id", item(string(None)))],
                                        &[],
                                        Additional::Absent,
                                    )),
                                )),
                            )],
                        },
                        security: None,
                        integration: None,
                        rest: String::new(),
                    },
                )],
                parameters: vec![],
                rest: String::new(),
            }),
        )],
        components: Some(Components {
            schemas: table(vec![(
                "Fruit",
                item(object(
                    vec![("type", item(string_enum(&["berry", "stonefruit"])))],
                    &[],
                    Additional::Absent,
                )),
            )]),
            responses: vec![(
                s("Bar"),
                RefOr::Item(response(
                    "Bar response",
                    "text/plain",
                    item(string_enum(&["foo", "bar", "baz"])),
                )),
            )],
            parameters: vec![
                (
                    s("Color"),
                    RefOr::Item(query("color", item(string_enum(&["red", "green", "blue"])))),
                ),
                (s("ColorBw"), RefOr::Item(query("color", item(string_enum(&["black", "white"]))))),
            ],
            request_bodies: vec![],
            headers: vec![],
            security_schemes: vec![],
            examples: vec![],
            links: vec![],
            callbacks: vec![],
        }),
        rest: String::new(),
    };

    let inlined = inline_openapi(&openapi, "openapi.yaml", &vec![]).unwrap();
    let (_, models) = generate_models(&inlined).unwrap();

    let mut idents: Vec<String> = models.into_iter().map(|model| model.ident).collect();
    idents.sort();
    assert_eq!(
        idents,
        [
            "BarResponsePlainTextResponseBody",
            "ColorParam",
            "ColorParam2",
            "Fruit",
            "FruitType",
            "ListFoo200ResponseJsonResponseBody",
            "ListFooColorParam",
            "ListFooDefaultResponsePlainTextResponseBody"
        ]
    );
}

#[test]
fn the_mapping_of_a_discriminator_says_which_value_selects_a_branch() {
    let mapping = vec![
        (s("circle"), s("#/components/schemas/Circle")),
        (s("round"), s("#/components/schemas/Circle")),
        (s("odd"), s("elsewhere.yaml#/Square")),
    ];
    assert_eq!(tag_value(&mapping, "Circle"), "circle");
    assert_eq!(tag_value(&mapping, "Square"), "Square");
    assert_eq!(tag_value(&vec![], "Circle"), "Circle");

    let names = vec![s("Circle"), s("Square")];
    assert_eq!(check_mapping(&names, &mapping[..2].to_vec()), Ok(()));
    assert_eq!(check_mapping(&names, &vec![]), Ok(()));
    assert_eq!(
        check_mapping(&names, &vec![(s("tri"), s("#/components/schemas/Triangle"))])
            .unwrap_err()
            .kind,
        CompileErrorKind::UnknownVariant
    );
    assert!(check_mapping(&names, &mapping).is_err());
}
