use openapi_lambda::document::{Components, OpenApi, StatusCode};
use openapi_lambda::ir::CompileErrorKind;
use openapi_lambda::naming::{kind_needs_name, visit_schema, visit_unnamed_schema};
use openapi_lambda::naming_document::{
    media_type_or_range_name_pascal_case, status_code_text, visit_components, visit_openapi,
};
use openapi_lambda::schema::{Additional, Schema, SchemaKind, SchemaRef};

fn s(text: &str) -> String {
    text.to_string()
}

fn schema(kind: SchemaKind) -> Schema {
    Schema { description: None, discriminator: None, kind, rest: String::new() }
}

fn item(kind: SchemaKind) -> SchemaRef {
    SchemaRef::Item(schema(kind))
}

fn string() -> SchemaKind {
    SchemaKind::String { format: None, enumeration: vec![] }
}

fn colors() -> SchemaKind {
    SchemaKind::String { format: None, enumeration: vec![Some(s("red")), Some(s("blue"))] }
}

fn object(properties: Vec<(&str, SchemaRef)>, additional: Additional) -> SchemaKind {
    SchemaKind::Object {
        properties: properties.into_iter().map(|(name, r)| (s(name), r)).collect(),
        required: vec![],
        additional,
    }
}

fn local(name: &str) -> SchemaRef {
    SchemaRef::Reference(format!("#/components/schemas/{name}"))
}

#[test]
fn objects_enumerations_and_compositions_need_a_name() {
    assert!(kind_needs_name(&object(vec![("a", item(string()))], Additional::Absent)));
    // An object without properties needs one too, unless all it says is
    // what additional properties are.
    assert!(kind_needs_name(&object(vec![], Additional::Absent)));
    assert!(kind_needs_name(&object(vec![], Additional::Any(false))));
    assert!(!kind_needs_name(&object(vec![], Additional::Any(true))));
    assert!(!kind_needs_name(&object(vec![], Additional::Schema(Box::new(item(string()))))));
    assert!(kind_needs_name(&object(
        vec![("a", item(string()))],
        Additional::Schema(Box::new(item(string())))
    )));
    assert!(kind_needs_name(&colors()));
    assert!(!kind_needs_name(&string()));
    assert!(!kind_needs_name(&SchemaKind::Array { items: None, unique_items: false }));
    assert!(kind_needs_name(&SchemaKind::OneOf(vec![])));
    assert!(kind_needs_name(&SchemaKind::AnyOf(vec![])));
    assert!(kind_needs_name(&SchemaKind::AllOf(vec![])));
    assert!(!kind_needs_name(&SchemaKind::Any { trivial: true }));
    assert!(kind_needs_name(&SchemaKind::Integer { format: None, enumeration: vec![Some(s("1"))] }));
}

#[test]
fn a_schema_that_needs_a_name_moves_to_the_table() {
    let mut table = vec![];
    let place = visit_unnamed_schema(&mut table, &item(colors()), "ColorParam").unwrap();
    assert_eq!(place, local("ColorParam"));
    assert_eq!(table, vec![(s("ColorParam"), item(colors()))]);

    // The same context again: the name is taken.
    let place = visit_unnamed_schema(&mut table, &item(colors()), "ColorParam").unwrap();
    assert_eq!(place, local("ColorParam2"));
    let place = visit_unnamed_schema(&mut table, &item(colors()), "ColorParam").unwrap();
    assert_eq!(place, local("ColorParam3"));
    assert_eq!(table.len(), 3);
}

#[test]
fn a_schema_that_needs_no_name_stays() {
    let mut table = vec![];
    assert_eq!(visit_unnamed_schema(&mut table, &item(string()), "Name").unwrap(), item(string()));
    assert_eq!(visit_unnamed_schema(&mut table, &local("Pet"), "Name").unwrap(), local("Pet"));
    assert!(table.is_empty());
}

#[test]
fn names_are_made_from_the_place_of_a_schema() {
    let pet = schema(object(
        vec![
            ("color", item(colors())),
            ("tags", item(SchemaKind::Array { items: Some(Box::new(item(colors()))), unique_items: false })),
            (
                "owner",
                item(object(
                    vec![("favorite_color", item(colors()))],
                    Additional::Schema(Box::new(item(colors()))),
                )),
            ),
            ("either", item(SchemaKind::OneOf(vec![item(colors()), local("Pet")]))),
            ("any", item(SchemaKind::AnyOf(vec![item(colors())]))),
            (
                "both",
                item(SchemaKind::AllOf(vec![
                    item(object(vec![("shade", item(colors()))], Additional::Absent)),
                    local("Pet"),
                ])),
            ),
        ],
        Additional::Absent,
    ));
    let mut table = vec![];

    let made = visit_schema(&mut table, &pet, "Pet").unwrap();

    let names: Vec<&str> = table.iter().map(|(name, _)| name.as_str()).collect();
    assert_eq!(
        names,
        vec![
            "PetColor",
            "PetTagsItem",
            "PetOwnerFavoriteColor",
            "PetOwnerValue",
            "PetOwner",
            "PetEitherOneOf",
            "PetEither",
            "PetAnyAnyOf",
            "PetAny",
            "PetBothShade",
            "PetBoth",
        ]
    );
    match made.kind {
        SchemaKind::Object { properties, .. } => {
            assert_eq!(properties[0], (s("color"), local("PetColor")));
            assert_eq!(
                properties[1],
                (
                    s("tags"),
                    item(SchemaKind::Array {
                        items: Some(Box::new(local("PetTagsItem"))),
                        unique_items: false,
                    })
                )
            );
            assert_eq!(properties[2], (s("owner"), local("PetOwner")));
            assert_eq!(properties[5], (s("both"), local("PetBoth")));
        }
        other => panic!("expected an object, found {other:?}"),
    }
    // The branch of the intersection stays where it is.
    let both = table.iter().find(|(name, _)| name == "PetBoth").unwrap();
    assert_eq!(
        both.1,
        item(SchemaKind::AllOf(vec![
            item(object(vec![("shade", local("PetBothShade"))], Additional::Absent)),
            local("Pet"),
        ]))
    );
}

#[test]
fn what_cannot_be_named_is_an_error() {
    let mut table = vec![];
    let not = schema(SchemaKind::Not(Box::new(item(string()))));
    let error = visit_schema(&mut table, &not, "Pet").unwrap_err();
    assert_eq!(error.kind, CompileErrorKind::Not);
    assert_eq!(error.subject, "Pet");

    let free = schema(object(vec![("x", item(SchemaKind::Any { trivial: false }))], Additional::Absent));
    let error = visit_schema(&mut table, &free, "Pet").unwrap_err();
    assert_eq!(error.kind, CompileErrorKind::FreeForm);
    assert_eq!(error.subject, "PetX");
}

#[test]
fn media_types_have_words() {
    assert_eq!(media_type_or_range_name_pascal_case("application/json"), "Json");
    assert_eq!(media_type_or_range_name_pascal_case("application/json; charset=utf-8"), "Json");
    assert_eq!(media_type_or_range_name_pascal_case("application/octet-stream"), "Binary");
    assert_eq!(media_type_or_range_name_pascal_case("application/xml"), "Xml");
    assert_eq!(media_type_or_range_name_pascal_case("text/xml"), "Xml");
    assert_eq!(media_type_or_range_name_pascal_case("image/gif"), "Gif");
    assert_eq!(media_type_or_range_name_pascal_case("image/jpeg"), "Jpeg");
    assert_eq!(media_type_or_range_name_pascal_case("image/png"), "Png");
    assert_eq!(media_type_or_range_name_pascal_case("image/svg+xml"), "Svg");
    assert_eq!(media_type_or_range_name_pascal_case("image/webp"), "Webp");
    assert_eq!(media_type_or_range_name_pascal_case("text/csv"), "Csv");
    assert_eq!(media_type_or_range_name_pascal_case("text/html"), "Html");
    assert_eq!(media_type_or_range_name_pascal_case("TEXT/PLAIN"), "PlainText");
    assert_eq!(media_type_or_range_name_pascal_case("application/pdf"), "");
    assert_eq!(media_type_or_range_name_pascal_case("not a media type"), "");
    assert_eq!(status_code_text(&StatusCode::Code(200)), "200");
    assert_eq!(status_code_text(&StatusCode::Range(4)), "4XX");
}

#[test]
fn shared_schemas_keep_their_places_and_names() {
    let components = Components {
        schemas: vec![
            (s("fruit"), item(object(vec![("type", item(colors()))], Additional::Absent))),
            (s("Alias"), local("fruit")),
            (s("Color"), item(colors())),
        ],
        responses: vec![],
        parameters: vec![],
        request_bodies: vec![],
        headers: vec![],
        security_schemes: vec![],
        examples: vec![],
        links: vec![],
        callbacks: vec![],
    };

    let made = visit_components(&components).unwrap();

    assert_eq!(
        made.schemas,
        vec![
            (s("fruit"), item(object(vec![("type", local("FruitType"))], Additional::Absent))),
            (s("Alias"), local("fruit")),
            (s("Color"), item(colors())),
            (s("FruitType"), item(colors())),
        ]
    );
}

#[test]
fn a_document_without_shared_parts_gets_them() {
    let openapi = OpenApi { paths: vec![], components: None, rest: String::new() };
    let made = visit_openapi(&openapi).unwrap();
    assert!(made.components.is_some());
}
