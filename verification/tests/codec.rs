use openapi_lambda::codec::{literal_text, parse_literal, select_variant, variant_tag};
use openapi_lambda::ir::{Body, CompiledKind, Literal, TypeExpr, Variant};
use openapi_lambda::model::{generate_model, generate_string_model, identifier};
use openapi_lambda::schema::{Additional, Discriminator, Schema, SchemaKind, SchemaRef};

fn s(text: &str) -> String {
    text.to_string()
}

fn literals(texts: &[&str]) -> Vec<Literal> {
    match generate_string_model(
        "Color",
        &texts.iter().map(|text| Some(s(text))).collect::<Vec<_>>(),
    ) {
        Ok(Some(CompiledKind::Enumeration(literals))) => literals,
        other => panic!("expected an enumeration, found {other:?}"),
    }
}

#[test]
fn every_literal_is_read_and_written_as_itself() {
    let texts = ["red", "dark green", "", "1st", "_private", "type", "ümlaut"];
    let members = literals(&texts);
    assert_eq!(members.len(), texts.len());
    for text in texts {
        let member = parse_literal(&members, text).expect("a literal of the enumeration");
        assert_eq!(literal_text(&members, member), Some(text));
    }
}

#[test]
fn a_text_that_is_no_literal_is_an_invalid_variant() {
    let members = literals(&["red", "green"]);
    let error = parse_literal(&members, "blue").unwrap_err();
    assert_eq!(error.text, "blue");
    assert_eq!(error.message(), "invalid enum variant `blue`");
    // The identifier is not the literal.
    assert!(parse_literal(&members, "Red").is_err());
    assert_eq!(literal_text(&members, 2), None);
}

#[test]
fn identifiers_of_literals_are_made_safe() {
    let members = literals(&["option_a", "", "1st", "_private", "type"]);
    let idents: Vec<&str> = members.iter().map(|member| member.ident.as_str()).collect();
    assert_eq!(idents, vec!["OptionA", "EmptyString", "__1St", "Private", "Type"]);
    let kept: Vec<&str> = members.iter().map(|member| member.literal.as_str()).collect();
    assert_eq!(kept, vec!["option_a", "", "1st", "_private", "type"]);
}

#[test]
fn an_enumeration_with_null_is_not_supported() {
    let error = generate_string_model("Color", &vec![Some(s("red")), None]).unwrap_err();
    assert_eq!(error.kind, openapi_lambda::ir::CompileErrorKind::NullableEnum);
    assert_eq!(error.subject, "Color");
}

#[test]
fn identifiers_avoid_keywords() {
    assert_eq!(identifier("foo").unwrap(), "foo");
    assert_eq!(identifier("type").unwrap(), "r#type");
    assert_eq!(identifier("self").unwrap(), "self_");
    assert_eq!(identifier("crate").unwrap(), "crate_");
    assert_eq!(identifier("super").unwrap(), "super_");
    assert_eq!(identifier("Self").unwrap(), "Self_");
    let error = identifier("not an identifier").unwrap_err();
    assert_eq!(error.kind, openapi_lambda::ir::CompileErrorKind::InvalidIdentifier);
    assert_eq!(error.subject, "not an identifier");
    assert!(identifier("").is_err());
    assert!(identifier("200").is_err());
}

fn shape_table() -> Vec<(String, SchemaRef)> {
    let number = || {
        SchemaRef::Item(Schema {
            description: None,
            discriminator: None,
            kind: SchemaKind::Number { format: None, enumeration: vec![] },
            rest: String::new(),
        })
    };
    let text = || {
        SchemaRef::Item(Schema {
            description: None,
            discriminator: None,
            kind: SchemaKind::String { format: None, enumeration: vec![] },
            rest: String::new(),
        })
    };
    let object = |properties: Vec<(&str, SchemaRef)>, required: &[&str]| {
        SchemaRef::Item(Schema {
            description: None,
            discriminator: None,
            kind: SchemaKind::Object {
                properties: properties.into_iter().map(|(name, r)| (s(name), r)).collect(),
                required: required.iter().map(|name| s(name)).collect(),
                additional: Additional::Absent,
            },
            rest: String::new(),
        })
    };
    vec![
        (
            s("Shape"),
            SchemaRef::Item(Schema {
                description: None,
                discriminator: Some(Discriminator {
                    property_name: s("kind"),
                    mapping: vec![(s("circle"), s("#/components/schemas/Circle"))],
                }),
                kind: SchemaKind::OneOf(vec![
                    SchemaRef::Reference(s("#/components/schemas/Circle")),
                    SchemaRef::Reference(s("#/components/schemas/Square")),
                ]),
                rest: String::new(),
            }),
        ),
        (s("Circle"), object(vec![("kind", text()), ("radius", number())], &["kind", "radius"])),
        (s("Square"), object(vec![("kind", text()), ("side", number())], &["kind", "side"])),
    ]
}

fn shape_variants() -> (String, Vec<Variant>) {
    let table = shape_table();
    let target = match &table[0].1 {
        SchemaRef::Item(schema) => schema,
        SchemaRef::Reference(_) => unreachable!(),
    };
    let mut models = Vec::new();
    let mut stack = indexmap::IndexSet::new();
    assert_eq!(generate_model(&table, "Shape", target, &mut models, &mut stack), Ok(true));
    let shape = models.into_iter().find(|model| model.ident == "Shape").unwrap();
    match shape.kind {
        CompiledKind::Tagged { tag, variants } => (tag, variants),
        other => panic!("expected a tagged union, found {other:?}"),
    }
}

#[test]
fn a_tagged_union_reads_and_writes_its_tag_and_hides_it_from_the_variants() {
    let (tag, variants) = shape_variants();
    assert_eq!(tag, "kind");

    let json: serde_json::Value =
        serde_json::from_str(r#"{"kind":"circle","radius":2}"#).unwrap();
    let value = json.get(tag.as_str()).and_then(|value| value.as_str()).unwrap();
    let chosen = select_variant(&variants, value).expect("a variant for the tag");
    let circle = &variants[chosen];
    assert_eq!(circle.ident, "Circle");

    // The variant holds the radius and nothing of the discriminator.
    let fields = match &circle.body {
        Body::Named { fields, extra: None } => fields,
        other => panic!("expected named fields, found {other:?}"),
    };
    assert_eq!(fields.len(), 1);
    assert_eq!(fields[0].ident, "radius");
    assert_eq!(fields[0].ty, TypeExpr::Double);
    assert!(fields[0].required);

    // Writing the value again gives the same JSON.
    let mut written = serde_json::Map::new();
    written.insert(tag.clone(), serde_json::Value::from(variant_tag(circle)));
    for field in fields {
        let name = field.rename.as_deref().unwrap_or(field.ident.as_str());
        written.insert(name.to_string(), json.get(name).unwrap().clone());
    }
    assert_eq!(serde_json::Value::Object(written), json);

    assert_eq!(select_variant(&variants, "triangle"), None);
    assert_eq!(select_variant(&variants, "Circle"), None);

    // The mapping does not name the square: its own name selects it.
    assert_eq!(variants.len(), 2);
    let square = select_variant(&variants, "Square").expect("a variant for the square");
    assert_eq!(variants[square].ident, "Square");
    assert_eq!(variant_tag(&variants[square]), "Square");
    assert_eq!(select_variant(&variants, "square"), None);
}

#[test]
fn no_variant_of_a_tagged_union_has_the_discriminator_as_a_field() {
    let (tag, variants) = shape_variants();
    for variant in &variants {
        if let Body::Named { fields, .. } = &variant.body {
            for field in fields {
                assert_ne!(field.rename.as_deref().unwrap_or(field.ident.as_str()), tag);
            }
        }
    }
}
