use openapi_lambda::document::{
    Components, MediaType, Method, OpenApi, Operation, Parameter, ParameterFormat,
    ParameterLocation, PathItem, RefOr, RequestBody, Response, Responses, StatusCode,
};
use openapi_lambda::inline::{merge_schema, Foreign, ForeignItem, InlineError};
use openapi_lambda::inline_spec::ForeignKind;
use openapi_lambda::inline_document::inline_openapi;
use openapi_lambda::same::schema_eq;
use openapi_lambda::schema::{Additional, Discriminator, Schema, SchemaKind, SchemaRef};

fn s(text: &str) -> String {
    text.to_string()
}

fn schema(kind: SchemaKind) -> Schema {
    Schema { description: None, discriminator: None, kind, rest: String::new() }
}

fn string(format: Option<&str>) -> Schema {
    schema(SchemaKind::String { format: format.map(s), enumeration: vec![] })
}

fn object(properties: Vec<(&str, SchemaRef)>) -> Schema {
    schema(SchemaKind::Object {
        properties: properties.into_iter().map(|(name, r)| (s(name), r)).collect(),
        required: vec![],
        additional: Additional::Absent,
    })
}

fn foreign(referrer: &str, reference: &str, doc: &str, rel_ref: &str, item: ForeignItem) -> Foreign {
    Foreign {
        referrer: s(referrer),
        reference: s(reference),
        doc_path: s(doc),
        rel_ref: s(rel_ref),
        name: s(rel_ref.rsplit('/').next().unwrap()),
        item,
    }
}

fn document(schemas: Vec<(&str, SchemaRef)>, paths: Vec<(String, RefOr<PathItem>)>) -> OpenApi {
    OpenApi {
        paths,
        components: Some(Components {
            schemas: schemas.into_iter().map(|(name, r)| (s(name), r)).collect(),
            responses: vec![],
            parameters: vec![],
            request_bodies: vec![],
            headers: vec![],
            security_schemes: vec![],
            examples: vec![],
            links: vec![],
            callbacks: vec![],
        }),
        rest: String::new(),
    }
}

fn schemas_of(openapi: &OpenApi) -> &Vec<(String, SchemaRef)> {
    &openapi.components.as_ref().unwrap().schemas
}

#[test]
fn schemas_are_the_same_when_everything_they_say_is_the_same() {
    assert!(schema_eq(&string(None), &string(None)));
    assert!(!schema_eq(&string(None), &string(Some("date"))));
    let mut described = string(None);
    described.description = Some(s("A name"));
    assert!(!schema_eq(&string(None), &described));
    let mut bounded = string(None);
    bounded.rest = s("maxLength: 3");
    assert!(!schema_eq(&string(None), &bounded));
    assert!(schema_eq(
        &object(vec![("a", SchemaRef::Item(string(None)))]),
        &object(vec![("a", SchemaRef::Item(string(None)))])
    ));
    assert!(!schema_eq(
        &object(vec![("a", SchemaRef::Item(string(None)))]),
        &object(vec![("b", SchemaRef::Item(string(None)))])
    ));
    assert!(!schema_eq(
        &object(vec![("a", SchemaRef::Item(string(None)))]),
        &object(vec![("a", SchemaRef::Reference(s("#/components/schemas/A")))])
    ));
}

#[test]
fn a_foreign_schema_is_shared_under_its_own_name() {
    let mut table = vec![];
    let place = merge_schema(&mut table, "Pet", string(None));
    assert_eq!(place, SchemaRef::Reference(s("#/components/schemas/Pet")));
    assert_eq!(table, vec![(s("Pet"), SchemaRef::Item(string(None)))]);
}

#[test]
fn the_same_foreign_schema_twice_is_one_entry() {
    let mut table = vec![];
    merge_schema(&mut table, "Pet", string(None));
    let place = merge_schema(&mut table, "Pet", string(None));
    assert_eq!(place, SchemaRef::Reference(s("#/components/schemas/Pet")));
    assert_eq!(table.len(), 1);
}

#[test]
fn a_different_foreign_schema_of_the_same_name_stands_in_place() {
    let mut table = vec![];
    merge_schema(&mut table, "Pet", string(None));
    let place = merge_schema(&mut table, "Pet", string(Some("date")));
    assert_eq!(place, SchemaRef::Item(string(Some("date"))));
    // Both are there: the first in the table, the second where it is used.
    assert_eq!(table, vec![(s("Pet"), SchemaRef::Item(string(None)))]);
}

#[test]
fn references_into_other_documents_are_merged_into_the_root() {
    let openapi = document(
        vec![(
            "Owner",
            SchemaRef::Item(object(vec![
                ("pet", SchemaRef::Reference(s("pets.yaml#/Pet"))),
                ("other", SchemaRef::Reference(s("pets.yaml#/Pet"))),
                ("third", SchemaRef::Reference(s("other.yaml#/Pet"))),
                ("me", SchemaRef::Reference(s("#/components/schemas/Owner"))),
            ])),
        )],
        vec![],
    );
    let owner = || ForeignItem::Schema(string(None));
    let resolved = vec![
        foreign(
            "openapi.yaml",
            "pets.yaml#/Pet",
            "pets.yaml",
            "Pet",
            ForeignItem::Schema(object(vec![
                // From there, the root is another document.
                ("owner", SchemaRef::Reference(s("openapi.yaml#/components/schemas/Owner"))),
                ("tag", SchemaRef::Reference(s("#/Tag"))),
            ])),
        ),
        foreign("pets.yaml", "openapi.yaml#/components/schemas/Owner", "openapi.yaml", "components/schemas/Owner", owner()),
        foreign("pets.yaml", "#/Tag", "pets.yaml", "Tag", ForeignItem::Schema(string(Some("tag")))),
        foreign(
            "openapi.yaml",
            "other.yaml#/Pet",
            "other.yaml",
            "Pet",
            ForeignItem::Schema(string(Some("another pet"))),
        ),
        foreign(
            "openapi.yaml",
            "#/components/schemas/Owner",
            "openapi.yaml",
            "components/schemas/Owner",
            owner(),
        ),
    ];

    let made = inline_openapi(&openapi, "openapi.yaml", &resolved).unwrap();

    let local = |name: &str| SchemaRef::Reference(format!("#/components/schemas/{name}"));
    let merged_pet = object(vec![("owner", local("Owner")), ("tag", local("Tag"))]);
    assert_eq!(
        schemas_of(&made),
        &vec![
            (
                s("Owner"),
                SchemaRef::Item(object(vec![
                    ("pet", local("Pet")),
                    ("other", local("Pet")),
                    // Another schema has the name already: this one stands in place.
                    ("third", SchemaRef::Item(string(Some("another pet")))),
                    ("me", local("Owner")),
                ]))
            ),
            (s("Tag"), SchemaRef::Item(string(Some("tag")))),
            (s("Pet"), SchemaRef::Item(merged_pet)),
        ]
    );
}

#[test]
fn a_reference_that_was_not_resolved_is_named() {
    let openapi = document(vec![("Owner", SchemaRef::Reference(s("pets.yaml#/Pet")))], vec![]);
    assert_eq!(
        inline_openapi(&openapi, "openapi.yaml", &vec![]),
        Err(InlineError::Unresolved {
            referrer: s("openapi.yaml"),
            reference: s("pets.yaml#/Pet"),
            kind: ForeignKind::Schema,
        })
    );

    // What was resolved for another document does not count.
    let elsewhere = vec![foreign(
        "other.yaml",
        "pets.yaml#/Pet",
        "pets.yaml",
        "Pet",
        ForeignItem::Schema(string(None)),
    )];
    assert!(matches!(
        inline_openapi(&openapi, "openapi.yaml", &elsewhere),
        Err(InlineError::Unresolved { .. })
    ));
}

#[test]
fn a_reference_must_point_to_the_kind_of_part_its_place_asks_for() {
    let openapi = document(vec![("Owner", SchemaRef::Reference(s("pets.yaml#/Pet")))], vec![]);
    let resolved = vec![foreign(
        "openapi.yaml",
        "pets.yaml#/Pet",
        "pets.yaml",
        "Pet",
        ForeignItem::Response(Response {
            description: s("Not a schema"),
            headers: vec![],
            content: vec![],
            links: vec![],
            rest: String::new(),
        }),
    )];
    assert_eq!(
        inline_openapi(&openapi, "openapi.yaml", &resolved),
        Err(InlineError::WrongKind { referrer: s("openapi.yaml"), reference: s("pets.yaml#/Pet") })
    );
}

#[test]
fn a_foreign_schema_that_leads_to_itself_is_an_error() {
    let openapi = document(vec![("Owner", SchemaRef::Reference(s("pets.yaml#/Pet")))], vec![]);
    let resolved = vec![
        foreign(
            "openapi.yaml",
            "pets.yaml#/Pet",
            "pets.yaml",
            "Pet",
            ForeignItem::Schema(object(vec![("friend", SchemaRef::Reference(s("#/Pet")))])),
        ),
        foreign(
            "pets.yaml",
            "#/Pet",
            "pets.yaml",
            "Pet",
            ForeignItem::Schema(object(vec![("friend", SchemaRef::Reference(s("#/Pet")))])),
        ),
    ];
    assert_eq!(
        inline_openapi(&openapi, "openapi.yaml", &resolved),
        Err(InlineError::Cyclic { referrer: s("pets.yaml"), reference: s("#/Pet") })
    );
}

fn operation(parameters: Vec<RefOr<Parameter>>, body: Option<RefOr<RequestBody>>) -> Operation {
    Operation {
        operation_id: Some(s("addPet")),
        tags: vec![],
        description: None,
        parameters,
        request_body: body,
        responses: Responses {
            default: Some(RefOr::Reference(s("common.yaml#/responses/Error"))),
            responses: vec![(StatusCode::Code(404), RefOr::Reference(s("#/components/responses/Gone")))],
        },
        security: None,
        integration: None,
        rest: String::new(),
    }
}

#[test]
fn other_parts_are_copied_to_where_the_reference_stood() {
    let limit = || Parameter {
        location: ParameterLocation::Query,
        name: s("limit"),
        description: None,
        required: false,
        format: ParameterFormat::Schema(SchemaRef::Reference(s("#/Limit"))),
        examples: vec![],
        rest: String::new(),
    };
    let error_response = || Response {
        description: s("An error"),
        headers: vec![],
        content: vec![(
            s("application/json"),
            MediaType {
                schema: Some(SchemaRef::Reference(s("#/Error"))),
                examples: vec![],
                rest: String::new(),
            },
        )],
        links: vec![],
        rest: String::new(),
    };
    let gone = Response {
        description: s("Gone"),
        headers: vec![],
        content: vec![],
        links: vec![],
        rest: String::new(),
    };
    let mut openapi = document(
        vec![],
        vec![(
            s("/pet"),
            RefOr::Item(PathItem {
                operations: vec![(
                    Method::Post,
                    operation(vec![RefOr::Reference(s("common.yaml#/parameters/Limit"))], None),
                )],
                parameters: vec![],
                rest: String::new(),
            }),
        )],
    );
    openapi.components.as_mut().unwrap().responses = vec![(s("Gone"), RefOr::Item(gone))];
    let resolved = vec![
        foreign(
            "openapi.yaml",
            "common.yaml#/parameters/Limit",
            "common.yaml",
            "parameters/Limit",
            ForeignItem::Parameter(limit()),
        ),
        foreign(
            "common.yaml",
            "#/Limit",
            "common.yaml",
            "Limit",
            ForeignItem::Schema(schema(SchemaKind::Integer { format: None, enumeration: vec![] })),
        ),
        foreign(
            "openapi.yaml",
            "common.yaml#/responses/Error",
            "common.yaml",
            "responses/Error",
            ForeignItem::Response(error_response()),
        ),
        foreign(
            "common.yaml",
            "#/Error",
            "common.yaml",
            "Error",
            ForeignItem::Schema(object(vec![("message", SchemaRef::Item(string(None)))])),
        ),
        foreign(
            "openapi.yaml",
            "#/components/responses/Gone",
            "openapi.yaml",
            "components/responses/Gone",
            ForeignItem::Response(Response {
                description: s("Gone"),
                headers: vec![],
                content: vec![],
                links: vec![],
                rest: String::new(),
            }),
        ),
    ];

    let made = inline_openapi(&openapi, "openapi.yaml", &resolved).unwrap();

    let item = match &made.paths[0].1 {
        RefOr::Item(item) => item,
        other => panic!("expected a path, found {other:?}"),
    };
    let made_operation = &item.operations[0].1;
    let local = |name: &str| SchemaRef::Reference(format!("#/components/schemas/{name}"));
    let mut inlined_limit = limit();
    inlined_limit.format = ParameterFormat::Schema(local("Limit"));
    assert_eq!(made_operation.parameters, vec![RefOr::Item(inlined_limit)]);
    let mut inlined_error = error_response();
    inlined_error.content[0].1.schema = Some(local("Error"));
    assert_eq!(made_operation.responses.default, Some(RefOr::Item(inlined_error)));
    // A reference within the root stays a reference.
    assert_eq!(
        made_operation.responses.responses[0].1,
        RefOr::Reference(s("#/components/responses/Gone"))
    );
    let names: Vec<&str> = schemas_of(&made).iter().map(|(name, _)| name.as_str()).collect();
    assert_eq!(names, vec!["Limit", "Error"]);
}

#[test]
fn the_mapping_of_a_discriminator_follows_its_schemas() {
    let pet = Schema {
        description: None,
        discriminator: Some(Discriminator {
            property_name: s("kind"),
            mapping: vec![(s("cat"), s("pets.yaml#/Cat"))],
        }),
        kind: SchemaKind::OneOf(vec![SchemaRef::Reference(s("pets.yaml#/Cat"))]),
        rest: String::new(),
    };
    let openapi = document(vec![("Pet", SchemaRef::Item(pet))], vec![]);
    let resolved = vec![foreign(
        "openapi.yaml",
        "pets.yaml#/Cat",
        "pets.yaml",
        "Cat",
        ForeignItem::Schema(object(vec![("kind", SchemaRef::Item(string(None)))])),
    )];

    let made = inline_openapi(&openapi, "openapi.yaml", &resolved).unwrap();

    match &schemas_of(&made)[0].1 {
        SchemaRef::Item(pet) => {
            assert_eq!(
                pet.discriminator.as_ref().unwrap().mapping,
                vec![(s("cat"), s("#/components/schemas/Cat"))]
            );
            assert_eq!(
                pet.kind,
                SchemaKind::OneOf(vec![SchemaRef::Reference(s("#/components/schemas/Cat"))])
            );
        }
        other => panic!("expected a schema, found {other:?}"),
    }
    assert_eq!(schemas_of(&made)[1].0, "Cat");
}

#[test]
fn a_mapped_schema_that_cannot_be_shared_is_an_error() {
    let pet = Schema {
        description: None,
        discriminator: Some(Discriminator {
            property_name: s("kind"),
            mapping: vec![(s("cat"), s("pets.yaml#/Cat"))],
        }),
        kind: SchemaKind::OneOf(vec![]),
        rest: String::new(),
    };
    let openapi =
        document(vec![("Pet", SchemaRef::Item(pet)), ("Cat", SchemaRef::Item(string(None)))], vec![]);
    let resolved = vec![foreign(
        "openapi.yaml",
        "pets.yaml#/Cat",
        "pets.yaml",
        "Cat",
        ForeignItem::Schema(object(vec![])),
    )];
    assert_eq!(
        inline_openapi(&openapi, "openapi.yaml", &resolved),
        Err(InlineError::MappingInlined { reference: s("pets.yaml#/Cat") })
    );
}

#[test]
fn a_document_without_shared_parts_has_them_afterwards() {
    let openapi = OpenApi { paths: vec![], components: None, rest: s("info: {}") };
    let made = inline_openapi(&openapi, "openapi.yaml", &vec![]).unwrap();
    assert_eq!(
        made.components,
        Some(Components {
            schemas: vec![],
            responses: vec![],
            parameters: vec![],
            request_bodies: vec![],
            headers: vec![],
            security_schemes: vec![],
            examples: vec![],
            links: vec![],
            callbacks: vec![],
        })
    );
    assert_eq!(made.rest, "info: {}");
}

fn shared_texts(
    security_schemes: Vec<(String, RefOr<String>)>,
    examples: Vec<(String, RefOr<String>)>,
    links: Vec<(String, RefOr<String>)>,
) -> OpenApi {
    let mut openapi = document(vec![], vec![]);
    let components = openapi.components.as_mut().unwrap();
    components.security_schemes = security_schemes;
    components.examples = examples;
    components.links = links;
    openapi
}

fn opaque(kind: ForeignKind, text: &str) -> ForeignItem {
    ForeignItem::Opaque { kind, text: s(text) }
}

#[test]
fn examples_links_and_security_schemes_are_copied_as_they_are_written() {
    let openapi = shared_texts(
        vec![
            (s("key"), RefOr::Reference(s("common.yaml#/schemes/key"))),
            (s("own"), RefOr::Item(s("type: http\nscheme: basic\n"))),
        ],
        vec![
            (s("cat"), RefOr::Reference(s("common.yaml#/examples/cat"))),
            (s("dog"), RefOr::Reference(s("#/components/examples/cat"))),
        ],
        vec![(s("next"), RefOr::Reference(s("common.yaml#/links/next")))],
    );
    let resolved = vec![
        foreign(
            "openapi.yaml",
            "common.yaml#/schemes/key",
            "common.yaml",
            "schemes/key",
            opaque(ForeignKind::SecurityScheme, "type: apiKey\nname: key\nin: header\n"),
        ),
        foreign(
            "openapi.yaml",
            "common.yaml#/examples/cat",
            "common.yaml",
            "examples/cat",
            opaque(ForeignKind::Example, "value: Tom\n"),
        ),
        foreign(
            "openapi.yaml",
            "#/components/examples/cat",
            "openapi.yaml",
            "components/examples/cat",
            opaque(ForeignKind::Example, "value: unused\n"),
        ),
        foreign(
            "openapi.yaml",
            "common.yaml#/links/next",
            "common.yaml",
            "links/next",
            opaque(ForeignKind::Link, "operationId: next\n"),
        ),
    ];

    let made = inline_openapi(&openapi, "openapi.yaml", &resolved).unwrap();

    let components = made.components.unwrap();
    assert_eq!(
        components.security_schemes,
        vec![
            (s("key"), RefOr::Item(s("type: apiKey\nname: key\nin: header\n"))),
            (s("own"), RefOr::Item(s("type: http\nscheme: basic\n"))),
        ]
    );
    // A reference into the root document stays a reference.
    assert_eq!(
        components.examples,
        vec![
            (s("cat"), RefOr::Item(s("value: Tom\n"))),
            (s("dog"), RefOr::Reference(s("#/components/examples/cat"))),
        ]
    );
    assert_eq!(components.links, vec![(s("next"), RefOr::Item(s("operationId: next\n")))]);
}

#[test]
fn an_example_that_was_not_resolved_is_named_with_its_kind() {
    let openapi =
        shared_texts(vec![], vec![(s("cat"), RefOr::Reference(s("common.yaml#/cat")))], vec![]);

    assert_eq!(
        inline_openapi(&openapi, "openapi.yaml", &vec![]),
        Err(InlineError::Unresolved {
            referrer: s("openapi.yaml"),
            reference: s("common.yaml#/cat"),
            kind: ForeignKind::Example,
        })
    );

    // What was resolved as a link is no example.
    let as_link = vec![foreign(
        "openapi.yaml",
        "common.yaml#/cat",
        "common.yaml",
        "cat",
        opaque(ForeignKind::Link, "operationId: cat\n"),
    )];
    assert_eq!(
        inline_openapi(&openapi, "openapi.yaml", &as_link),
        Err(InlineError::WrongKind { referrer: s("openapi.yaml"), reference: s("common.yaml#/cat") })
    );
}

#[test]
fn the_examples_of_a_copied_part_are_read_from_where_the_part_stood() {
    let found = Response {
        description: s("Found"),
        headers: vec![],
        content: vec![(
            s("application/json"),
            MediaType {
                schema: None,
                examples: vec![(s("cat"), RefOr::Reference(s("examples.yaml#/cat")))],
                rest: String::new(),
            },
        )],
        links: vec![(s("self"), RefOr::Reference(s("#/links/self")))],
        rest: String::new(),
    };
    let mut openapi = document(vec![], vec![]);
    openapi.components.as_mut().unwrap().responses =
        vec![(s("Found"), RefOr::Reference(s("shared/common.yaml#/responses/Found")))];
    let resolved = vec![
        foreign(
            "openapi.yaml",
            "shared/common.yaml#/responses/Found",
            "shared/common.yaml",
            "responses/Found",
            ForeignItem::Response(found),
        ),
        foreign(
            "shared/common.yaml",
            "examples.yaml#/cat",
            "shared/examples.yaml",
            "cat",
            opaque(ForeignKind::Example, "value: Tom\n"),
        ),
        foreign(
            "shared/common.yaml",
            "#/links/self",
            "shared/common.yaml",
            "links/self",
            opaque(ForeignKind::Link, "operationId: getPet\n"),
        ),
    ];

    let made = inline_openapi(&openapi, "openapi.yaml", &resolved).unwrap();

    let components = made.components.unwrap();
    match &components.responses[0].1 {
        RefOr::Item(response) => {
            assert_eq!(
                response.content[0].1.examples,
                vec![(s("cat"), RefOr::Item(s("value: Tom\n")))]
            );
            assert_eq!(
                response.links,
                vec![(s("self"), RefOr::Item(s("operationId: getPet\n")))]
            );
        }
        RefOr::Reference(reference) => panic!("{reference} was not copied"),
    }
}

#[test]
fn shared_callbacks_are_inlined_after_the_shared_schemas() {
    let notify = |reference: &str| {
        vec![(
            s("{$request.body#/url}"),
            RefOr::Item(PathItem {
                operations: vec![],
                parameters: vec![RefOr::Item(Parameter {
                    location: ParameterLocation::Query,
                    name: s("token"),
                    description: None,
                    required: true,
                    format: ParameterFormat::Schema(SchemaRef::Reference(s(reference))),
                    examples: vec![],
                    rest: String::new(),
                })],
                rest: String::new(),
            }),
        )]
    };
    let mut openapi = document(vec![("Pet", SchemaRef::Item(string(None)))], vec![]);
    openapi.components.as_mut().unwrap().callbacks = vec![
        (s("own"), RefOr::Item(notify("common.yaml#/Token"))),
        (s("theirs"), RefOr::Reference(s("hooks.yaml#/paid"))),
        (s("again"), RefOr::Reference(s("#/components/callbacks/own"))),
    ];

    assert_eq!(
        inline_openapi(&openapi, "openapi.yaml", &vec![]),
        Err(InlineError::Unresolved {
            referrer: s("openapi.yaml"),
            reference: s("common.yaml#/Token"),
            kind: ForeignKind::Schema,
        })
    );
    let token = foreign(
        "openapi.yaml",
        "common.yaml#/Token",
        "common.yaml",
        "Token",
        ForeignItem::Schema(string(Some("password"))),
    );
    assert_eq!(
        inline_openapi(&openapi, "openapi.yaml", &vec![token]),
        Err(InlineError::Unresolved {
            referrer: s("openapi.yaml"),
            reference: s("hooks.yaml#/paid"),
            kind: ForeignKind::Callback,
        })
    );

    let resolved = vec![
        foreign(
            "openapi.yaml",
            "common.yaml#/Token",
            "common.yaml",
            "Token",
            ForeignItem::Schema(string(Some("password"))),
        ),
        foreign(
            "openapi.yaml",
            "hooks.yaml#/paid",
            "hooks.yaml",
            "paid",
            ForeignItem::Callback(notify("#/Secret")),
        ),
        foreign(
            "hooks.yaml",
            "#/Secret",
            "hooks.yaml",
            "Secret",
            ForeignItem::Schema(string(Some("byte"))),
        ),
        foreign(
            "openapi.yaml",
            "#/components/callbacks/own",
            "openapi.yaml",
            "components/callbacks/own",
            ForeignItem::Callback(vec![]),
        ),
    ];
    let made = inline_openapi(&openapi, "openapi.yaml", &resolved).unwrap();

    let components = made.components.unwrap();
    let names: Vec<&str> = components.schemas.iter().map(|(name, _)| name.as_str()).collect();
    assert_eq!(names, ["Pet", "Token", "Secret"]);
    assert_eq!(
        components.callbacks,
        vec![
            (s("own"), RefOr::Item(notify("#/components/schemas/Token"))),
            (s("theirs"), RefOr::Item(notify("#/components/schemas/Secret"))),
            (s("again"), RefOr::Reference(s("#/components/callbacks/own"))),
        ]
    );
}
