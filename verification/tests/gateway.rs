use openapi_lambda::arn::{ApiLambda, CodeGenerator, InvocationArn, LambdaArn};
use openapi_lambda::document::{
    Components, Integration, MediaType, Method, OpenApi, Operation, PathItem, RefOr, Response,
    Responses, StatusCode,
};
use openapi_lambda::gateway::transform_schema;
use openapi_lambda::gateway_document::{remove_paths, transform_components, transform_openapi};
use openapi_lambda::generator::{assign_operations, invocation_table, model_order};
use openapi_lambda::ir::{CompileErrorKind, CompiledKind, CompiledType};
use openapi_lambda::module::collect_operations;
use openapi_lambda::schema::{Additional, Discriminator, Schema, SchemaKind, SchemaRef};

fn s(text: &str) -> String {
    text.to_string()
}

fn string() -> SchemaRef {
    SchemaRef::Item(Schema {
        description: None,
        discriminator: None,
        kind: SchemaKind::String { format: None, enumeration: vec![] },
        rest: String::new(),
    })
}

fn discriminated(properties: &[&str], required: &[&str], property: &str) -> Schema {
    Schema {
        description: Some(s("A pet")),
        discriminator: Some(Discriminator { property_name: s(property), mapping: vec![] }),
        kind: SchemaKind::Object {
            properties: properties.iter().map(|name| (s(name), string())).collect(),
            required: required.iter().map(|name| s(name)).collect(),
            additional: Additional::Absent,
        },
        rest: s("nullable: true"),
    }
}

#[test]
fn a_discriminator_goes_and_its_property_is_required() {
    let made = transform_schema(&discriminated(&["kind", "name"], &["name"], "kind")).unwrap();
    assert_eq!(made.discriminator, None);
    assert_eq!(made.description.as_deref(), Some("A pet"));
    assert_eq!(made.rest, "nullable: true");
    match made.kind {
        SchemaKind::Object { properties, required, .. } => {
            assert_eq!(properties.len(), 2);
            assert_eq!(required, vec!["name", "kind"]);
        }
        other => panic!("expected an object, found {other:?}"),
    }

    // It is not required twice.
    let made = transform_schema(&discriminated(&["kind"], &["kind"], "kind")).unwrap();
    match made.kind {
        SchemaKind::Object { required, .. } => assert_eq!(required, vec!["kind"]),
        other => panic!("expected an object, found {other:?}"),
    }
}

#[test]
fn a_discriminator_must_name_a_property_of_an_object() {
    let error = transform_schema(&discriminated(&["name"], &[], "kind")).unwrap_err();
    assert_eq!(error.kind, CompileErrorKind::DiscriminatorProperty);
    assert_eq!(error.subject, "kind");

    let on_string = Schema {
        description: None,
        discriminator: Some(Discriminator { property_name: s("kind"), mapping: vec![] }),
        kind: SchemaKind::String { format: None, enumeration: vec![] },
        rest: String::new(),
    };
    assert_eq!(
        transform_schema(&on_string).unwrap_err().kind,
        CompileErrorKind::DiscriminatorProperty
    );
}

#[test]
fn discriminators_go_from_every_schema_inside() {
    let union = Schema {
        description: None,
        discriminator: Some(Discriminator {
            property_name: s("kind"),
            mapping: vec![(s("cat"), s("#/components/schemas/Cat"))],
        }),
        kind: SchemaKind::OneOf(vec![
            SchemaRef::Reference(s("#/components/schemas/Cat")),
            SchemaRef::Item(discriminated(&["kind"], &[], "kind")),
        ]),
        rest: String::new(),
    };
    let list = Schema {
        description: None,
        discriminator: None,
        kind: SchemaKind::Array { items: Some(Box::new(SchemaRef::Item(union))), unique_items: true },
        rest: String::new(),
    };

    let made = transform_schema(&list).unwrap();

    let inner = match made.kind {
        SchemaKind::Array { items: Some(inner), unique_items: true } => *inner,
        other => panic!("expected an array, found {other:?}"),
    };
    let union = match inner {
        SchemaRef::Item(union) => union,
        other => panic!("expected a schema, found {other:?}"),
    };
    assert_eq!(union.discriminator, None);
    match union.kind {
        SchemaKind::OneOf(branches) => {
            assert_eq!(branches[0], SchemaRef::Reference(s("#/components/schemas/Cat")));
            match &branches[1] {
                SchemaRef::Item(branch) => {
                    assert_eq!(branch.discriminator, None);
                    match &branch.kind {
                        SchemaKind::Object { required, .. } => {
                            assert_eq!(required, &vec![s("kind")])
                        }
                        other => panic!("expected an object, found {other:?}"),
                    }
                }
                other => panic!("expected a schema, found {other:?}"),
            }
        }
        other => panic!("expected a union, found {other:?}"),
    }
}

fn operation(id: Option<&str>) -> Operation {
    Operation {
        operation_id: id.map(s),
        tags: vec![],
        description: None,
        parameters: vec![],
        request_body: None,
        responses: Responses {
            default: None,
            responses: vec![(
                StatusCode::Code(200),
                RefOr::Item(Response {
                    description: s("Fine"),
                    headers: vec![],
                    content: vec![(
                        s("application/json"),
                        MediaType {
                            schema: Some(SchemaRef::Item(discriminated(&["kind"], &[], "kind"))),
                            examples: vec![],
                            rest: String::new(),
                        },
                    )],
                    links: vec![],
                    rest: String::new(),
                }),
            )],
        },
        security: None,
        integration: None,
        rest: String::new(),
    }
}

fn path(name: &str, operations: Vec<(Method, Operation)>) -> (String, RefOr<PathItem>) {
    (s(name), RefOr::Item(PathItem { operations, parameters: vec![], rest: String::new() }))
}

fn arn(name: &str) -> InvocationArn {
    LambdaArn::known("us-east-1", "1234567890", "us-west-2", name, Some(s("live")))
        .apigw_invocation_arn()
}

#[test]
fn a_known_arn_is_written_in_full() {
    let with_alias = arn("my-api-function");
    assert_eq!(
        with_alias.text,
        "arn:aws:apigateway:us-east-1:lambda:path/2015-03-31/functions/arn:aws:lambda:us-west-2:1234567890:function:my-api-function:live/invocations"
    );
    assert!(!with_alias.substituted);

    let without =
        LambdaArn::known("us-east-1", "1234567890", "us-east-1", "f", None).apigw_invocation_arn();
    assert_eq!(
        without.text,
        "arn:aws:apigateway:us-east-1:lambda:path/2015-03-31/functions/arn:aws:lambda:us-east-1:1234567890:function:f/invocations"
    );
}

#[test]
fn mapped_operations_are_told_their_function_and_the_others_go() {
    let openapi = OpenApi {
        paths: vec![
            path(
                "/pet",
                vec![
                    (Method::Get, operation(Some("getPet"))),
                    (Method::Post, operation(Some("addPet"))),
                    (Method::Delete, operation(None)),
                ],
            ),
            path("/unmapped", vec![(Method::Get, operation(Some("unmapped")))]),
            path("/store", vec![(Method::Get, operation(Some("getInventory")))]),
            (s("/ref"), RefOr::Reference(s("#/x-paths/ref"))),
            path("/anonymous", vec![(Method::Get, operation(None))]),
            path("/last", vec![(Method::Get, operation(Some("last")))]),
        ],
        components: Some(Components {
            schemas: vec![(s("Pet"), SchemaRef::Item(discriminated(&["kind"], &[], "kind")))],
            responses: vec![],
            parameters: vec![],
            request_bodies: vec![],
            headers: vec![],
            security_schemes: vec![],
            examples: vec![],
            links: vec![],
            callbacks: vec![],
        }),
        rest: s("openapi: 3.0.2"),
    };
    let lambdas = vec![
        (s("addPet"), arn("pets")),
        (s("getInventory"), arn("store")),
        (s("last"), arn("store")),
    ];

    let made = transform_openapi(&openapi, &lambdas).unwrap();

    assert_eq!(made.rest, "openapi: 3.0.2");
    // `/unmapped` goes and `/last` takes its place; then `/anonymous` goes, which is last.
    let names: Vec<&str> = made.paths.iter().map(|(name, _)| name.as_str()).collect();
    assert_eq!(names, vec!["/pet", "/last", "/store", "/ref"]);

    let pet = match &made.paths[0].1 {
        RefOr::Item(item) => item,
        other => panic!("expected a path, found {other:?}"),
    };
    assert_eq!(pet.operations.len(), 1);
    assert_eq!(pet.operations[0].0, Method::Post);
    assert_eq!(
        pet.operations[0].1.integration,
        Some(Integration {
            http_method: s("POST"),
            kind: s("aws_proxy"),
            uri: arn("pets").text,
            substituted: false,
        })
    );
    // The schemas of the operation have lost their discriminators.
    match &pet.operations[0].1.responses.responses[0].1 {
        RefOr::Item(response) => match &response.content[0].1.schema {
            Some(SchemaRef::Item(schema)) => assert_eq!(schema.discriminator, None),
            other => panic!("expected a schema, found {other:?}"),
        },
        other => panic!("expected a response, found {other:?}"),
    }
    match &made.components.as_ref().unwrap().schemas[0].1 {
        SchemaRef::Item(schema) => assert_eq!(schema.discriminator, None),
        other => panic!("expected a schema, found {other:?}"),
    }
    assert_eq!(made.paths[3].1, RefOr::Reference(s("#/x-paths/ref")));
}

#[test]
fn an_operation_id_that_occurs_twice_is_an_error_for_the_gateway() {
    let openapi = OpenApi {
        paths: vec![
            path("/a", vec![(Method::Get, operation(Some("dup")))]),
            path("/b", vec![(Method::Get, operation(Some("dup")))]),
        ],
        components: None,
        rest: String::new(),
    };
    // It is an error whether or not the operations are mapped.
    for lambdas in [vec![], vec![(s("dup"), arn("f"))]] {
        let error = transform_openapi(&openapi, &lambdas).unwrap_err();
        assert_eq!(error.kind, CompileErrorKind::DuplicateOperationId);
        assert_eq!(error.subject, "dup");
    }
}

#[test]
fn paths_are_removed_by_swapping_in_the_last() {
    let paths = |names: &[&str]| -> Vec<(String, RefOr<PathItem>)> {
        names.iter().map(|name| path(name, vec![])).collect()
    };
    let names = |paths: Vec<(String, RefOr<PathItem>)>| -> Vec<String> {
        paths.into_iter().map(|(name, _)| name).collect()
    };
    assert_eq!(names(remove_paths(paths(&["a", "b", "c", "d"]), &vec![s("a")])), ["d", "b", "c"]);
    assert_eq!(names(remove_paths(paths(&["a", "b", "c", "d"]), &vec![s("d")])), ["a", "b", "c"]);
    assert_eq!(
        names(remove_paths(paths(&["a", "b", "c", "d"]), &vec![s("a"), s("d")])),
        ["c", "b"]
    );
    assert_eq!(names(remove_paths(paths(&["a"]), &vec![s("x"), s("a")])), Vec::<String>::new());
}

#[test]
fn every_operation_is_served_by_the_unit_that_claims_it() {
    let openapi = OpenApi {
        paths: vec![
            path(
                "/pet",
                vec![(Method::Get, operation(Some("getPet"))), (Method::Post, operation(None))],
            ),
            path("/store", vec![(Method::Get, operation(Some("getInventory")))]),
        ],
        components: None,
        rest: String::new(),
    };
    let operations = collect_operations(&openapi).unwrap();

    let units = assign_operations(
        &operations,
        &vec![vec![true, false, false], vec![false, false, true]],
    )
    .unwrap();
    assert_eq!(units, vec![Some(0), None, Some(1)]);

    // A unit that says nothing of an operation does not claim it.
    assert_eq!(
        assign_operations(&operations, &vec![vec![true], vec![]]).unwrap(),
        vec![Some(0), None, None]
    );
    assert_eq!(assign_operations(&operations, &vec![]).unwrap(), vec![None, None, None]);

    let lambdas = vec![
        ApiLambda::new("pet", LambdaArn::cloud_formation("PetFunction.Alias")),
        ApiLambda::new("store", LambdaArn::cloud_formation("StoreFunction.Alias")),
    ];
    let table = invocation_table(&lambdas, &operations, &units);
    assert_eq!(table.len(), 2);
    assert_eq!(table[0].0, "getPet");
    assert_eq!(
        table[0].1.text,
        "arn:aws:apigateway:${AWS::Region}:lambda:path/2015-03-31/functions/${PetFunction.Alias}/invocations"
    );
    assert!(table[0].1.substituted);
    assert_eq!(table[1].0, "getInventory");
}

#[test]
fn an_operation_has_one_unit_and_an_operation_id() {
    let openapi = OpenApi {
        paths: vec![
            path("/pet", vec![(Method::Get, operation(Some("getPet")))]),
            path("/store", vec![(Method::Get, operation(None))]),
        ],
        components: None,
        rest: String::new(),
    };
    let operations = collect_operations(&openapi).unwrap();

    let error =
        assign_operations(&operations, &vec![vec![true, false], vec![true, false]]).unwrap_err();
    assert_eq!(error.kind, CompileErrorKind::EndpointClaimedTwice);
    assert_eq!(error.subject, "/pet");

    let error = assign_operations(&operations, &vec![vec![false, true]]).unwrap_err();
    assert_eq!(error.kind, CompileErrorKind::MissingOperationId);
    assert_eq!(error.subject, "/store");
}

#[test]
fn module_names_are_unique() {
    let generator = CodeGenerator::new("openapi.yaml", ".openapi-lambda");
    assert_eq!(generator.openapi_path, "openapi.yaml");
    assert_eq!(generator.out_dir, ".openapi-lambda");
    let generator = generator
        .add_api_lambda(ApiLambda::new("pet", LambdaArn::cloud_formation("PetFunction")))
        .ok()
        .unwrap();
    let generator = generator
        .add_api_lambda(ApiLambda::new("store", LambdaArn::cloud_formation("StoreFunction")))
        .ok()
        .unwrap();
    assert_eq!(generator.api_lambdas.len(), 2);
    let error = generator
        .add_api_lambda(ApiLambda::new("pet", LambdaArn::cloud_formation("Other")))
        .err()
        .unwrap();
    assert_eq!(error.kind, CompileErrorKind::DuplicateModule);
    assert_eq!(error.subject, "pet");
}

#[test]
fn models_are_written_by_identifier() {
    let model = |ident: &str| CompiledType {
        ident: s(ident),
        description: None,
        kind: CompiledKind::Enumeration(vec![]),
    };
    let models = vec![model("Pet"), model("Category"), model("Tag"), model("ApiResponse")];
    assert_eq!(model_order(&models), vec![3, 1, 0, 2]);
}

#[test]
fn discriminators_go_from_the_shared_callbacks_and_nothing_else_changes_there() {
    let components = Components {
        schemas: vec![],
        responses: vec![],
        parameters: vec![],
        request_bodies: vec![],
        headers: vec![],
        security_schemes: vec![(s("key"), RefOr::Item(s("type: apiKey\n")))],
        examples: vec![(s("cat"), RefOr::Reference(s("#/components/examples/tom")))],
        links: vec![],
        callbacks: vec![
            (s("paid"), RefOr::Item(vec![path("{$request.body#/url}", vec![(Method::Post, operation(None))])])),
            (s("other"), RefOr::Reference(s("#/components/callbacks/paid"))),
        ],
    };

    let made = transform_components(&components).unwrap();

    assert_eq!(made.security_schemes, components.security_schemes);
    assert_eq!(made.examples, components.examples);
    assert_eq!(made.callbacks[1], components.callbacks[1]);
    let paths = match &made.callbacks[0].1 {
        RefOr::Item(paths) => paths,
        RefOr::Reference(reference) => panic!("{reference} took the place of a callback"),
    };
    assert_eq!(paths[0].0, "{$request.body#/url}");
    let item = match &paths[0].1 {
        RefOr::Item(item) => item,
        RefOr::Reference(reference) => panic!("{reference} took the place of a path"),
    };
    // An operation of a callback needs no operation id and gets no integration.
    assert_eq!(item.operations[0].1.operation_id, None);
    assert_eq!(item.operations[0].1.integration, None);
    let schema = match &item.operations[0].1.responses.responses[0].1 {
        RefOr::Item(response) => match &response.content[0].1.schema {
            Some(SchemaRef::Item(schema)) => schema,
            other => panic!("expected a schema, found {other:?}"),
        },
        RefOr::Reference(reference) => panic!("{reference} took the place of a response"),
    };
    assert_eq!(schema.discriminator, None);
    match &schema.kind {
        SchemaKind::Object { required, .. } => assert_eq!(required, &vec![s("kind")]),
        other => panic!("expected an object, found {other:?}"),
    }
}
