use openapi_lambda::arn::{ApiLambda, LambdaArn};
use openapi_lambda::document::{
    Components, MediaType, Method, OpenApi, Operation, Parameter, ParameterFormat,
    ParameterLocation, PathItem, RefOr, RequestBody, Response, Responses, StatusCode,
};
use openapi_lambda::generator::{gen_api_modules, gen_unit_module, served_operations};
use openapi_lambda::ir::{CompileErrorKind, CompiledType, TypeExpr};
use openapi_lambda::model::generate_components;
use openapi_lambda::module::{
    check_operation_ids, check_unique_operation_ids, collect_operations, dispatch, dispatch_id,
    gen_api_module, wrapper_ids,
};
use openapi_lambda::operation::{
    gen_api_operation, gen_body_schema, gen_request_body, gen_request_parameter, gen_responses,
    is_array_param, is_plain_string_schema, requires_authentication, status_code_tokens,
};
use openapi_lambda::plan::BodySchema;
use openapi_lambda::schema::{Additional, Schema, SchemaKind, SchemaRef};

fn s(text: &str) -> String {
    text.to_string()
}

fn schema(kind: SchemaKind) -> Schema {
    Schema { description: None, discriminator: None, kind, rest: String::new() }
}

fn item(kind: SchemaKind) -> SchemaRef {
    SchemaRef::Item(schema(kind))
}

fn reference(name: &str) -> SchemaRef {
    SchemaRef::Reference(format!("#/components/schemas/{name}"))
}

fn string(format: Option<&str>) -> SchemaKind {
    SchemaKind::String { format: format.map(s), enumeration: vec![] }
}

fn integer() -> SchemaKind {
    SchemaKind::Integer { format: None, enumeration: vec![] }
}

fn array(items: SchemaRef) -> SchemaKind {
    SchemaKind::Array { items: Some(Box::new(items)), unique_items: false }
}

fn pet_schemas() -> Vec<(String, SchemaRef)> {
    vec![
        (
            s("Pet"),
            item(SchemaKind::Object {
                properties: vec![
                    (s("name"), item(string(None))),
                    (s("tags"), item(array(item(string(None))))),
                ],
                required: vec![s("name")],
                additional: Additional::Absent,
            }),
        ),
        (s("Raw"), item(string(None))),
        (s("Blob"), item(string(Some("binary")))),
    ]
}

fn compiled() -> (Vec<(String, SchemaRef)>, Vec<CompiledType>) {
    let schemas = pet_schemas();
    let models = generate_components(&schemas).unwrap();
    (schemas, models)
}

fn components() -> Components {
    Components {
        schemas: pet_schemas(),
        responses: vec![(
            s("NotFound"),
            RefOr::Item(Response {
                description: s("Not found"),
                headers: vec![],
                content: vec![],
                links: vec![],
                rest: String::new(),
            }),
        )],
        parameters: vec![(s("Limit"), RefOr::Item(parameter(ParameterLocation::Query, "limit", item(integer()), false)))],
        request_bodies: vec![],
        headers: vec![],
        security_schemes: vec![],
        examples: vec![],
        links: vec![],
        callbacks: vec![],
    }
}

fn parameter(
    location: ParameterLocation,
    name: &str,
    schema_ref: SchemaRef,
    required: bool,
) -> Parameter {
    Parameter {
        location,
        name: s(name),
        description: None,
        required,
        format: ParameterFormat::Schema(schema_ref),
        examples: vec![],
        rest: String::new(),
    }
}

fn media(schema_ref: Option<SchemaRef>) -> MediaType {
    MediaType { schema: schema_ref, examples: vec![], rest: String::new() }
}

fn add_pet() -> Operation {
    Operation {
        operation_id: Some(s("addPet")),
        tags: vec![s("pet")],
        description: Some(s("Add a pet")),
        parameters: vec![],
        request_body: Some(RefOr::Item(RequestBody {
            description: None,
            content: vec![(s("application/json"), media(Some(reference("Pet"))))],
            required: true,
            rest: String::new(),
        })),
        responses: Responses {
            default: None,
            responses: vec![(
                StatusCode::Code(200),
                RefOr::Item(Response {
                    description: s("The pet"),
                    headers: vec![],
                    content: vec![(s("application/json"), media(Some(reference("Pet"))))],
                    links: vec![],
                    rest: String::new(),
                }),
            )],
        },
        security: None,
        integration: None,
        rest: String::new(),
    }
}

#[test]
fn json_without_a_schema_is_any_json_value() {
    let (schemas, mut models) = compiled();
    assert_eq!(
        gen_body_schema(None, "application/json", &schemas, &mut models),
        Ok(BodySchema::JsonValue)
    );
}

#[test]
fn json_with_a_string_schema_is_the_raw_text() {
    let (schemas, mut models) = compiled();
    let plain = item(string(None));
    assert_eq!(
        gen_body_schema(Some(&plain), "application/json", &schemas, &mut models),
        Ok(BodySchema::Text)
    );
    // A format such as a date changes nothing, and neither does a name.
    let dated = item(string(Some("date-time")));
    assert_eq!(
        gen_body_schema(Some(&dated), "application/json", &schemas, &mut models),
        Ok(BodySchema::Text)
    );
    assert_eq!(
        gen_body_schema(Some(&reference("Raw")), "application/json", &schemas, &mut models),
        Ok(BodySchema::Text)
    );
}

#[test]
fn json_with_a_binary_string_schema_is_the_raw_bytes() {
    let (schemas, mut models) = compiled();
    assert_eq!(
        gen_body_schema(Some(&reference("Blob")), "application/json", &schemas, &mut models),
        Ok(BodySchema::Bytes)
    );
}

#[test]
fn json_with_an_enumerated_string_is_an_error() {
    let (schemas, mut models) = compiled();
    let color = item(SchemaKind::String { format: None, enumeration: vec![Some(s("red"))] });
    let error =
        gen_body_schema(Some(&color), "application/json", &schemas, &mut models).unwrap_err();
    assert_eq!(error.kind, CompileErrorKind::InlineEnum);
}

#[test]
fn json_with_another_schema_is_decoded_into_its_type() {
    let (schemas, mut models) = compiled();
    assert_eq!(
        gen_body_schema(Some(&reference("Pet")), "application/json", &schemas, &mut models),
        Ok(BodySchema::Json(TypeExpr::Model(s("Pet"))))
    );
    let numbers = item(array(item(integer())));
    assert_eq!(
        gen_body_schema(Some(&numbers), "application/json", &schemas, &mut models),
        Ok(BodySchema::Json(TypeExpr::ListOf(Box::new(TypeExpr::Int64))))
    );
    // The models are only read.
    assert_eq!(models.len(), 1);
}

#[test]
fn other_media_types_ignore_the_schema() {
    let (schemas, mut models) = compiled();
    let pet = reference("Pet");
    assert_eq!(
        gen_body_schema(Some(&pet), "application/octet-stream", &schemas, &mut models),
        Ok(BodySchema::Bytes)
    );
    assert_eq!(gen_body_schema(Some(&pet), "text/csv", &schemas, &mut models), Ok(BodySchema::Text));
    assert_eq!(gen_body_schema(None, "text/plain", &schemas, &mut models), Ok(BodySchema::Text));
    assert_eq!(gen_body_schema(Some(&pet), "image/png", &schemas, &mut models), Ok(BodySchema::Bytes));
    assert_eq!(
        gen_body_schema(Some(&pet), "application/json; charset=utf-8", &schemas, &mut models),
        Ok(BodySchema::Bytes)
    );
}

#[test]
fn a_body_reference_to_a_missing_schema_is_an_error() {
    let (schemas, mut models) = compiled();
    let error = gen_body_schema(Some(&reference("Nope")), "application/json", &schemas, &mut models)
        .unwrap_err();
    assert_eq!(error.kind, CompileErrorKind::MissingSchema);
    assert_eq!(error.subject, "#/components/schemas/Nope");
}

#[test]
fn plain_strings_need_no_parsing() {
    assert!(is_plain_string_schema(&schema(string(None))));
    assert!(is_plain_string_schema(&schema(string(Some("byte")))));
    assert!(is_plain_string_schema(&schema(string(Some("password")))));
    assert!(!is_plain_string_schema(&schema(string(Some("date")))));
    assert!(!is_plain_string_schema(&schema(string(Some("uuid::Uuid")))));
    assert!(!is_plain_string_schema(&schema(integer())));
    assert!(!is_plain_string_schema(&schema(SchemaKind::String {
        format: None,
        enumeration: vec![Some(s("a"))],
    })));
    assert!(is_array_param(&ParameterFormat::Schema(item(array(item(string(None)))))));
    assert!(!is_array_param(&ParameterFormat::Schema(reference("Pet"))));
    assert!(!is_array_param(&ParameterFormat::Schema(item(string(None)))));
}

#[test]
fn a_string_parameter_is_taken_as_it_is() {
    let (schemas, mut models) = compiled();
    let plan = gen_request_parameter(
        &parameter(ParameterLocation::Query, "petName", item(string(None)), true),
        &schemas,
        &mut models,
    )
    .unwrap();
    assert_eq!(plan.name, "petName");
    assert_eq!(plan.ident, "pet_name");
    assert_eq!(plan.ty, TypeExpr::Text);
    assert_eq!(plan.parse, None);
    assert!(plan.required);
    assert!(!plan.repeated);
}

#[test]
fn other_parameters_are_parsed() {
    let (schemas, mut models) = compiled();
    let plan = gen_request_parameter(
        &parameter(ParameterLocation::Path, "petId", item(integer()), true),
        &schemas,
        &mut models,
    )
    .unwrap();
    assert_eq!(plan.ty, TypeExpr::Int64);
    assert_eq!(plan.parse, Some(TypeExpr::Int64));
    assert_eq!(plan.location, ParameterLocation::Path);

    // A reference is always parsed, even to a plain string.
    let plan = gen_request_parameter(
        &parameter(ParameterLocation::Query, "raw", reference("Raw"), false),
        &schemas,
        &mut models,
    )
    .unwrap();
    assert_eq!(plan.ty, TypeExpr::Text);
    assert_eq!(plan.parse, Some(TypeExpr::Text));
    assert!(!plan.required);
}

#[test]
fn array_query_parameters_read_all_values() {
    let (schemas, mut models) = compiled();
    let plan = gen_request_parameter(
        &parameter(ParameterLocation::Query, "tags", item(array(item(string(None)))), false),
        &schemas,
        &mut models,
    )
    .unwrap();
    assert!(plan.repeated);
    assert_eq!(plan.ty, TypeExpr::ListOf(Box::new(TypeExpr::Text)));
    assert_eq!(plan.parse, None);

    let plan = gen_request_parameter(
        &parameter(ParameterLocation::Query, "ids", item(array(item(integer()))), false),
        &schemas,
        &mut models,
    )
    .unwrap();
    assert!(plan.repeated);
    assert_eq!(plan.parse, Some(TypeExpr::Int64));

    // Only query parameters are repeated.
    let plan = gen_request_parameter(
        &parameter(ParameterLocation::Header, "x-tags", item(array(item(string(None)))), false),
        &schemas,
        &mut models,
    )
    .unwrap();
    assert!(!plan.repeated);
}

#[test]
fn unsupported_parameters_are_errors() {
    let (schemas, mut models) = compiled();
    let cookie = parameter(ParameterLocation::Cookie, "session", item(string(None)), true);
    assert_eq!(
        gen_request_parameter(&cookie, &schemas, &mut models).unwrap_err().kind,
        CompileErrorKind::CookieParameter
    );
    let header = parameter(ParameterLocation::Header, "x-count", item(integer()), true);
    assert_eq!(
        gen_request_parameter(&header, &schemas, &mut models).unwrap_err().kind,
        CompileErrorKind::HeaderParse
    );
    let content = Parameter {
        location: ParameterLocation::Query,
        name: s("filter"),
        description: None,
        required: false,
        format: ParameterFormat::Content(vec![(s("application/json"), media(None))]),
        examples: vec![],
        rest: String::new(),
    };
    let error = gen_request_parameter(&content, &schemas, &mut models).unwrap_err();
    assert_eq!(error.kind, CompileErrorKind::ContentParameter);
    assert_eq!(error.subject, "filter");
}

#[test]
fn a_request_body_has_at_most_one_media_type() {
    let (schemas, mut models) = compiled();
    let body = |content: Vec<(String, MediaType)>| RequestBody {
        description: Some(s("The body")),
        content,
        required: true,
        rest: String::new(),
    };
    assert_eq!(gen_request_body("/pet", &body(vec![]), &schemas, &mut models), Ok(None));

    let plan = gen_request_body(
        "/pet",
        &body(vec![(s("application/json"), media(Some(reference("Pet"))))]),
        &schemas,
        &mut models,
    )
    .unwrap()
    .unwrap();
    assert_eq!(plan.mime, "application/json");
    assert!(plan.required);
    assert_eq!(plan.body, BodySchema::Json(TypeExpr::Model(s("Pet"))));
    assert_eq!(plan.description.as_deref(), Some("The body"));

    // Without a schema even JSON is bytes.
    let plan = gen_request_body(
        "/pet",
        &body(vec![(s("application/json"), media(None))]),
        &schemas,
        &mut models,
    )
    .unwrap()
    .unwrap();
    assert_eq!(plan.body, BodySchema::Bytes);

    let error = gen_request_body(
        "/pet",
        &body(vec![(s("application/json"), media(None)), (s("text/plain"), media(None))]),
        &schemas,
        &mut models,
    )
    .unwrap_err();
    assert_eq!(error.kind, CompileErrorKind::MultipleMediaTypes);
    assert_eq!(error.subject, "/pet");
}

#[test]
fn status_codes_have_names() {
    assert_eq!(status_code_tokens(&StatusCode::Code(200)).unwrap(), "Ok");
    assert_eq!(status_code_tokens(&StatusCode::Code(100)).unwrap(), "Continue");
    assert_eq!(status_code_tokens(&StatusCode::Code(401)).unwrap(), "Unauthenticated");
    assert_eq!(status_code_tokens(&StatusCode::Code(404)).unwrap(), "NotFound");
    assert_eq!(status_code_tokens(&StatusCode::Code(418)).unwrap(), "ImATeapot");
    assert_eq!(
        status_code_tokens(&StatusCode::Code(511)).unwrap(),
        "NetworkAuthenticationRequired"
    );
    assert_eq!(status_code_tokens(&StatusCode::Code(299)).unwrap(), "HttpStatus299");
    assert_eq!(status_code_tokens(&StatusCode::Code(999)).unwrap(), "HttpStatus999");

    let error = status_code_tokens(&StatusCode::Code(99)).unwrap_err();
    assert_eq!(error.kind, CompileErrorKind::InvalidStatus);
    assert_eq!(error.subject, "99");
    assert_eq!(
        status_code_tokens(&StatusCode::Code(1000)).unwrap_err().kind,
        CompileErrorKind::InvalidStatus
    );
    assert_eq!(
        status_code_tokens(&StatusCode::Range(2)).unwrap_err().kind,
        CompileErrorKind::StatusRange
    );
}

#[test]
fn responses_have_one_case_per_status_and_a_default_case() {
    let parts = components();
    let mut models = generate_components(&parts.schemas).unwrap();
    let responses = Responses {
        default: Some(RefOr::Item(Response {
            description: s("Anything else"),
            headers: vec![],
            content: vec![(s("text/plain"), media(None))],
            links: vec![],
            rest: String::new(),
        })),
        responses: vec![
            (
                StatusCode::Code(200),
                RefOr::Item(Response {
                    description: s("The pet"),
                    headers: vec![],
                    content: vec![(s("application/json"), media(Some(reference("Pet"))))],
                    links: vec![],
                    rest: String::new(),
                }),
            ),
            (StatusCode::Code(404), RefOr::Reference(s("#/components/responses/NotFound"))),
        ],
    };

    let cases = gen_responses(&parts, &mut models, "/pet", &responses).unwrap();

    assert_eq!(cases.len(), 3);
    assert_eq!(cases[0].ident, "Ok");
    assert_eq!(cases[0].status, Some(200));
    let body = cases[0].body.as_ref().unwrap();
    assert_eq!(body.mime, "application/json");
    assert_eq!(body.body, BodySchema::Json(TypeExpr::Model(s("Pet"))));
    assert_eq!(cases[0].description, "The pet");

    assert_eq!(cases[1].ident, "NotFound");
    assert_eq!(cases[1].status, Some(404));
    assert_eq!(cases[1].body, None);
    assert_eq!(cases[1].description, "Not found");

    assert_eq!(cases[2].ident, "Default");
    assert_eq!(cases[2].status, None);
    assert_eq!(cases[2].body.as_ref().unwrap().body, BodySchema::Text);
}

#[test]
fn a_response_has_at_most_one_media_type() {
    let parts = components();
    let mut models = generate_components(&parts.schemas).unwrap();
    let responses = Responses {
        default: None,
        responses: vec![(
            StatusCode::Code(200),
            RefOr::Item(Response {
                description: s("Two"),
                headers: vec![],
                content: vec![(s("application/json"), media(None)), (s("text/plain"), media(None))],
                links: vec![],
                rest: String::new(),
            }),
        )],
    };
    let error = gen_responses(&parts, &mut models, "/pet", &responses).unwrap_err();
    assert_eq!(error.kind, CompileErrorKind::MultipleMediaTypes);

    let dangling = Responses {
        default: Some(RefOr::Reference(s("#/components/responses/Nope"))),
        responses: vec![],
    };
    let error = gen_responses(&parts, &mut models, "/pet", &dangling).unwrap_err();
    assert_eq!(error.kind, CompileErrorKind::UnresolvedReference);
}

#[test]
fn an_operation_is_authenticated_unless_it_declares_an_empty_requirement() {
    assert!(requires_authentication(&None));
    assert!(requires_authentication(&Some(vec![])));
    assert!(requires_authentication(&Some(vec![vec![s("api_key")]])));
    assert!(!requires_authentication(&Some(vec![vec![]])));
    assert!(!requires_authentication(&Some(vec![vec![s("api_key")], vec![]])));
}

#[test]
fn add_pet_is_planned() {
    let parts = components();
    let mut models = generate_components(&parts.schemas).unwrap();

    let plan = gen_api_operation(&parts, &mut models, Method::Post, "/pet", &add_pet()).unwrap();

    assert_eq!(plan.operation_id, "addPet");
    assert_eq!(plan.method, Method::Post);
    assert_eq!(plan.request_path, "/pet");
    assert_eq!(plan.handler_ident, "add_pet");
    assert_eq!(plan.wrapper_ident, "handle_add_pet");
    assert_eq!(plan.response_ident, "AddPetResponse");
    assert!(plan.authenticated);
    assert!(plan.parameters.is_empty());
    let body = plan.body.as_ref().unwrap();
    assert_eq!(body.mime, "application/json");
    assert!(body.required);
    assert_eq!(body.body, BodySchema::Json(TypeExpr::Model(s("Pet"))));
    assert_eq!(plan.responses.len(), 1);
    assert_eq!(plan.responses[0].ident, "Ok");
    assert_eq!(plan.description.as_deref(), Some("Add a pet"));
}

#[test]
fn an_operation_needs_an_operation_id() {
    let parts = components();
    let mut models = generate_components(&parts.schemas).unwrap();
    let mut operation = add_pet();
    operation.operation_id = None;
    let error =
        gen_api_operation(&parts, &mut models, Method::Post, "/pet", &operation).unwrap_err();
    assert_eq!(error.kind, CompileErrorKind::MissingOperationId);
    assert_eq!(error.subject, "/pet");
}

#[test]
fn shared_parameters_are_resolved() {
    let parts = components();
    let mut models = generate_components(&parts.schemas).unwrap();
    let mut operation = add_pet();
    operation.parameters = vec![RefOr::Reference(s("#/components/parameters/Limit"))];
    operation.security = Some(vec![vec![]]);
    let plan = gen_api_operation(&parts, &mut models, Method::Post, "/pet", &operation).unwrap();
    assert_eq!(plan.parameters.len(), 1);
    assert_eq!(plan.parameters[0].name, "limit");
    assert_eq!(plan.parameters[0].parse, Some(TypeExpr::Int64));
    assert!(!plan.authenticated);

    operation.parameters = vec![RefOr::Reference(s("#/components/schemas/Pet"))];
    let error =
        gen_api_operation(&parts, &mut models, Method::Post, "/pet", &operation).unwrap_err();
    assert_eq!(error.kind, CompileErrorKind::UnresolvedReference);
}

fn document(operations: Vec<(&str, Method, Operation)>) -> OpenApi {
    let mut paths: Vec<(String, RefOr<PathItem>)> = vec![];
    for (path, method, operation) in operations {
        match paths.iter_mut().find(|(name, _)| name == path) {
            Some((_, RefOr::Item(item))) => item.operations.push((method, operation)),
            _ => paths.push((
                s(path),
                RefOr::Item(PathItem {
                    operations: vec![(method, operation)],
                    parameters: vec![],
                    rest: String::new(),
                }),
            )),
        }
    }
    OpenApi { paths, components: Some(components()), rest: String::new() }
}

fn named_operation(id: &str) -> Operation {
    let mut operation = add_pet();
    operation.operation_id = Some(s(id));
    operation
}

#[test]
fn operations_are_collected_in_the_order_of_the_document() {
    let openapi = document(vec![
        ("/pet", Method::Put, named_operation("updatePet")),
        ("/pet", Method::Post, named_operation("addPet")),
        ("/store", Method::Get, named_operation("getInventory")),
    ]);
    let operations = collect_operations(&openapi).unwrap();
    let seen: Vec<(Method, &str, &str)> = operations
        .iter()
        .map(|op| (op.method, op.request_path.as_str(), op.op.operation_id.as_deref().unwrap()))
        .collect();
    assert_eq!(
        seen,
        vec![
            (Method::Put, "/pet", "updatePet"),
            (Method::Post, "/pet", "addPet"),
            (Method::Get, "/store", "getInventory"),
        ]
    );
}

#[test]
fn a_module_plans_its_operations_by_operation_id() {
    let openapi = document(vec![
        ("/pet", Method::Put, named_operation("updatePet")),
        ("/pet", Method::Post, named_operation("addPet")),
        ("/store", Method::Get, named_operation("getInventory")),
    ]);
    let parts = components();
    let mut models = generate_components(&parts.schemas).unwrap();
    let operations = collect_operations(&openapi).unwrap();

    let module = gen_api_module("pet_store", &operations, &parts, &mut models).unwrap();

    assert_eq!(module.mod_name, "pet_store");
    assert_eq!(module.handler_name, "PetStoreApiHandler");
    let ids: Vec<&str> = module.operations.iter().map(|op| op.operation_id.as_str()).collect();
    assert_eq!(ids, vec!["addPet", "getInventory", "updatePet"]);

    let error = gen_api_module("pet store", &operations, &parts, &mut models).unwrap_err();
    assert_eq!(error.kind, CompileErrorKind::InvalidIdentifier);
}

#[test]
fn the_dispatcher_routes_each_operation_id_to_its_own_wrapper() {
    let openapi = document(vec![
        ("/pet", Method::Put, named_operation("updatePet")),
        ("/pet", Method::Post, named_operation("addPet")),
        ("/store", Method::Get, named_operation("getInventory")),
    ]);
    let parts = components();
    let mut models = generate_components(&parts.schemas).unwrap();
    let operations = collect_operations(&openapi).unwrap();
    let module = gen_api_module("pet_store", &operations, &parts, &mut models).unwrap();
    assert_eq!(check_operation_ids(&module.operations), Ok(()));

    for (at, plan) in module.operations.iter().enumerate() {
        assert_eq!(dispatch(&module.operations, &plan.operation_id), Some(at));
    }
    assert_eq!(dispatch(&module.operations, "doesNotExist"), None);
    assert_eq!(dispatch(&module.operations, "addpet"), None);
    assert_eq!(dispatch(&module.operations, ""), None);
}

#[test]
fn two_operations_with_one_operation_id_are_an_error() {
    let openapi = document(vec![
        ("/a", Method::Get, named_operation("dup")),
        ("/b", Method::Get, named_operation("other")),
        ("/c", Method::Get, named_operation("dup")),
    ]);
    let parts = components();
    let mut models = generate_components(&parts.schemas).unwrap();
    let operations = collect_operations(&openapi).unwrap();
    let module = gen_api_module("api", &operations, &parts, &mut models).unwrap();

    let error = check_operation_ids(&module.operations).unwrap_err();

    assert_eq!(error.kind, CompileErrorKind::DuplicateOperationId);
    assert_eq!(error.subject, "dup");
}

fn unit(mod_name: &str) -> ApiLambda {
    ApiLambda::new(mod_name, LambdaArn::cloud_formation("Function.Alias"))
}

#[test]
fn a_unit_serves_the_operations_assigned_to_it_in_order() {
    let openapi = document(vec![
        ("/pet", Method::Put, named_operation("updatePet")),
        ("/pet", Method::Post, named_operation("addPet")),
        ("/store", Method::Get, named_operation("getInventory")),
    ]);
    let operations = collect_operations(&openapi).unwrap();
    let ids = |unit: usize, units: Vec<Option<usize>>| -> Vec<String> {
        served_operations(&operations, &units, unit)
            .iter()
            .map(|op| op.op.operation_id.clone().unwrap())
            .collect()
    };

    assert_eq!(ids(1, vec![Some(1), Some(0), Some(1)]), ["updatePet", "getInventory"]);
    assert_eq!(ids(0, vec![Some(1), Some(0), Some(1)]), ["addPet"]);
    assert_eq!(ids(2, vec![Some(1), Some(0), Some(1)]), Vec::<String>::new());
    // An operation of which nothing is said is served by no unit.
    assert_eq!(ids(0, vec![Some(0)]), ["updatePet"]);
    assert_eq!(ids(0, vec![None, None, None]), Vec::<String>::new());
}

#[test]
fn modules_come_by_name_and_their_operations_by_operation_id() {
    let openapi = document(vec![
        ("/pet", Method::Put, named_operation("updatePet")),
        ("/pet", Method::Post, named_operation("addPet")),
        ("/store", Method::Get, named_operation("getInventory")),
        ("/user", Method::Get, named_operation("getUser")),
    ]);
    let parts = components();
    let mut models = generate_components(&parts.schemas).unwrap();
    let before = models.len();
    let operations = collect_operations(&openapi).unwrap();
    let lambdas = vec![unit("store"), unit("idle"), unit("pet")];
    let units = vec![Some(2), Some(2), Some(0), None];

    let modules = gen_api_modules(&lambdas, &operations, &units, &parts, &mut models).unwrap();

    let seen: Vec<(&str, &str, Vec<&str>)> = modules
        .iter()
        .map(|module| {
            (
                module.mod_name.as_str(),
                module.handler_name.as_str(),
                module.operations.iter().map(|plan| plan.operation_id.as_str()).collect(),
            )
        })
        .collect();
    assert_eq!(
        seen,
        vec![
            ("pet", "PetApiHandler", vec!["addPet", "updatePet"]),
            ("store", "StoreApiHandler", vec!["getInventory"]),
        ]
    );
    assert_eq!(models.len(), before);
}

#[test]
fn a_unit_without_operations_gets_no_module() {
    let parts = components();
    let mut models = generate_components(&parts.schemas).unwrap();

    // Not even its name is looked at.
    assert_eq!(gen_unit_module("not a name", &vec![], &parts, &mut models), Ok(None));
    assert_eq!(
        gen_api_modules(&vec![unit("not a name")], &vec![], &vec![], &parts, &mut models),
        Ok(vec![])
    );
}

#[test]
fn one_operation_id_twice_in_a_module_is_an_error_and_in_two_modules_is_not() {
    let openapi = document(vec![
        ("/a", Method::Get, named_operation("dup")),
        ("/b", Method::Get, named_operation("other")),
        ("/c", Method::Get, named_operation("dup")),
    ]);
    let parts = components();
    let mut models = generate_components(&parts.schemas).unwrap();
    let operations = collect_operations(&openapi).unwrap();
    let lambdas = vec![unit("first"), unit("second")];

    let error =
        gen_api_modules(&lambdas, &operations, &vec![Some(0), Some(1), Some(0)], &parts, &mut models)
            .unwrap_err();
    assert_eq!(error.kind, CompileErrorKind::DuplicateOperationId);
    assert_eq!(error.subject, "dup");

    let mut models = generate_components(&parts.schemas).unwrap();
    let modules =
        gen_api_modules(&lambdas, &operations, &vec![Some(0), Some(1), Some(1)], &parts, &mut models)
            .unwrap();
    assert_eq!(modules.len(), 2);
}

#[test]
fn the_name_of_a_module_must_be_an_identifier() {
    let openapi = document(vec![("/a", Method::Get, named_operation("getA"))]);
    let parts = components();
    let mut models = generate_components(&parts.schemas).unwrap();
    let operations = collect_operations(&openapi).unwrap();

    let error =
        gen_api_modules(&vec![unit("not a name")], &operations, &vec![Some(0)], &parts, &mut models)
            .unwrap_err();

    assert_eq!(error.kind, CompileErrorKind::InvalidIdentifier);
    assert_eq!(error.subject, "not a name");
}

#[test]
fn an_operation_id_is_unique_in_the_whole_document() {
    let mut unnamed = add_pet();
    unnamed.operation_id = None;
    let mut also_unnamed = add_pet();
    also_unnamed.operation_id = None;
    let openapi = document(vec![
        ("/a", Method::Get, named_operation("first")),
        ("/a", Method::Post, unnamed),
        ("/b", Method::Get, named_operation("dup")),
        ("/c", Method::Get, also_unnamed),
        ("/d", Method::Put, named_operation("dup")),
        ("/e", Method::Put, named_operation("first")),
    ]);
    let operations = collect_operations(&openapi).unwrap();

    let error = check_unique_operation_ids(&operations).unwrap_err();
    assert_eq!(error.kind, CompileErrorKind::DuplicateOperationId);
    // The first operation id that an earlier operation has as well.
    assert_eq!(error.subject, "dup");

    // Operations without an operation id share it with none.
    let shorter: Vec<_> = collect_operations(&openapi).unwrap().into_iter().take(4).collect();
    assert_eq!(check_unique_operation_ids(&shorter), Ok(()));
    assert_eq!(check_unique_operation_ids(&vec![]), Ok(()));
}

#[test]
fn the_dispatcher_finds_the_wrapper_of_an_operation_id_or_none() {
    let known = vec![s("addPet"), s("getPet"), s("addPet")];
    assert_eq!(dispatch_id(&known, "addPet"), Some(0));
    assert_eq!(dispatch_id(&known, "getPet"), Some(1));
    assert_eq!(dispatch_id(&known, "doesNotExist"), None);
    assert_eq!(dispatch_id(&known, "addpet"), None);
    assert_eq!(dispatch_id(&vec![], "addPet"), None);
}

#[test]
fn the_dispatcher_knows_the_operation_ids_of_the_plans_in_their_order() {
    let openapi = document(vec![
        ("/pet", Method::Put, named_operation("updatePet")),
        ("/pet", Method::Post, named_operation("addPet")),
    ]);
    let parts = components();
    let mut models = generate_components(&parts.schemas).unwrap();
    let operations = collect_operations(&openapi).unwrap();
    let module = gen_api_module("pet", &operations, &parts, &mut models).unwrap();

    let known = wrapper_ids(&module.operations);

    assert_eq!(known, ["addPet", "updatePet"]);
    for id in ["addPet", "updatePet", "doesNotExist"] {
        assert_eq!(dispatch(&module.operations, id), dispatch_id(&known, id));
    }
}
