use openapi_lambda::codec::{literal_text, parse_literal};
use openapi_lambda::document::{
    Components, MediaType, Method, Operation, ParameterLocation, RefOr, RequestBody, Response,
    Responses, StatusCode,
};
use openapi_lambda::error::{http_response_to_apigw, Body, EventError, HttpResponse};
use openapi_lambda::ir::{Body as Fields, CompiledKind, CompiledType, TypeExpr};
use openapi_lambda::middleware::{Middleware, UnauthenticatedMiddleware};
use openapi_lambda::model::generate_components;
use openapi_lambda::models::EmptyModel;
use openapi_lambda::module::dispatch;
use openapi_lambda::operation::gen_api_operation;
use openapi_lambda::plan::{ApiOperation, BodySchema, RequestParameter};
use openapi_lambda::runtime::{
    check_content_type, decode_body, into_http_response, parameter_source, parse_failure,
    parse_request_body, read_body, read_parameter, wrapper_step, BodyValue, HeaderText,
    ParameterSource, RawParameter, WrapperAction, WrapperEvent, WrapperState,
};
use openapi_lambda::schema::{Additional, Schema, SchemaKind, SchemaRef};

fn s(text: &str) -> String {
    text.to_string()
}

fn item(kind: SchemaKind) -> SchemaRef {
    SchemaRef::Item(Schema { description: None, discriminator: None, kind, rest: String::new() })
}

fn pet_components() -> Components {
    let string = || item(SchemaKind::String { format: None, enumeration: vec![] });
    Components {
        schemas: vec![(
            s("Pet"),
            item(SchemaKind::Object {
                properties: vec![
                    (s("name"), string()),
                    (
                        s("tags"),
                        item(SchemaKind::Array {
                            items: Some(Box::new(string())),
                            unique_items: false,
                        }),
                    ),
                ],
                required: vec![s("name")],
                additional: Additional::Absent,
            }),
        )],
        responses: vec![],
        parameters: vec![],
        request_bodies: vec![],
        headers: vec![],
        security_schemes: vec![],
        examples: vec![],
        links: vec![],
        callbacks: vec![],
    }
}

fn add_pet(models: &mut Vec<CompiledType>) -> ApiOperation {
    let pet = || MediaType {
        schema: Some(SchemaRef::Reference(s("#/components/schemas/Pet"))),
        examples: vec![],
        rest: String::new(),
    };
    let operation = Operation {
        operation_id: Some(s("addPet")),
        tags: vec![],
        description: None,
        parameters: vec![],
        request_body: Some(RefOr::Item(RequestBody {
            description: None,
            content: vec![(s("application/json"), pet())],
            required: true,
            rest: String::new(),
        })),
        responses: Responses {
            default: None,
            responses: vec![(
                StatusCode::Code(200),
                RefOr::Item(Response {
                    description: s("The pet"),
                    headers: vec![],
                    content: vec![(s("application/json"), pet())],
                    links: vec![],
                    rest: String::new(),
                }),
            )],
        },
        security: None,
        integration: None,
        rest: String::new(),
    };
    gen_api_operation(&pet_components(), models, Method::Post, "/pet", &operation).unwrap()
}

/// What the decoder of a model does with a JSON object, as far as these tests
/// need it: every required field must be there.
fn decode(model: &CompiledType, bytes: &[u8]) -> Result<serde_json::Value, EventError> {
    let value: serde_json::Value = serde_json::from_slice(bytes).map_err(|err| {
        EventError::InvalidBodyJson { path: None, message: err.to_string() }
    })?;
    let fields = match &model.kind {
        CompiledKind::Struct(Fields::Named { fields, .. }) => fields,
        other => panic!("expected a struct, found {other:?}"),
    };
    for field in fields {
        let name = field.rename.as_deref().unwrap_or(field.ident.as_str());
        if field.required && value.get(name).is_none() {
            return Err(EventError::InvalidBodyJson {
                path: None,
                message: format!("missing field `{name}`"),
            });
        }
    }
    Ok(value)
}

/// Runs the wrapper of the operation on one request, as far as the body goes.
fn handle(
    plan: &ApiOperation,
    models: &[CompiledType],
    content_type: HeaderText,
    body: &str,
) -> HttpResponse {
    let body_plan = plan.body.as_ref().unwrap();
    let parsed = check_content_type(&content_type, &body_plan.mime)
        .and_then(|()| decode_body(Some(s(body)), false))
        .and_then(|bytes| read_body(&body_plan.body, bytes, body_plan.required))
        .and_then(|value| match (value, &body_plan.body) {
            (Some(BodyValue::Json(bytes)), BodySchema::Json(TypeExpr::Model(ident))) => {
                let model = models.iter().find(|model| &model.ident == ident).unwrap();
                decode(model, &bytes)
            }
            other => panic!("unexpected body {other:?}"),
        });

    let mut state = WrapperState::Parsing;
    let mut event = match &parsed {
        Ok(_) => WrapperEvent::Parsed,
        Err(_) => WrapperEvent::ParseFailed(parsed.clone_error()),
    };
    loop {
        let (next, action) = wrapper_step(plan.authenticated, state, event);
        state = next;
        event = match action {
            WrapperAction::Respond(response) => {
                assert_eq!(state, WrapperState::Done);
                return response;
            }
            WrapperAction::Authenticate => {
                match UnauthenticatedMiddleware.authenticate(&plan.operation_id, &vec![]) {
                    Ok(()) => WrapperEvent::Authenticated,
                    Err(response) => WrapperEvent::Rejected(response),
                }
            }
            WrapperAction::InvokeHandler => WrapperEvent::Handled,
            WrapperAction::MapHandlerError => unreachable!(),
            WrapperAction::Serialize => {
                let case = &plan.responses[0];
                let written = parsed.as_ref().unwrap().to_string();
                match into_http_response(
                    case.status.unwrap(),
                    case.body.as_ref().map(|body| body.mime.as_str()),
                    vec![],
                    Body::Text(written),
                ) {
                    Ok(response) => WrapperEvent::Serialized(response),
                    Err(err) => WrapperEvent::SerializeFailed(err),
                }
            }
        };
    }
}

trait CloneError {
    fn clone_error(&self) -> EventError;
}

impl<T> CloneError for Result<T, EventError> {
    fn clone_error(&self) -> EventError {
        match self {
            Err(EventError::InvalidBodyJson { path, message }) => {
                EventError::InvalidBodyJson { path: path.clone(), message: message.clone() }
            }
            Err(EventError::UnexpectedContentType(found)) => {
                EventError::UnexpectedContentType(found.clone())
            }
            Err(EventError::MissingRequestHeader(name)) => {
                EventError::MissingRequestHeader(name.clone())
            }
            other => panic!("unexpected outcome {:?}", other.as_ref().err()),
        }
    }
}

#[test]
fn a_pet_is_added() {
    let mut models = generate_components(&pet_components().schemas).unwrap();
    let plan = add_pet(&mut models);
    assert!(plan.authenticated);

    let response = handle(
        &plan,
        &models,
        HeaderText::Text(s("application/json")),
        r#"{"name":"foo","tags":[]}"#,
    );

    assert_eq!(response.status, 200);
    assert_eq!(response.headers, vec![(s("content-type"), s("application/json"))]);
    assert_eq!(response.body, Body::Text(s(r#"{"name":"foo","tags":[]}"#)));
}

#[test]
fn a_pet_without_a_name_is_a_bad_request() {
    let mut models = generate_components(&pet_components().schemas).unwrap();
    let plan = add_pet(&mut models);

    let response = handle(&plan, &models, HeaderText::Text(s("application/json")), "{}");

    assert_eq!(response.status, 400);
    assert_eq!(response.headers, vec![(s("content-type"), s("text/plain"))]);
    assert_eq!(response.body, Body::Text(s("Invalid request body: missing field `name`")));
}

#[test]
fn another_content_type_is_a_bad_request_before_anything_is_decoded() {
    let mut models = generate_components(&pet_components().schemas).unwrap();
    let plan = add_pet(&mut models);

    // The body is no JSON at all: it is never looked at.
    let response = handle(&plan, &models, HeaderText::Text(s("text/plain")), "not json");

    assert_eq!(response.status, 400);
    assert_eq!(response.body, Body::Text(s("Unexpected content type `text/plain`")));
}

#[test]
fn a_missing_content_type_is_a_bad_request() {
    let mut models = generate_components(&pet_components().schemas).unwrap();
    let plan = add_pet(&mut models);

    let response = handle(&plan, &models, HeaderText::Missing, r#"{"name":"foo"}"#);

    assert_eq!(response.status, 400);
    assert_eq!(response.body, Body::Text(s("Missing request header `content-type`")));
}

#[test]
fn an_unknown_operation_is_an_internal_error() {
    let mut models = generate_components(&pet_components().schemas).unwrap();
    let plans = vec![add_pet(&mut models)];

    assert_eq!(dispatch(&plans, "doesNotExist"), None);
    let error = EventError::UnexpectedOperationId(s("doesNotExist"));
    assert_eq!(error.name(), "UnexpectedOperationId");
    let response = error.into_response();
    assert_eq!(response.status, 500);
    assert_eq!(response.headers, vec![]);
    assert_eq!(response.body, Body::Empty);
}

#[test]
fn the_content_type_must_be_the_media_type_exactly() {
    let json = "application/json";
    assert_eq!(check_content_type(&HeaderText::Text(s("application/json")), json), Ok(()));
    assert_eq!(
        check_content_type(&HeaderText::Text(s("application/json; charset=utf-8")), json),
        Ok(())
    );
    assert_eq!(check_content_type(&HeaderText::Text(s("Application/JSON")), json), Ok(()));
    assert_eq!(
        check_content_type(&HeaderText::Text(s("application/x-www-form-urlencoded")), json),
        Err(EventError::UnexpectedContentType(s("application/x-www-form-urlencoded")))
    );
    assert_eq!(
        check_content_type(&HeaderText::Text(s("not a media type")), json),
        Err(EventError::UnexpectedContentType(s("not a media type")))
    );
    assert_eq!(
        check_content_type(&HeaderText::NotText(s("bad bytes")), json),
        Err(EventError::InvalidHeaderUtf8 { header: s("content-type"), message: s("bad bytes") })
    );
    assert_eq!(
        check_content_type(&HeaderText::Missing, json),
        Err(EventError::MissingRequestHeader(s("content-type")))
    );
}

#[test]
fn a_body_is_decoded_from_base64_where_the_gateway_says_so() {
    assert_eq!(decode_body(None, false), Ok(None));
    assert_eq!(decode_body(None, true), Ok(None));
    assert_eq!(decode_body(Some(s("héllo")), false), Ok(Some("héllo".as_bytes().to_vec())));
    assert_eq!(decode_body(Some(s("aGVsbG8=")), true), Ok(Some(b"hello".to_vec())));
    assert_eq!(decode_body(Some(s("aGVsbG8=")), false), Ok(Some(b"aGVsbG8=".to_vec())));
    let error = decode_body(Some(s("not base64!")), true).unwrap_err();
    assert_eq!(error.name(), "InvalidBodyBase64");
    assert_eq!(error.into_response().status, 500);
}

#[test]
fn a_body_is_read_under_its_plan() {
    let bytes = || Some(b"{\"a\":1}".to_vec());
    assert_eq!(
        read_body(&BodySchema::Bytes, bytes(), true),
        Ok(Some(BodyValue::Bytes(b"{\"a\":1}".to_vec())))
    );
    assert_eq!(
        read_body(&BodySchema::Text, bytes(), true),
        Ok(Some(BodyValue::Text(s("{\"a\":1}"))))
    );
    assert_eq!(
        read_body(&BodySchema::JsonValue, bytes(), false),
        Ok(Some(BodyValue::Json(b"{\"a\":1}".to_vec())))
    );
    assert_eq!(
        read_body(&BodySchema::Json(TypeExpr::Int64), bytes(), false),
        Ok(Some(BodyValue::Json(b"{\"a\":1}".to_vec())))
    );
    assert_eq!(read_body(&BodySchema::Text, None, false), Ok(None));
    assert_eq!(read_body(&BodySchema::Text, None, true), Err(EventError::MissingRequestBody));
    let error = read_body(&BodySchema::Text, Some(vec![0xff, 0xfe]), true).unwrap_err();
    assert_eq!(error.name(), "InvalidBodyUtf8");
    assert_eq!(error.into_response().status, 400);
    // Bytes that are not text are fine where bytes are asked for.
    assert_eq!(
        read_body(&BodySchema::Bytes, Some(vec![0xff, 0xfe]), true),
        Ok(Some(BodyValue::Bytes(vec![0xff, 0xfe])))
    );
}

fn plan(location: ParameterLocation, required: bool) -> RequestParameter {
    RequestParameter {
        name: s("petId"),
        ident: s("pet_id"),
        location,
        required,
        ty: TypeExpr::Int64,
        parse: Some(TypeExpr::Int64),
        repeated: false,
        description: None,
    }
}

#[test]
fn path_parameters_are_percent_decoded() {
    let path = plan(ParameterLocation::Path, true);
    assert_eq!(
        read_parameter(&path, Some(RawParameter::Text(s("a%20b%2Fc")))),
        Ok(Some(vec![s("a b/c")]))
    );
    assert_eq!(
        read_parameter(&path, Some(RawParameter::Text(s("plain+text")))),
        Ok(Some(vec![s("plain+text")]))
    );
    match read_parameter(&path, Some(RawParameter::Text(s("%ff")))) {
        Err(EventError::InvalidRequestPathParam { param_name, source }) => {
            assert_eq!(param_name, "petId");
            assert!(source.is_some());
        }
        other => panic!("expected an invalid path parameter, found {other:?}"),
    }
}

#[test]
fn query_parameters_are_taken_as_the_gateway_decoded_them() {
    let query = plan(ParameterLocation::Query, false);
    assert_eq!(
        read_parameter(&query, Some(RawParameter::Text(s("a%20b")))),
        Ok(Some(vec![s("a%20b")]))
    );
    assert_eq!(
        read_parameter(&query, Some(RawParameter::Values(vec![s("1"), s("2")]))),
        Ok(Some(vec![s("1"), s("2")]))
    );
    assert_eq!(read_parameter(&query, None), Ok(None));
}

#[test]
fn a_missing_required_parameter_is_an_error_and_an_optional_one_is_absent() {
    assert_eq!(
        read_parameter(&plan(ParameterLocation::Query, true), None),
        Err(EventError::MissingRequestParam(s("petId")))
    );
    assert_eq!(read_parameter(&plan(ParameterLocation::Query, false), None), Ok(None));
    assert_eq!(read_parameter(&plan(ParameterLocation::Header, false), None), Ok(None));
    assert_eq!(
        read_parameter(
            &plan(ParameterLocation::Header, false),
            Some(RawParameter::NotText(s("bad")))
        ),
        Err(EventError::InvalidHeaderUtf8 { header: s("petId"), message: s("bad") })
    );
}

#[test]
fn a_parameter_that_cannot_be_parsed_is_an_error_of_its_kind() {
    assert_eq!(
        parse_failure(&plan(ParameterLocation::Path, true), s("not a number")),
        EventError::InvalidRequestPathParam {
            param_name: s("petId"),
            source: Some(s("not a number")),
        }
    );
    assert_eq!(
        parse_failure(&plan(ParameterLocation::Query, true), s("not a number")),
        EventError::InvalidRequestQueryParam {
            param_name: s("petId"),
            source: Some(s("not a number")),
        }
    );
}

#[test]
fn a_response_puts_the_content_type_first() {
    let response = into_http_response(
        201,
        Some("application/json"),
        vec![(s("x-request-id"), s("42"))],
        Body::Text(s("{}")),
    )
    .unwrap();
    assert_eq!(response.status, 201);
    assert_eq!(
        response.headers,
        vec![(s("content-type"), s("application/json")), (s("x-request-id"), s("42"))]
    );

    let response = into_http_response(204, None, vec![], Body::Empty).unwrap();
    assert_eq!(response.headers, vec![]);

    let error = into_http_response(99, None, vec![], Body::Empty).unwrap_err();
    assert_eq!(error.name(), "HttpResponse");
    let error = into_http_response(200, Some("text/plain\n"), vec![], Body::Empty).unwrap_err();
    assert_eq!(error.name(), "HttpResponse");
    assert_eq!(error.into_response().status, 500);
}

fn ok(status: u16) -> HttpResponse {
    HttpResponse { status, headers: vec![], body: Body::Empty }
}

#[test]
fn the_wrapper_goes_from_parsing_to_the_handler() {
    assert!(matches!(
        wrapper_step(true, WrapperState::Parsing, WrapperEvent::Parsed),
        (WrapperState::Authenticating, WrapperAction::Authenticate)
    ));
    assert!(matches!(
        wrapper_step(false, WrapperState::Parsing, WrapperEvent::Parsed),
        (WrapperState::Handling, WrapperAction::InvokeHandler)
    ));
    assert!(matches!(
        wrapper_step(true, WrapperState::Authenticating, WrapperEvent::Authenticated),
        (WrapperState::Handling, WrapperAction::InvokeHandler)
    ));
    assert!(matches!(
        wrapper_step(true, WrapperState::Handling, WrapperEvent::Handled),
        (WrapperState::Serializing, WrapperAction::Serialize)
    ));
    assert!(matches!(
        wrapper_step(true, WrapperState::Handling, WrapperEvent::HandlerFailed),
        (WrapperState::MappingError, WrapperAction::MapHandlerError)
    ));
    assert_eq!(
        wrapper_step(true, WrapperState::Serializing, WrapperEvent::Serialized(ok(200))),
        (WrapperState::Done, WrapperAction::Respond(ok(200)))
    );
    assert_eq!(
        wrapper_step(true, WrapperState::MappingError, WrapperEvent::ErrorMapped(ok(409))),
        (WrapperState::Done, WrapperAction::Respond(ok(409)))
    );
}

#[test]
fn the_first_failure_answers_the_request() {
    assert_eq!(
        wrapper_step(
            true,
            WrapperState::Parsing,
            WrapperEvent::ParseFailed(EventError::MissingRequestBody)
        ),
        (
            WrapperState::Done,
            WrapperAction::Respond(EventError::MissingRequestBody.into_response())
        )
    );
    assert_eq!(
        wrapper_step(true, WrapperState::Authenticating, WrapperEvent::Rejected(ok(401))),
        (WrapperState::Done, WrapperAction::Respond(ok(401)))
    );
    let failed = || EventError::ToJsonResponse { response_type: s("Pet"), message: s("oops") };
    assert_eq!(
        wrapper_step(true, WrapperState::Serializing, WrapperEvent::SerializeFailed(failed())),
        (WrapperState::Done, WrapperAction::Respond(ok(500)))
    );
}

#[test]
fn a_fault_is_answered_as_an_internal_error_wherever_it_is_caught() {
    for state in [
        WrapperState::Parsing,
        WrapperState::Authenticating,
        WrapperState::Handling,
        WrapperState::MappingError,
        WrapperState::Serializing,
        WrapperState::Done,
    ] {
        for authenticated in [true, false] {
            assert_eq!(
                wrapper_step(authenticated, state, WrapperEvent::Fault(s("boom"))),
                (WrapperState::Done, WrapperAction::Respond(ok(500)))
            );
        }
    }
    // An event out of order is answered the same way.
    assert_eq!(
        wrapper_step(true, WrapperState::Parsing, WrapperEvent::Handled),
        (WrapperState::Done, WrapperAction::Respond(ok(500)))
    );
}

#[test]
fn a_response_is_handed_to_the_gateway_as_it_is() {
    let handed = http_response_to_apigw(HttpResponse {
        status: 404,
        headers: vec![(s("content-type"), s("text/plain"))],
        body: Body::Text(s("gone")),
    });
    assert_eq!(handed.status_code, 404);
    assert_eq!(handed.multi_value_headers, vec![(s("content-type"), s("text/plain"))]);
    assert_eq!(handed.body, Some(Body::Text(s("gone"))));
    assert!(!handed.is_base64_encoded);
}

#[test]
fn the_unauthenticated_middleware_lets_everything_through() {
    let middleware = UnauthenticatedMiddleware;
    assert_eq!(middleware.authenticate("addPet", &vec![]), Ok(()));
    let response = middleware.wrap_handler_unauthed(
        |headers: Vec<(String, String)>| HttpResponse { status: 200, headers, body: Body::Empty },
        "addPet",
        vec![(s("a"), s("b"))],
    );
    assert_eq!(response.headers, vec![(s("a"), s("b"))]);
    let response = middleware.wrap_handler_authed(
        |headers: Vec<(String, String)>, _auth: ()| HttpResponse {
            status: 201,
            headers,
            body: Body::Empty,
        },
        "addPet",
        vec![],
        (),
    );
    assert_eq!(response.status, 201);
    assert_eq!(EmptyModel {}, EmptyModel {});
}

#[test]
fn an_enumerated_parameter_is_read_by_its_literal() {
    let members = match openapi_lambda::model::generate_string_model(
        "Color",
        &vec![Some(s("red")), Some(s("green"))],
    ) {
        Ok(Some(CompiledKind::Enumeration(members))) => members,
        other => panic!("expected an enumeration, found {other:?}"),
    };
    let raw = read_parameter(
        &plan(ParameterLocation::Query, true),
        Some(RawParameter::Text(s("green"))),
    )
    .unwrap()
    .unwrap();
    let member = parse_literal(&members, &raw[0]).unwrap();
    assert_eq!(member, 1);
    assert_eq!(literal_text(&members, member), Some("green"));
}

#[test]
fn the_content_type_is_checked_before_the_body_is_looked_at() {
    let json = "application/json";
    let plan = BodySchema::Text;
    // Everything is wrong with this request; the content type is what is reported.
    assert_eq!(
        parse_request_body(
            json,
            &plan,
            true,
            &HeaderText::Text(s("text/plain")),
            Some(s("not base64!")),
            true
        ),
        Err(EventError::UnexpectedContentType(s("text/plain")))
    );
    // Even without a body the content type must be declared.
    assert_eq!(
        parse_request_body(json, &plan, false, &HeaderText::Missing, None, false),
        Err(EventError::MissingRequestHeader(s("content-type")))
    );
    let header = HeaderText::Text(s("application/json"));
    assert_eq!(
        parse_request_body(json, &plan, true, &header, Some(s("not base64!")), true)
            .unwrap_err()
            .name(),
        "InvalidBodyBase64"
    );
    assert_eq!(
        parse_request_body(json, &plan, true, &header, Some(s("//4=")), true).unwrap_err().name(),
        "InvalidBodyUtf8"
    );
    assert_eq!(
        parse_request_body(json, &plan, true, &header, None, true),
        Err(EventError::MissingRequestBody)
    );
    assert_eq!(parse_request_body(json, &plan, false, &header, None, true), Ok(None));
    assert_eq!(
        parse_request_body(json, &plan, true, &header, Some(s("aGk=")), true),
        Ok(Some(BodyValue::Text(s("hi"))))
    );
}

#[test]
fn a_media_type_must_be_fit_for_a_header() {
    let made = |mime: &str| into_http_response(200, Some(mime), vec![], Body::Empty);
    // A tab and bytes beyond ASCII are fine; control characters and delete are not.
    assert!(made("text/plain;\tcharset=utf-8").is_ok());
    assert!(made("text/pl\u{e4}in").is_ok());
    assert!(made("").is_ok());
    for unfit in ["text/plain\r", "text/\u{0}plain", "text/plain\u{7f}", "\u{1f}"] {
        assert_eq!(
            made(unfit),
            Err(EventError::HttpResponse(s("invalid header value"))),
            "{unfit:?}"
        );
    }
}

#[test]
fn a_parameter_is_read_from_where_its_plan_says() {
    assert_eq!(parameter_source(&plan(ParameterLocation::Header, true)), ParameterSource::Header);
    assert_eq!(
        parameter_source(&plan(ParameterLocation::Path, true)),
        ParameterSource::PathSegment
    );
    assert_eq!(
        parameter_source(&plan(ParameterLocation::Query, false)),
        ParameterSource::FirstValue
    );
    assert_eq!(
        parameter_source(&plan(ParameterLocation::Cookie, false)),
        ParameterSource::FirstValue
    );
    let mut repeated = plan(ParameterLocation::Query, false);
    repeated.repeated = true;
    assert_eq!(parameter_source(&repeated), ParameterSource::AllValues);
    // Only the query holds a parameter more than once.
    let mut header = plan(ParameterLocation::Header, false);
    header.repeated = true;
    assert_eq!(parameter_source(&header), ParameterSource::Header);
}
