//! The operation compiler: for every operation of a document whose references
//! are all local, the plan for reading its parameters and body, for
//! authenticating it and for writing its responses.
use vstd::prelude::*;
use vstd::string::*;
use crate::document::{
    Components, Method, Operation, Parameter, ParameterFormat, ParameterLocation, RefOr,
    RequestBody, Response, Responses, StatusCode,
};
use crate::ir::{CompileError, CompileErrorKind, CompiledType, TypeExpr};
use crate::model::{agrees, copy_text, error, identifier, push_item, reference_schema_name, type_of};
use crate::operation_spec::{
    body_plan, is_array, is_authenticated, is_plain_string, operation_plan, parameter_plan,
    parameter_plans, parse_type, request_body_plan, resolved, resolved_schema, response_variant,
    response_variants, status_ident, status_variants,
};
use crate::outside::{is_status_code, parse_ident, to_pascal_case, to_snake_case};
use crate::plan::{
    ApiOperation, BodySchema, RequestBodyPlan, RequestParameter, ResponseBody, ResponseVariant,
};
use crate::schema::{Schema, SchemaKind, SchemaRef};
use crate::status::known_status_name;
use crate::table::find_key;
use crate::text::{concat2, decimal, starts_with, str_eq, tail_from};

verus! {

/// The schema that stands where `r` stands: the schema itself, or the shared
/// schema that a reference points to.
pub fn resolve_schema<'a>(table: &'a Vec<(String, SchemaRef)>, r: &'a SchemaRef) -> (res: Result<
    &'a Schema,
    CompileError,
>)
    ensures
        agrees(res, resolved_schema(table.deep_view(), r.deep_view())),
{
    match r {
        SchemaRef::Item(schema) => Ok(schema),
        SchemaRef::Reference(reference) => {
            let name = match reference_schema_name(reference.as_str()) {
                Err(e) => {
                    return Err(e);
                },
                Ok(name) => name,
            };
            let k = find_key(table, name.as_str());
            if k >= table.len() {
                return Err(error(CompileErrorKind::MissingSchema, reference.as_str()));
            }
            assert(table.deep_view()[k as int].1 == table[k as int].1.deep_view());
            match &table[k].1 {
                SchemaRef::Reference(_) => Err(
                    error(CompileErrorKind::ReferenceChain, reference.as_str()),
                ),
                SchemaRef::Item(schema) => Ok(schema),
            }
        },
    }
}

/// The plan for a body of the media type `mime` with the schema `schema`, the
/// same for requests and responses. JSON without a schema is any JSON value;
/// JSON with a string schema is the raw text (the raw bytes for the binary
/// format); JSON with another schema is decoded into its type; any text is a
/// string; everything else is bytes, whatever its schema.
pub fn gen_body_schema(
    schema: Option<&SchemaRef>,
    mime: &str,
    table: &Vec<(String, SchemaRef)>,
    models: &mut Vec<CompiledType>,
) -> (res: Result<BodySchema, CompileError>)
    ensures
        agrees(
            res,
            body_plan(table.deep_view(), old(models).deep_view(), schema.deep_view(), mime@),
        ),
        res is Ok ==> final(models).deep_view() == old(models).deep_view(),
{
    if str_eq(mime, "application/json") {
        match schema {
            None => Ok(BodySchema::JsonValue),
            Some(r) => {
                let target = match resolve_schema(table, r) {
                    Err(e) => {
                        return Err(e);
                    },
                    Ok(target) => target,
                };
                match &target.kind {
                    SchemaKind::String { format, enumeration } => {
                        if enumeration.len() > 0 {
                            return Err(error(CompileErrorKind::InlineEnum, mime));
                        }
                        let binary = match format {
                            Some(f) => str_eq(f.as_str(), "binary"),
                            None => false,
                        };
                        if binary {
                            Ok(BodySchema::Bytes)
                        } else {
                            Ok(BodySchema::Text)
                        }
                    },
                    _ => {
                        match type_of(table, r, models) {
                            Err(e) => Err(e),
                            Ok(t) => Ok(BodySchema::Json(t)),
                        }
                    },
                }
            },
        }
    } else if str_eq(mime, "application/octet-stream") {
        Ok(BodySchema::Bytes)
    } else if starts_with(mime, "text/") {
        Ok(BodySchema::Text)
    } else {
        Ok(BodySchema::Bytes)
    }
}

/// Whether a schema is a string that needs no parsing.
pub fn is_plain_string_schema(schema: &Schema) -> (r: bool)
    ensures
        r == is_plain_string(schema.deep_view()),
{
    match &schema.kind {
        SchemaKind::String { format, enumeration } => {
            if enumeration.len() > 0 {
                return false;
            }
            match format {
                None => true,
                Some(f) => str_eq(f.as_str(), "byte") || str_eq(f.as_str(), "password"),
            }
        },
        _ => false,
    }
}

/// Whether a parameter is described by an array schema in place.
pub fn is_array_param(format: &ParameterFormat) -> (r: bool)
    ensures
        r == is_array(format.deep_view()),
{
    match format {
        ParameterFormat::Schema(SchemaRef::Item(schema)) => {
            match &schema.kind {
                SchemaKind::Array { items, unique_items } => true,
                _ => false,
            }
        },
        _ => false,
    }
}

/// The type that the raw strings of a parameter are parsed into, if they are
/// parsed at all.
fn parse_type_of(
    table: &Vec<(String, SchemaRef)>,
    models: &mut Vec<CompiledType>,
    r: &SchemaRef,
    ty: &TypeExpr,
) -> (res: Result<Option<TypeExpr>, CompileError>)
    ensures
        agrees(
            res,
            parse_type(table.deep_view(), old(models).deep_view(), r.deep_view(), ty.deep_view()),
        ),
        res is Ok ==> final(models).deep_view() == old(models).deep_view(),
{
    match r {
        SchemaRef::Reference(_) => Ok(Some(copy_type(ty))),
        SchemaRef::Item(schema) => {
            if is_plain_string_schema(schema) {
                return Ok(None);
            }
            match &schema.kind {
                SchemaKind::Array { items: Some(item), unique_items } => {
                    match &**item {
                        SchemaRef::Reference(_) => Ok(Some(copy_type(ty))),
                        SchemaRef::Item(item_schema) => {
                            if is_plain_string_schema(item_schema) {
                                Ok(None)
                            } else {
                                match type_of(table, &**item, models) {
                                    Err(e) => Err(e),
                                    Ok(t) => Ok(Some(t)),
                                }
                            }
                        },
                    }
                },
                _ => Ok(Some(copy_type(ty))),
            }
        },
    }
}

/// A copy of a type expression.
pub fn copy_type(t: &TypeExpr) -> (r: TypeExpr)
    ensures
        r.deep_view() == t.deep_view(),
    decreases t,
{
    match t {
        TypeExpr::Model(ident) => TypeExpr::Model(ident.clone()),
        TypeExpr::Text => TypeExpr::Text,
        TypeExpr::Bytes => TypeExpr::Bytes,
        TypeExpr::Date => TypeExpr::Date,
        TypeExpr::DateTime => TypeExpr::DateTime,
        TypeExpr::Int32 => TypeExpr::Int32,
        TypeExpr::Int64 => TypeExpr::Int64,
        TypeExpr::Float => TypeExpr::Float,
        TypeExpr::Double => TypeExpr::Double,
        TypeExpr::Bool => TypeExpr::Bool,
        TypeExpr::Custom(path) => TypeExpr::Custom(path.clone()),
        TypeExpr::AnyValue => TypeExpr::AnyValue,
        TypeExpr::EmptyModel => TypeExpr::EmptyModel,
        TypeExpr::MapOf(inner) => TypeExpr::MapOf(Box::new(copy_type(&**inner))),
        TypeExpr::ListOf(inner) => TypeExpr::ListOf(Box::new(copy_type(&**inner))),
        TypeExpr::SetOf(inner) => TypeExpr::SetOf(Box::new(copy_type(&**inner))),
    }
}

/// The plan for reading one query, header or path parameter. A value is taken
/// as it is where it is a string or a list of strings, and parsed otherwise; a
/// query parameter with an array schema reads all its values. Parameters given
/// by content, cookie parameters and header parameters that need parsing are
/// not supported.
pub fn gen_request_parameter(
    parameter: &Parameter,
    table: &Vec<(String, SchemaRef)>,
    models: &mut Vec<CompiledType>,
) -> (res: Result<RequestParameter, CompileError>)
    ensures
        agrees(
            res,
            parameter_plan(table.deep_view(), old(models).deep_view(), parameter.deep_view()),
        ),
        res is Ok ==> final(models).deep_view() == old(models).deep_view(),
{
    let snake = to_snake_case(parameter.name.as_str());
    let ident = match identifier(snake.as_str()) {
        Err(e) => {
            return Err(e);
        },
        Ok(ident) => ident,
    };
    match &parameter.format {
        ParameterFormat::Content(_) => Err(
            error(CompileErrorKind::ContentParameter, parameter.name.as_str()),
        ),
        ParameterFormat::Schema(r) => {
            let ty = match type_of(table, r, models) {
                Err(e) => {
                    return Err(e);
                },
                Ok(ty) => ty,
            };
            let parse = match parse_type_of(table, models, r, &ty) {
                Err(e) => {
                    return Err(e);
                },
                Ok(parse) => parse,
            };
            match parameter.location {
                ParameterLocation::Cookie => {
                    return Err(error(CompileErrorKind::CookieParameter, parameter.name.as_str()));
                },
                ParameterLocation::Header => {
                    if parse.is_some() {
                        return Err(error(CompileErrorKind::HeaderParse, parameter.name.as_str()));
                    }
                },
                _ => {},
            }
            let repeated = match parameter.location {
                ParameterLocation::Query => is_array_param(&parameter.format),
                _ => false,
            };
            Ok(
                RequestParameter {
                    name: parameter.name.clone(),
                    ident,
                    location: parameter.location,
                    required: parameter.required,
                    ty,
                    parse,
                    repeated,
                    description: copy_text(&parameter.description),
                },
            )
        },
    }
}

/// The part that stands where `r` stands: the part itself, or the shared part
/// that a reference beginning with `prefix` names. A reference to a reference
/// is not followed.
pub fn resolve_local<'a, T: DeepView>(
    shared: &'a Vec<(String, RefOr<T>)>,
    prefix: &str,
    r: &'a RefOr<T>,
) -> (res: Result<&'a T, CompileError>)
    ensures
        agrees(res, resolved(shared.deep_view(), prefix@, r.deep_view())),
{
    match r {
        RefOr::Item(item) => Ok(item),
        RefOr::Reference(reference) => {
            if !starts_with(reference.as_str(), prefix) {
                return Err(error(CompileErrorKind::UnresolvedReference, reference.as_str()));
            }
            let name = tail_from(reference.as_str(), prefix.unicode_len());
            let k = find_key(shared, name.as_str());
            if k >= shared.len() {
                return Err(error(CompileErrorKind::UnresolvedReference, reference.as_str()));
            }
            assert(shared.deep_view()[k as int].1 == shared[k as int].1.deep_view());
            match &shared[k].1 {
                RefOr::Reference(_) => Err(
                    error(CompileErrorKind::ReferenceChain, reference.as_str()),
                ),
                RefOr::Item(item) => Ok(item),
            }
        },
    }
}

/// The plan for reading the body of a request; `None` where it declares no
/// content. The request must declare the one media type of the body, which is
/// checked before anything is decoded. A body without a schema is bytes.
pub fn gen_request_body(
    request_path: &str,
    body: &RequestBody,
    table: &Vec<(String, SchemaRef)>,
    models: &mut Vec<CompiledType>,
) -> (res: Result<Option<RequestBodyPlan>, CompileError>)
    ensures
        agrees(
            res,
            request_body_plan(
                table.deep_view(),
                old(models).deep_view(),
                request_path@,
                body.deep_view(),
            ),
        ),
        res is Ok ==> final(models).deep_view() == old(models).deep_view(),
{
    if body.content.len() == 0 {
        return Ok(None);
    }
    if body.content.len() > 1 {
        return Err(error(CompileErrorKind::MultipleMediaTypes, request_path));
    }
    assert(body.content.deep_view()[0] == (body.content[0].0@, body.content[0].1.deep_view()));
    let mime = &body.content[0].0;
    let plan = match &body.content[0].1.schema {
        Some(r) => {
            match gen_body_schema(Some(r), mime.as_str(), table, models) {
                Err(e) => {
                    return Err(e);
                },
                Ok(plan) => plan,
            }
        },
        None => BodySchema::Bytes,
    };
    Ok(
        Some(
            RequestBodyPlan {
                mime: mime.clone(),
                required: body.required,
                body: plan,
                description: copy_text(&body.description),
            },
        ),
    )
}

/// The name of the case for a declared status: the name of a well-known code,
/// `HttpStatus` and the number for another valid code. Ranges are not
/// supported.
pub fn status_code_tokens(status: &StatusCode) -> (res: Result<String, CompileError>)
    ensures
        agrees(res, status_ident(*status)),
{
    match status {
        StatusCode::Range(digit) => {
            let text = decimal(*digit as u128);
            Err(error(CompileErrorKind::StatusRange, text.as_str()))
        },
        StatusCode::Code(code) => {
            match known_status_name(*code) {
                Some(name) => Ok(String::from_str(name)),
                None => {
                    let text = decimal(*code as u128);
                    if is_status_code(*code) {
                        Ok(concat2("HttpStatus", text.as_str()))
                    } else {
                        Err(error(CompileErrorKind::InvalidStatus, text.as_str()))
                    }
                },
            }
        },
    }
}

/// The case for one response: its status, and the media type and plan of its
/// body if it has content. At most one media type is supported.
pub fn gen_response(
    components: &Components,
    models: &mut Vec<CompiledType>,
    request_path: &str,
    ident: String,
    status: Option<u16>,
    r: &RefOr<Response>,
) -> (res: Result<ResponseVariant, CompileError>)
    ensures
        agrees(
            res,
            response_variant(
                components.deep_view(),
                old(models).deep_view(),
                request_path@,
                ident@,
                status,
                r.deep_view(),
            ),
        ),
        res is Ok ==> final(models).deep_view() == old(models).deep_view(),
{
    let response = match resolve_local(&components.responses, "#/components/responses/", r) {
        Err(e) => {
            return Err(e);
        },
        Ok(response) => response,
    };
    if response.content.len() == 0 {
        return Ok(
            ResponseVariant { ident, status, body: None, description: response.description.clone() },
        );
    }
    if response.content.len() > 1 {
        return Err(error(CompileErrorKind::MultipleMediaTypes, request_path));
    }
    assert(response.content.deep_view()[0] == (
        response.content[0].0@,
        response.content[0].1.deep_view(),
    ));
    let mime = &response.content[0].0;
    let schema = match &response.content[0].1.schema {
        Some(r) => Some(r),
        None => None,
    };
    match gen_body_schema(schema, mime.as_str(), &components.schemas, models) {
        Err(e) => Err(e),
        Ok(plan) => Ok(
            ResponseVariant {
                ident,
                status,
                body: Some(ResponseBody { mime: mime.clone(), body: plan }),
                description: response.description.clone(),
            },
        ),
    }
}

/// The cases for the responses of an operation: one for each declared status
/// code, in order, and last the default case if there is one, whose status
/// the handler supplies.
#[verifier::loop_isolation(false)]
pub fn gen_responses(
    components: &Components,
    models: &mut Vec<CompiledType>,
    request_path: &str,
    responses: &Responses,
) -> (res: Result<Vec<ResponseVariant>, CompileError>)
    ensures
        agrees(
            res,
            response_variants(
                components.deep_view(),
                old(models).deep_view(),
                request_path@,
                responses.deep_view(),
            ),
        ),
        res is Ok ==> final(models).deep_view() == old(models).deep_view(),
{
    let ghost models0 = models.deep_view();
    let mut variants: Vec<ResponseVariant> = Vec::new();
    let list = &responses.responses;
    let mut i: usize = 0;
    proof {
        assert(variants.deep_view() =~= Seq::empty());
        assert(list.deep_view().skip(0) =~= list.deep_view());
    }
    while i < list.len()
        invariant
            i <= list.len(),
            models.deep_view() == models0,
            status_variants(
                components.deep_view(),
                models0,
                request_path@,
                list.deep_view(),
                Seq::empty(),
            ) == status_variants(
                components.deep_view(),
                models0,
                request_path@,
                list.deep_view().skip(i as int),
                variants.deep_view(),
            ),
        decreases list.len() - i,
    {
        proof {
            let rest = list.deep_view().skip(i as int);
            assert(rest[0] == list.deep_view()[i as int]);
            assert(rest.drop_first() =~= list.deep_view().skip(i as int + 1));
            assert(list.deep_view()[i as int] == (list[i as int].0, list[i as int].1.deep_view()));
        }
        let ident = match status_code_tokens(&list[i].0) {
            Err(e) => {
                return Err(e);
            },
            Ok(ident) => ident,
        };
        let code = match list[i].0 {
            StatusCode::Code(code) => code,
            StatusCode::Range(digit) => digit,
        };
        let variant = match gen_response(
            components,
            models,
            request_path,
            ident,
            Some(code),
            &list[i].1,
        ) {
            Err(e) => {
                return Err(e);
            },
            Ok(variant) => variant,
        };
        push_item(&mut variants, variant);
        i += 1;
    }
    match &responses.default {
        None => Ok(variants),
        Some(r) => {
            match gen_response(
                components,
                models,
                request_path,
                String::from_str("Default"),
                None,
                r,
            ) {
                Err(e) => Err(e),
                Ok(variant) => {
                    push_item(&mut variants, variant);
                    Ok(variants)
                },
            }
        },
    }
}

/// Whether an operation asks for authentication: it does unless one of its
/// security requirements is empty. An operation that declares no security at
/// all is authenticated.
#[verifier::loop_isolation(false)]
pub fn requires_authentication(security: &Option<Vec<Vec<String>>>) -> (r: bool)
    ensures
        r == is_authenticated(security.deep_view()),
{
    match security {
        None => true,
        Some(requirements) => {
            let mut i: usize = 0;
            while i < requirements.len()
                invariant
                    i <= requirements.len(),
                    forall|j: int|
                        0 <= j < i ==> (#[trigger] requirements.deep_view()[j]).len() != 0,
                decreases requirements.len() - i,
            {
                assert(requirements.deep_view()[i as int].len() == requirements[i as int].len());
                if requirements[i].len() == 0 {
                    proof {
                        let reqs = security.deep_view()->0;
                        assert(reqs =~= requirements.deep_view());
                        assert(reqs[i as int].len() == 0);
                        assert(exists|j: int| 0 <= j < reqs.len() && (#[trigger] reqs[j]).len() == 0);
                    }
                    return false;
                }
                i += 1;
            }
            true
        },
    }
}

/// The plans for the parameters of an operation, in order.
#[verifier::loop_isolation(false)]
pub fn gen_request_parameters(
    components: &Components,
    models: &mut Vec<CompiledType>,
    parameters: &Vec<RefOr<Parameter>>,
) -> (res: Result<Vec<RequestParameter>, CompileError>)
    ensures
        agrees(
            res,
            parameter_plans(
                components.deep_view(),
                old(models).deep_view(),
                parameters.deep_view(),
                Seq::empty(),
            ),
        ),
        res is Ok ==> final(models).deep_view() == old(models).deep_view(),
{
    let ghost models0 = models.deep_view();
    let mut plans: Vec<RequestParameter> = Vec::new();
    let mut i: usize = 0;
    proof {
        assert(plans.deep_view() =~= Seq::empty());
        assert(parameters.deep_view().skip(0) =~= parameters.deep_view());
    }
    while i < parameters.len()
        invariant
            i <= parameters.len(),
            models.deep_view() == models0,
            parameter_plans(
                components.deep_view(),
                models0,
                parameters.deep_view(),
                Seq::empty(),
            ) == parameter_plans(
                components.deep_view(),
                models0,
                parameters.deep_view().skip(i as int),
                plans.deep_view(),
            ),
        decreases parameters.len() - i,
    {
        proof {
            let rest = parameters.deep_view().skip(i as int);
            assert(rest[0] == parameters.deep_view()[i as int]);
            assert(rest.drop_first() =~= parameters.deep_view().skip(i as int + 1));
        }
        let parameter = match resolve_local(
            &components.parameters,
            "#/components/parameters/",
            &parameters[i],
        ) {
            Err(e) => {
                return Err(e);
            },
            Ok(parameter) => parameter,
        };
        let plan = match gen_request_parameter(parameter, &components.schemas, models) {
            Err(e) => {
                return Err(e);
            },
            Ok(plan) => plan,
        };
        push_item(&mut plans, plan);
        i += 1;
    }
    Ok(plans)
}

/// The plan for one operation. The operation must have an operation id; the
/// handler's method, the wrapper and the type of the responses are named after
/// it. The body is planned first, then the parameters, then the responses.
pub fn gen_api_operation(
    components: &Components,
    models: &mut Vec<CompiledType>,
    method: Method,
    request_path: &str,
    operation: &Operation,
) -> (res: Result<ApiOperation, CompileError>)
    ensures
        agrees(
            res,
            operation_plan(
                components.deep_view(),
                old(models).deep_view(),
                method,
                request_path@,
                operation.deep_view(),
            ),
        ),
        res is Ok ==> final(models).deep_view() == old(models).deep_view(),
{
    let operation_id = match &operation.operation_id {
        None => {
            return Err(error(CompileErrorKind::MissingOperationId, request_path));
        },
        Some(operation_id) => operation_id,
    };
    let body = match &operation.request_body {
        None => None,
        Some(r) => {
            let body = match resolve_local(
                &components.request_bodies,
                "#/components/requestBodies/",
                r,
            ) {
                Err(e) => {
                    return Err(e);
                },
                Ok(body) => body,
            };
            match gen_request_body(request_path, body, &components.schemas, models) {
                Err(e) => {
                    return Err(e);
                },
                Ok(plan) => plan,
            }
        },
    };
    let parameters = match gen_request_parameters(components, models, &operation.parameters) {
        Err(e) => {
            return Err(e);
        },
        Ok(parameters) => parameters,
    };
    let snake = to_snake_case(operation_id.as_str());
    let handler_ident = match identifier(snake.as_str()) {
        Err(e) => {
            return Err(e);
        },
        Ok(ident) => ident,
    };
    let wrapper_name = concat2("handle_", snake.as_str());
    let wrapper_ident = match parse_ident(wrapper_name.as_str()) {
        Some(ident) => {
            if str_eq(ident.as_str(), wrapper_name.as_str()) {
                ident
            } else {
                return Err(error(CompileErrorKind::InvalidIdentifier, wrapper_name.as_str()));
            }
        },
        None => {
            return Err(error(CompileErrorKind::InvalidIdentifier, wrapper_name.as_str()));
        },
    };
    let pascal = to_pascal_case(operation_id.as_str());
    let response_name = concat2(pascal.as_str(), "Response");
    let response_ident = match identifier(response_name.as_str()) {
        Err(e) => {
            return Err(e);
        },
        Ok(ident) => ident,
    };
    let responses = match gen_responses(components, models, request_path, &operation.responses) {
        Err(e) => {
            return Err(e);
        },
        Ok(responses) => responses,
    };
    Ok(
        ApiOperation {
            operation_id: operation_id.clone(),
            method,
            request_path: String::from_str(request_path),
            handler_ident,
            wrapper_ident,
            response_ident,
            parameters,
            body,
            responses,
            authenticated: requires_authentication(&operation.security),
            description: copy_text(&operation.description),
        },
    )
}

} // verus!
