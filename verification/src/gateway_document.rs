//! The gateway transformer, on the parts of a document around its schemas.
use vstd::prelude::*;
use vstd::string::*;
use crate::arn::InvocationArn;
use crate::copy::{copy_integration, copy_opaques, copy_security, copy_strings};
use crate::document::{
    Components, Header, Integration, MediaType, Method, OpenApi, Operation, Parameter,
    ParameterFormat, PathItem, RefOr, RequestBody, Response, Responses, StatusCode,
};
use crate::gateway::{transform_properties, transform_schema_ref};
use crate::gateway_spec::{
    gateway_callback_paths, gateway_callbacks, gateway_components, gateway_content,
    gateway_content_entry, gateway_document, gateway_format, gateway_header, gateway_media,
    gateway_named_header, gateway_named_headers, gateway_named_parameter, gateway_named_parameters,
    gateway_named_request_bodies, gateway_named_request_body, gateway_named_response,
    gateway_named_responses, gateway_operation, gateway_operations, gateway_parameter,
    gateway_parameters, gateway_path_item, gateway_request_body, gateway_response,
    gateway_responses, gateway_status_response, gateway_status_responses, settled_operations,
    settled_paths, swap_removed, without_paths, Settled,
};
use crate::ir::{CompileError, CompileErrorKind};
use crate::model::{agrees, copy_text, error, push_item};
use crate::table::find_key;
use crate::text::contains_str;

verus! {

/// Transforms what stands under a media type.
pub fn transform_media_type(media: &MediaType) -> (res: Result<MediaType, CompileError>)
    ensures
        agrees(res, gateway_media(media.deep_view())),
{
    match &media.schema {
        None => Ok(MediaType { schema: None, examples: copy_opaques(&media.examples), rest: media.rest.clone() }),
        Some(r) => {
            match transform_schema_ref(r) {
                Err(e) => Err(e),
                Ok(made) => Ok(MediaType { schema: Some(made), examples: copy_opaques(&media.examples), rest: media.rest.clone() }),
            }
        },
    }
}

/// Transforms one entry of the content of a body.
pub fn transform_content_entry(entry: &(String, MediaType)) -> (res: Result<
    (String, MediaType),
    CompileError,
>)
    ensures
        agrees(res, gateway_content_entry(entry.deep_view())),
{
    match transform_media_type(&entry.1) {
        Err(e) => Err(e),
        Ok(made) => Ok((entry.0.clone(), made)),
    }
}

/// Transforms the content of a body.
#[verifier::loop_isolation(false)]
pub fn transform_content(
    list: &Vec<(String, MediaType)>,
) -> (res: Result<Vec<(String, MediaType)>, CompileError>)
    ensures
        agrees(res, gateway_content(list.deep_view(), Seq::empty())),
{
    let mut out: Vec<(String, MediaType)> = Vec::new();
    let mut i: usize = 0;
    proof {
        assert(out.deep_view() =~= Seq::empty());
        assert(list.deep_view().skip(0) =~= list.deep_view());
    }
    while i < list.len()
        invariant
            i <= list.len(),
            gateway_content(list.deep_view(), Seq::empty()) == gateway_content(
                list.deep_view().skip(i as int),
                out.deep_view(),
            ),
        decreases list.len() - i,
    {
        proof {
            let rest = list.deep_view().skip(i as int);
            assert(rest[0] == list.deep_view()[i as int]);
            assert(rest.drop_first() =~= list.deep_view().skip(i as int + 1));
        }
        let made = match transform_content_entry(&list[i]) {
            Err(e) => {
                return Err(e);
            },
            Ok(made) => made,
        };
        push_item(&mut out, made);
        i += 1;
    }
    Ok(out)
}

/// Transforms the description of the value of a parameter or header.
pub fn transform_parameter_schema_or_content(format: &ParameterFormat) -> (res: Result<
    ParameterFormat,
    CompileError,
>)
    ensures
        agrees(res, gateway_format(format.deep_view())),
{
    match format {
        ParameterFormat::Schema(r) => {
            match transform_schema_ref(r) {
                Err(e) => Err(e),
                Ok(made) => Ok(ParameterFormat::Schema(made)),
            }
        },
        ParameterFormat::Content(content) => {
            match transform_content(content) {
                Err(e) => Err(e),
                Ok(made) => Ok(ParameterFormat::Content(made)),
            }
        },
    }
}

/// Transforms a parameter; a reference to one stays as it is.
pub fn transform_parameter(r: &RefOr<Parameter>) -> (res: Result<RefOr<Parameter>, CompileError>)
    ensures
        agrees(res, gateway_parameter(r.deep_view())),
{
    match r {
        RefOr::Reference(reference) => Ok(RefOr::Reference(reference.clone())),
        RefOr::Item(parameter) => {
            match transform_parameter_schema_or_content(&parameter.format) {
                Err(e) => Err(e),
                Ok(format) => Ok(
                    RefOr::Item(
                        Parameter {
                            location: parameter.location,
                            name: parameter.name.clone(),
                            description: copy_text(&parameter.description),
                            required: parameter.required,
                            format,
                            examples: copy_opaques(&parameter.examples),
                            rest: parameter.rest.clone(),
                        },
                    ),
                ),
            }
        },
    }
}

/// Transforms a header; a reference to one stays as it is.
pub fn transform_header(r: &RefOr<Header>) -> (res: Result<RefOr<Header>, CompileError>)
    ensures
        agrees(res, gateway_header(r.deep_view())),
{
    match r {
        RefOr::Reference(reference) => Ok(RefOr::Reference(reference.clone())),
        RefOr::Item(header) => {
            match transform_parameter_schema_or_content(&header.format) {
                Err(e) => Err(e),
                Ok(format) => Ok(RefOr::Item(Header { format, examples: copy_opaques(&header.examples), rest: header.rest.clone() })),
            }
        },
    }
}

/// Transforms a named header.
pub fn transform_named_header(entry: &(String, RefOr<Header>)) -> (res: Result<
    (String, RefOr<Header>),
    CompileError,
>)
    ensures
        agrees(res, gateway_named_header(entry.deep_view())),
{
    match transform_header(&entry.1) {
        Err(e) => Err(e),
        Ok(made) => Ok((entry.0.clone(), made)),
    }
}

/// Transforms a named parameter.
pub fn transform_named_parameter(entry: &(String, RefOr<Parameter>)) -> (res: Result<
    (String, RefOr<Parameter>),
    CompileError,
>)
    ensures
        agrees(res, gateway_named_parameter(entry.deep_view())),
{
    match transform_parameter(&entry.1) {
        Err(e) => Err(e),
        Ok(made) => Ok((entry.0.clone(), made)),
    }
}

/// Transforms a list of parameters.
#[verifier::loop_isolation(false)]
pub fn transform_parameters(
    list: &Vec<RefOr<Parameter>>,
) -> (res: Result<Vec<RefOr<Parameter>>, CompileError>)
    ensures
        agrees(res, gateway_parameters(list.deep_view(), Seq::empty())),
{
    let mut out: Vec<RefOr<Parameter>> = Vec::new();
    let mut i: usize = 0;
    proof {
        assert(out.deep_view() =~= Seq::empty());
        assert(list.deep_view().skip(0) =~= list.deep_view());
    }
    while i < list.len()
        invariant
            i <= list.len(),
            gateway_parameters(list.deep_view(), Seq::empty()) == gateway_parameters(
                list.deep_view().skip(i as int),
                out.deep_view(),
            ),
        decreases list.len() - i,
    {
        proof {
            let rest = list.deep_view().skip(i as int);
            assert(rest[0] == list.deep_view()[i as int]);
            assert(rest.drop_first() =~= list.deep_view().skip(i as int + 1));
        }
        let made = match transform_parameter(&list[i]) {
            Err(e) => {
                return Err(e);
            },
            Ok(made) => made,
        };
        push_item(&mut out, made);
        i += 1;
    }
    Ok(out)
}

/// Transforms the shared parameters.
#[verifier::loop_isolation(false)]
pub fn transform_named_parameters(
    list: &Vec<(String, RefOr<Parameter>)>,
) -> (res: Result<Vec<(String, RefOr<Parameter>)>, CompileError>)
    ensures
        agrees(res, gateway_named_parameters(list.deep_view(), Seq::empty())),
{
    let mut out: Vec<(String, RefOr<Parameter>)> = Vec::new();
    let mut i: usize = 0;
    proof {
        assert(out.deep_view() =~= Seq::empty());
        assert(list.deep_view().skip(0) =~= list.deep_view());
    }
    while i < list.len()
        invariant
            i <= list.len(),
            gateway_named_parameters(list.deep_view(), Seq::empty()) == gateway_named_parameters(
                list.deep_view().skip(i as int),
                out.deep_view(),
            ),
        decreases list.len() - i,
    {
        proof {
            let rest = list.deep_view().skip(i as int);
            assert(rest[0] == list.deep_view()[i as int]);
            assert(rest.drop_first() =~= list.deep_view().skip(i as int + 1));
        }
        let made = match transform_named_parameter(&list[i]) {
            Err(e) => {
                return Err(e);
            },
            Ok(made) => made,
        };
        push_item(&mut out, made);
        i += 1;
    }
    Ok(out)
}

/// Transforms a list of named headers.
#[verifier::loop_isolation(false)]
pub fn transform_named_headers(
    list: &Vec<(String, RefOr<Header>)>,
) -> (res: Result<Vec<(String, RefOr<Header>)>, CompileError>)
    ensures
        agrees(res, gateway_named_headers(list.deep_view(), Seq::empty())),
{
    let mut out: Vec<(String, RefOr<Header>)> = Vec::new();
    let mut i: usize = 0;
    proof {
        assert(out.deep_view() =~= Seq::empty());
        assert(list.deep_view().skip(0) =~= list.deep_view());
    }
    while i < list.len()
        invariant
            i <= list.len(),
            gateway_named_headers(list.deep_view(), Seq::empty()) == gateway_named_headers(
                list.deep_view().skip(i as int),
                out.deep_view(),
            ),
        decreases list.len() - i,
    {
        proof {
            let rest = list.deep_view().skip(i as int);
            assert(rest[0] == list.deep_view()[i as int]);
            assert(rest.drop_first() =~= list.deep_view().skip(i as int + 1));
        }
        let made = match transform_named_header(&list[i]) {
            Err(e) => {
                return Err(e);
            },
            Ok(made) => made,
        };
        push_item(&mut out, made);
        i += 1;
    }
    Ok(out)
}

/// Transforms the body of a request; a reference to one stays as it is.
pub fn transform_request_body(r: &RefOr<RequestBody>) -> (res: Result<
    RefOr<RequestBody>,
    CompileError,
>)
    ensures
        agrees(res, gateway_request_body(r.deep_view())),
{
    match r {
        RefOr::Reference(reference) => Ok(RefOr::Reference(reference.clone())),
        RefOr::Item(body) => {
            match transform_content(&body.content) {
                Err(e) => Err(e),
                Ok(content) => Ok(
                    RefOr::Item(
                        RequestBody {
                            description: copy_text(&body.description),
                            content,
                            required: body.required,
                            rest: body.rest.clone(),
                        },
                    ),
                ),
            }
        },
    }
}

/// Transforms a named request body.
pub fn transform_named_request_body(entry: &(String, RefOr<RequestBody>)) -> (res: Result<
    (String, RefOr<RequestBody>),
    CompileError,
>)
    ensures
        agrees(res, gateway_named_request_body(entry.deep_view())),
{
    match transform_request_body(&entry.1) {
        Err(e) => Err(e),
        Ok(made) => Ok((entry.0.clone(), made)),
    }
}

/// Transforms the shared request bodies.
#[verifier::loop_isolation(false)]
pub fn transform_named_request_bodies(
    list: &Vec<(String, RefOr<RequestBody>)>,
) -> (res: Result<Vec<(String, RefOr<RequestBody>)>, CompileError>)
    ensures
        agrees(res, gateway_named_request_bodies(list.deep_view(), Seq::empty())),
{
    let mut out: Vec<(String, RefOr<RequestBody>)> = Vec::new();
    let mut i: usize = 0;
    proof {
        assert(out.deep_view() =~= Seq::empty());
        assert(list.deep_view().skip(0) =~= list.deep_view());
    }
    while i < list.len()
        invariant
            i <= list.len(),
            gateway_named_request_bodies(list.deep_view(), Seq::empty()) == gateway_named_request_bodies(
                list.deep_view().skip(i as int),
                out.deep_view(),
            ),
        decreases list.len() - i,
    {
        proof {
            let rest = list.deep_view().skip(i as int);
            assert(rest[0] == list.deep_view()[i as int]);
            assert(rest.drop_first() =~= list.deep_view().skip(i as int + 1));
        }
        let made = match transform_named_request_body(&list[i]) {
            Err(e) => {
                return Err(e);
            },
            Ok(made) => made,
        };
        push_item(&mut out, made);
        i += 1;
    }
    Ok(out)
}

/// Transforms a response, its headers before its content; a reference to one
/// stays as it is.
pub fn transform_response(r: &RefOr<Response>) -> (res: Result<RefOr<Response>, CompileError>)
    ensures
        agrees(res, gateway_response(r.deep_view())),
{
    match r {
        RefOr::Reference(reference) => Ok(RefOr::Reference(reference.clone())),
        RefOr::Item(response) => {
            let headers = match transform_named_headers(&response.headers) {
                Err(e) => {
                    return Err(e);
                },
                Ok(headers) => headers,
            };
            match transform_content(&response.content) {
                Err(e) => Err(e),
                Ok(content) => Ok(
                    RefOr::Item(
                        Response {
                            description: response.description.clone(),
                            headers,
                            content,
                            links: copy_opaques(&response.links),
                            rest: response.rest.clone(),
                        },
                    ),
                ),
            }
        },
    }
}

/// Transforms a named response.
pub fn transform_named_response(entry: &(String, RefOr<Response>)) -> (res: Result<
    (String, RefOr<Response>),
    CompileError,
>)
    ensures
        agrees(res, gateway_named_response(entry.deep_view())),
{
    match transform_response(&entry.1) {
        Err(e) => Err(e),
        Ok(made) => Ok((entry.0.clone(), made)),
    }
}

/// Transforms a response under its status.
pub fn transform_status_response(entry: &(StatusCode, RefOr<Response>)) -> (res: Result<
    (StatusCode, RefOr<Response>),
    CompileError,
>)
    ensures
        agrees(res, gateway_status_response(entry.deep_view())),
{
    match transform_response(&entry.1) {
        Err(e) => Err(e),
        Ok(made) => Ok((entry.0, made)),
    }
}

/// Transforms the shared responses.
#[verifier::loop_isolation(false)]
pub fn transform_named_responses(
    list: &Vec<(String, RefOr<Response>)>,
) -> (res: Result<Vec<(String, RefOr<Response>)>, CompileError>)
    ensures
        agrees(res, gateway_named_responses(list.deep_view(), Seq::empty())),
{
    let mut out: Vec<(String, RefOr<Response>)> = Vec::new();
    let mut i: usize = 0;
    proof {
        assert(out.deep_view() =~= Seq::empty());
        assert(list.deep_view().skip(0) =~= list.deep_view());
    }
    while i < list.len()
        invariant
            i <= list.len(),
            gateway_named_responses(list.deep_view(), Seq::empty()) == gateway_named_responses(
                list.deep_view().skip(i as int),
                out.deep_view(),
            ),
        decreases list.len() - i,
    {
        proof {
            let rest = list.deep_view().skip(i as int);
            assert(rest[0] == list.deep_view()[i as int]);
            assert(rest.drop_first() =~= list.deep_view().skip(i as int + 1));
        }
        let made = match transform_named_response(&list[i]) {
            Err(e) => {
                return Err(e);
            },
            Ok(made) => made,
        };
        push_item(&mut out, made);
        i += 1;
    }
    Ok(out)
}

/// Transforms the responses of an operation by status.
#[verifier::loop_isolation(false)]
pub fn transform_status_responses(
    list: &Vec<(StatusCode, RefOr<Response>)>,
) -> (res: Result<Vec<(StatusCode, RefOr<Response>)>, CompileError>)
    ensures
        agrees(res, gateway_status_responses(list.deep_view(), Seq::empty())),
{
    let mut out: Vec<(StatusCode, RefOr<Response>)> = Vec::new();
    let mut i: usize = 0;
    proof {
        assert(out.deep_view() =~= Seq::empty());
        assert(list.deep_view().skip(0) =~= list.deep_view());
    }
    while i < list.len()
        invariant
            i <= list.len(),
            gateway_status_responses(list.deep_view(), Seq::empty()) == gateway_status_responses(
                list.deep_view().skip(i as int),
                out.deep_view(),
            ),
        decreases list.len() - i,
    {
        proof {
            let rest = list.deep_view().skip(i as int);
            assert(rest[0] == list.deep_view()[i as int]);
            assert(rest.drop_first() =~= list.deep_view().skip(i as int + 1));
        }
        let made = match transform_status_response(&list[i]) {
            Err(e) => {
                return Err(e);
            },
            Ok(made) => made,
        };
        push_item(&mut out, made);
        i += 1;
    }
    Ok(out)
}

/// Transforms the responses of an operation: the default response first,
/// then the others.
pub fn transform_responses(responses: &Responses) -> (res: Result<Responses, CompileError>)
    ensures
        agrees(res, gateway_responses(responses.deep_view())),
{
    let default = match &responses.default {
        None => None,
        Some(r) => {
            match transform_response(r) {
                Err(e) => {
                    return Err(e);
                },
                Ok(made) => Some(made),
            }
        },
    };
    match transform_status_responses(&responses.responses) {
        Err(e) => Err(e),
        Ok(list) => Ok(Responses { default, responses: list }),
    }
}

/// Transforms an operation: its parameters, then the body of its request,
/// then its responses.
pub fn transform_operation(entry: &(Method, Operation)) -> (res: Result<
    (Method, Operation),
    CompileError,
>)
    ensures
        agrees(res, gateway_operation(entry.deep_view())),
{
    let operation = &entry.1;
    let parameters = match transform_parameters(&operation.parameters) {
        Err(e) => {
            return Err(e);
        },
        Ok(parameters) => parameters,
    };
    let request_body = match &operation.request_body {
        None => None,
        Some(r) => {
            match transform_request_body(r) {
                Err(e) => {
                    return Err(e);
                },
                Ok(made) => Some(made),
            }
        },
    };
    match transform_responses(&operation.responses) {
        Err(e) => Err(e),
        Ok(responses) => Ok(
            (
                entry.0,
                Operation {
                    operation_id: copy_text(&operation.operation_id),
                    tags: copy_strings(&operation.tags),
                    description: copy_text(&operation.description),
                    parameters,
                    request_body,
                    responses,
                    security: copy_security(&operation.security),
                    integration: copy_integration(&operation.integration),
                    rest: operation.rest.clone(),
                },
            ),
        ),
    }
}

/// Transforms the operations of a path.
#[verifier::loop_isolation(false)]
pub fn transform_operations(
    list: &Vec<(Method, Operation)>,
) -> (res: Result<Vec<(Method, Operation)>, CompileError>)
    ensures
        agrees(res, gateway_operations(list.deep_view(), Seq::empty())),
{
    let mut out: Vec<(Method, Operation)> = Vec::new();
    let mut i: usize = 0;
    proof {
        assert(out.deep_view() =~= Seq::empty());
        assert(list.deep_view().skip(0) =~= list.deep_view());
    }
    while i < list.len()
        invariant
            i <= list.len(),
            gateway_operations(list.deep_view(), Seq::empty()) == gateway_operations(
                list.deep_view().skip(i as int),
                out.deep_view(),
            ),
        decreases list.len() - i,
    {
        proof {
            let rest = list.deep_view().skip(i as int);
            assert(rest[0] == list.deep_view()[i as int]);
            assert(rest.drop_first() =~= list.deep_view().skip(i as int + 1));
        }
        let made = match transform_operation(&list[i]) {
            Err(e) => {
                return Err(e);
            },
            Ok(made) => made,
        };
        push_item(&mut out, made);
        i += 1;
    }
    Ok(out)
}

/// Transforms what stands under a path: its operations, then the
/// parameters they share.
pub fn transform_path_item(item: &PathItem) -> (res: Result<PathItem, CompileError>)
    ensures
        agrees(res, gateway_path_item(item.deep_view())),
{
    let operations = match transform_operations(&item.operations) {
        Err(e) => {
            return Err(e);
        },
        Ok(operations) => operations,
    };
    match transform_parameters(&item.parameters) {
        Err(e) => Err(e),
        Ok(parameters) => Ok(PathItem { operations, parameters, rest: item.rest.clone() }),
    }
}

/// Transforms the paths of a callback; a reference to what stands under a
/// path stays as it is.
#[verifier::loop_isolation(false)]
pub fn transform_callback(list: &Vec<(String, RefOr<PathItem>)>) -> (res: Result<
    Vec<(String, RefOr<PathItem>)>,
    CompileError,
>)
    ensures
        agrees(res, gateway_callback_paths(list.deep_view(), Seq::empty())),
{
    let mut out: Vec<(String, RefOr<PathItem>)> = Vec::new();
    let mut i: usize = 0;
    proof {
        assert(out.deep_view() =~= Seq::empty());
        assert(list.deep_view().skip(0) =~= list.deep_view());
    }
    while i < list.len()
        invariant
            i <= list.len(),
            gateway_callback_paths(list.deep_view(), Seq::empty()) == gateway_callback_paths(
                list.deep_view().skip(i as int),
                out.deep_view(),
            ),
        decreases list.len() - i,
    {
        proof {
            let rest = list.deep_view().skip(i as int);
            assert(rest[0] == list[i as int].deep_view());
            assert(rest.drop_first() =~= list.deep_view().skip(i as int + 1));
        }
        let made = match &list[i].1 {
            RefOr::Reference(reference) => RefOr::Reference(reference.clone()),
            RefOr::Item(item) => match transform_path_item(item) {
                Err(e) => {
                    return Err(e);
                },
                Ok(made) => RefOr::Item(made),
            },
        };
        push_item(&mut out, (list[i].0.clone(), made));
        i += 1;
    }
    Ok(out)
}

/// Transforms the shared callbacks; a reference to a callback stays as it
/// is.
#[verifier::loop_isolation(false)]
pub fn transform_callbacks(list: &Vec<(String, RefOr<Vec<(String, RefOr<PathItem>)>>)>) -> (res:
    Result<Vec<(String, RefOr<Vec<(String, RefOr<PathItem>)>>)>, CompileError>)
    ensures
        agrees(res, gateway_callbacks(list.deep_view(), Seq::empty())),
{
    let mut out: Vec<(String, RefOr<Vec<(String, RefOr<PathItem>)>>)> = Vec::new();
    let mut i: usize = 0;
    proof {
        assert(out.deep_view() =~= Seq::empty());
        assert(list.deep_view().skip(0) =~= list.deep_view());
    }
    while i < list.len()
        invariant
            i <= list.len(),
            gateway_callbacks(list.deep_view(), Seq::empty()) == gateway_callbacks(
                list.deep_view().skip(i as int),
                out.deep_view(),
            ),
        decreases list.len() - i,
    {
        proof {
            let rest = list.deep_view().skip(i as int);
            assert(rest[0] == list[i as int].deep_view());
            assert(rest.drop_first() =~= list.deep_view().skip(i as int + 1));
        }
        let made = match &list[i].1 {
            RefOr::Reference(reference) => RefOr::Reference(reference.clone()),
            RefOr::Item(paths) => match transform_callback(paths) {
                Err(e) => {
                    return Err(e);
                },
                Ok(made) => RefOr::Item(made),
            },
        };
        push_item(&mut out, (list[i].0.clone(), made));
        i += 1;
    }
    Ok(out)
}

/// Transforms the shared parts of a document: responses, parameters, request
/// bodies, headers, schemas and callbacks, in this order.
pub fn transform_components(components: &Components) -> (res: Result<Components, CompileError>)
    ensures
        agrees(res, gateway_components(components.deep_view())),
{
    let responses = match transform_named_responses(&components.responses) {
        Err(e) => {
            return Err(e);
        },
        Ok(responses) => responses,
    };
    let parameters = match transform_named_parameters(&components.parameters) {
        Err(e) => {
            return Err(e);
        },
        Ok(parameters) => parameters,
    };
    let request_bodies = match transform_named_request_bodies(&components.request_bodies) {
        Err(e) => {
            return Err(e);
        },
        Ok(request_bodies) => request_bodies,
    };
    let headers = match transform_named_headers(&components.headers) {
        Err(e) => {
            return Err(e);
        },
        Ok(headers) => headers,
    };
    let schemas = match transform_properties(&components.schemas) {
        Err(e) => {
            return Err(e);
        },
        Ok(schemas) => schemas,
    };
    match transform_callbacks(&components.callbacks) {
        Err(e) => Err(e),
        Ok(callbacks) => Ok(
            Components {
                schemas,
                responses,
                parameters,
                request_bodies,
                headers,
                security_schemes: copy_opaques(&components.security_schemes),
                examples: copy_opaques(&components.examples),
                links: copy_opaques(&components.links),
                callbacks,
            },
        ),
    }
}

/// Settles the operations of a path whose parts have been transformed: an
/// operation that is mapped to a function stays and is told its function; the
/// others go. `visited` gathers the operation ids of the whole document: one
/// that occurs twice is an error.
#[verifier::loop_isolation(false)]
pub fn settle_operations(
    lambdas: &Vec<(String, InvocationArn)>,
    operations: Vec<(Method, Operation)>,
    visited: &mut Vec<String>,
) -> (res: Result<Vec<(Method, Operation)>, CompileError>)
    ensures
        match settled_operations(
            lambdas.deep_view(),
            operations.deep_view(),
            old(visited).deep_view(),
            Seq::empty(),
        ) {
            Ok((kept, seen)) => res is Ok && res->Ok_0.deep_view() == kept
                && final(visited).deep_view() == seen,
            Err(e) => res is Err && res->Err_0.deep_view() == e,
        },
{
    let ghost goal = settled_operations(
        lambdas.deep_view(),
        operations.deep_view(),
        visited.deep_view(),
        Seq::empty(),
    );
    let ghost all = operations.deep_view();
    let mut rest = operations;
    let mut out: Vec<(Method, Operation)> = Vec::new();
    let ghost mut done: int = 0;
    proof {
        assert(out.deep_view() =~= Seq::empty());
        assert(all.skip(0) =~= all);
    }
    while rest.len() > 0
        invariant
            0 <= done <= all.len(),
            rest.len() == all.len() - done,
            rest.deep_view() =~= all.skip(done),
            goal == settled_operations(
                lambdas.deep_view(),
                all.skip(done),
                visited.deep_view(),
                out.deep_view(),
            ),
        decreases rest.len(),
    {
        let ghost before = rest.deep_view();
        let entry = rest.remove(0);
        proof {
            assert(entry.deep_view() == before[0]);
            assert(rest.deep_view() =~= before.drop_first());
            assert(before.drop_first() =~= all.skip(done + 1));
            done = done + 1;
        }
        let (method, operation) = entry;
        let found = match &operation.operation_id {
            None => None,
            Some(id) => {
                if contains_str(visited, id.as_str()) {
                    return Err(error(CompileErrorKind::DuplicateOperationId, id.as_str()));
                }
                push_item(visited, id.clone());
                let k = find_key(lambdas, id.as_str());
                if k < lambdas.len() {
                    assert(lambdas.deep_view()[k as int].1 == lambdas[k as int].1.deep_view());
                    Some(k)
                } else {
                    None
                }
            },
        };
        match found {
            None => {},
            Some(k) => {
                let Operation {
                    operation_id,
                    tags,
                    description,
                    parameters,
                    request_body,
                    responses,
                    security,
                    integration,
                    rest: remainder,
                } = operation;
                let told = Operation {
                    operation_id,
                    tags,
                    description,
                    parameters,
                    request_body,
                    responses,
                    security,
                    integration: Some(
                        Integration {
                            http_method: String::from_str("POST"),
                            kind: String::from_str("aws_proxy"),
                            uri: lambdas[k].1.text.clone(),
                            substituted: lambdas[k].1.substituted,
                        },
                    ),
                    rest: remainder,
                };
                push_item(&mut out, (method, told));
            },
        }
    }
    Ok(out)
}

/// Takes the named paths out of a list, one after the other; the last path
/// takes the place of the one that goes.
#[verifier::loop_isolation(false)]
pub fn remove_paths(paths: Vec<(String, RefOr<PathItem>)>, names: &Vec<String>) -> (r: Vec<
    (String, RefOr<PathItem>),
>)
    ensures
        r.deep_view() == without_paths(paths.deep_view(), names.deep_view()),
{
    let mut paths = paths;
    let ghost start = paths.deep_view();
    let mut i: usize = 0;
    proof {
        assert(names.deep_view().skip(0) =~= names.deep_view());
    }
    while i < names.len()
        invariant
            i <= names.len(),
            without_paths(start, names.deep_view()) == without_paths(
                paths.deep_view(),
                names.deep_view().skip(i as int),
            ),
        decreases names.len() - i,
    {
        proof {
            let rest = names.deep_view().skip(i as int);
            assert(rest[0] == names[i as int]@);
            assert(rest.drop_first() =~= names.deep_view().skip(i as int + 1));
        }
        let k = find_key(&paths, names[i].as_str());
        if k < paths.len() {
            let ghost before = paths.deep_view();
            let _ = paths.swap_remove(k);
            assert(paths.deep_view() =~= swap_removed(before, k as int));
        }
        i += 1;
    }
    paths
}

/// Prepares a document for the gateway. The gateway does not know
/// discriminators: they are taken out of every schema, once the property that
/// they name is required. Every operation that is mapped to a function is
/// told which function serves it; every other operation is taken out, and so
/// is every path that is left without an operation. Operation ids must be
/// unique in the whole document.
#[verifier::loop_isolation(false)]
pub fn transform_openapi(openapi: &OpenApi, lambdas: &Vec<(String, InvocationArn)>) -> (res: Result<
    OpenApi,
    CompileError,
>)
    ensures
        agrees(res, gateway_document(lambdas.deep_view(), openapi.deep_view())),
{
    let components = match &openapi.components {
        None => None,
        Some(c) => {
            match transform_components(c) {
                Err(e) => {
                    return Err(e);
                },
                Ok(made) => Some(made),
            }
        },
    };
    let paths = &openapi.paths;
    let mut kept: Vec<(String, RefOr<PathItem>)> = Vec::new();
    let mut emptied: Vec<String> = Vec::new();
    let mut visited: Vec<String> = Vec::new();
    let mut i: usize = 0;
    let ghost goal = settled_paths(
        lambdas.deep_view(),
        paths.deep_view(),
        Settled { paths: Seq::empty(), emptied: Seq::empty(), visited: Seq::empty() },
    );
    proof {
        assert(kept.deep_view() =~= Seq::empty());
        assert(emptied.deep_view() =~= Seq::empty());
        assert(visited.deep_view() =~= Seq::empty());
        assert(paths.deep_view().skip(0) =~= paths.deep_view());
    }
    while i < paths.len()
        invariant
            i <= paths.len(),
            goal == settled_paths(
                lambdas.deep_view(),
                paths.deep_view().skip(i as int),
                Settled {
                    paths: kept.deep_view(),
                    emptied: emptied.deep_view(),
                    visited: visited.deep_view(),
                },
            ),
        decreases paths.len() - i,
    {
        proof {
            let rest = paths.deep_view().skip(i as int);
            assert(rest[0] == paths.deep_view()[i as int]);
            assert(rest.drop_first() =~= paths.deep_view().skip(i as int + 1));
            assert(paths.deep_view()[i as int] == (paths[i as int].0@, paths[i as int].1.deep_view()));
        }
        match &paths[i].1 {
            RefOr::Reference(reference) => {
                push_item(&mut kept, (paths[i].0.clone(), RefOr::Reference(reference.clone())));
            },
            RefOr::Item(item) => {
                let made = match transform_path_item(item) {
                    Err(e) => {
                        return Err(e);
                    },
                    Ok(made) => made,
                };
                let PathItem { operations, parameters, rest } = made;
                let operations = match settle_operations(lambdas, operations, &mut visited) {
                    Err(e) => {
                        return Err(e);
                    },
                    Ok(operations) => operations,
                };
                if operations.len() == 0 {
                    push_item(&mut emptied, paths[i].0.clone());
                }
                push_item(
                    &mut kept,
                    (paths[i].0.clone(), RefOr::Item(PathItem { operations, parameters, rest })),
                );
            },
        }
        i += 1;
    }
    Ok(OpenApi { paths: remove_paths(kept, &emptied), components, rest: openapi.rest.clone() })
}

} // verus!
