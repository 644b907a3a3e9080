//! The schema namer, on the parts of a document around its schemas.
use vstd::prelude::*;
use vstd::string::*;
use crate::copy::{
    copy_callbacks, copy_integration, copy_opaques, copy_parameters, copy_properties,
    copy_request_body, copy_responses, copy_schema, copy_security, copy_strings,
};
use crate::document::{
    Components, Header, MediaType, Method, OpenApi, Operation, Parameter, ParameterFormat, PathItem,
    RefOr, RequestBody, Response, Responses, StatusCode,
};
use crate::ir::CompileError;
use crate::model::{agrees, copy_text, push_item};
use crate::naming::{threaded, visit_schema, visit_unnamed_schema};
use crate::naming_spec::{
    media_word, named_body_content, named_body_entry, named_components, named_document,
    named_format, named_header, named_headers, named_media, named_operation, named_operations,
    named_parameter, named_parameters, named_path, named_paths, named_plain_content,
    named_plain_entry, named_request_body, named_response, named_responses, named_shared_parameter,
    named_shared_parameters, named_shared_request_bodies, named_shared_request_body,
    named_shared_response, named_shared_responses, named_shared_schemas, named_status_response,
    named_status_responses, status_text,
};
use crate::outside::{essence_of, to_pascal_case};
use crate::schema::SchemaRef;
use crate::text::{concat2, concat3, decimal, str_eq};

verus! {

/// The word that stands for a media type in a name; empty for a media type
/// that cannot be read or that has no word.
pub fn media_type_or_range_name_pascal_case(mime: &str) -> (r: &'static str)
    ensures
        r@ == media_word(mime@),
{
    proof {
        reveal_strlit("");
    }
    match essence_of(mime) {
        None => "",
        Some(essence) => {
            let e = essence.as_str();
            if str_eq(e, "application/json") {
                "Json"
            } else if str_eq(e, "application/octet-stream") {
                "Binary"
            } else if str_eq(e, "application/xml") || str_eq(e, "text/xml") {
                "Xml"
            } else if str_eq(e, "image/gif") {
                "Gif"
            } else if str_eq(e, "image/jpeg") {
                "Jpeg"
            } else if str_eq(e, "image/png") {
                "Png"
            } else if str_eq(e, "image/svg+xml") {
                "Svg"
            } else if str_eq(e, "image/webp") {
                "Webp"
            } else if str_eq(e, "text/csv") {
                "Csv"
            } else if str_eq(e, "text/html") {
                "Html"
            } else if str_eq(e, "text/plain") {
                "PlainText"
            } else {
                ""
            }
        },
    }
}

/// How a status is written.
pub fn status_code_text(status: &StatusCode) -> (r: String)
    ensures
        r@ == status_text(*status),
{
    match status {
        StatusCode::Code(code) => decimal(*code as u128),
        StatusCode::Range(digit) => {
            let head = decimal(*digit as u128);
            concat2(head.as_str(), "XX")
        },
    }
}

/// Names the schema that stands under a media type.
pub fn visit_media_type(
    table: &mut Vec<(String, SchemaRef)>,
    context: &str,
    media: &MediaType,
) -> (res: Result<MediaType, CompileError>)
    ensures
        threaded(res, final(table).deep_view(), named_media(old(table).deep_view(), context@, media.deep_view())),
        final(table).len() >= old(table).len(),
{
    match &media.schema {
        None => Ok(MediaType { schema: None, examples: copy_opaques(&media.examples), rest: media.rest.clone() }),
        Some(r) => {
            match visit_unnamed_schema(table, r, context) {
                Err(e) => Err(e),
                Ok(made) => Ok(MediaType { schema: Some(made), examples: copy_opaques(&media.examples), rest: media.rest.clone() }),
            }
        },
    }
}

/// Names one entry of the content of a parameter.
pub fn visit_plain_entry(
    table: &mut Vec<(String, SchemaRef)>,
    context: &str,
    entry: &(String, MediaType),
) -> (res: Result<(String, MediaType), CompileError>)
    ensures
        threaded(res, final(table).deep_view(), named_plain_entry(old(table).deep_view(), context@, entry.deep_view())),
        final(table).len() >= old(table).len(),
{
    match visit_media_type(table, context, &entry.1) {
        Err(e) => Err(e),
        Ok(made) => Ok((entry.0.clone(), made)),
    }
}

/// Names one entry of the content of a body.
pub fn visit_body_entry(
    table: &mut Vec<(String, SchemaRef)>,
    context: &str,
    kind: &str,
    entry: &(String, MediaType),
) -> (res: Result<(String, MediaType), CompileError>)
    ensures
        threaded(res, final(table).deep_view(), named_body_entry(old(table).deep_view(), context@, kind@, entry.deep_view())),
        final(table).len() >= old(table).len(),
{
    let word = media_type_or_range_name_pascal_case(entry.0.as_str());
    let inner = concat3(context, word, kind);
    match visit_media_type(table, inner.as_str(), &entry.1) {
        Err(e) => Err(e),
        Ok(made) => Ok((entry.0.clone(), made)),
    }
}

/// Names the content of a parameter.
#[verifier::loop_isolation(false)]
pub fn visit_plain_content(
    table: &mut Vec<(String, SchemaRef)>,
    context: &str,
    list: &Vec<(String, MediaType)>,
) -> (res: Result<Vec<(String, MediaType)>, CompileError>)
    ensures
        threaded(
            res,
            final(table).deep_view(),
            named_plain_content(old(table).deep_view(), context@, list.deep_view(), Seq::empty()),
        ),
        final(table).len() >= old(table).len(),
{
    let ghost goal = named_plain_content(table.deep_view(), context@, list.deep_view(), Seq::empty());
    let mut out: Vec<(String, MediaType)> = Vec::new();
    let mut i: usize = 0;
    proof {
        assert(out.deep_view() =~= Seq::empty());
        assert(list.deep_view().skip(0) =~= list.deep_view());
    }
    while i < list.len()
        invariant
            i <= list.len(),
            table.len() >= old(table).len(),
            goal == named_plain_content(
                table.deep_view(),
                context@, list.deep_view().skip(i as int),
                out.deep_view(),
            ),
        decreases list.len() - i,
    {
        proof {
            let rest = list.deep_view().skip(i as int);
            assert(rest[0] == list.deep_view()[i as int]);
            assert(rest.drop_first() =~= list.deep_view().skip(i as int + 1));
        }
        let made = match visit_plain_entry(table, context, &list[i]) {
            Err(e) => {
                return Err(e);
            },
            Ok(made) => made,
        };
        push_item(&mut out, made);
        i += 1;
    }
    Ok(out)
}

/// Names the content of a body.
#[verifier::loop_isolation(false)]
pub fn visit_body_content(
    table: &mut Vec<(String, SchemaRef)>,
    context: &str,
    kind: &str,
    list: &Vec<(String, MediaType)>,
) -> (res: Result<Vec<(String, MediaType)>, CompileError>)
    ensures
        threaded(
            res,
            final(table).deep_view(),
            named_body_content(old(table).deep_view(), context@, kind@, list.deep_view(), Seq::empty()),
        ),
        final(table).len() >= old(table).len(),
{
    let ghost goal = named_body_content(table.deep_view(), context@, kind@, list.deep_view(), Seq::empty());
    let mut out: Vec<(String, MediaType)> = Vec::new();
    let mut i: usize = 0;
    proof {
        assert(out.deep_view() =~= Seq::empty());
        assert(list.deep_view().skip(0) =~= list.deep_view());
    }
    while i < list.len()
        invariant
            i <= list.len(),
            table.len() >= old(table).len(),
            goal == named_body_content(
                table.deep_view(),
                context@, kind@, list.deep_view().skip(i as int),
                out.deep_view(),
            ),
        decreases list.len() - i,
    {
        proof {
            let rest = list.deep_view().skip(i as int);
            assert(rest[0] == list.deep_view()[i as int]);
            assert(rest.drop_first() =~= list.deep_view().skip(i as int + 1));
        }
        let made = match visit_body_entry(table, context, kind, &list[i]) {
            Err(e) => {
                return Err(e);
            },
            Ok(made) => made,
        };
        push_item(&mut out, made);
        i += 1;
    }
    Ok(out)
}

/// Names the description of the value of a parameter or header.
pub fn visit_parameter_schema_or_content(
    table: &mut Vec<(String, SchemaRef)>,
    context: &str,
    format: &ParameterFormat,
) -> (res: Result<ParameterFormat, CompileError>)
    ensures
        threaded(res, final(table).deep_view(), named_format(old(table).deep_view(), context@, format.deep_view())),
        final(table).len() >= old(table).len(),
{
    match format {
        ParameterFormat::Schema(r) => {
            match visit_unnamed_schema(table, r, context) {
                Err(e) => Err(e),
                Ok(made) => Ok(ParameterFormat::Schema(made)),
            }
        },
        ParameterFormat::Content(content) => {
            match visit_plain_content(table, context, content) {
                Err(e) => Err(e),
                Ok(made) => Ok(ParameterFormat::Content(made)),
            }
        },
    }
}

/// Names the schemas of a parameter: the naming context is the given one,
/// the name of the parameter and `Param`. A reference stays.
pub fn visit_parameter(
    table: &mut Vec<(String, SchemaRef)>,
    context: &str,
    r: &RefOr<Parameter>,
) -> (res: Result<RefOr<Parameter>, CompileError>)
    ensures
        threaded(res, final(table).deep_view(), named_parameter(old(table).deep_view(), context@, r.deep_view())),
        final(table).len() >= old(table).len(),
{
    match r {
        RefOr::Reference(reference) => Ok(RefOr::Reference(reference.clone())),
        RefOr::Item(parameter) => {
            let pascal = to_pascal_case(parameter.name.as_str());
            let inner = concat3(context, pascal.as_str(), "Param");
            match visit_parameter_schema_or_content(table, inner.as_str(), &parameter.format) {
                Err(e) => Err(e),
                Ok(format) => Ok(
                    RefOr::Item(
                        Parameter {
                            location: parameter.location,
                            name: parameter.name.clone(),
                            description: copy_text(&parameter.description),
                            required: parameter.required,
                            format,
                            examples: copy_opaques(&parameter.examples),
                            rest: parameter.rest.clone(),
                        },
                    ),
                ),
            }
        },
    }
}

/// Names the schemas of a shared parameter, which is named after itself
/// alone.
pub fn visit_shared_parameter(
    table: &mut Vec<(String, SchemaRef)>,
    entry: &(String, RefOr<Parameter>),
) -> (res: Result<(String, RefOr<Parameter>), CompileError>)
    ensures
        threaded(res, final(table).deep_view(), named_shared_parameter(old(table).deep_view(), entry.deep_view())),
        final(table).len() >= old(table).len(),
{
    let nothing = String::new();
    match visit_parameter(table, nothing.as_str(), &entry.1) {
        Err(e) => Err(e),
        Ok(made) => Ok((entry.0.clone(), made)),
    }
}

/// Names the schemas of a named header: the naming context is the given
/// one, the name of the header and `Header`. A reference stays.
pub fn visit_header(
    table: &mut Vec<(String, SchemaRef)>,
    context: &str,
    entry: &(String, RefOr<Header>),
) -> (res: Result<(String, RefOr<Header>), CompileError>)
    ensures
        threaded(res, final(table).deep_view(), named_header(old(table).deep_view(), context@, entry.deep_view())),
        final(table).len() >= old(table).len(),
{
    match &entry.1 {
        RefOr::Reference(reference) => Ok((entry.0.clone(), RefOr::Reference(reference.clone()))),
        RefOr::Item(header) => {
            let pascal = to_pascal_case(entry.0.as_str());
            let inner = concat3(context, pascal.as_str(), "Header");
            match visit_parameter_schema_or_content(table, inner.as_str(), &header.format) {
                Err(e) => Err(e),
                Ok(format) => Ok(
                    (entry.0.clone(), RefOr::Item(Header { format, examples: copy_opaques(&header.examples), rest: header.rest.clone() })),
                ),
            }
        },
    }
}

/// Names the schemas of a list of parameters.
#[verifier::loop_isolation(false)]
pub fn visit_parameters(
    table: &mut Vec<(String, SchemaRef)>,
    context: &str,
    list: &Vec<RefOr<Parameter>>,
) -> (res: Result<Vec<RefOr<Parameter>>, CompileError>)
    ensures
        threaded(
            res,
            final(table).deep_view(),
            named_parameters(old(table).deep_view(), context@, list.deep_view(), Seq::empty()),
        ),
        final(table).len() >= old(table).len(),
{
    let ghost goal = named_parameters(table.deep_view(), context@, list.deep_view(), Seq::empty());
    let mut out: Vec<RefOr<Parameter>> = Vec::new();
    let mut i: usize = 0;
    proof {
        assert(out.deep_view() =~= Seq::empty());
        assert(list.deep_view().skip(0) =~= list.deep_view());
    }
    while i < list.len()
        invariant
            i <= list.len(),
            table.len() >= old(table).len(),
            goal == named_parameters(
                table.deep_view(),
                context@, list.deep_view().skip(i as int),
                out.deep_view(),
            ),
        decreases list.len() - i,
    {
        proof {
            let rest = list.deep_view().skip(i as int);
            assert(rest[0] == list.deep_view()[i as int]);
            assert(rest.drop_first() =~= list.deep_view().skip(i as int + 1));
        }
        let made = match visit_parameter(table, context, &list[i]) {
            Err(e) => {
                return Err(e);
            },
            Ok(made) => made,
        };
        push_item(&mut out, made);
        i += 1;
    }
    Ok(out)
}

/// Names the schemas of the shared parameters.
#[verifier::loop_isolation(false)]
pub fn visit_shared_parameters(
    table: &mut Vec<(String, SchemaRef)>,
    list: &Vec<(String, RefOr<Parameter>)>,
) -> (res: Result<Vec<(String, RefOr<Parameter>)>, CompileError>)
    ensures
        threaded(
            res,
            final(table).deep_view(),
            named_shared_parameters(old(table).deep_view(), list.deep_view(), Seq::empty()),
        ),
        final(table).len() >= old(table).len(),
{
    let ghost goal = named_shared_parameters(table.deep_view(), list.deep_view(), Seq::empty());
    let mut out: Vec<(String, RefOr<Parameter>)> = Vec::new();
    let mut i: usize = 0;
    proof {
        assert(out.deep_view() =~= Seq::empty());
        assert(list.deep_view().skip(0) =~= list.deep_view());
    }
    while i < list.len()
        invariant
            i <= list.len(),
            table.len() >= old(table).len(),
            goal == named_shared_parameters(
                table.deep_view(),
                list.deep_view().skip(i as int),
                out.deep_view(),
            ),
        decreases list.len() - i,
    {
        proof {
            let rest = list.deep_view().skip(i as int);
            assert(rest[0] == list.deep_view()[i as int]);
            assert(rest.drop_first() =~= list.deep_view().skip(i as int + 1));
        }
        let made = match visit_shared_parameter(table, &list[i]) {
            Err(e) => {
                return Err(e);
            },
            Ok(made) => made,
        };
        push_item(&mut out, made);
        i += 1;
    }
    Ok(out)
}

/// Names the schemas of a list of named headers.
#[verifier::loop_isolation(false)]
pub fn visit_headers(
    table: &mut Vec<(String, SchemaRef)>,
    context: &str,
    list: &Vec<(String, RefOr<Header>)>,
) -> (res: Result<Vec<(String, RefOr<Header>)>, CompileError>)
    ensures
        threaded(
            res,
            final(table).deep_view(),
            named_headers(old(table).deep_view(), context@, list.deep_view(), Seq::empty()),
        ),
        final(table).len() >= old(table).len(),
{
    let ghost goal = named_headers(table.deep_view(), context@, list.deep_view(), Seq::empty());
    let mut out: Vec<(String, RefOr<Header>)> = Vec::new();
    let mut i: usize = 0;
    proof {
        assert(out.deep_view() =~= Seq::empty());
        assert(list.deep_view().skip(0) =~= list.deep_view());
    }
    while i < list.len()
        invariant
            i <= list.len(),
            table.len() >= old(table).len(),
            goal == named_headers(
                table.deep_view(),
                context@, list.deep_view().skip(i as int),
                out.deep_view(),
            ),
        decreases list.len() - i,
    {
        proof {
            let rest = list.deep_view().skip(i as int);
            assert(rest[0] == list.deep_view()[i as int]);
            assert(rest.drop_first() =~= list.deep_view().skip(i as int + 1));
        }
        let made = match visit_header(table, context, &list[i]) {
            Err(e) => {
                return Err(e);
            },
            Ok(made) => made,
        };
        push_item(&mut out, made);
        i += 1;
    }
    Ok(out)
}

/// Names the schemas of the body of a request: for each media type the
/// naming context is the given one, the word for the media type and
/// `RequestBody`. A reference stays.
pub fn visit_request_body(
    table: &mut Vec<(String, SchemaRef)>,
    context: &str,
    r: &RefOr<RequestBody>,
) -> (res: Result<RefOr<RequestBody>, CompileError>)
    ensures
        threaded(res, final(table).deep_view(), named_request_body(old(table).deep_view(), context@, r.deep_view())),
        final(table).len() >= old(table).len(),
{
    match r {
        RefOr::Reference(reference) => Ok(RefOr::Reference(reference.clone())),
        RefOr::Item(body) => {
            match visit_body_content(table, context, "RequestBody", &body.content) {
                Err(e) => Err(e),
                Ok(content) => Ok(
                    RefOr::Item(
                        RequestBody {
                            description: copy_text(&body.description),
                            content,
                            required: body.required,
                            rest: body.rest.clone(),
                        },
                    ),
                ),
            }
        },
    }
}

/// Names the schemas of a shared request body, in the context of its name.
pub fn visit_shared_request_body(
    table: &mut Vec<(String, SchemaRef)>,
    entry: &(String, RefOr<RequestBody>),
) -> (res: Result<(String, RefOr<RequestBody>), CompileError>)
    ensures
        threaded(res, final(table).deep_view(), named_shared_request_body(old(table).deep_view(), entry.deep_view())),
        final(table).len() >= old(table).len(),
{
    let context = to_pascal_case(entry.0.as_str());
    match visit_request_body(table, context.as_str(), &entry.1) {
        Err(e) => Err(e),
        Ok(made) => Ok((entry.0.clone(), made)),
    }
}

/// Names the schemas of a response, its headers before its content: for
/// each media type the naming context is the given one, the word for the
/// media type and `ResponseBody`. A reference stays.
pub fn visit_response(
    table: &mut Vec<(String, SchemaRef)>,
    context: &str,
    r: &RefOr<Response>,
) -> (res: Result<RefOr<Response>, CompileError>)
    ensures
        threaded(res, final(table).deep_view(), named_response(old(table).deep_view(), context@, r.deep_view())),
        final(table).len() >= old(table).len(),
{
    match r {
        RefOr::Reference(reference) => Ok(RefOr::Reference(reference.clone())),
        RefOr::Item(response) => {
            let headers = match visit_headers(table, context, &response.headers) {
                Err(e) => {
                    return Err(e);
                },
                Ok(headers) => headers,
            };
            match visit_body_content(table, context, "ResponseBody", &response.content) {
                Err(e) => Err(e),
                Ok(content) => Ok(
                    RefOr::Item(
                        Response {
                            description: response.description.clone(),
                            headers,
                            content,
                            links: copy_opaques(&response.links),
                            rest: response.rest.clone(),
                        },
                    ),
                ),
            }
        },
    }
}

/// Names the schemas of a shared response, in the context of its name and
/// `Response`.
pub fn visit_shared_response(
    table: &mut Vec<(String, SchemaRef)>,
    entry: &(String, RefOr<Response>),
) -> (res: Result<(String, RefOr<Response>), CompileError>)
    ensures
        threaded(res, final(table).deep_view(), named_shared_response(old(table).deep_view(), entry.deep_view())),
        final(table).len() >= old(table).len(),
{
    let pascal = to_pascal_case(entry.0.as_str());
    let context = concat2(pascal.as_str(), "Response");
    match visit_response(table, context.as_str(), &entry.1) {
        Err(e) => Err(e),
        Ok(made) => Ok((entry.0.clone(), made)),
    }
}

/// Names the schemas of a response under its status, in the context of the
/// operation, the status and `Response`.
pub fn visit_status_response(
    table: &mut Vec<(String, SchemaRef)>,
    context: &str,
    entry: &(StatusCode, RefOr<Response>),
) -> (res: Result<(StatusCode, RefOr<Response>), CompileError>)
    ensures
        threaded(res, final(table).deep_view(), named_status_response(old(table).deep_view(), context@, entry.deep_view())),
        final(table).len() >= old(table).len(),
{
    let text = status_code_text(&entry.0);
    let pascal = to_pascal_case(text.as_str());
    let inner = concat3(context, pascal.as_str(), "Response");
    match visit_response(table, inner.as_str(), &entry.1) {
        Err(e) => Err(e),
        Ok(made) => Ok((entry.0, made)),
    }
}

/// Names the schemas of the shared request bodies.
#[verifier::loop_isolation(false)]
pub fn visit_shared_request_bodies(
    table: &mut Vec<(String, SchemaRef)>,
    list: &Vec<(String, RefOr<RequestBody>)>,
) -> (res: Result<Vec<(String, RefOr<RequestBody>)>, CompileError>)
    ensures
        threaded(
            res,
            final(table).deep_view(),
            named_shared_request_bodies(old(table).deep_view(), list.deep_view(), Seq::empty()),
        ),
        final(table).len() >= old(table).len(),
{
    let ghost goal = named_shared_request_bodies(table.deep_view(), list.deep_view(), Seq::empty());
    let mut out: Vec<(String, RefOr<RequestBody>)> = Vec::new();
    let mut i: usize = 0;
    proof {
        assert(out.deep_view() =~= Seq::empty());
        assert(list.deep_view().skip(0) =~= list.deep_view());
    }
    while i < list.len()
        invariant
            i <= list.len(),
            table.len() >= old(table).len(),
            goal == named_shared_request_bodies(
                table.deep_view(),
                list.deep_view().skip(i as int),
                out.deep_view(),
            ),
        decreases list.len() - i,
    {
        proof {
            let rest = list.deep_view().skip(i as int);
            assert(rest[0] == list.deep_view()[i as int]);
            assert(rest.drop_first() =~= list.deep_view().skip(i as int + 1));
        }
        let made = match visit_shared_request_body(table, &list[i]) {
            Err(e) => {
                return Err(e);
            },
            Ok(made) => made,
        };
        push_item(&mut out, made);
        i += 1;
    }
    Ok(out)
}

/// Names the schemas of the shared responses.
#[verifier::loop_isolation(false)]
pub fn visit_shared_responses(
    table: &mut Vec<(String, SchemaRef)>,
    list: &Vec<(String, RefOr<Response>)>,
) -> (res: Result<Vec<(String, RefOr<Response>)>, CompileError>)
    ensures
        threaded(
            res,
            final(table).deep_view(),
            named_shared_responses(old(table).deep_view(), list.deep_view(), Seq::empty()),
        ),
        final(table).len() >= old(table).len(),
{
    let ghost goal = named_shared_responses(table.deep_view(), list.deep_view(), Seq::empty());
    let mut out: Vec<(String, RefOr<Response>)> = Vec::new();
    let mut i: usize = 0;
    proof {
        assert(out.deep_view() =~= Seq::empty());
        assert(list.deep_view().skip(0) =~= list.deep_view());
    }
    while i < list.len()
        invariant
            i <= list.len(),
            table.len() >= old(table).len(),
            goal == named_shared_responses(
                table.deep_view(),
                list.deep_view().skip(i as int),
                out.deep_view(),
            ),
        decreases list.len() - i,
    {
        proof {
            let rest = list.deep_view().skip(i as int);
            assert(rest[0] == list.deep_view()[i as int]);
            assert(rest.drop_first() =~= list.deep_view().skip(i as int + 1));
        }
        let made = match visit_shared_response(table, &list[i]) {
            Err(e) => {
                return Err(e);
            },
            Ok(made) => made,
        };
        push_item(&mut out, made);
        i += 1;
    }
    Ok(out)
}

/// Names the schemas of the responses of an operation by status.
#[verifier::loop_isolation(false)]
pub fn visit_status_responses(
    table: &mut Vec<(String, SchemaRef)>,
    context: &str,
    list: &Vec<(StatusCode, RefOr<Response>)>,
) -> (res: Result<Vec<(StatusCode, RefOr<Response>)>, CompileError>)
    ensures
        threaded(
            res,
            final(table).deep_view(),
            named_status_responses(old(table).deep_view(), context@, list.deep_view(), Seq::empty()),
        ),
        final(table).len() >= old(table).len(),
{
    let ghost goal = named_status_responses(table.deep_view(), context@, list.deep_view(), Seq::empty());
    let mut out: Vec<(StatusCode, RefOr<Response>)> = Vec::new();
    let mut i: usize = 0;
    proof {
        assert(out.deep_view() =~= Seq::empty());
        assert(list.deep_view().skip(0) =~= list.deep_view());
    }
    while i < list.len()
        invariant
            i <= list.len(),
            table.len() >= old(table).len(),
            goal == named_status_responses(
                table.deep_view(),
                context@, list.deep_view().skip(i as int),
                out.deep_view(),
            ),
        decreases list.len() - i,
    {
        proof {
            let rest = list.deep_view().skip(i as int);
            assert(rest[0] == list.deep_view()[i as int]);
            assert(rest.drop_first() =~= list.deep_view().skip(i as int + 1));
        }
        let made = match visit_status_response(table, context, &list[i]) {
            Err(e) => {
                return Err(e);
            },
            Ok(made) => made,
        };
        push_item(&mut out, made);
        i += 1;
    }
    Ok(out)
}

/// Names the schemas of the responses of an operation: the default response
/// first, in the context of the operation and `DefaultResponse`, then the
/// others.
pub fn visit_responses(
    table: &mut Vec<(String, SchemaRef)>,
    context: &str,
    responses: &Responses,
) -> (res: Result<Responses, CompileError>)
    ensures
        threaded(res, final(table).deep_view(), named_responses(old(table).deep_view(), context@, responses.deep_view())),
        final(table).len() >= old(table).len(),
{
    let default = match &responses.default {
        None => None,
        Some(r) => {
            let inner = concat2(context, "DefaultResponse");
            match visit_response(table, inner.as_str(), r) {
                Err(e) => {
                    return Err(e);
                },
                Ok(made) => Some(made),
            }
        },
    };
    match visit_status_responses(table, context, &responses.responses) {
        Err(e) => Err(e),
        Ok(list) => Ok(Responses { default, responses: list }),
    }
}

/// Names the schemas of an operation in the context of its operation id:
/// its parameters, then the body of its request, then its responses. An
/// operation without an operation id is left as it is.
pub fn visit_operation(
    table: &mut Vec<(String, SchemaRef)>,
    entry: &(Method, Operation),
) -> (res: Result<(Method, Operation), CompileError>)
    ensures
        threaded(res, final(table).deep_view(), named_operation(old(table).deep_view(), entry.deep_view())),
        final(table).len() >= old(table).len(),
{
    let operation = &entry.1;
    let (parameters, request_body, responses) = match &operation.operation_id {
        None => (
            copy_parameters(&operation.parameters),
            copy_request_body(&operation.request_body),
            copy_responses(&operation.responses),
        ),
        Some(id) => {
            let context = to_pascal_case(id.as_str());
            let parameters = match visit_parameters(table, context.as_str(), &operation.parameters) {
                Err(e) => {
                    return Err(e);
                },
                Ok(parameters) => parameters,
            };
            let request_body = match &operation.request_body {
                None => None,
                Some(r) => {
                    match visit_request_body(table, context.as_str(), r) {
                        Err(e) => {
                            return Err(e);
                        },
                        Ok(made) => Some(made),
                    }
                },
            };
            let responses = match visit_responses(table, context.as_str(), &operation.responses) {
                Err(e) => {
                    return Err(e);
                },
                Ok(responses) => responses,
            };
            (parameters, request_body, responses)
        },
    };
    Ok(
        (
            entry.0,
            Operation {
                operation_id: copy_text(&operation.operation_id),
                tags: copy_strings(&operation.tags),
                description: copy_text(&operation.description),
                parameters,
                request_body,
                responses,
                security: copy_security(&operation.security),
                integration: copy_integration(&operation.integration),
                rest: operation.rest.clone(),
            },
        ),
    )
}

/// Names the schemas of the operations of a path.
#[verifier::loop_isolation(false)]
pub fn visit_operations(
    table: &mut Vec<(String, SchemaRef)>,
    list: &Vec<(Method, Operation)>,
) -> (res: Result<Vec<(Method, Operation)>, CompileError>)
    ensures
        threaded(
            res,
            final(table).deep_view(),
            named_operations(old(table).deep_view(), list.deep_view(), Seq::empty()),
        ),
        final(table).len() >= old(table).len(),
{
    let ghost goal = named_operations(table.deep_view(), list.deep_view(), Seq::empty());
    let mut out: Vec<(Method, Operation)> = Vec::new();
    let mut i: usize = 0;
    proof {
        assert(out.deep_view() =~= Seq::empty());
        assert(list.deep_view().skip(0) =~= list.deep_view());
    }
    while i < list.len()
        invariant
            i <= list.len(),
            table.len() >= old(table).len(),
            goal == named_operations(
                table.deep_view(),
                list.deep_view().skip(i as int),
                out.deep_view(),
            ),
        decreases list.len() - i,
    {
        proof {
            let rest = list.deep_view().skip(i as int);
            assert(rest[0] == list.deep_view()[i as int]);
            assert(rest.drop_first() =~= list.deep_view().skip(i as int + 1));
        }
        let made = match visit_operation(table, &list[i]) {
            Err(e) => {
                return Err(e);
            },
            Ok(made) => made,
        };
        push_item(&mut out, made);
        i += 1;
    }
    Ok(out)
}

/// Names the schemas of a path: its operations, then the parameters they
/// share, which are named after themselves alone. A path that is a reference
/// stays.
pub fn visit_path_item(
    table: &mut Vec<(String, SchemaRef)>,
    entry: &(String, RefOr<PathItem>),
) -> (res: Result<(String, RefOr<PathItem>), CompileError>)
    ensures
        threaded(res, final(table).deep_view(), named_path(old(table).deep_view(), entry.deep_view())),
        final(table).len() >= old(table).len(),
{
    match &entry.1 {
        RefOr::Reference(reference) => Ok((entry.0.clone(), RefOr::Reference(reference.clone()))),
        RefOr::Item(item) => {
            let operations = match visit_operations(table, &item.operations) {
                Err(e) => {
                    return Err(e);
                },
                Ok(operations) => operations,
            };
            let nothing = String::new();
            match visit_parameters(table, nothing.as_str(), &item.parameters) {
                Err(e) => Err(e),
                Ok(parameters) => Ok(
                    (
                        entry.0.clone(),
                        RefOr::Item(PathItem { operations, parameters, rest: item.rest.clone() }),
                    ),
                ),
            }
        },
    }
}

/// Names the schemas of the paths of a document.
#[verifier::loop_isolation(false)]
pub fn visit_paths(
    table: &mut Vec<(String, SchemaRef)>,
    list: &Vec<(String, RefOr<PathItem>)>,
) -> (res: Result<Vec<(String, RefOr<PathItem>)>, CompileError>)
    ensures
        threaded(
            res,
            final(table).deep_view(),
            named_paths(old(table).deep_view(), list.deep_view(), Seq::empty()),
        ),
        final(table).len() >= old(table).len(),
{
    let ghost goal = named_paths(table.deep_view(), list.deep_view(), Seq::empty());
    let mut out: Vec<(String, RefOr<PathItem>)> = Vec::new();
    let mut i: usize = 0;
    proof {
        assert(out.deep_view() =~= Seq::empty());
        assert(list.deep_view().skip(0) =~= list.deep_view());
    }
    while i < list.len()
        invariant
            i <= list.len(),
            table.len() >= old(table).len(),
            goal == named_paths(
                table.deep_view(),
                list.deep_view().skip(i as int),
                out.deep_view(),
            ),
        decreases list.len() - i,
    {
        proof {
            let rest = list.deep_view().skip(i as int);
            assert(rest[0] == list.deep_view()[i as int]);
            assert(rest.drop_first() =~= list.deep_view().skip(i as int + 1));
        }
        let made = match visit_path_item(table, &list[i]) {
            Err(e) => {
                return Err(e);
            },
            Ok(made) => made,
        };
        push_item(&mut out, made);
        i += 1;
    }
    Ok(out)
}

/// Names the schemas in the shared schemas that the table holds at the
/// start, each in the context of its own name. The shared schemas keep their
/// places and names; the schemas that are named are appended.
#[verifier::loop_isolation(false)]
pub fn visit_shared_schemas(table: &mut Vec<(String, SchemaRef)>) -> (res: Result<(), CompileError>)
    ensures
        match named_shared_schemas(old(table).deep_view(), 0, old(table).len() as int) {
            Ok(made) => res is Ok && final(table).deep_view() == made,
            Err(e) => res is Err && res->Err_0.deep_view() == e,
        },
        final(table).len() >= old(table).len(),
{
    let upto = table.len();
    let ghost goal = named_shared_schemas(table.deep_view(), 0, upto as int);
    let mut k: usize = 0;
    while k < upto
        invariant
            k <= upto,
            upto == old(table).len(),
            table.len() >= upto,
            goal == named_shared_schemas(table.deep_view(), k as int, upto as int),
        decreases upto - k,
    {
        assert(table.deep_view()[k as int] == (table[k as int].0@, table[k as int].1.deep_view()));
        let found = match &table[k].1 {
            SchemaRef::Reference(_) => None,
            SchemaRef::Item(schema) => Some(copy_schema(schema)),
        };
        match found {
            None => {},
            Some(schema) => {
                let name = table[k].0.clone();
                let context = to_pascal_case(name.as_str());
                let made = match visit_schema(table, &schema, context.as_str()) {
                    Err(e) => {
                        return Err(e);
                    },
                    Ok(made) => made,
                };
                let ghost before = table.deep_view();
                table.set(k, (name, SchemaRef::Item(made)));
                assert(table.deep_view() =~= before.update(
                    k as int,
                    (name@, SchemaRef::Item(made).deep_view()),
                ));
            },
        }
        k += 1;
    }
    Ok(())
}

/// Names the schemas of the shared parts of a document: those of its
/// responses, parameters, request bodies and headers, then those of its
/// shared schemas.
pub fn visit_components(components: &Components) -> (res: Result<Components, CompileError>)
    ensures
        agrees(res, named_components(components.deep_view())),
{
    let mut table = copy_properties(&components.schemas);
    let responses = match visit_shared_responses(&mut table, &components.responses) {
        Err(e) => {
            return Err(e);
        },
        Ok(responses) => responses,
    };
    let parameters = match visit_shared_parameters(&mut table, &components.parameters) {
        Err(e) => {
            return Err(e);
        },
        Ok(parameters) => parameters,
    };
    let request_bodies = match visit_shared_request_bodies(&mut table, &components.request_bodies) {
        Err(e) => {
            return Err(e);
        },
        Ok(request_bodies) => request_bodies,
    };
    let nothing = String::new();
    let headers = match visit_headers(&mut table, nothing.as_str(), &components.headers) {
        Err(e) => {
            return Err(e);
        },
        Ok(headers) => headers,
    };
    match visit_shared_schemas(&mut table) {
        Err(e) => Err(e),
        Ok(()) => Ok(
            Components {
                schemas: table,
                responses,
                parameters,
                request_bodies,
                headers,
                security_schemes: copy_opaques(&components.security_schemes),
                examples: copy_opaques(&components.examples),
                links: copy_opaques(&components.links),
                callbacks: copy_callbacks(&components.callbacks),
            },
        ),
    }
}

/// Gives every schema of a document that needs a named type a name: the
/// schema is moved to the shared schemas, under a name made from the place
/// where it stood, and a reference takes its place. The shared parts come
/// first, then the paths; a document without shared parts has them
/// afterwards.
pub fn visit_openapi(openapi: &OpenApi) -> (res: Result<OpenApi, CompileError>)
    ensures
        agrees(res, named_document(openapi.deep_view())),
{
    let made = match &openapi.components {
        Some(c) => visit_components(c),
        None => {
            let empty = Components {
                schemas: Vec::new(),
                responses: Vec::new(),
                parameters: Vec::new(),
                request_bodies: Vec::new(),
                headers: Vec::new(),
                security_schemes: Vec::new(),
                examples: Vec::new(),
                links: Vec::new(),
                callbacks: Vec::new(),
            };
            proof {
                assert(empty.schemas.deep_view() =~= Seq::empty());
                assert(empty.responses.deep_view() =~= Seq::empty());
                assert(empty.parameters.deep_view() =~= Seq::empty());
                assert(empty.request_bodies.deep_view() =~= Seq::empty());
                assert(empty.headers.deep_view() =~= Seq::empty());
                assert(empty.security_schemes.deep_view() =~= Seq::empty());
                assert(empty.examples.deep_view() =~= Seq::empty());
                assert(empty.links.deep_view() =~= Seq::empty());
                assert(empty.callbacks.deep_view() =~= Seq::empty());
            }
            visit_components(&empty)
        },
    };
    let shared = match made {
        Err(e) => {
            return Err(e);
        },
        Ok(shared) => shared,
    };
    let Components {
        schemas,
        responses,
        parameters,
        request_bodies,
        headers,
        security_schemes,
        examples,
        links,
        callbacks,
    } = shared;
    let mut table = schemas;
    match visit_paths(&mut table, &openapi.paths) {
        Err(e) => Err(e),
        Ok(paths) => Ok(
            OpenApi {
                paths,
                components: Some(
                    Components {
                        schemas: table,
                        responses,
                        parameters,
                        request_bodies,
                        headers,
                        security_schemes,
                        examples,
                        links,
                        callbacks,
                    },
                ),
                rest: openapi.rest.clone(),
            },
        ),
    }
}

} // verus!
