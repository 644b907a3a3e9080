//! The inline pass, on the parts of a document around its schemas. A
//! reference into another document to a part that is no schema is replaced by
//! a copy of its target.
use vstd::prelude::*;
use vstd::string::*;
use crate::copy::{copy_integration, copy_properties, copy_security, copy_strings};
use crate::document::{
    Components, Header, MediaType, Method, OpenApi, Operation, Parameter, ParameterFormat, PathItem,
    RefOr, RequestBody, Response, Responses, StatusCode,
};
use crate::inline::{
    find_entry, inline_opaques, inline_reference_or_schema, inlined, Foreign, ForeignItem,
    InlineError, Inliner,
};
use crate::inline_spec::{
    inlined_body, inlined_callback, inlined_callbacks, inlined_components, inlined_content,
    inlined_content_entry, inlined_document, inlined_format, inlined_header, inlined_header_item,
    inlined_media, inlined_named_header, inlined_named_headers, inlined_named_parameter,
    inlined_named_parameters, inlined_named_path, inlined_named_request_bodies,
    inlined_named_request_body, inlined_named_response, inlined_named_responses,
    inlined_named_schema, inlined_operation, inlined_operations, inlined_parameter,
    inlined_parameter_item, inlined_parameters, inlined_path, inlined_path_item, inlined_paths,
    inlined_request_body, inlined_response, inlined_response_item, inlined_responses,
    inlined_shared_schemas, inlined_status_response, inlined_status_responses, ForeignKind,
};
use crate::model::{agrees, copy_text, push_item};
use crate::schema::SchemaRef;
use crate::text::{concat2, str_eq};

verus! {

/// Inlines what stands under a media type: its schema, then its examples.
pub fn inline_media_type(
    cx: &Inliner,
    visiting: &mut Vec<bool>,
    parent: &str,
    table: &mut Vec<(String, SchemaRef)>,
    media: &MediaType,
) -> (res: Result<MediaType, InlineError>)
    ensures
        inlined(
            res,
            final(table).deep_view(),
            old(visiting)@,
            final(visiting)@,
            inlined_media(
                cx.deep_view(),
                old(visiting)@,
                parent@,
                old(table).deep_view(),
                media.deep_view(),
            ),
        ),
        final(table).len() >= old(table).len(),
{
    let schema = match &media.schema {
        None => None,
        Some(r) => {
            match inline_reference_or_schema(cx, visiting, parent, table, r) {
                Err(e) => {
                    return Err(e);
                },
                Ok(made) => Some(made),
            }
        },
    };
    match inline_opaques(cx, parent, ForeignKind::Example, &media.examples) {
        Err(e) => Err(e),
        Ok(examples) => Ok(MediaType { schema, examples, rest: media.rest.clone() }),
    }
}

/// Inlines one entry of the content of a body.
pub fn inline_content_entry(
    cx: &Inliner,
    visiting: &mut Vec<bool>,
    parent: &str,
    table: &mut Vec<(String, SchemaRef)>,
    entry: &(String, MediaType),
) -> (res: Result<(String, MediaType), InlineError>)
    ensures
        inlined(
            res,
            final(table).deep_view(),
            old(visiting)@,
            final(visiting)@,
            inlined_content_entry(
                cx.deep_view(),
                old(visiting)@,
                parent@,
                old(table).deep_view(),
                entry.deep_view(),
            ),
        ),
        final(table).len() >= old(table).len(),
{
    match inline_media_type(cx, visiting, parent, table, &entry.1) {
        Err(e) => Err(e),
        Ok(made) => Ok((entry.0.clone(), made)),
    }
}

/// Inlines the content of a body.
#[verifier::loop_isolation(false)]
pub fn inline_content(
    cx: &Inliner,
    visiting: &mut Vec<bool>,
    parent: &str,
    table: &mut Vec<(String, SchemaRef)>,
    list: &Vec<(String, MediaType)>,
) -> (res: Result<Vec<(String, MediaType)>, InlineError>)
    ensures
        inlined(
            res,
            final(table).deep_view(),
            old(visiting)@,
            final(visiting)@,
            inlined_content(
                cx.deep_view(),
                old(visiting)@,
                parent@,
                old(table).deep_view(),
                list.deep_view(),
                Seq::empty(),
            ),
        ),
        final(table).len() >= old(table).len(),
{
    let ghost goal = inlined_content(
        cx.deep_view(),
        visiting@,
        parent@,
        table.deep_view(),
        list.deep_view(),
        Seq::empty(),
    );
    let ghost flags = visiting@;
    let mut out: Vec<(String, MediaType)> = Vec::new();
    let mut i: usize = 0;
    proof {
        assert(out.deep_view() =~= Seq::empty());
        assert(list.deep_view().skip(0) =~= list.deep_view());
    }
    while i < list.len()
        invariant
            i <= list.len(),
            visiting@ == flags,
            table.len() >= old(table).len(),
            goal == inlined_content(
                cx.deep_view(),
                flags,
                parent@,
                table.deep_view(),
                list.deep_view().skip(i as int),
                out.deep_view(),
            ),
        decreases list.len() - i,
    {
        proof {
            let rest = list.deep_view().skip(i as int);
            assert(rest[0] == list.deep_view()[i as int]);
            assert(rest.drop_first() =~= list.deep_view().skip(i as int + 1));
        }
        let made = match inline_content_entry(cx, visiting, parent, table, &list[i]) {
            Err(e) => {
                return Err(e);
            },
            Ok(made) => made,
        };
        push_item(&mut out, made);
        i += 1;
    }
    Ok(out)
}

/// Inlines the description of the value of a parameter or header.
pub fn inline_parameter_schema_or_content(
    cx: &Inliner,
    visiting: &mut Vec<bool>,
    parent: &str,
    table: &mut Vec<(String, SchemaRef)>,
    format: &ParameterFormat,
) -> (res: Result<ParameterFormat, InlineError>)
    ensures
        inlined(
            res,
            final(table).deep_view(),
            old(visiting)@,
            final(visiting)@,
            inlined_format(
                cx.deep_view(),
                old(visiting)@,
                parent@,
                old(table).deep_view(),
                format.deep_view(),
            ),
        ),
        final(table).len() >= old(table).len(),
{
    match format {
        ParameterFormat::Schema(r) => {
            match inline_reference_or_schema(cx, visiting, parent, table, r) {
                Err(e) => Err(e),
                Ok(made) => Ok(ParameterFormat::Schema(made)),
            }
        },
        ParameterFormat::Content(content) => {
            match inline_content(cx, visiting, parent, table, content) {
                Err(e) => Err(e),
                Ok(made) => Ok(ParameterFormat::Content(made)),
            }
        },
    }
}

/// Inlines the schemas of a parameter.
pub fn inline_parameter(
    cx: &Inliner,
    visiting: &mut Vec<bool>,
    parent: &str,
    table: &mut Vec<(String, SchemaRef)>,
    parameter: &Parameter,
) -> (res: Result<Parameter, InlineError>)
    ensures
        inlined(
            res,
            final(table).deep_view(),
            old(visiting)@,
            final(visiting)@,
            inlined_parameter_item(
                cx.deep_view(),
                old(visiting)@,
                parent@,
                old(table).deep_view(),
                parameter.deep_view(),
            ),
        ),
        final(table).len() >= old(table).len(),
{
    let format = match inline_parameter_schema_or_content(
        cx,
        visiting,
        parent,
        table,
        &parameter.format,
    ) {
        Err(e) => {
            return Err(e);
        },
        Ok(format) => format,
    };
    match inline_opaques(cx, parent, ForeignKind::Example, &parameter.examples) {
        Err(e) => Err(e),
        Ok(examples) => Ok(
            Parameter {
                location: parameter.location,
                name: parameter.name.clone(),
                description: copy_text(&parameter.description),
                required: parameter.required,
                format,
                examples,
                rest: parameter.rest.clone(),
            },
        ),
    }
}

/// Inlines a parameter or a reference to one.
pub fn inline_parameter_ref(
    cx: &Inliner,
    visiting: &mut Vec<bool>,
    parent: &str,
    table: &mut Vec<(String, SchemaRef)>,
    r: &RefOr<Parameter>,
) -> (res: Result<RefOr<Parameter>, InlineError>)
    ensures
        inlined(
            res,
            final(table).deep_view(),
            old(visiting)@,
            final(visiting)@,
            inlined_parameter(
                cx.deep_view(),
                old(visiting)@,
                parent@,
                old(table).deep_view(),
                r.deep_view(),
            ),
        ),
        final(table).len() >= old(table).len(),
{
    match r {
        RefOr::Item(item) => {
            match inline_parameter(cx, visiting, parent, table, item) {
                Err(e) => Err(e),
                Ok(made) => Ok(RefOr::Item(made)),
            }
        },
        RefOr::Reference(reference) => {
            let k = find_entry(cx.foreign, parent, reference.as_str());
            if k >= cx.foreign.len() {
                return Err(
                    InlineError::Unresolved {
                        referrer: String::from_str(parent),
                        reference: reference.clone(),
                        kind: ForeignKind::Parameter,
                    },
                );
            }
            assert(cx.foreign.deep_view()[k as int] == cx.foreign[k as int].deep_view());
            let entry = &cx.foreign[k];
            match &entry.item {
                ForeignItem::Parameter(target) => {
                    if str_eq(entry.doc_path.as_str(), cx.root) {
                        return Ok(RefOr::Reference(concat2("#/", entry.rel_ref.as_str())));
                    }
                    match inline_parameter(cx, visiting, entry.doc_path.as_str(), table, target) {
                        Err(e) => Err(e),
                        Ok(made) => Ok(RefOr::Item(made)),
                    }
                },
                _ => Err(
                    InlineError::WrongKind {
                        referrer: String::from_str(parent),
                        reference: reference.clone(),
                    },
                ),
            }
        },
    }
}

/// Inlines a shared parameter.
pub fn inline_named_parameter(
    cx: &Inliner,
    visiting: &mut Vec<bool>,
    parent: &str,
    table: &mut Vec<(String, SchemaRef)>,
    entry: &(String, RefOr<Parameter>),
) -> (res: Result<(String, RefOr<Parameter>), InlineError>)
    ensures
        inlined(
            res,
            final(table).deep_view(),
            old(visiting)@,
            final(visiting)@,
            inlined_named_parameter(
                cx.deep_view(),
                old(visiting)@,
                parent@,
                old(table).deep_view(),
                entry.deep_view(),
            ),
        ),
        final(table).len() >= old(table).len(),
{
    match inline_parameter_ref(cx, visiting, parent, table, &entry.1) {
        Err(e) => Err(e),
        Ok(made) => Ok((entry.0.clone(), made)),
    }
}

/// Inlines a list of parameters.
#[verifier::loop_isolation(false)]
pub fn inline_parameters(
    cx: &Inliner,
    visiting: &mut Vec<bool>,
    parent: &str,
    table: &mut Vec<(String, SchemaRef)>,
    list: &Vec<RefOr<Parameter>>,
) -> (res: Result<Vec<RefOr<Parameter>>, InlineError>)
    ensures
        inlined(
            res,
            final(table).deep_view(),
            old(visiting)@,
            final(visiting)@,
            inlined_parameters(
                cx.deep_view(),
                old(visiting)@,
                parent@,
                old(table).deep_view(),
                list.deep_view(),
                Seq::empty(),
            ),
        ),
        final(table).len() >= old(table).len(),
{
    let ghost goal = inlined_parameters(
        cx.deep_view(),
        visiting@,
        parent@,
        table.deep_view(),
        list.deep_view(),
        Seq::empty(),
    );
    let ghost flags = visiting@;
    let mut out: Vec<RefOr<Parameter>> = Vec::new();
    let mut i: usize = 0;
    proof {
        assert(out.deep_view() =~= Seq::empty());
        assert(list.deep_view().skip(0) =~= list.deep_view());
    }
    while i < list.len()
        invariant
            i <= list.len(),
            visiting@ == flags,
            table.len() >= old(table).len(),
            goal == inlined_parameters(
                cx.deep_view(),
                flags,
                parent@,
                table.deep_view(),
                list.deep_view().skip(i as int),
                out.deep_view(),
            ),
        decreases list.len() - i,
    {
        proof {
            let rest = list.deep_view().skip(i as int);
            assert(rest[0] == list.deep_view()[i as int]);
            assert(rest.drop_first() =~= list.deep_view().skip(i as int + 1));
        }
        let made = match inline_parameter_ref(cx, visiting, parent, table, &list[i]) {
            Err(e) => {
                return Err(e);
            },
            Ok(made) => made,
        };
        push_item(&mut out, made);
        i += 1;
    }
    Ok(out)
}

/// Inlines the shared parameters.
#[verifier::loop_isolation(false)]
pub fn inline_named_parameters(
    cx: &Inliner,
    visiting: &mut Vec<bool>,
    parent: &str,
    table: &mut Vec<(String, SchemaRef)>,
    list: &Vec<(String, RefOr<Parameter>)>,
) -> (res: Result<Vec<(String, RefOr<Parameter>)>, InlineError>)
    ensures
        inlined(
            res,
            final(table).deep_view(),
            old(visiting)@,
            final(visiting)@,
            inlined_named_parameters(
                cx.deep_view(),
                old(visiting)@,
                parent@,
                old(table).deep_view(),
                list.deep_view(),
                Seq::empty(),
            ),
        ),
        final(table).len() >= old(table).len(),
{
    let ghost goal = inlined_named_parameters(
        cx.deep_view(),
        visiting@,
        parent@,
        table.deep_view(),
        list.deep_view(),
        Seq::empty(),
    );
    let ghost flags = visiting@;
    let mut out: Vec<(String, RefOr<Parameter>)> = Vec::new();
    let mut i: usize = 0;
    proof {
        assert(out.deep_view() =~= Seq::empty());
        assert(list.deep_view().skip(0) =~= list.deep_view());
    }
    while i < list.len()
        invariant
            i <= list.len(),
            visiting@ == flags,
            table.len() >= old(table).len(),
            goal == inlined_named_parameters(
                cx.deep_view(),
                flags,
                parent@,
                table.deep_view(),
                list.deep_view().skip(i as int),
                out.deep_view(),
            ),
        decreases list.len() - i,
    {
        proof {
            let rest = list.deep_view().skip(i as int);
            assert(rest[0] == list.deep_view()[i as int]);
            assert(rest.drop_first() =~= list.deep_view().skip(i as int + 1));
        }
        let made = match inline_named_parameter(cx, visiting, parent, table, &list[i]) {
            Err(e) => {
                return Err(e);
            },
            Ok(made) => made,
        };
        push_item(&mut out, made);
        i += 1;
    }
    Ok(out)
}

/// Inlines the schemas of a header.
pub fn inline_header(
    cx: &Inliner,
    visiting: &mut Vec<bool>,
    parent: &str,
    table: &mut Vec<(String, SchemaRef)>,
    header: &Header,
) -> (res: Result<Header, InlineError>)
    ensures
        inlined(
            res,
            final(table).deep_view(),
            old(visiting)@,
            final(visiting)@,
            inlined_header_item(
                cx.deep_view(),
                old(visiting)@,
                parent@,
                old(table).deep_view(),
                header.deep_view(),
            ),
        ),
        final(table).len() >= old(table).len(),
{
    let format = match inline_parameter_schema_or_content(
        cx,
        visiting,
        parent,
        table,
        &header.format,
    ) {
        Err(e) => {
            return Err(e);
        },
        Ok(format) => format,
    };
    match inline_opaques(cx, parent, ForeignKind::Example, &header.examples) {
        Err(e) => Err(e),
        Ok(examples) => Ok(Header { format, examples, rest: header.rest.clone() }),
    }
}

/// Inlines a header or a reference to one.
pub fn inline_header_ref(
    cx: &Inliner,
    visiting: &mut Vec<bool>,
    parent: &str,
    table: &mut Vec<(String, SchemaRef)>,
    r: &RefOr<Header>,
) -> (res: Result<RefOr<Header>, InlineError>)
    ensures
        inlined(
            res,
            final(table).deep_view(),
            old(visiting)@,
            final(visiting)@,
            inlined_header(
                cx.deep_view(),
                old(visiting)@,
                parent@,
                old(table).deep_view(),
                r.deep_view(),
            ),
        ),
        final(table).len() >= old(table).len(),
{
    match r {
        RefOr::Item(item) => {
            match inline_header(cx, visiting, parent, table, item) {
                Err(e) => Err(e),
                Ok(made) => Ok(RefOr::Item(made)),
            }
        },
        RefOr::Reference(reference) => {
            let k = find_entry(cx.foreign, parent, reference.as_str());
            if k >= cx.foreign.len() {
                return Err(
                    InlineError::Unresolved {
                        referrer: String::from_str(parent),
                        reference: reference.clone(),
                        kind: ForeignKind::Header,
                    },
                );
            }
            assert(cx.foreign.deep_view()[k as int] == cx.foreign[k as int].deep_view());
            let entry = &cx.foreign[k];
            match &entry.item {
                ForeignItem::Header(target) => {
                    if str_eq(entry.doc_path.as_str(), cx.root) {
                        return Ok(RefOr::Reference(concat2("#/", entry.rel_ref.as_str())));
                    }
                    match inline_header(cx, visiting, entry.doc_path.as_str(), table, target) {
                        Err(e) => Err(e),
                        Ok(made) => Ok(RefOr::Item(made)),
                    }
                },
                _ => Err(
                    InlineError::WrongKind {
                        referrer: String::from_str(parent),
                        reference: reference.clone(),
                    },
                ),
            }
        },
    }
}

/// Inlines a named header.
pub fn inline_named_header(
    cx: &Inliner,
    visiting: &mut Vec<bool>,
    parent: &str,
    table: &mut Vec<(String, SchemaRef)>,
    entry: &(String, RefOr<Header>),
) -> (res: Result<(String, RefOr<Header>), InlineError>)
    ensures
        inlined(
            res,
            final(table).deep_view(),
            old(visiting)@,
            final(visiting)@,
            inlined_named_header(
                cx.deep_view(),
                old(visiting)@,
                parent@,
                old(table).deep_view(),
                entry.deep_view(),
            ),
        ),
        final(table).len() >= old(table).len(),
{
    match inline_header_ref(cx, visiting, parent, table, &entry.1) {
        Err(e) => Err(e),
        Ok(made) => Ok((entry.0.clone(), made)),
    }
}

/// Inlines a list of named headers.
#[verifier::loop_isolation(false)]
pub fn inline_named_headers(
    cx: &Inliner,
    visiting: &mut Vec<bool>,
    parent: &str,
    table: &mut Vec<(String, SchemaRef)>,
    list: &Vec<(String, RefOr<Header>)>,
) -> (res: Result<Vec<(String, RefOr<Header>)>, InlineError>)
    ensures
        inlined(
            res,
            final(table).deep_view(),
            old(visiting)@,
            final(visiting)@,
            inlined_named_headers(
                cx.deep_view(),
                old(visiting)@,
                parent@,
                old(table).deep_view(),
                list.deep_view(),
                Seq::empty(),
            ),
        ),
        final(table).len() >= old(table).len(),
{
    let ghost goal = inlined_named_headers(
        cx.deep_view(),
        visiting@,
        parent@,
        table.deep_view(),
        list.deep_view(),
        Seq::empty(),
    );
    let ghost flags = visiting@;
    let mut out: Vec<(String, RefOr<Header>)> = Vec::new();
    let mut i: usize = 0;
    proof {
        assert(out.deep_view() =~= Seq::empty());
        assert(list.deep_view().skip(0) =~= list.deep_view());
    }
    while i < list.len()
        invariant
            i <= list.len(),
            visiting@ == flags,
            table.len() >= old(table).len(),
            goal == inlined_named_headers(
                cx.deep_view(),
                flags,
                parent@,
                table.deep_view(),
                list.deep_view().skip(i as int),
                out.deep_view(),
            ),
        decreases list.len() - i,
    {
        proof {
            let rest = list.deep_view().skip(i as int);
            assert(rest[0] == list.deep_view()[i as int]);
            assert(rest.drop_first() =~= list.deep_view().skip(i as int + 1));
        }
        let made = match inline_named_header(cx, visiting, parent, table, &list[i]) {
            Err(e) => {
                return Err(e);
            },
            Ok(made) => made,
        };
        push_item(&mut out, made);
        i += 1;
    }
    Ok(out)
}

/// Inlines the schemas of the body of a request.
pub fn inline_request_body(
    cx: &Inliner,
    visiting: &mut Vec<bool>,
    parent: &str,
    table: &mut Vec<(String, SchemaRef)>,
    body: &RequestBody,
) -> (res: Result<RequestBody, InlineError>)
    ensures
        inlined(
            res,
            final(table).deep_view(),
            old(visiting)@,
            final(visiting)@,
            inlined_body(
                cx.deep_view(),
                old(visiting)@,
                parent@,
                old(table).deep_view(),
                body.deep_view(),
            ),
        ),
        final(table).len() >= old(table).len(),
{
    match inline_content(cx, visiting, parent, table, &body.content) {
        Err(e) => Err(e),
        Ok(content) => Ok(
            RequestBody {
                description: copy_text(&body.description),
                content,
                required: body.required,
                rest: body.rest.clone(),
            },
        ),
    }
}

/// Inlines the body of a request or a reference to one.
pub fn inline_request_body_ref(
    cx: &Inliner,
    visiting: &mut Vec<bool>,
    parent: &str,
    table: &mut Vec<(String, SchemaRef)>,
    r: &RefOr<RequestBody>,
) -> (res: Result<RefOr<RequestBody>, InlineError>)
    ensures
        inlined(
            res,
            final(table).deep_view(),
            old(visiting)@,
            final(visiting)@,
            inlined_request_body(
                cx.deep_view(),
                old(visiting)@,
                parent@,
                old(table).deep_view(),
                r.deep_view(),
            ),
        ),
        final(table).len() >= old(table).len(),
{
    match r {
        RefOr::Item(item) => {
            match inline_request_body(cx, visiting, parent, table, item) {
                Err(e) => Err(e),
                Ok(made) => Ok(RefOr::Item(made)),
            }
        },
        RefOr::Reference(reference) => {
            let k = find_entry(cx.foreign, parent, reference.as_str());
            if k >= cx.foreign.len() {
                return Err(
                    InlineError::Unresolved {
                        referrer: String::from_str(parent),
                        reference: reference.clone(),
                        kind: ForeignKind::RequestBody,
                    },
                );
            }
            assert(cx.foreign.deep_view()[k as int] == cx.foreign[k as int].deep_view());
            let entry = &cx.foreign[k];
            match &entry.item {
                ForeignItem::RequestBody(target) => {
                    if str_eq(entry.doc_path.as_str(), cx.root) {
                        return Ok(RefOr::Reference(concat2("#/", entry.rel_ref.as_str())));
                    }
                    match inline_request_body(cx, visiting, entry.doc_path.as_str(), table, target) {
                        Err(e) => Err(e),
                        Ok(made) => Ok(RefOr::Item(made)),
                    }
                },
                _ => Err(
                    InlineError::WrongKind {
                        referrer: String::from_str(parent),
                        reference: reference.clone(),
                    },
                ),
            }
        },
    }
}

/// Inlines a shared request body.
pub fn inline_named_request_body(
    cx: &Inliner,
    visiting: &mut Vec<bool>,
    parent: &str,
    table: &mut Vec<(String, SchemaRef)>,
    entry: &(String, RefOr<RequestBody>),
) -> (res: Result<(String, RefOr<RequestBody>), InlineError>)
    ensures
        inlined(
            res,
            final(table).deep_view(),
            old(visiting)@,
            final(visiting)@,
            inlined_named_request_body(
                cx.deep_view(),
                old(visiting)@,
                parent@,
                old(table).deep_view(),
                entry.deep_view(),
            ),
        ),
        final(table).len() >= old(table).len(),
{
    match inline_request_body_ref(cx, visiting, parent, table, &entry.1) {
        Err(e) => Err(e),
        Ok(made) => Ok((entry.0.clone(), made)),
    }
}

/// Inlines the shared request bodies.
#[verifier::loop_isolation(false)]
pub fn inline_named_request_bodies(
    cx: &Inliner,
    visiting: &mut Vec<bool>,
    parent: &str,
    table: &mut Vec<(String, SchemaRef)>,
    list: &Vec<(String, RefOr<RequestBody>)>,
) -> (res: Result<Vec<(String, RefOr<RequestBody>)>, InlineError>)
    ensures
        inlined(
            res,
            final(table).deep_view(),
            old(visiting)@,
            final(visiting)@,
            inlined_named_request_bodies(
                cx.deep_view(),
                old(visiting)@,
                parent@,
                old(table).deep_view(),
                list.deep_view(),
                Seq::empty(),
            ),
        ),
        final(table).len() >= old(table).len(),
{
    let ghost goal = inlined_named_request_bodies(
        cx.deep_view(),
        visiting@,
        parent@,
        table.deep_view(),
        list.deep_view(),
        Seq::empty(),
    );
    let ghost flags = visiting@;
    let mut out: Vec<(String, RefOr<RequestBody>)> = Vec::new();
    let mut i: usize = 0;
    proof {
        assert(out.deep_view() =~= Seq::empty());
        assert(list.deep_view().skip(0) =~= list.deep_view());
    }
    while i < list.len()
        invariant
            i <= list.len(),
            visiting@ == flags,
            table.len() >= old(table).len(),
            goal == inlined_named_request_bodies(
                cx.deep_view(),
                flags,
                parent@,
                table.deep_view(),
                list.deep_view().skip(i as int),
                out.deep_view(),
            ),
        decreases list.len() - i,
    {
        proof {
            let rest = list.deep_view().skip(i as int);
            assert(rest[0] == list.deep_view()[i as int]);
            assert(rest.drop_first() =~= list.deep_view().skip(i as int + 1));
        }
        let made = match inline_named_request_body(cx, visiting, parent, table, &list[i]) {
            Err(e) => {
                return Err(e);
            },
            Ok(made) => made,
        };
        push_item(&mut out, made);
        i += 1;
    }
    Ok(out)
}

/// Inlines a response: its headers, its content, then its links.
pub fn inline_response(
    cx: &Inliner,
    visiting: &mut Vec<bool>,
    parent: &str,
    table: &mut Vec<(String, SchemaRef)>,
    response: &Response,
) -> (res: Result<Response, InlineError>)
    ensures
        inlined(
            res,
            final(table).deep_view(),
            old(visiting)@,
            final(visiting)@,
            inlined_response_item(
                cx.deep_view(),
                old(visiting)@,
                parent@,
                old(table).deep_view(),
                response.deep_view(),
            ),
        ),
        final(table).len() >= old(table).len(),
{
    let headers = match inline_named_headers(cx, visiting, parent, table, &response.headers) {
        Err(e) => {
            return Err(e);
        },
        Ok(headers) => headers,
    };
    let content = match inline_content(cx, visiting, parent, table, &response.content) {
        Err(e) => {
            return Err(e);
        },
        Ok(content) => content,
    };
    match inline_opaques(cx, parent, ForeignKind::Link, &response.links) {
        Err(e) => Err(e),
        Ok(links) => Ok(
            Response {
                description: response.description.clone(),
                headers,
                content,
                links,
                rest: response.rest.clone(),
            },
        ),
    }
}

/// Inlines a response or a reference to one.
pub fn inline_response_ref(
    cx: &Inliner,
    visiting: &mut Vec<bool>,
    parent: &str,
    table: &mut Vec<(String, SchemaRef)>,
    r: &RefOr<Response>,
) -> (res: Result<RefOr<Response>, InlineError>)
    ensures
        inlined(
            res,
            final(table).deep_view(),
            old(visiting)@,
            final(visiting)@,
            inlined_response(
                cx.deep_view(),
                old(visiting)@,
                parent@,
                old(table).deep_view(),
                r.deep_view(),
            ),
        ),
        final(table).len() >= old(table).len(),
{
    match r {
        RefOr::Item(item) => {
            match inline_response(cx, visiting, parent, table, item) {
                Err(e) => Err(e),
                Ok(made) => Ok(RefOr::Item(made)),
            }
        },
        RefOr::Reference(reference) => {
            let k = find_entry(cx.foreign, parent, reference.as_str());
            if k >= cx.foreign.len() {
                return Err(
                    InlineError::Unresolved {
                        referrer: String::from_str(parent),
                        reference: reference.clone(),
                        kind: ForeignKind::Response,
                    },
                );
            }
            assert(cx.foreign.deep_view()[k as int] == cx.foreign[k as int].deep_view());
            let entry = &cx.foreign[k];
            match &entry.item {
                ForeignItem::Response(target) => {
                    if str_eq(entry.doc_path.as_str(), cx.root) {
                        return Ok(RefOr::Reference(concat2("#/", entry.rel_ref.as_str())));
                    }
                    match inline_response(cx, visiting, entry.doc_path.as_str(), table, target) {
                        Err(e) => Err(e),
                        Ok(made) => Ok(RefOr::Item(made)),
                    }
                },
                _ => Err(
                    InlineError::WrongKind {
                        referrer: String::from_str(parent),
                        reference: reference.clone(),
                    },
                ),
            }
        },
    }
}

/// Inlines a shared response.
pub fn inline_named_response(
    cx: &Inliner,
    visiting: &mut Vec<bool>,
    parent: &str,
    table: &mut Vec<(String, SchemaRef)>,
    entry: &(String, RefOr<Response>),
) -> (res: Result<(String, RefOr<Response>), InlineError>)
    ensures
        inlined(
            res,
            final(table).deep_view(),
            old(visiting)@,
            final(visiting)@,
            inlined_named_response(
                cx.deep_view(),
                old(visiting)@,
                parent@,
                old(table).deep_view(),
                entry.deep_view(),
            ),
        ),
        final(table).len() >= old(table).len(),
{
    match inline_response_ref(cx, visiting, parent, table, &entry.1) {
        Err(e) => Err(e),
        Ok(made) => Ok((entry.0.clone(), made)),
    }
}

/// Inlines a response under its status.
pub fn inline_status_response(
    cx: &Inliner,
    visiting: &mut Vec<bool>,
    parent: &str,
    table: &mut Vec<(String, SchemaRef)>,
    entry: &(StatusCode, RefOr<Response>),
) -> (res: Result<(StatusCode, RefOr<Response>), InlineError>)
    ensures
        inlined(
            res,
            final(table).deep_view(),
            old(visiting)@,
            final(visiting)@,
            inlined_status_response(
                cx.deep_view(),
                old(visiting)@,
                parent@,
                old(table).deep_view(),
                entry.deep_view(),
            ),
        ),
        final(table).len() >= old(table).len(),
{
    match inline_response_ref(cx, visiting, parent, table, &entry.1) {
        Err(e) => Err(e),
        Ok(made) => Ok((entry.0, made)),
    }
}

/// Inlines the shared responses.
#[verifier::loop_isolation(false)]
pub fn inline_named_responses(
    cx: &Inliner,
    visiting: &mut Vec<bool>,
    parent: &str,
    table: &mut Vec<(String, SchemaRef)>,
    list: &Vec<(String, RefOr<Response>)>,
) -> (res: Result<Vec<(String, RefOr<Response>)>, InlineError>)
    ensures
        inlined(
            res,
            final(table).deep_view(),
            old(visiting)@,
            final(visiting)@,
            inlined_named_responses(
                cx.deep_view(),
                old(visiting)@,
                parent@,
                old(table).deep_view(),
                list.deep_view(),
                Seq::empty(),
            ),
        ),
        final(table).len() >= old(table).len(),
{
    let ghost goal = inlined_named_responses(
        cx.deep_view(),
        visiting@,
        parent@,
        table.deep_view(),
        list.deep_view(),
        Seq::empty(),
    );
    let ghost flags = visiting@;
    let mut out: Vec<(String, RefOr<Response>)> = Vec::new();
    let mut i: usize = 0;
    proof {
        assert(out.deep_view() =~= Seq::empty());
        assert(list.deep_view().skip(0) =~= list.deep_view());
    }
    while i < list.len()
        invariant
            i <= list.len(),
            visiting@ == flags,
            table.len() >= old(table).len(),
            goal == inlined_named_responses(
                cx.deep_view(),
                flags,
                parent@,
                table.deep_view(),
                list.deep_view().skip(i as int),
                out.deep_view(),
            ),
        decreases list.len() - i,
    {
        proof {
            let rest = list.deep_view().skip(i as int);
            assert(rest[0] == list.deep_view()[i as int]);
            assert(rest.drop_first() =~= list.deep_view().skip(i as int + 1));
        }
        let made = match inline_named_response(cx, visiting, parent, table, &list[i]) {
            Err(e) => {
                return Err(e);
            },
            Ok(made) => made,
        };
        push_item(&mut out, made);
        i += 1;
    }
    Ok(out)
}

/// Inlines the responses of an operation by status.
#[verifier::loop_isolation(false)]
pub fn inline_status_responses(
    cx: &Inliner,
    visiting: &mut Vec<bool>,
    parent: &str,
    table: &mut Vec<(String, SchemaRef)>,
    list: &Vec<(StatusCode, RefOr<Response>)>,
) -> (res: Result<Vec<(StatusCode, RefOr<Response>)>, InlineError>)
    ensures
        inlined(
            res,
            final(table).deep_view(),
            old(visiting)@,
            final(visiting)@,
            inlined_status_responses(
                cx.deep_view(),
                old(visiting)@,
                parent@,
                old(table).deep_view(),
                list.deep_view(),
                Seq::empty(),
            ),
        ),
        final(table).len() >= old(table).len(),
{
    let ghost goal = inlined_status_responses(
        cx.deep_view(),
        visiting@,
        parent@,
        table.deep_view(),
        list.deep_view(),
        Seq::empty(),
    );
    let ghost flags = visiting@;
    let mut out: Vec<(StatusCode, RefOr<Response>)> = Vec::new();
    let mut i: usize = 0;
    proof {
        assert(out.deep_view() =~= Seq::empty());
        assert(list.deep_view().skip(0) =~= list.deep_view());
    }
    while i < list.len()
        invariant
            i <= list.len(),
            visiting@ == flags,
            table.len() >= old(table).len(),
            goal == inlined_status_responses(
                cx.deep_view(),
                flags,
                parent@,
                table.deep_view(),
                list.deep_view().skip(i as int),
                out.deep_view(),
            ),
        decreases list.len() - i,
    {
        proof {
            let rest = list.deep_view().skip(i as int);
            assert(rest[0] == list.deep_view()[i as int]);
            assert(rest.drop_first() =~= list.deep_view().skip(i as int + 1));
        }
        let made = match inline_status_response(cx, visiting, parent, table, &list[i]) {
            Err(e) => {
                return Err(e);
            },
            Ok(made) => made,
        };
        push_item(&mut out, made);
        i += 1;
    }
    Ok(out)
}

/// Inlines the responses of an operation: the default response first, then
/// the others.
pub fn inline_responses(
    cx: &Inliner,
    visiting: &mut Vec<bool>,
    parent: &str,
    table: &mut Vec<(String, SchemaRef)>,
    responses: &Responses,
) -> (res: Result<Responses, InlineError>)
    ensures
        inlined(
            res,
            final(table).deep_view(),
            old(visiting)@,
            final(visiting)@,
            inlined_responses(
                cx.deep_view(),
                old(visiting)@,
                parent@,
                old(table).deep_view(),
                responses.deep_view(),
            ),
        ),
        final(table).len() >= old(table).len(),
{
    let default = match &responses.default {
        None => None,
        Some(r) => {
            match inline_response_ref(cx, visiting, parent, table, r) {
                Err(e) => {
                    return Err(e);
                },
                Ok(made) => Some(made),
            }
        },
    };
    match inline_status_responses(cx, visiting, parent, table, &responses.responses) {
        Err(e) => Err(e),
        Ok(list) => Ok(Responses { default, responses: list }),
    }
}

/// Inlines an operation: its parameters, then the body of its request, then
/// its responses.
pub fn inline_operation(
    cx: &Inliner,
    visiting: &mut Vec<bool>,
    parent: &str,
    table: &mut Vec<(String, SchemaRef)>,
    entry: &(Method, Operation),
) -> (res: Result<(Method, Operation), InlineError>)
    ensures
        inlined(
            res,
            final(table).deep_view(),
            old(visiting)@,
            final(visiting)@,
            inlined_operation(
                cx.deep_view(),
                old(visiting)@,
                parent@,
                old(table).deep_view(),
                entry.deep_view(),
            ),
        ),
        final(table).len() >= old(table).len(),
{
    let operation = &entry.1;
    let parameters = match inline_parameters(cx, visiting, parent, table, &operation.parameters) {
        Err(e) => {
            return Err(e);
        },
        Ok(parameters) => parameters,
    };
    let request_body = match &operation.request_body {
        None => None,
        Some(r) => {
            match inline_request_body_ref(cx, visiting, parent, table, r) {
                Err(e) => {
                    return Err(e);
                },
                Ok(made) => Some(made),
            }
        },
    };
    match inline_responses(cx, visiting, parent, table, &operation.responses) {
        Err(e) => Err(e),
        Ok(responses) => Ok(
            (
                entry.0,
                Operation {
                    operation_id: copy_text(&operation.operation_id),
                    tags: copy_strings(&operation.tags),
                    description: copy_text(&operation.description),
                    parameters,
                    request_body,
                    responses,
                    security: copy_security(&operation.security),
                    integration: copy_integration(&operation.integration),
                    rest: operation.rest.clone(),
                },
            ),
        ),
    }
}

/// Inlines the operations of a path.
#[verifier::loop_isolation(false)]
pub fn inline_operations(
    cx: &Inliner,
    visiting: &mut Vec<bool>,
    parent: &str,
    table: &mut Vec<(String, SchemaRef)>,
    list: &Vec<(Method, Operation)>,
) -> (res: Result<Vec<(Method, Operation)>, InlineError>)
    ensures
        inlined(
            res,
            final(table).deep_view(),
            old(visiting)@,
            final(visiting)@,
            inlined_operations(
                cx.deep_view(),
                old(visiting)@,
                parent@,
                old(table).deep_view(),
                list.deep_view(),
                Seq::empty(),
            ),
        ),
        final(table).len() >= old(table).len(),
{
    let ghost goal = inlined_operations(
        cx.deep_view(),
        visiting@,
        parent@,
        table.deep_view(),
        list.deep_view(),
        Seq::empty(),
    );
    let ghost flags = visiting@;
    let mut out: Vec<(Method, Operation)> = Vec::new();
    let mut i: usize = 0;
    proof {
        assert(out.deep_view() =~= Seq::empty());
        assert(list.deep_view().skip(0) =~= list.deep_view());
    }
    while i < list.len()
        invariant
            i <= list.len(),
            visiting@ == flags,
            table.len() >= old(table).len(),
            goal == inlined_operations(
                cx.deep_view(),
                flags,
                parent@,
                table.deep_view(),
                list.deep_view().skip(i as int),
                out.deep_view(),
            ),
        decreases list.len() - i,
    {
        proof {
            let rest = list.deep_view().skip(i as int);
            assert(rest[0] == list.deep_view()[i as int]);
            assert(rest.drop_first() =~= list.deep_view().skip(i as int + 1));
        }
        let made = match inline_operation(cx, visiting, parent, table, &list[i]) {
            Err(e) => {
                return Err(e);
            },
            Ok(made) => made,
        };
        push_item(&mut out, made);
        i += 1;
    }
    Ok(out)
}

/// Inlines what stands under a path: its operations, then the parameters
/// they share.
pub fn inline_path_item(
    cx: &Inliner,
    visiting: &mut Vec<bool>,
    parent: &str,
    table: &mut Vec<(String, SchemaRef)>,
    item: &PathItem,
) -> (res: Result<PathItem, InlineError>)
    ensures
        inlined(
            res,
            final(table).deep_view(),
            old(visiting)@,
            final(visiting)@,
            inlined_path_item(
                cx.deep_view(),
                old(visiting)@,
                parent@,
                old(table).deep_view(),
                item.deep_view(),
            ),
        ),
        final(table).len() >= old(table).len(),
{
    let operations = match inline_operations(cx, visiting, parent, table, &item.operations) {
        Err(e) => {
            return Err(e);
        },
        Ok(operations) => operations,
    };
    match inline_parameters(cx, visiting, parent, table, &item.parameters) {
        Err(e) => Err(e),
        Ok(parameters) => Ok(PathItem { operations, parameters, rest: item.rest.clone() }),
    }
}

/// Inlines what stands under a path, or a reference to it.
pub fn inline_path_item_ref(
    cx: &Inliner,
    visiting: &mut Vec<bool>,
    parent: &str,
    table: &mut Vec<(String, SchemaRef)>,
    r: &RefOr<PathItem>,
) -> (res: Result<RefOr<PathItem>, InlineError>)
    ensures
        inlined(
            res,
            final(table).deep_view(),
            old(visiting)@,
            final(visiting)@,
            inlined_path(
                cx.deep_view(),
                old(visiting)@,
                parent@,
                old(table).deep_view(),
                r.deep_view(),
            ),
        ),
        final(table).len() >= old(table).len(),
{
    match r {
        RefOr::Item(item) => {
            match inline_path_item(cx, visiting, parent, table, item) {
                Err(e) => Err(e),
                Ok(made) => Ok(RefOr::Item(made)),
            }
        },
        RefOr::Reference(reference) => {
            let k = find_entry(cx.foreign, parent, reference.as_str());
            if k >= cx.foreign.len() {
                return Err(
                    InlineError::Unresolved {
                        referrer: String::from_str(parent),
                        reference: reference.clone(),
                        kind: ForeignKind::PathItem,
                    },
                );
            }
            assert(cx.foreign.deep_view()[k as int] == cx.foreign[k as int].deep_view());
            let entry = &cx.foreign[k];
            match &entry.item {
                ForeignItem::PathItem(target) => {
                    if str_eq(entry.doc_path.as_str(), cx.root) {
                        return Ok(RefOr::Reference(concat2("#/", entry.rel_ref.as_str())));
                    }
                    match inline_path_item(cx, visiting, entry.doc_path.as_str(), table, target) {
                        Err(e) => Err(e),
                        Ok(made) => Ok(RefOr::Item(made)),
                    }
                },
                _ => Err(
                    InlineError::WrongKind {
                        referrer: String::from_str(parent),
                        reference: reference.clone(),
                    },
                ),
            }
        },
    }
}

/// Inlines a path.
pub fn inline_named_path(
    cx: &Inliner,
    visiting: &mut Vec<bool>,
    parent: &str,
    table: &mut Vec<(String, SchemaRef)>,
    entry: &(String, RefOr<PathItem>),
) -> (res: Result<(String, RefOr<PathItem>), InlineError>)
    ensures
        inlined(
            res,
            final(table).deep_view(),
            old(visiting)@,
            final(visiting)@,
            inlined_named_path(
                cx.deep_view(),
                old(visiting)@,
                parent@,
                old(table).deep_view(),
                entry.deep_view(),
            ),
        ),
        final(table).len() >= old(table).len(),
{
    match inline_path_item_ref(cx, visiting, parent, table, &entry.1) {
        Err(e) => Err(e),
        Ok(made) => Ok((entry.0.clone(), made)),
    }
}

/// Inlines the paths of a document.
#[verifier::loop_isolation(false)]
pub fn inline_paths(
    cx: &Inliner,
    visiting: &mut Vec<bool>,
    parent: &str,
    table: &mut Vec<(String, SchemaRef)>,
    list: &Vec<(String, RefOr<PathItem>)>,
) -> (res: Result<Vec<(String, RefOr<PathItem>)>, InlineError>)
    ensures
        inlined(
            res,
            final(table).deep_view(),
            old(visiting)@,
            final(visiting)@,
            inlined_paths(
                cx.deep_view(),
                old(visiting)@,
                parent@,
                old(table).deep_view(),
                list.deep_view(),
                Seq::empty(),
            ),
        ),
        final(table).len() >= old(table).len(),
{
    let ghost goal = inlined_paths(
        cx.deep_view(),
        visiting@,
        parent@,
        table.deep_view(),
        list.deep_view(),
        Seq::empty(),
    );
    let ghost flags = visiting@;
    let mut out: Vec<(String, RefOr<PathItem>)> = Vec::new();
    let mut i: usize = 0;
    proof {
        assert(out.deep_view() =~= Seq::empty());
        assert(list.deep_view().skip(0) =~= list.deep_view());
    }
    while i < list.len()
        invariant
            i <= list.len(),
            visiting@ == flags,
            table.len() >= old(table).len(),
            goal == inlined_paths(
                cx.deep_view(),
                flags,
                parent@,
                table.deep_view(),
                list.deep_view().skip(i as int),
                out.deep_view(),
            ),
        decreases list.len() - i,
    {
        proof {
            let rest = list.deep_view().skip(i as int);
            assert(rest[0] == list.deep_view()[i as int]);
            assert(rest.drop_first() =~= list.deep_view().skip(i as int + 1));
        }
        let made = match inline_named_path(cx, visiting, parent, table, &list[i]) {
            Err(e) => {
                return Err(e);
            },
            Ok(made) => made,
        };
        push_item(&mut out, made);
        i += 1;
    }
    Ok(out)
}

/// Inlines a shared schema.
pub fn inline_named_schema(
    cx: &Inliner,
    visiting: &mut Vec<bool>,
    parent: &str,
    table: &mut Vec<(String, SchemaRef)>,
    entry: &(String, SchemaRef),
) -> (res: Result<(String, SchemaRef), InlineError>)
    ensures
        inlined(
            res,
            final(table).deep_view(),
            old(visiting)@,
            final(visiting)@,
            inlined_named_schema(
                cx.deep_view(),
                old(visiting)@,
                parent@,
                old(table).deep_view(),
                entry.deep_view(),
            ),
        ),
        final(table).len() >= old(table).len(),
{
    match inline_reference_or_schema(cx, visiting, parent, table, &entry.1) {
        Err(e) => Err(e),
        Ok(made) => Ok((entry.0.clone(), made)),
    }
}

/// Inlines the shared schemas. The table that is read and filled on the way
/// is given apart from them.
#[verifier::loop_isolation(false)]
pub fn inline_shared_schemas(
    cx: &Inliner,
    visiting: &mut Vec<bool>,
    parent: &str,
    table: &mut Vec<(String, SchemaRef)>,
    list: &Vec<(String, SchemaRef)>,
) -> (res: Result<Vec<(String, SchemaRef)>, InlineError>)
    ensures
        inlined(
            res,
            final(table).deep_view(),
            old(visiting)@,
            final(visiting)@,
            inlined_shared_schemas(
                cx.deep_view(),
                old(visiting)@,
                parent@,
                old(table).deep_view(),
                list.deep_view(),
                Seq::empty(),
            ),
        ),
        final(table).len() >= old(table).len(),
{
    let ghost goal = inlined_shared_schemas(
        cx.deep_view(),
        visiting@,
        parent@,
        table.deep_view(),
        list.deep_view(),
        Seq::empty(),
    );
    let ghost flags = visiting@;
    let mut out: Vec<(String, SchemaRef)> = Vec::new();
    let mut i: usize = 0;
    proof {
        assert(out.deep_view() =~= Seq::empty());
        assert(list.deep_view().skip(0) =~= list.deep_view());
    }
    while i < list.len()
        invariant
            i <= list.len(),
            visiting@ == flags,
            table.len() >= old(table).len(),
            goal == inlined_shared_schemas(
                cx.deep_view(),
                flags,
                parent@,
                table.deep_view(),
                list.deep_view().skip(i as int),
                out.deep_view(),
            ),
        decreases list.len() - i,
    {
        proof {
            let rest = list.deep_view().skip(i as int);
            assert(rest[0] == list.deep_view()[i as int]);
            assert(rest.drop_first() =~= list.deep_view().skip(i as int + 1));
        }
        let made = match inline_named_schema(cx, visiting, parent, table, &list[i]) {
            Err(e) => {
                return Err(e);
            },
            Ok(made) => made,
        };
        push_item(&mut out, made);
        i += 1;
    }
    Ok(out)
}

/// Inlines a shared callback or a reference to one.
pub fn inline_callback(
    cx: &Inliner,
    visiting: &mut Vec<bool>,
    parent: &str,
    table: &mut Vec<(String, SchemaRef)>,
    r: &RefOr<Vec<(String, RefOr<PathItem>)>>,
) -> (res: Result<RefOr<Vec<(String, RefOr<PathItem>)>>, InlineError>)
    ensures
        inlined(
            res,
            final(table).deep_view(),
            old(visiting)@,
            final(visiting)@,
            inlined_callback(
                cx.deep_view(),
                old(visiting)@,
                parent@,
                old(table).deep_view(),
                r.deep_view(),
            ),
        ),
        final(table).len() >= old(table).len(),
{
    match r {
        RefOr::Item(paths) => {
            match inline_paths(cx, visiting, parent, table, paths) {
                Err(e) => Err(e),
                Ok(made) => Ok(RefOr::Item(made)),
            }
        },
        RefOr::Reference(reference) => {
            let k = find_entry(cx.foreign, parent, reference.as_str());
            if k >= cx.foreign.len() {
                return Err(
                    InlineError::Unresolved {
                        referrer: String::from_str(parent),
                        reference: reference.clone(),
                        kind: ForeignKind::Callback,
                    },
                );
            }
            assert(cx.foreign.deep_view()[k as int] == cx.foreign[k as int].deep_view());
            let entry = &cx.foreign[k];
            match &entry.item {
                ForeignItem::Callback(target) => {
                    if str_eq(entry.doc_path.as_str(), cx.root) {
                        return Ok(RefOr::Reference(concat2("#/", entry.rel_ref.as_str())));
                    }
                    match inline_paths(cx, visiting, entry.doc_path.as_str(), table, target) {
                        Err(e) => Err(e),
                        Ok(made) => Ok(RefOr::Item(made)),
                    }
                },
                _ => Err(
                    InlineError::WrongKind {
                        referrer: String::from_str(parent),
                        reference: reference.clone(),
                    },
                ),
            }
        },
    }
}

/// Inlines the shared callbacks.
#[verifier::loop_isolation(false)]
pub fn inline_callbacks(
    cx: &Inliner,
    visiting: &mut Vec<bool>,
    parent: &str,
    table: &mut Vec<(String, SchemaRef)>,
    list: &Vec<(String, RefOr<Vec<(String, RefOr<PathItem>)>>)>,
) -> (res: Result<Vec<(String, RefOr<Vec<(String, RefOr<PathItem>)>>)>, InlineError>)
    ensures
        inlined(
            res,
            final(table).deep_view(),
            old(visiting)@,
            final(visiting)@,
            inlined_callbacks(
                cx.deep_view(),
                old(visiting)@,
                parent@,
                old(table).deep_view(),
                list.deep_view(),
                Seq::empty(),
            ),
        ),
        final(table).len() >= old(table).len(),
{
    let ghost goal = inlined_callbacks(
        cx.deep_view(),
        visiting@,
        parent@,
        table.deep_view(),
        list.deep_view(),
        Seq::empty(),
    );
    let ghost flags = visiting@;
    let mut out: Vec<(String, RefOr<Vec<(String, RefOr<PathItem>)>>)> = Vec::new();
    let mut i: usize = 0;
    proof {
        assert(out.deep_view() =~= Seq::empty());
        assert(list.deep_view().skip(0) =~= list.deep_view());
    }
    while i < list.len()
        invariant
            i <= list.len(),
            visiting@ == flags,
            table.len() >= old(table).len(),
            goal == inlined_callbacks(
                cx.deep_view(),
                flags,
                parent@,
                table.deep_view(),
                list.deep_view().skip(i as int),
                out.deep_view(),
            ),
        decreases list.len() - i,
    {
        proof {
            let rest = list.deep_view().skip(i as int);
            assert(rest[0] == list[i as int].deep_view());
            assert(rest.drop_first() =~= list.deep_view().skip(i as int + 1));
        }
        let made = match inline_callback(cx, visiting, parent, table, &list[i].1) {
            Err(e) => {
                return Err(e);
            },
            Ok(made) => made,
        };
        push_item(&mut out, (list[i].0.clone(), made));
        i += 1;
    }
    Ok(out)
}

/// Inlines the shared parts of the root document: the parts that are carried
/// as text, then responses, parameters, request bodies and headers, then the
/// shared schemas, then the callbacks.
#[verifier::loop_isolation(false)]
pub fn inline_components(cx: &Inliner, visiting: &mut Vec<bool>, components: &Components) -> (res:
    Result<Components, InlineError>)
    ensures
        match inlined_components(cx.deep_view(), old(visiting)@, components.deep_view()) {
            Ok(made) => res is Ok && res->Ok_0.deep_view() == made
                && final(visiting)@ == old(visiting)@,
            Err(e) => res is Err && res->Err_0.deep_view() == e,
        },
{
    let security_schemes = match inline_opaques(
        cx,
        cx.root,
        ForeignKind::SecurityScheme,
        &components.security_schemes,
    ) {
        Err(e) => {
            return Err(e);
        },
        Ok(security_schemes) => security_schemes,
    };
    let examples = match inline_opaques(cx, cx.root, ForeignKind::Example, &components.examples) {
        Err(e) => {
            return Err(e);
        },
        Ok(examples) => examples,
    };
    let links = match inline_opaques(cx, cx.root, ForeignKind::Link, &components.links) {
        Err(e) => {
            return Err(e);
        },
        Ok(links) => links,
    };
    let mut table = copy_properties(&components.schemas);
    let responses = match inline_named_responses(
        cx,
        visiting,
        cx.root,
        &mut table,
        &components.responses,
    ) {
        Err(e) => {
            return Err(e);
        },
        Ok(responses) => responses,
    };
    let parameters = match inline_named_parameters(
        cx,
        visiting,
        cx.root,
        &mut table,
        &components.parameters,
    ) {
        Err(e) => {
            return Err(e);
        },
        Ok(parameters) => parameters,
    };
    let request_bodies = match inline_named_request_bodies(
        cx,
        visiting,
        cx.root,
        &mut table,
        &components.request_bodies,
    ) {
        Err(e) => {
            return Err(e);
        },
        Ok(request_bodies) => request_bodies,
    };
    let headers = match inline_named_headers(cx, visiting, cx.root, &mut table, &components.headers) {
        Err(e) => {
            return Err(e);
        },
        Ok(headers) => headers,
    };
    let entries = copy_properties(&table);
    let ghost before = table.deep_view();
    let mut shared = match inline_shared_schemas(cx, visiting, cx.root, &mut table, &entries) {
        Err(e) => {
            return Err(e);
        },
        Ok(shared) => shared,
    };
    let ghost made = shared.deep_view();
    let ghost after = table.deep_view();
    let count = entries.len();
    let mut merged = table;
    let mut k: usize = count;
    proof {
        assert(after.subrange(count as int, count as int) =~= Seq::empty());
        assert(made + Seq::empty() =~= made);
    }
    while k < merged.len()
        invariant
            count <= k <= merged.len(),
            merged.deep_view() == after,
            shared.deep_view() == made + after.subrange(count as int, k as int),
        decreases merged.len() - k,
    {
        let item = (merged[k].0.clone(), crate::copy::copy_schema_ref(&merged[k].1));
        assert(item.deep_view() == after[k as int]);
        push_item(&mut shared, item);
        assert(shared.deep_view() =~= made + after.subrange(count as int, k as int + 1));
        k += 1;
    }
    proof {
        assert(after.subrange(count as int, after.len() as int) =~= after.skip(count as int));
    }
    let callbacks = match inline_callbacks(
        cx,
        visiting,
        cx.root,
        &mut shared,
        &components.callbacks,
    ) {
        Err(e) => {
            return Err(e);
        },
        Ok(callbacks) => callbacks,
    };
    Ok(
        Components {
            schemas: shared,
            responses,
            parameters,
            request_bodies,
            headers,
            security_schemes,
            examples,
            links,
            callbacks,
        },
    )
}

/// Resolves the references of the root document into other documents, so that
/// one document is left: a schema of another document is merged into the
/// shared schemas under its own name, any other part is copied to where the
/// reference stood, and a reference that leads back into the root document
/// becomes a local one. Every reference must be among those that the caller
/// has resolved: the first that is not is the error, so that the caller can
/// resolve it and run the pass again.
#[verifier::loop_isolation(false)]
pub fn inline_openapi(openapi: &OpenApi, root: &str, foreign: &Vec<Foreign>) -> (res: Result<
    OpenApi,
    InlineError,
>)
    ensures
        agrees(
            res,
            inlined_document(
                crate::inline_spec::InlineInput { root: root@, foreign: foreign.deep_view() },
                openapi.deep_view(),
            ),
        ),
{
    let cx = Inliner { root, foreign };
    let mut visiting: Vec<bool> = Vec::new();
    let mut i: usize = 0;
    while i < foreign.len()
        invariant
            i <= foreign.len(),
            visiting@ == Seq::new(i as nat, |j: int| false),
        decreases foreign.len() - i,
    {
        visiting.push(false);
        assert(visiting@ =~= Seq::new((i + 1) as nat, |j: int| false));
        i += 1;
    }
    assert(foreign.deep_view().len() == foreign.len());
    let made = match &openapi.components {
        Some(c) => inline_components(&cx, &mut visiting, c),
        None => {
            let empty = Components {
                schemas: Vec::new(),
                responses: Vec::new(),
                parameters: Vec::new(),
                request_bodies: Vec::new(),
                headers: Vec::new(),
                security_schemes: Vec::new(),
                examples: Vec::new(),
                links: Vec::new(),
                callbacks: Vec::new(),
            };
            proof {
                assert(empty.schemas.deep_view() =~= Seq::empty());
                assert(empty.responses.deep_view() =~= Seq::empty());
                assert(empty.parameters.deep_view() =~= Seq::empty());
                assert(empty.request_bodies.deep_view() =~= Seq::empty());
                assert(empty.headers.deep_view() =~= Seq::empty());
                assert(empty.security_schemes.deep_view() =~= Seq::empty());
                assert(empty.examples.deep_view() =~= Seq::empty());
                assert(empty.links.deep_view() =~= Seq::empty());
                assert(empty.callbacks.deep_view() =~= Seq::empty());
            }
            inline_components(&cx, &mut visiting, &empty)
        },
    };
    let shared = match made {
        Err(e) => {
            return Err(e);
        },
        Ok(shared) => shared,
    };
    let Components {
        schemas,
        responses,
        parameters,
        request_bodies,
        headers,
        security_schemes,
        examples,
        links,
        callbacks,
    } = shared;
    let mut table = schemas;
    match inline_paths(&cx, &mut visiting, root, &mut table, &openapi.paths) {
        Err(e) => Err(e),
        Ok(paths) => Ok(
            OpenApi {
                paths,
                components: Some(
                    Components {
                        schemas: table,
                        responses,
                        parameters,
                        request_bodies,
                        headers,
                        security_schemes,
                        examples,
                        links,
                        callbacks,
                    },
                ),
                rest: openapi.rest.clone(),
            },
        ),
    }
}

} // verus!
