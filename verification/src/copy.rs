//! Copies of the parts of a document, equal in view to what they copy.
use vstd::prelude::*;
use crate::document::{
    Header, Integration, MediaType, Method, Operation, Parameter, ParameterFormat, PathItem, RefOr,
    RequestBody, Response, Responses, StatusCode,
};
use crate::model::{copy_text, lemma_properties_view, lemma_refs_view, push_item};
use crate::schema::{additional_view, Additional, Discriminator, Schema, SchemaKind, SchemaRef};

verus! {

/// A copy of a list of strings.
pub fn copy_strings(list: &Vec<String>) -> (r: Vec<String>)
    ensures
        r.deep_view() == list.deep_view(),
{
    let mut out: Vec<String> = Vec::new();
    let mut i: usize = 0;
    while i < list.len()
        invariant
            i <= list.len(),
            out.deep_view() == list.deep_view().take(i as int),
        decreases list.len() - i,
    {
        let item = list[i].clone();
        assert(item.deep_view() == list.deep_view()[i as int]);
        push_item(&mut out, item);
        assert(out.deep_view() =~= list.deep_view().take(i as int + 1));
        i += 1;
    }
    assert(out.deep_view() =~= list.deep_view());
    out
}

/// A copy of a list of optional strings.
pub fn copy_literals(list: &Vec<Option<String>>) -> (r: Vec<Option<String>>)
    ensures
        r.deep_view() == list.deep_view(),
{
    let mut out: Vec<Option<String>> = Vec::new();
    let mut i: usize = 0;
    while i < list.len()
        invariant
            i <= list.len(),
            out.deep_view() == list.deep_view().take(i as int),
        decreases list.len() - i,
    {
        let item = copy_text(&list[i]);
        assert(item.deep_view() == list.deep_view()[i as int]);
        push_item(&mut out, item);
        assert(out.deep_view() =~= list.deep_view().take(i as int + 1));
        i += 1;
    }
    assert(out.deep_view() =~= list.deep_view());
    out
}

/// A copy of a list of pairs of strings.
pub fn copy_pairs(list: &Vec<(String, String)>) -> (r: Vec<(String, String)>)
    ensures
        r.deep_view() == list.deep_view(),
{
    let mut out: Vec<(String, String)> = Vec::new();
    let mut i: usize = 0;
    while i < list.len()
        invariant
            i <= list.len(),
            out.deep_view() == list.deep_view().take(i as int),
        decreases list.len() - i,
    {
        let item = (list[i].0.clone(), list[i].1.clone());
        assert(item.deep_view() == list.deep_view()[i as int]);
        push_item(&mut out, item);
        assert(out.deep_view() =~= list.deep_view().take(i as int + 1));
        i += 1;
    }
    assert(out.deep_view() =~= list.deep_view());
    out
}

/// A copy of a list of named parts that are carried as text, or of
/// references to such parts.
pub fn copy_opaques(list: &Vec<(String, RefOr<String>)>) -> (r: Vec<(String, RefOr<String>)>)
    ensures
        r.deep_view() == list.deep_view(),
{
    let mut out: Vec<(String, RefOr<String>)> = Vec::new();
    let mut i: usize = 0;
    while i < list.len()
        invariant
            i <= list.len(),
            out.deep_view() == list.deep_view().take(i as int),
        decreases list.len() - i,
    {
        let part = match &list[i].1 {
            RefOr::Reference(reference) => RefOr::Reference(reference.clone()),
            RefOr::Item(text) => RefOr::Item(text.clone()),
        };
        let item = (list[i].0.clone(), part);
        assert(item.deep_view() == list.deep_view()[i as int]);
        push_item(&mut out, item);
        assert(out.deep_view() =~= list.deep_view().take(i as int + 1));
        i += 1;
    }
    assert(out.deep_view() =~= list.deep_view());
    out
}

/// A copy of a discriminator.
pub fn copy_discriminator(d: &Option<Discriminator>) -> (r: Option<Discriminator>)
    ensures
        r.deep_view() == d.deep_view(),
{
    match d {
        None => None,
        Some(d) => Some(
            Discriminator { property_name: d.property_name.clone(), mapping: copy_pairs(&d.mapping) },
        ),
    }
}

/// A copy of a schema or reference.
pub fn copy_schema_ref(r: &SchemaRef) -> (out: SchemaRef)
    ensures
        out.deep_view() == r.deep_view(),
    decreases r,
{
    match r {
        SchemaRef::Reference(reference) => SchemaRef::Reference(reference.clone()),
        SchemaRef::Item(schema) => SchemaRef::Item(copy_schema(schema)),
    }
}

/// A copy of a list of schemas or references.
pub fn copy_schema_refs(list: &Vec<SchemaRef>) -> (out: Vec<SchemaRef>)
    ensures
        out.deep_view() == list.deep_view(),
    decreases list,
{
    let mut out: Vec<SchemaRef> = Vec::new();
    let mut i: usize = 0;
    while i < list.len()
        invariant
            i <= list.len(),
            out.deep_view() == list.deep_view().take(i as int),
        decreases list.len() - i,
    {
        proof {
            assert(decreases_to!(*list => list[i as int]));
        }
        let item = copy_schema_ref(&list[i]);
        assert(item.deep_view() == list.deep_view()[i as int]);
        push_item(&mut out, item);
        assert(out.deep_view() =~= list.deep_view().take(i as int + 1));
        i += 1;
    }
    assert(out.deep_view() =~= list.deep_view());
    out
}

/// A copy of a list of named schemas or references.
pub fn copy_properties(list: &Vec<(String, SchemaRef)>) -> (out: Vec<(String, SchemaRef)>)
    ensures
        out.deep_view() == list.deep_view(),
    decreases list,
{
    let mut out: Vec<(String, SchemaRef)> = Vec::new();
    let mut i: usize = 0;
    while i < list.len()
        invariant
            i <= list.len(),
            out.deep_view() == list.deep_view().take(i as int),
        decreases list.len() - i,
    {
        proof {
            assert(decreases_to!(*list => list[i as int]));
            assert(decreases_to!(list[i as int] => list[i as int].1));
        }
        let item = (list[i].0.clone(), copy_schema_ref(&list[i].1));
        assert(item.deep_view() == list.deep_view()[i as int]);
        push_item(&mut out, item);
        assert(out.deep_view() =~= list.deep_view().take(i as int + 1));
        i += 1;
    }
    assert(out.deep_view() =~= list.deep_view());
    out
}

/// A copy of what an object says of additional properties.
pub fn copy_additional(a: &Additional) -> (out: Additional)
    ensures
        additional_view(out) == additional_view(*a),
    decreases a,
{
    match a {
        Additional::Absent => Additional::Absent,
        Additional::Any(allowed) => Additional::Any(*allowed),
        Additional::Schema(inner) => Additional::Schema(Box::new(copy_schema_ref(&**inner))),
    }
}

/// A copy of a schema.
pub fn copy_schema(schema: &Schema) -> (out: Schema)
    ensures
        out.deep_view() == schema.deep_view(),
    decreases schema,
{
    let kind = match &schema.kind {
        SchemaKind::Object { properties, required, additional } => {
            proof {
                lemma_properties_view(*properties);
            }
            let copied = copy_properties(properties);
            proof {
                lemma_properties_view(copied);
            }
            SchemaKind::Object {
                properties: copied,
                required: copy_strings(required),
                additional: copy_additional(additional),
            }
        },
        SchemaKind::Array { items, unique_items } => SchemaKind::Array {
            items: match items {
                Some(inner) => Some(Box::new(copy_schema_ref(&**inner))),
                None => None,
            },
            unique_items: *unique_items,
        },
        SchemaKind::String { format, enumeration } => SchemaKind::String {
            format: copy_text(format),
            enumeration: copy_literals(enumeration),
        },
        SchemaKind::Integer { format, enumeration } => SchemaKind::Integer {
            format: copy_text(format),
            enumeration: copy_literals(enumeration),
        },
        SchemaKind::Number { format, enumeration } => SchemaKind::Number {
            format: copy_text(format),
            enumeration: copy_literals(enumeration),
        },
        SchemaKind::Boolean { enumeration } => SchemaKind::Boolean {
            enumeration: copy_literals(enumeration),
        },
        SchemaKind::OneOf(list) => {
            proof {
                lemma_refs_view(*list);
            }
            let copied = copy_schema_refs(list);
            proof {
                lemma_refs_view(copied);
            }
            SchemaKind::OneOf(copied)
        },
        SchemaKind::AllOf(list) => {
            proof {
                lemma_refs_view(*list);
            }
            let copied = copy_schema_refs(list);
            proof {
                lemma_refs_view(copied);
            }
            SchemaKind::AllOf(copied)
        },
        SchemaKind::AnyOf(list) => {
            proof {
                lemma_refs_view(*list);
            }
            let copied = copy_schema_refs(list);
            proof {
                lemma_refs_view(copied);
            }
            SchemaKind::AnyOf(copied)
        },
        SchemaKind::Not(inner) => SchemaKind::Not(Box::new(copy_schema_ref(&**inner))),
        SchemaKind::Any { trivial } => SchemaKind::Any { trivial: *trivial },
    };
    Schema {
        description: copy_text(&schema.description),
        discriminator: copy_discriminator(&schema.discriminator),
        kind,
        rest: schema.rest.clone(),
    }
}

/// A copy of what stands under a media type.
pub fn copy_media(x: &MediaType) -> (out: MediaType)
    ensures
        out.deep_view() == x.deep_view(),
{
    MediaType {
        schema: match &x.schema {
            Some(r) => Some(copy_schema_ref(r)),
            None => None,
        },
        examples: copy_opaques(&x.examples),
        rest: x.rest.clone(),
    }
}

/// A copy of one entry of the content of a body.
pub fn copy_content_entry(x: &(String, MediaType)) -> (out: (String, MediaType))
    ensures
        out.deep_view() == x.deep_view(),
{
    (x.0.clone(), copy_media(&x.1))
}

/// A copy of the content of a body.
pub fn copy_content(list: &Vec<(String, MediaType)>) -> (out: Vec<(String, MediaType)>)
    ensures
        out.deep_view() == list.deep_view(),
{
    let mut out: Vec<(String, MediaType)> = Vec::new();
    let mut i: usize = 0;
    while i < list.len()
        invariant
            i <= list.len(),
            out.deep_view() == list.deep_view().take(i as int),
        decreases list.len() - i,
    {
        let item = copy_content_entry(&list[i]);
        assert(item.deep_view() == list.deep_view()[i as int]);
        push_item(&mut out, item);
        assert(out.deep_view() =~= list.deep_view().take(i as int + 1));
        i += 1;
    }
    assert(out.deep_view() =~= list.deep_view());
    out
}

/// A copy of the description of the value of a parameter or header.
pub fn copy_format(x: &ParameterFormat) -> (out: ParameterFormat)
    ensures
        out.deep_view() == x.deep_view(),
{
    match x {
        ParameterFormat::Schema(r) => ParameterFormat::Schema(copy_schema_ref(r)),
        ParameterFormat::Content(content) => ParameterFormat::Content(copy_content(content)),
    }
}

/// A copy of a parameter.
pub fn copy_parameter(x: &Parameter) -> (out: Parameter)
    ensures
        out.deep_view() == x.deep_view(),
{
    Parameter {
        location: x.location,
        name: x.name.clone(),
        description: copy_text(&x.description),
        required: x.required,
        format: copy_format(&x.format),
        examples: copy_opaques(&x.examples),
        rest: x.rest.clone(),
    }
}

/// A copy of a parameter or a reference to one.
pub fn copy_parameter_ref(x: &RefOr<Parameter>) -> (out: RefOr<Parameter>)
    ensures
        out.deep_view() == x.deep_view(),
{
    match x {
        RefOr::Reference(reference) => RefOr::Reference(reference.clone()),
        RefOr::Item(item) => RefOr::Item(copy_parameter(item)),
    }
}

/// A copy of a list of parameters.
pub fn copy_parameters(list: &Vec<RefOr<Parameter>>) -> (out: Vec<RefOr<Parameter>>)
    ensures
        out.deep_view() == list.deep_view(),
{
    let mut out: Vec<RefOr<Parameter>> = Vec::new();
    let mut i: usize = 0;
    while i < list.len()
        invariant
            i <= list.len(),
            out.deep_view() == list.deep_view().take(i as int),
        decreases list.len() - i,
    {
        let item = copy_parameter_ref(&list[i]);
        assert(item.deep_view() == list.deep_view()[i as int]);
        push_item(&mut out, item);
        assert(out.deep_view() =~= list.deep_view().take(i as int + 1));
        i += 1;
    }
    assert(out.deep_view() =~= list.deep_view());
    out
}

/// A copy of a header.
pub fn copy_header(x: &Header) -> (out: Header)
    ensures
        out.deep_view() == x.deep_view(),
{
    Header { format: copy_format(&x.format), examples: copy_opaques(&x.examples), rest: x.rest.clone() }
}

/// A copy of a named header or reference to one.
pub fn copy_named_header(x: &(String, RefOr<Header>)) -> (out: (String, RefOr<Header>))
    ensures
        out.deep_view() == x.deep_view(),
{
    (
        x.0.clone(),
        match &x.1 {
            RefOr::Reference(reference) => RefOr::Reference(reference.clone()),
            RefOr::Item(item) => RefOr::Item(copy_header(item)),
        },
    )
}

/// A copy of a list of named headers.
pub fn copy_headers(list: &Vec<(String, RefOr<Header>)>) -> (out: Vec<(String, RefOr<Header>)>)
    ensures
        out.deep_view() == list.deep_view(),
{
    let mut out: Vec<(String, RefOr<Header>)> = Vec::new();
    let mut i: usize = 0;
    while i < list.len()
        invariant
            i <= list.len(),
            out.deep_view() == list.deep_view().take(i as int),
        decreases list.len() - i,
    {
        let item = copy_named_header(&list[i]);
        assert(item.deep_view() == list.deep_view()[i as int]);
        push_item(&mut out, item);
        assert(out.deep_view() =~= list.deep_view().take(i as int + 1));
        i += 1;
    }
    assert(out.deep_view() =~= list.deep_view());
    out
}

/// A copy of the body of a request.
pub fn copy_body(x: &RequestBody) -> (out: RequestBody)
    ensures
        out.deep_view() == x.deep_view(),
{
    RequestBody {
        description: copy_text(&x.description),
        content: copy_content(&x.content),
        required: x.required,
        rest: x.rest.clone(),
    }
}

/// A copy of the body of a request, or of a reference to one, if there is one.
pub fn copy_request_body(x: &Option<RefOr<RequestBody>>) -> (out: Option<RefOr<RequestBody>>)
    ensures
        out.deep_view() == x.deep_view(),
{
    match x {
        None => None,
        Some(RefOr::Reference(reference)) => Some(RefOr::Reference(reference.clone())),
        Some(RefOr::Item(item)) => Some(RefOr::Item(copy_body(item))),
    }
}

/// A copy of a response.
pub fn copy_response(x: &Response) -> (out: Response)
    ensures
        out.deep_view() == x.deep_view(),
{
    Response {
        description: x.description.clone(),
        headers: copy_headers(&x.headers),
        content: copy_content(&x.content),
        links: copy_opaques(&x.links),
        rest: x.rest.clone(),
    }
}

/// A copy of a response or a reference to one.
pub fn copy_response_ref(x: &RefOr<Response>) -> (out: RefOr<Response>)
    ensures
        out.deep_view() == x.deep_view(),
{
    match x {
        RefOr::Reference(reference) => RefOr::Reference(reference.clone()),
        RefOr::Item(item) => RefOr::Item(copy_response(item)),
    }
}

/// A copy of a response under its status.
pub fn copy_status_response(x: &(StatusCode, RefOr<Response>)) -> (out: (StatusCode, RefOr<Response>))
    ensures
        out.deep_view() == x.deep_view(),
{
    (x.0, copy_response_ref(&x.1))
}

/// A copy of the responses of an operation by status.
pub fn copy_status_responses(list: &Vec<(StatusCode, RefOr<Response>)>) -> (out: Vec<(StatusCode, RefOr<Response>)>)
    ensures
        out.deep_view() == list.deep_view(),
{
    let mut out: Vec<(StatusCode, RefOr<Response>)> = Vec::new();
    let mut i: usize = 0;
    while i < list.len()
        invariant
            i <= list.len(),
            out.deep_view() == list.deep_view().take(i as int),
        decreases list.len() - i,
    {
        let item = copy_status_response(&list[i]);
        assert(item.deep_view() == list.deep_view()[i as int]);
        push_item(&mut out, item);
        assert(out.deep_view() =~= list.deep_view().take(i as int + 1));
        i += 1;
    }
    assert(out.deep_view() =~= list.deep_view());
    out
}

/// A copy of the responses of an operation.
pub fn copy_responses(x: &Responses) -> (out: Responses)
    ensures
        out.deep_view() == x.deep_view(),
{
    Responses {
        default: match &x.default {
            Some(r) => Some(copy_response_ref(r)),
            None => None,
        },
        responses: copy_status_responses(&x.responses),
    }
}

/// A copy of a list of lists of strings.
pub fn copy_string_lists(x: &Vec<Vec<String>>) -> (out: Vec<Vec<String>>)
    ensures
        out.deep_view() == x.deep_view(),
{
    let mut out: Vec<Vec<String>> = Vec::new();
    let mut i: usize = 0;
    while i < x.len()
        invariant
            i <= x.len(),
            out.deep_view() == x.deep_view().take(i as int),
        decreases x.len() - i,
    {
        let item = copy_strings(&x[i]);
        assert(item.deep_view() == x.deep_view()[i as int]);
        push_item(&mut out, item);
        assert(out.deep_view() =~= x.deep_view().take(i as int + 1));
        i += 1;
    }
    assert(out.deep_view() =~= x.deep_view());
    out
}

/// A copy of the security requirements of an operation.
pub fn copy_security(x: &Option<Vec<Vec<String>>>) -> (out: Option<Vec<Vec<String>>>)
    ensures
        out.deep_view() == x.deep_view(),
{
    match x {
        None => None,
        Some(list) => Some(copy_string_lists(list)),
    }
}

/// A copy of what an operation says of the function that serves it.
pub fn copy_integration(x: &Option<Integration>) -> (out: Option<Integration>)
    ensures
        out.deep_view() == x.deep_view(),
{
    match x {
        None => None,
        Some(i) => Some(
            Integration {
                http_method: i.http_method.clone(),
                kind: i.kind.clone(),
                uri: i.uri.clone(),
                substituted: i.substituted,
            },
        ),
    }
}

/// A copy of an operation.
pub fn copy_operation(x: &Operation) -> (out: Operation)
    ensures
        out.deep_view() == x.deep_view(),
{
    Operation {
        operation_id: copy_text(&x.operation_id),
        tags: copy_strings(&x.tags),
        description: copy_text(&x.description),
        parameters: copy_parameters(&x.parameters),
        request_body: copy_request_body(&x.request_body),
        responses: copy_responses(&x.responses),
        security: copy_security(&x.security),
        integration: copy_integration(&x.integration),
        rest: x.rest.clone(),
    }
}

/// A copy of an operation under its method.
pub fn copy_operation_entry(x: &(Method, Operation)) -> (out: (Method, Operation))
    ensures
        out.deep_view() == x.deep_view(),
{
    (x.0, copy_operation(&x.1))
}

/// A copy of the operations of a path.
pub fn copy_operations(list: &Vec<(Method, Operation)>) -> (out: Vec<(Method, Operation)>)
    ensures
        out.deep_view() == list.deep_view(),
{
    let mut out: Vec<(Method, Operation)> = Vec::new();
    let mut i: usize = 0;
    while i < list.len()
        invariant
            i <= list.len(),
            out.deep_view() == list.deep_view().take(i as int),
        decreases list.len() - i,
    {
        let item = copy_operation_entry(&list[i]);
        assert(item.deep_view() == list.deep_view()[i as int]);
        push_item(&mut out, item);
        assert(out.deep_view() =~= list.deep_view().take(i as int + 1));
        i += 1;
    }
    assert(out.deep_view() =~= list.deep_view());
    out
}

/// A copy of what stands under a path.
pub fn copy_path_item(x: &PathItem) -> (out: PathItem)
    ensures
        out.deep_view() == x.deep_view(),
{
    PathItem {
        operations: copy_operations(&x.operations),
        parameters: copy_parameters(&x.parameters),
        rest: x.rest.clone(),
    }
}

/// A copy of a list of paths.
pub fn copy_paths(list: &Vec<(String, RefOr<PathItem>)>) -> (out: Vec<(String, RefOr<PathItem>)>)
    ensures
        out.deep_view() == list.deep_view(),
{
    let mut out: Vec<(String, RefOr<PathItem>)> = Vec::new();
    let mut i: usize = 0;
    while i < list.len()
        invariant
            i <= list.len(),
            out.deep_view() == list.deep_view().take(i as int),
        decreases list.len() - i,
    {
        let part = match &list[i].1 {
            RefOr::Reference(reference) => RefOr::Reference(reference.clone()),
            RefOr::Item(item) => RefOr::Item(copy_path_item(item)),
        };
        let item = (list[i].0.clone(), part);
        assert(item.deep_view() == list.deep_view()[i as int]);
        push_item(&mut out, item);
        assert(out.deep_view() =~= list.deep_view().take(i as int + 1));
        i += 1;
    }
    assert(out.deep_view() =~= list.deep_view());
    out
}

/// A copy of a list of shared callbacks.
pub fn copy_callbacks(list: &Vec<(String, RefOr<Vec<(String, RefOr<PathItem>)>>)>) -> (out: Vec<
    (String, RefOr<Vec<(String, RefOr<PathItem>)>>),
>)
    ensures
        out.deep_view() == list.deep_view(),
{
    let mut out: Vec<(String, RefOr<Vec<(String, RefOr<PathItem>)>>)> = Vec::new();
    let mut i: usize = 0;
    while i < list.len()
        invariant
            i <= list.len(),
            out.deep_view() == list.deep_view().take(i as int),
        decreases list.len() - i,
    {
        let part = match &list[i].1 {
            RefOr::Reference(reference) => RefOr::Reference(reference.clone()),
            RefOr::Item(paths) => RefOr::Item(copy_paths(paths)),
        };
        let item = (list[i].0.clone(), part);
        assert(item.deep_view() == list.deep_view()[i as int]);
        push_item(&mut out, item);
        assert(out.deep_view() =~= list.deep_view().take(i as int + 1));
        i += 1;
    }
    assert(out.deep_view() =~= list.deep_view());
    out
}

} // verus!
