//! What the gateway transformer makes of a document, as mathematics over
//! views: discriminators are taken out of every schema, after the property
//! that they name has been made required; operations that no deployable unit
//! serves are taken out, and the others are told which function serves them.
use vstd::prelude::*;
use crate::document::{
    ComponentsView, HeaderView, IntegrationView, MediaTypeView, Method, OpenApiView, OperationView,
    ParameterFormatView, ParameterView, PathItemView, RefOrView, RequestBodyView, ResponseView,
    ResponsesView, StatusCode,
};
use crate::ir::{CompileErrorKind, CompileErrorView};
use crate::model_spec::fail;
use crate::schema::{AdditionalView, SchemaKindView, SchemaRefView, SchemaView};
use crate::table::{has_key, lookup};

verus! {

/// A schema or reference for the gateway: a reference stays, a schema is
/// transformed.
pub open spec fn gateway_ref(r: SchemaRefView) -> Result<SchemaRefView, CompileErrorView>
    decreases r, 1nat,
{
    match r {
        SchemaRefView::Reference(_) => Ok(r),
        SchemaRefView::Item(schema) => match gateway_schema(schema) {
            Err(e) => Err(e),
            Ok(made) => Ok(SchemaRefView::Item(made)),
        },
    }
}

/// A list of schemas or references for the gateway, after `acc`.
pub open spec fn gateway_refs(list: Seq<SchemaRefView>, acc: Seq<SchemaRefView>) -> Result<
    Seq<SchemaRefView>,
    CompileErrorView,
>
    decreases list, 0nat,
{
    if list.len() == 0 {
        Ok(acc)
    } else {
        match gateway_ref(list[0]) {
            Err(e) => Err(e),
            Ok(made) => gateway_refs(list.drop_first(), acc.push(made)),
        }
    }
}

/// A list of named schemas or references for the gateway, after `acc`.
pub open spec fn gateway_properties(
    list: Seq<(Seq<char>, SchemaRefView)>,
    acc: Seq<(Seq<char>, SchemaRefView)>,
) -> Result<Seq<(Seq<char>, SchemaRefView)>, CompileErrorView>
    decreases list, 0nat,
{
    if list.len() == 0 {
        Ok(acc)
    } else {
        match gateway_ref(list[0].1) {
            Err(e) => Err(e),
            Ok(made) => gateway_properties(list.drop_first(), acc.push((list[0].0, made))),
        }
    }
}

/// The parts of a schema for the gateway, before its discriminator is looked
/// at.
pub open spec fn gateway_kind(kind: SchemaKindView) -> Result<SchemaKindView, CompileErrorView>
    decreases kind, 0nat,
{
    match kind {
        SchemaKindView::Object { properties, required, additional } => match gateway_properties(
            properties,
            Seq::empty(),
        ) {
            Err(e) => Err(e),
            Ok(made) => match additional {
                AdditionalView::Schema(inner) => match gateway_ref(*inner) {
                    Err(e) => Err(e),
                    Ok(extra) => Ok(
                        SchemaKindView::Object {
                            properties: made,
                            required,
                            additional: AdditionalView::Schema(Box::new(extra)),
                        },
                    ),
                },
                _ => Ok(SchemaKindView::Object { properties: made, required, additional }),
            },
        },
        SchemaKindView::Array { items, unique_items } => match items {
            Some(inner) => match gateway_ref(*inner) {
                Err(e) => Err(e),
                Ok(made) => Ok(SchemaKindView::Array { items: Some(Box::new(made)), unique_items }),
            },
            None => Ok(kind),
        },
        SchemaKindView::OneOf(list) => match gateway_refs(list, Seq::empty()) {
            Err(e) => Err(e),
            Ok(made) => Ok(SchemaKindView::OneOf(made)),
        },
        SchemaKindView::AllOf(list) => match gateway_refs(list, Seq::empty()) {
            Err(e) => Err(e),
            Ok(made) => Ok(SchemaKindView::AllOf(made)),
        },
        SchemaKindView::AnyOf(list) => match gateway_refs(list, Seq::empty()) {
            Err(e) => Err(e),
            Ok(made) => Ok(SchemaKindView::AnyOf(made)),
        },
        SchemaKindView::Not(inner) => match gateway_ref(*inner) {
            Err(e) => Err(e),
            Ok(made) => Ok(SchemaKindView::Not(Box::new(made))),
        },
        _ => Ok(kind),
    }
}

/// The parts of a schema once the property `name` of its discriminator is
/// required: the schema must be an object that has the property, unless it is
/// a composition or has no type, in which case nothing changes.
pub open spec fn with_required(kind: SchemaKindView, name: Seq<char>) -> Result<
    SchemaKindView,
    CompileErrorView,
> {
    match kind {
        SchemaKindView::Object { properties, required, additional } => if !has_key(
            properties,
            name,
        ) {
            fail(CompileErrorKind::DiscriminatorProperty, name)
        } else if required.contains(name) {
            Ok(kind)
        } else {
            Ok(SchemaKindView::Object { properties, required: required.push(name), additional })
        },
        SchemaKindView::Array { .. } => fail(CompileErrorKind::DiscriminatorProperty, name),
        SchemaKindView::String { .. } => fail(CompileErrorKind::DiscriminatorProperty, name),
        SchemaKindView::Integer { .. } => fail(CompileErrorKind::DiscriminatorProperty, name),
        SchemaKindView::Number { .. } => fail(CompileErrorKind::DiscriminatorProperty, name),
        SchemaKindView::Boolean { .. } => fail(CompileErrorKind::DiscriminatorProperty, name),
        _ => Ok(kind),
    }
}

/// A schema for the gateway: its parts transformed, the property of its
/// discriminator required, and the discriminator gone.
pub open spec fn gateway_schema(schema: SchemaView) -> Result<SchemaView, CompileErrorView>
    decreases schema, 0nat,
{
    match gateway_kind(schema.kind) {
        Err(e) => Err(e),
        Ok(kind) => {
            let settled = match schema.discriminator {
                Some(d) => with_required(kind, d.property_name),
                None => Ok(kind),
            };
            match settled {
                Err(e) => Err(e),
                Ok(kind) => Ok(
                    SchemaView {
                        description: schema.description,
                        discriminator: None,
                        kind,
                        rest: schema.rest,
                    },
                ),
            }
        },
    }
}

/// A transformed schema has no discriminator, and neither has any schema in
/// it.
pub open spec fn free_of_discriminators(r: SchemaRefView) -> bool
    decreases r,
{
    match r {
        SchemaRefView::Reference(_) => true,
        SchemaRefView::Item(schema) => schema.discriminator is None && match schema.kind {
            SchemaKindView::Object { properties, required, additional } => (forall|i: int|
                0 <= i < properties.len() ==> free_of_discriminators(
                    (#[trigger] properties[i]).1,
                )) && match additional {
                AdditionalView::Schema(inner) => free_of_discriminators(*inner),
                _ => true,
            },
            SchemaKindView::Array { items, unique_items } => match items {
                Some(inner) => free_of_discriminators(*inner),
                None => true,
            },
            SchemaKindView::OneOf(list) => forall|i: int|
                0 <= i < list.len() ==> free_of_discriminators(#[trigger] list[i]),
            SchemaKindView::AllOf(list) => forall|i: int|
                0 <= i < list.len() ==> free_of_discriminators(#[trigger] list[i]),
            SchemaKindView::AnyOf(list) => forall|i: int|
                0 <= i < list.len() ==> free_of_discriminators(#[trigger] list[i]),
            SchemaKindView::Not(inner) => free_of_discriminators(*inner),
            _ => true,
        },
    }
}

/// What stands under a media type, for the gateway.
pub open spec fn gateway_media(media: MediaTypeView) -> Result<MediaTypeView, CompileErrorView> {
    match media.schema {
        None => Ok(media),
        Some(r) => match gateway_ref(r) {
            Err(e) => Err(e),
            Ok(made) => Ok(MediaTypeView { schema: Some(made), examples: media.examples, rest: media.rest }),
        },
    }
}

/// One entry of the content of a body, for the gateway.
pub open spec fn gateway_content_entry(entry: (Seq<char>, MediaTypeView)) -> Result<
    (Seq<char>, MediaTypeView),
    CompileErrorView,
> {
    match gateway_media(entry.1) {
        Err(e) => Err(e),
        Ok(made) => Ok((entry.0, made)),
    }
}

/// The content of a body, for the gateway, after `acc`.
pub open spec fn gateway_content(
    list: Seq<(Seq<char>, MediaTypeView)>,
    acc: Seq<(Seq<char>, MediaTypeView)>,
) -> Result<Seq<(Seq<char>, MediaTypeView)>, CompileErrorView>
    decreases list.len(),
{
    if list.len() == 0 {
        Ok(acc)
    } else {
        match gateway_content_entry(list[0]) {
            Err(e) => Err(e),
            Ok(made) => gateway_content(list.drop_first(), acc.push(made)),
        }
    }
}

/// The description of the value of a parameter or header, for the gateway.
pub open spec fn gateway_format(format: ParameterFormatView) -> Result<
    ParameterFormatView,
    CompileErrorView,
> {
    match format {
        ParameterFormatView::Schema(r) => match gateway_ref(r) {
            Err(e) => Err(e),
            Ok(made) => Ok(ParameterFormatView::Schema(made)),
        },
        ParameterFormatView::Content(content) => match gateway_content(content, Seq::empty()) {
            Err(e) => Err(e),
            Ok(made) => Ok(ParameterFormatView::Content(made)),
        },
    }
}

/// A parameter or a reference to one, for the gateway: a reference stays.
pub open spec fn gateway_parameter(r: RefOrView<ParameterView>) -> Result<
    RefOrView<ParameterView>,
    CompileErrorView,
> {
    match r {
        RefOrView::Reference(_) => Ok(r),
        RefOrView::Item(parameter) => match gateway_format(parameter.format) {
            Err(e) => Err(e),
            Ok(format) => Ok(
                RefOrView::Item(
                    ParameterView {
                        location: parameter.location,
                        name: parameter.name,
                        description: parameter.description,
                        required: parameter.required,
                        format,
                        examples: parameter.examples,
                        rest: parameter.rest,
                    },
                ),
            ),
        },
    }
}

/// A header or a reference to one, for the gateway: a reference stays.
pub open spec fn gateway_header(r: RefOrView<HeaderView>) -> Result<
    RefOrView<HeaderView>,
    CompileErrorView,
> {
    match r {
        RefOrView::Reference(_) => Ok(r),
        RefOrView::Item(header) => match gateway_format(header.format) {
            Err(e) => Err(e),
            Ok(format) => Ok(RefOrView::Item(HeaderView { format, examples: header.examples, rest: header.rest })),
        },
    }
}

/// A named header, for the gateway.
pub open spec fn gateway_named_header(entry: (Seq<char>, RefOrView<HeaderView>)) -> Result<
    (Seq<char>, RefOrView<HeaderView>),
    CompileErrorView,
> {
    match gateway_header(entry.1) {
        Err(e) => Err(e),
        Ok(made) => Ok((entry.0, made)),
    }
}

/// A named parameter, for the gateway.
pub open spec fn gateway_named_parameter(entry: (Seq<char>, RefOrView<ParameterView>)) -> Result<
    (Seq<char>, RefOrView<ParameterView>),
    CompileErrorView,
> {
    match gateway_parameter(entry.1) {
        Err(e) => Err(e),
        Ok(made) => Ok((entry.0, made)),
    }
}

/// A list of parameters, for the gateway, after `acc`.
pub open spec fn gateway_parameters(
    list: Seq<RefOrView<ParameterView>>,
    acc: Seq<RefOrView<ParameterView>>,
) -> Result<Seq<RefOrView<ParameterView>>, CompileErrorView>
    decreases list.len(),
{
    if list.len() == 0 {
        Ok(acc)
    } else {
        match gateway_parameter(list[0]) {
            Err(e) => Err(e),
            Ok(made) => gateway_parameters(list.drop_first(), acc.push(made)),
        }
    }
}

/// The shared parameters, for the gateway, after `acc`.
pub open spec fn gateway_named_parameters(
    list: Seq<(Seq<char>, RefOrView<ParameterView>)>,
    acc: Seq<(Seq<char>, RefOrView<ParameterView>)>,
) -> Result<Seq<(Seq<char>, RefOrView<ParameterView>)>, CompileErrorView>
    decreases list.len(),
{
    if list.len() == 0 {
        Ok(acc)
    } else {
        match gateway_named_parameter(list[0]) {
            Err(e) => Err(e),
            Ok(made) => gateway_named_parameters(list.drop_first(), acc.push(made)),
        }
    }
}

/// A list of named headers, for the gateway, after `acc`.
pub open spec fn gateway_named_headers(
    list: Seq<(Seq<char>, RefOrView<HeaderView>)>,
    acc: Seq<(Seq<char>, RefOrView<HeaderView>)>,
) -> Result<Seq<(Seq<char>, RefOrView<HeaderView>)>, CompileErrorView>
    decreases list.len(),
{
    if list.len() == 0 {
        Ok(acc)
    } else {
        match gateway_named_header(list[0]) {
            Err(e) => Err(e),
            Ok(made) => gateway_named_headers(list.drop_first(), acc.push(made)),
        }
    }
}

/// The body of a request or a reference to one, for the gateway: a reference
/// stays.
pub open spec fn gateway_request_body(r: RefOrView<RequestBodyView>) -> Result<
    RefOrView<RequestBodyView>,
    CompileErrorView,
> {
    match r {
        RefOrView::Reference(_) => Ok(r),
        RefOrView::Item(body) => match gateway_content(body.content, Seq::empty()) {
            Err(e) => Err(e),
            Ok(content) => Ok(
                RefOrView::Item(
                    RequestBodyView {
                        description: body.description,
                        content,
                        required: body.required,
                        rest: body.rest,
                    },
                ),
            ),
        },
    }
}

/// A named request body, for the gateway.
pub open spec fn gateway_named_request_body(entry: (Seq<char>, RefOrView<RequestBodyView>)) -> Result<
    (Seq<char>, RefOrView<RequestBodyView>),
    CompileErrorView,
> {
    match gateway_request_body(entry.1) {
        Err(e) => Err(e),
        Ok(made) => Ok((entry.0, made)),
    }
}

/// The shared request bodies, for the gateway, after `acc`.
pub open spec fn gateway_named_request_bodies(
    list: Seq<(Seq<char>, RefOrView<RequestBodyView>)>,
    acc: Seq<(Seq<char>, RefOrView<RequestBodyView>)>,
) -> Result<Seq<(Seq<char>, RefOrView<RequestBodyView>)>, CompileErrorView>
    decreases list.len(),
{
    if list.len() == 0 {
        Ok(acc)
    } else {
        match gateway_named_request_body(list[0]) {
            Err(e) => Err(e),
            Ok(made) => gateway_named_request_bodies(list.drop_first(), acc.push(made)),
        }
    }
}

/// A response or a reference to one, for the gateway: a reference stays.
/// Headers come before content.
pub open spec fn gateway_response(r: RefOrView<ResponseView>) -> Result<
    RefOrView<ResponseView>,
    CompileErrorView,
> {
    match r {
        RefOrView::Reference(_) => Ok(r),
        RefOrView::Item(response) => match gateway_named_headers(response.headers, Seq::empty()) {
            Err(e) => Err(e),
            Ok(headers) => match gateway_content(response.content, Seq::empty()) {
                Err(e) => Err(e),
                Ok(content) => Ok(
                    RefOrView::Item(
                        ResponseView {
                            description: response.description,
                            headers,
                            content,
                            links: response.links,
                            rest: response.rest,
                        },
                    ),
                ),
            },
        },
    }
}

/// A named response, for the gateway.
pub open spec fn gateway_named_response(entry: (Seq<char>, RefOrView<ResponseView>)) -> Result<
    (Seq<char>, RefOrView<ResponseView>),
    CompileErrorView,
> {
    match gateway_response(entry.1) {
        Err(e) => Err(e),
        Ok(made) => Ok((entry.0, made)),
    }
}

/// A response under its status, for the gateway.
pub open spec fn gateway_status_response(entry: (StatusCode, RefOrView<ResponseView>)) -> Result<
    (StatusCode, RefOrView<ResponseView>),
    CompileErrorView,
> {
    match gateway_response(entry.1) {
        Err(e) => Err(e),
        Ok(made) => Ok((entry.0, made)),
    }
}

/// The shared responses, for the gateway, after `acc`.
pub open spec fn gateway_named_responses(
    list: Seq<(Seq<char>, RefOrView<ResponseView>)>,
    acc: Seq<(Seq<char>, RefOrView<ResponseView>)>,
) -> Result<Seq<(Seq<char>, RefOrView<ResponseView>)>, CompileErrorView>
    decreases list.len(),
{
    if list.len() == 0 {
        Ok(acc)
    } else {
        match gateway_named_response(list[0]) {
            Err(e) => Err(e),
            Ok(made) => gateway_named_responses(list.drop_first(), acc.push(made)),
        }
    }
}

/// The responses of an operation by status, for the gateway, after `acc`.
pub open spec fn gateway_status_responses(
    list: Seq<(StatusCode, RefOrView<ResponseView>)>,
    acc: Seq<(StatusCode, RefOrView<ResponseView>)>,
) -> Result<Seq<(StatusCode, RefOrView<ResponseView>)>, CompileErrorView>
    decreases list.len(),
{
    if list.len() == 0 {
        Ok(acc)
    } else {
        match gateway_status_response(list[0]) {
            Err(e) => Err(e),
            Ok(made) => gateway_status_responses(list.drop_first(), acc.push(made)),
        }
    }
}

/// The responses of an operation, for the gateway: the default response
/// first, then the others.
pub open spec fn gateway_responses(responses: ResponsesView) -> Result<
    ResponsesView,
    CompileErrorView,
> {
    let default: Result<Option<RefOrView<ResponseView>>, CompileErrorView> =
        match responses.default {
        None => Ok(None),
        Some(r) => match gateway_response(r) {
            Err(e) => Err(e),
            Ok(made) => Ok(Some(made)),
        },
    };
    match default {
        Err(e) => Err(e),
        Ok(default) => match gateway_status_responses(responses.responses, Seq::empty()) {
            Err(e) => Err(e),
            Ok(list) => Ok(ResponsesView { default, responses: list }),
        },
    }
}

/// An operation under its method, for the gateway: its parameters, then the
/// body of its request, then its responses.
pub open spec fn gateway_operation(entry: (Method, OperationView)) -> Result<
    (Method, OperationView),
    CompileErrorView,
> {
    let operation = entry.1;
    match gateway_parameters(operation.parameters, Seq::empty()) {
        Err(e) => Err(e),
        Ok(parameters) => {
            let body: Result<Option<RefOrView<RequestBodyView>>, CompileErrorView> =
                match operation.request_body {
                None => Ok(None),
                Some(r) => match gateway_request_body(r) {
                    Err(e) => Err(e),
                    Ok(made) => Ok(Some(made)),
                },
            };
            match body {
                Err(e) => Err(e),
                Ok(request_body) => match gateway_responses(operation.responses) {
                    Err(e) => Err(e),
                    Ok(responses) => Ok(
                        (
                            entry.0,
                            OperationView {
                                operation_id: operation.operation_id,
                                tags: operation.tags,
                                description: operation.description,
                                parameters,
                                request_body,
                                responses,
                                security: operation.security,
                                integration: operation.integration,
                                rest: operation.rest,
                            },
                        ),
                    ),
                },
            }
        },
    }
}

/// The operations of a path, for the gateway, after `acc`.
pub open spec fn gateway_operations(
    list: Seq<(Method, OperationView)>,
    acc: Seq<(Method, OperationView)>,
) -> Result<Seq<(Method, OperationView)>, CompileErrorView>
    decreases list.len(),
{
    if list.len() == 0 {
        Ok(acc)
    } else {
        match gateway_operation(list[0]) {
            Err(e) => Err(e),
            Ok(made) => gateway_operations(list.drop_first(), acc.push(made)),
        }
    }
}

/// What stands under a path, for the gateway: its operations, then the
/// parameters they share.
pub open spec fn gateway_path_item(item: PathItemView) -> Result<PathItemView, CompileErrorView> {
    match gateway_operations(item.operations, Seq::empty()) {
        Err(e) => Err(e),
        Ok(operations) => match gateway_parameters(item.parameters, Seq::empty()) {
            Err(e) => Err(e),
            Ok(parameters) => Ok(PathItemView { operations, parameters, rest: item.rest }),
        },
    }
}

/// One path of a callback, for the gateway: a reference stays.
pub open spec fn gateway_callback_path(entry: (Seq<char>, RefOrView<PathItemView>)) -> Result<
    (Seq<char>, RefOrView<PathItemView>),
    CompileErrorView,
> {
    match entry.1 {
        RefOrView::Reference(_) => Ok(entry),
        RefOrView::Item(item) => match gateway_path_item(item) {
            Err(e) => Err(e),
            Ok(made) => Ok((entry.0, RefOrView::Item(made))),
        },
    }
}

/// The paths of a callback, for the gateway, after `acc`.
pub open spec fn gateway_callback_paths(
    list: Seq<(Seq<char>, RefOrView<PathItemView>)>,
    acc: Seq<(Seq<char>, RefOrView<PathItemView>)>,
) -> Result<Seq<(Seq<char>, RefOrView<PathItemView>)>, CompileErrorView>
    decreases list.len(),
{
    if list.len() == 0 {
        Ok(acc)
    } else {
        match gateway_callback_path(list[0]) {
            Err(e) => Err(e),
            Ok(made) => gateway_callback_paths(list.drop_first(), acc.push(made)),
        }
    }
}

/// A shared callback, for the gateway: a reference stays.
pub open spec fn gateway_callback(
    entry: (Seq<char>, RefOrView<Seq<(Seq<char>, RefOrView<PathItemView>)>>),
) -> Result<(Seq<char>, RefOrView<Seq<(Seq<char>, RefOrView<PathItemView>)>>), CompileErrorView> {
    match entry.1 {
        RefOrView::Reference(_) => Ok(entry),
        RefOrView::Item(paths) => match gateway_callback_paths(paths, Seq::empty()) {
            Err(e) => Err(e),
            Ok(made) => Ok((entry.0, RefOrView::Item(made))),
        },
    }
}

/// The shared callbacks, for the gateway, after `acc`.
pub open spec fn gateway_callbacks(
    list: Seq<(Seq<char>, RefOrView<Seq<(Seq<char>, RefOrView<PathItemView>)>>)>,
    acc: Seq<(Seq<char>, RefOrView<Seq<(Seq<char>, RefOrView<PathItemView>)>>)>,
) -> Result<
    Seq<(Seq<char>, RefOrView<Seq<(Seq<char>, RefOrView<PathItemView>)>>)>,
    CompileErrorView,
>
    decreases list.len(),
{
    if list.len() == 0 {
        Ok(acc)
    } else {
        match gateway_callback(list[0]) {
            Err(e) => Err(e),
            Ok(made) => gateway_callbacks(list.drop_first(), acc.push(made)),
        }
    }
}

/// The shared parts of a document, for the gateway: responses, parameters,
/// request bodies, headers, schemas and callbacks, in this order.
pub open spec fn gateway_components(components: ComponentsView) -> Result<
    ComponentsView,
    CompileErrorView,
> {
    match gateway_named_responses(components.responses, Seq::empty()) {
        Err(e) => Err(e),
        Ok(responses) => match gateway_named_parameters(components.parameters, Seq::empty()) {
            Err(e) => Err(e),
            Ok(parameters) => match gateway_named_request_bodies(
                components.request_bodies,
                Seq::empty(),
            ) {
                Err(e) => Err(e),
                Ok(request_bodies) => match gateway_named_headers(
                    components.headers,
                    Seq::empty(),
                ) {
                    Err(e) => Err(e),
                    Ok(headers) => match gateway_properties(components.schemas, Seq::empty()) {
                        Err(e) => Err(e),
                        Ok(schemas) => match gateway_callbacks(
                            components.callbacks,
                            Seq::empty(),
                        ) {
                            Err(e) => Err(e),
                            Ok(callbacks) => Ok(
                                ComponentsView {
                                    schemas,
                                    responses,
                                    parameters,
                                    request_bodies,
                                    headers,
                                    security_schemes: components.security_schemes,
                                    examples: components.examples,
                                    links: components.links,
                                    callbacks,
                                },
                            ),
                        },
                    },
                },
            },
        },
    }
}

/// What the gateway is told of the function that serves an operation: it
/// hands the request over with a POST, as a proxy, to the address `arn`.
pub open spec fn integration_for(arn: (Seq<char>, bool)) -> IntegrationView {
    IntegrationView { http_method: "POST"@, kind: "aws_proxy"@, uri: arn.0, substituted: arn.1 }
}

/// The operations of a path that stay, after `acc`, and the operation ids seen
/// so far. An operation stays where its operation id is mapped to a function,
/// and is then told its function; one without an operation id or without a
/// function goes. An operation id that was seen before is an error, wherever
/// in the document it was seen.
pub open spec fn settled_operations(
    lambdas: Seq<(Seq<char>, (Seq<char>, bool))>,
    operations: Seq<(Method, OperationView)>,
    visited: Seq<Seq<char>>,
    acc: Seq<(Method, OperationView)>,
) -> Result<(Seq<(Method, OperationView)>, Seq<Seq<char>>), CompileErrorView>
    decreases operations.len(),
{
    if operations.len() == 0 {
        Ok((acc, visited))
    } else {
        let operation = operations[0].1;
        match operation.operation_id {
            None => settled_operations(lambdas, operations.drop_first(), visited, acc),
            Some(id) => if visited.contains(id) {
                fail(CompileErrorKind::DuplicateOperationId, id)
            } else {
                match lookup(lambdas, id) {
                    None => settled_operations(
                        lambdas,
                        operations.drop_first(),
                        visited.push(id),
                        acc,
                    ),
                    Some(arn) => settled_operations(
                        lambdas,
                        operations.drop_first(),
                        visited.push(id),
                        acc.push(
                            (
                                operations[0].0,
                                OperationView {
                                    operation_id: operation.operation_id,
                                    tags: operation.tags,
                                    description: operation.description,
                                    parameters: operation.parameters,
                                    request_body: operation.request_body,
                                    responses: operation.responses,
                                    security: operation.security,
                                    integration: Some(integration_for(arn)),
                                    rest: operation.rest,
                                },
                            ),
                        ),
                    ),
                }
            },
        }
    }
}

/// What has been settled of the paths of a document: the paths so far, the
/// names of those that are left without an operation, and the operation ids
/// seen.
pub struct Settled {
    pub paths: Seq<(Seq<char>, RefOrView<PathItemView>)>,
    pub emptied: Seq<Seq<char>>,
    pub visited: Seq<Seq<char>>,
}

/// Settles the paths of a document, in order, after `acc`. A path that is a
/// reference stays as it is.
pub open spec fn settled_paths(
    lambdas: Seq<(Seq<char>, (Seq<char>, bool))>,
    paths: Seq<(Seq<char>, RefOrView<PathItemView>)>,
    acc: Settled,
) -> Result<Settled, CompileErrorView>
    decreases paths.len(),
{
    if paths.len() == 0 {
        Ok(acc)
    } else {
        match paths[0].1 {
            RefOrView::Reference(_) => settled_paths(
                lambdas,
                paths.drop_first(),
                Settled { paths: acc.paths.push(paths[0]), emptied: acc.emptied, visited: acc.visited },
            ),
            RefOrView::Item(item) => match gateway_path_item(item) {
                Err(e) => Err(e),
                Ok(made) => match settled_operations(
                    lambdas,
                    made.operations,
                    acc.visited,
                    Seq::empty(),
                ) {
                    Err(e) => Err(e),
                    Ok((operations, visited)) => settled_paths(
                        lambdas,
                        paths.drop_first(),
                        Settled {
                            paths: acc.paths.push(
                                (
                                    paths[0].0,
                                    RefOrView::Item(
                                        PathItemView {
                                            operations,
                                            parameters: made.parameters,
                                            rest: made.rest,
                                        },
                                    ),
                                ),
                            ),
                            emptied: if operations.len() == 0 {
                                acc.emptied.push(paths[0].0)
                            } else {
                                acc.emptied
                            },
                            visited,
                        },
                    ),
                },
            },
        }
    }
}

/// A list without the entry at `i`, whose place the last entry takes.
pub open spec fn swap_removed<T>(list: Seq<T>, i: int) -> Seq<T> {
    list.update(i, list.last()).drop_last()
}

/// The paths without those named, which are taken out one after the other,
/// the last path taking the place of the one that goes.
pub open spec fn without_paths(
    paths: Seq<(Seq<char>, RefOrView<PathItemView>)>,
    names: Seq<Seq<char>>,
) -> Seq<(Seq<char>, RefOrView<PathItemView>)>
    decreases names.len(),
{
    if names.len() == 0 {
        paths
    } else {
        without_paths(
            if has_key(paths, names[0]) {
                swap_removed(paths, crate::table::index_of(paths, names[0]))
            } else {
                paths
            },
            names.drop_first(),
        )
    }
}

/// A document for the gateway: its shared parts transformed, its paths
/// transformed and settled, and the paths that are left without an operation
/// taken out.
pub open spec fn gateway_document(
    lambdas: Seq<(Seq<char>, (Seq<char>, bool))>,
    openapi: OpenApiView,
) -> Result<OpenApiView, CompileErrorView> {
    let components: Result<Option<ComponentsView>, CompileErrorView> = match openapi.components {
        None => Ok(None),
        Some(c) => match gateway_components(c) {
            Err(e) => Err(e),
            Ok(made) => Ok(Some(made)),
        },
    };
    match components {
        Err(e) => Err(e),
        Ok(components) => match settled_paths(
            lambdas,
            openapi.paths,
            Settled { paths: Seq::empty(), emptied: Seq::empty(), visited: Seq::empty() },
        ) {
            Err(e) => Err(e),
            Ok(settled) => Ok(
                OpenApiView {
                    paths: without_paths(settled.paths, settled.emptied),
                    components,
                    rest: openapi.rest,
                },
            ),
        },
    }
}

/// Every place in the list is free of discriminators.
pub open spec fn all_free(list: Seq<SchemaRefView>) -> bool {
    forall|i: int| 0 <= i < list.len() ==> free_of_discriminators(#[trigger] list[i])
}

/// Every named place in the list is free of discriminators.
pub open spec fn all_properties_free(list: Seq<(Seq<char>, SchemaRefView)>) -> bool {
    forall|i: int| 0 <= i < list.len() ==> free_of_discriminators((#[trigger] list[i]).1)
}

/// A transformed place for a schema is free of discriminators.
pub proof fn lemma_gateway_ref_free(r: SchemaRefView)
    requires
        gateway_ref(r) is Ok,
    ensures
        free_of_discriminators(gateway_ref(r)->Ok_0),
    decreases r, 1nat,
{
    match r {
        SchemaRefView::Reference(_) => {},
        SchemaRefView::Item(schema) => {
            law_gateway_removes_discriminators(schema);
        },
    }
}

/// A transformed list of places is free of discriminators.
pub proof fn lemma_gateway_refs_free(list: Seq<SchemaRefView>, acc: Seq<SchemaRefView>)
    requires
        all_free(acc),
        gateway_refs(list, acc) is Ok,
    ensures
        all_free(gateway_refs(list, acc)->Ok_0),
    decreases list, 0nat,
{
    if list.len() > 0 {
        lemma_gateway_ref_free(list[0]);
        let next = acc.push(gateway_ref(list[0])->Ok_0);
        assert forall|i: int| 0 <= i < next.len() implies free_of_discriminators(
            #[trigger] next[i],
        ) by {
            if i < acc.len() {
                assert(next[i] == acc[i]);
            }
        }
        lemma_gateway_refs_free(list.drop_first(), next);
    }
}

/// A transformed list of named places is free of discriminators.
pub proof fn lemma_gateway_properties_free(
    list: Seq<(Seq<char>, SchemaRefView)>,
    acc: Seq<(Seq<char>, SchemaRefView)>,
)
    requires
        all_properties_free(acc),
        gateway_properties(list, acc) is Ok,
    ensures
        all_properties_free(gateway_properties(list, acc)->Ok_0),
    decreases list, 0nat,
{
    if list.len() > 0 {
        lemma_gateway_ref_free(list[0].1);
        let next = acc.push((list[0].0, gateway_ref(list[0].1)->Ok_0));
        assert forall|i: int| 0 <= i < next.len() implies free_of_discriminators(
            (#[trigger] next[i]).1,
        ) by {
            if i < acc.len() {
                assert(next[i] == acc[i]);
            }
        }
        lemma_gateway_properties_free(list.drop_first(), next);
    }
}

/// The gateway sees no discriminator: a transformed schema has none, and
/// neither has any schema in it.
pub proof fn law_gateway_removes_discriminators(schema: SchemaView)
    requires
        gateway_schema(schema) is Ok,
    ensures
        free_of_discriminators(SchemaRefView::Item(gateway_schema(schema)->Ok_0)),
    decreases schema, 0nat,
{
    match schema.kind {
        SchemaKindView::Object { properties, required, additional } => {
            lemma_gateway_properties_free(properties, Seq::empty());
            if let AdditionalView::Schema(inner) = additional {
                lemma_gateway_ref_free(*inner);
            }
        },
        SchemaKindView::Array { items, unique_items } => {
            if let Some(inner) = items {
                lemma_gateway_ref_free(*inner);
            }
        },
        SchemaKindView::OneOf(list) => {
            lemma_gateway_refs_free(list, Seq::empty());
        },
        SchemaKindView::AllOf(list) => {
            lemma_gateway_refs_free(list, Seq::empty());
        },
        SchemaKindView::AnyOf(list) => {
            lemma_gateway_refs_free(list, Seq::empty());
        },
        SchemaKindView::Not(inner) => {
            lemma_gateway_ref_free(*inner);
        },
        _ => {},
    }
}

/// The transformed operations of a path are the operations of the path, one
/// for one, each with the operation id that it had.
pub proof fn lemma_gateway_operations_keep_ids(
    list: Seq<(Method, OperationView)>,
    acc: Seq<(Method, OperationView)>,
)
    requires
        gateway_operations(list, acc) is Ok,
    ensures
        ({
            let made = gateway_operations(list, acc)->Ok_0;
            &&& made.len() == acc.len() + list.len()
            &&& forall|k: int| 0 <= k < acc.len() ==> (#[trigger] made[k]) == acc[k]
            &&& forall|k: int|
                0 <= k < list.len() ==> (#[trigger] made[acc.len() + k]).1.operation_id
                    == list[k].1.operation_id
        }),
    decreases list.len(),
{
    if list.len() > 0 {
        let first = gateway_operation(list[0])->Ok_0;
        let next = acc.push(first);
        let rest = list.drop_first();
        lemma_gateway_operations_keep_ids(rest, next);
        let made = gateway_operations(list, acc)->Ok_0;
        assert forall|k: int| 0 <= k < acc.len() implies (#[trigger] made[k]) == acc[k] by {
            assert(next[k] == acc[k]);
        }
        assert forall|k: int| 0 <= k < list.len() implies (#[trigger] made[acc.len()
            + k]).1.operation_id == list[k].1.operation_id by {
            if k == 0 {
                assert(made[acc.len() as int] == next[acc.len() as int]);
            } else {
                assert(rest[k - 1] == list[k]);
                assert(made[next.len() + (k - 1)] == made[acc.len() + k]);
            }
        }
    }
}

/// Once the operations of a path are settled, every operation id that was
/// seen before is still seen, and so is that of every operation of the path.
pub proof fn lemma_settled_operations_are_seen(
    lambdas: Seq<(Seq<char>, (Seq<char>, bool))>,
    operations: Seq<(Method, OperationView)>,
    visited: Seq<Seq<char>>,
    acc: Seq<(Method, OperationView)>,
)
    requires
        settled_operations(lambdas, operations, visited, acc) is Ok,
    ensures
        ({
            let seen = settled_operations(lambdas, operations, visited, acc)->Ok_0.1;
            &&& forall|id: Seq<char>| visited.contains(id) ==> seen.contains(id)
            &&& forall|k: int|
                0 <= k < operations.len() && (#[trigger] operations[k]).1.operation_id is Some
                    ==> seen.contains(operations[k].1.operation_id->0)
        }),
    decreases operations.len(),
{
    if operations.len() > 0 {
        let rest = operations.drop_first();
        let seen = settled_operations(lambdas, operations, visited, acc)->Ok_0.1;
        match operations[0].1.operation_id {
            None => {
                lemma_settled_operations_are_seen(lambdas, rest, visited, acc);
                assert forall|k: int|
                    0 <= k < operations.len() && (#[trigger] operations[k]).1.operation_id
                        is Some implies seen.contains(operations[k].1.operation_id->0) by {
                    assert(rest[k - 1] == operations[k]);
                }
            },
            Some(id) => {
                let next = visited.push(id);
                let kept = match lookup(lambdas, id) {
                    None => acc,
                    Some(arn) => settled_operation_kept(operations, acc, arn),
                };
                lemma_settled_operations_are_seen(lambdas, rest, next, kept);
                assert(next[visited.len() as int] == id);
                assert forall|x: Seq<char>| visited.contains(x) implies seen.contains(x) by {
                    let at = choose|at: int| 0 <= at < visited.len() && visited[at] == x;
                    assert(next[at] == x);
                    assert(next.contains(x));
                }
                assert forall|k: int|
                    0 <= k < operations.len() && (#[trigger] operations[k]).1.operation_id
                        is Some implies seen.contains(operations[k].1.operation_id->0) by {
                    if k == 0 {
                        assert(next.contains(id));
                    } else {
                        assert(rest[k - 1] == operations[k]);
                    }
                }
            },
        }
    }
}

/// An operation whose operation id was seen before cannot be settled.
pub proof fn lemma_seen_operation_id_is_an_error(
    lambdas: Seq<(Seq<char>, (Seq<char>, bool))>,
    operations: Seq<(Method, OperationView)>,
    visited: Seq<Seq<char>>,
    acc: Seq<(Method, OperationView)>,
    j: int,
)
    requires
        0 <= j < operations.len(),
        operations[j].1.operation_id is Some,
        visited.contains(operations[j].1.operation_id->0),
    ensures
        settled_operations(lambdas, operations, visited, acc) is Err,
    decreases operations.len(),
{
    let rest = operations.drop_first();
    let wanted = operations[j].1.operation_id->0;
    match operations[0].1.operation_id {
        None => {
            assert(rest[j - 1] == operations[j]);
            lemma_seen_operation_id_is_an_error(lambdas, rest, visited, acc, j - 1);
        },
        Some(id) => {
            if !visited.contains(id) {
                let next = visited.push(id);
                let at = choose|at: int| 0 <= at < visited.len() && visited[at] == wanted;
                assert(next[at] == wanted);
                assert(rest[j - 1] == operations[j]);
                match lookup(lambdas, id) {
                    None => {
                        lemma_seen_operation_id_is_an_error(lambdas, rest, next, acc, j - 1);
                    },
                    Some(arn) => {
                        lemma_seen_operation_id_is_an_error(
                            lambdas,
                            rest,
                            next,
                            settled_operation_kept(operations, acc, arn),
                            j - 1,
                        );
                    },
                }
            }
        },
    }
}

/// The operations that stay once the first of `operations` is told the
/// function at `arn`.
pub open spec fn settled_operation_kept(
    operations: Seq<(Method, OperationView)>,
    acc: Seq<(Method, OperationView)>,
    arn: (Seq<char>, bool),
) -> Seq<(Method, OperationView)> {
    acc.push(
        (
            operations[0].0,
            OperationView {
                operation_id: operations[0].1.operation_id,
                tags: operations[0].1.tags,
                description: operations[0].1.description,
                parameters: operations[0].1.parameters,
                request_body: operations[0].1.request_body,
                responses: operations[0].1.responses,
                security: operations[0].1.security,
                integration: Some(integration_for(arn)),
                rest: operations[0].1.rest,
            },
        ),
    )
}

/// Two operations of one path with the same operation id cannot be settled.
pub proof fn lemma_shared_operation_id_in_a_path_is_an_error(
    lambdas: Seq<(Seq<char>, (Seq<char>, bool))>,
    operations: Seq<(Method, OperationView)>,
    visited: Seq<Seq<char>>,
    acc: Seq<(Method, OperationView)>,
    i: int,
    j: int,
)
    requires
        0 <= i < j < operations.len(),
        operations[i].1.operation_id is Some,
        operations[i].1.operation_id == operations[j].1.operation_id,
    ensures
        settled_operations(lambdas, operations, visited, acc) is Err,
    decreases operations.len(),
{
    let rest = operations.drop_first();
    assert(rest[j - 1] == operations[j]);
    match operations[0].1.operation_id {
        None => {
            assert(rest[i - 1] == operations[i]);
            lemma_shared_operation_id_in_a_path_is_an_error(
                lambdas,
                rest,
                visited,
                acc,
                i - 1,
                j - 1,
            );
        },
        Some(id) => {
            if !visited.contains(id) {
                let next = visited.push(id);
                let kept = match lookup(lambdas, id) {
                    None => acc,
                    Some(arn) => settled_operation_kept(operations, acc, arn),
                };
                if i == 0 {
                    assert(next[visited.len() as int] == id);
                    lemma_seen_operation_id_is_an_error(lambdas, rest, next, kept, j - 1);
                } else {
                    assert(rest[i - 1] == operations[i]);
                    lemma_shared_operation_id_in_a_path_is_an_error(
                        lambdas,
                        rest,
                        next,
                        kept,
                        i - 1,
                        j - 1,
                    );
                }
            }
        },
    }
}

/// What has been settled once the first of `paths` is settled too; `None`
/// where it cannot be.
pub open spec fn settled_first(
    lambdas: Seq<(Seq<char>, (Seq<char>, bool))>,
    paths: Seq<(Seq<char>, RefOrView<PathItemView>)>,
    acc: Settled,
) -> Option<Settled> {
    match paths[0].1 {
        RefOrView::Reference(_) => Some(
            Settled { paths: acc.paths.push(paths[0]), emptied: acc.emptied, visited: acc.visited },
        ),
        RefOrView::Item(item) => match gateway_path_item(item) {
            Err(_) => None,
            Ok(made) => match settled_operations(lambdas, made.operations, acc.visited, Seq::empty()) {
                Err(_) => None,
                Ok((operations, visited)) => Some(
                    Settled {
                        paths: acc.paths.push(
                            (
                                paths[0].0,
                                RefOrView::Item(
                                    PathItemView {
                                        operations,
                                        parameters: made.parameters,
                                        rest: made.rest,
                                    },
                                ),
                            ),
                        ),
                        emptied: if operations.len() == 0 {
                            acc.emptied.push(paths[0].0)
                        } else {
                            acc.emptied
                        },
                        visited,
                    },
                ),
            },
        },
    }
}

/// Settling the paths is settling the first and then the others.
pub proof fn lemma_settled_paths_step(
    lambdas: Seq<(Seq<char>, (Seq<char>, bool))>,
    paths: Seq<(Seq<char>, RefOrView<PathItemView>)>,
    acc: Settled,
)
    requires
        paths.len() > 0,
    ensures
        match settled_first(lambdas, paths, acc) {
            None => settled_paths(lambdas, paths, acc) is Err,
            Some(next) => settled_paths(lambdas, paths, acc) == settled_paths(
                lambdas,
                paths.drop_first(),
                next,
            ) && forall|id: Seq<char>| acc.visited.contains(id) ==> next.visited.contains(id),
        },
{
    match paths[0].1 {
        RefOrView::Reference(_) => {},
        RefOrView::Item(item) => {
            if gateway_path_item(item) is Ok {
                let made = gateway_path_item(item)->Ok_0;
                if settled_operations(lambdas, made.operations, acc.visited, Seq::empty()) is Ok {
                    lemma_settled_operations_are_seen(
                        lambdas,
                        made.operations,
                        acc.visited,
                        Seq::empty(),
                    );
                }
            }
        },
    }
}

/// An operation of a later path whose operation id was seen before cannot be
/// settled.
pub proof fn lemma_seen_operation_id_in_a_later_path_is_an_error(
    lambdas: Seq<(Seq<char>, (Seq<char>, bool))>,
    paths: Seq<(Seq<char>, RefOrView<PathItemView>)>,
    acc: Settled,
    q: int,
    j: int,
)
    requires
        0 <= q < paths.len(),
        paths[q].1 is Item,
        0 <= j < paths[q].1->Item_0.operations.len(),
        paths[q].1->Item_0.operations[j].1.operation_id is Some,
        acc.visited.contains(paths[q].1->Item_0.operations[j].1.operation_id->0),
    ensures
        settled_paths(lambdas, paths, acc) is Err,
    decreases paths.len(),
{
    lemma_settled_paths_step(lambdas, paths, acc);
    if q == 0 {
        let item = paths[0].1->Item_0;
        if gateway_path_item(item) is Ok {
            let made = gateway_path_item(item)->Ok_0;
            lemma_gateway_operations_keep_ids(item.operations, Seq::empty());
            assert(made.operations[0 + j].1.operation_id == item.operations[j].1.operation_id);
            lemma_seen_operation_id_is_an_error(
                lambdas,
                made.operations,
                acc.visited,
                Seq::empty(),
                j,
            );
        }
    } else {
        match settled_first(lambdas, paths, acc) {
            None => {},
            Some(next) => {
                let rest = paths.drop_first();
                assert(rest[q - 1] == paths[q]);
                lemma_seen_operation_id_in_a_later_path_is_an_error(lambdas, rest, next, q - 1, j);
            },
        }
    }
}

/// Two operations with the same operation id, in one path or in two, cannot
/// be settled.
pub proof fn lemma_shared_operation_id_among_paths_is_an_error(
    lambdas: Seq<(Seq<char>, (Seq<char>, bool))>,
    paths: Seq<(Seq<char>, RefOrView<PathItemView>)>,
    acc: Settled,
    p: int,
    i: int,
    q: int,
    j: int,
)
    requires
        0 <= p <= q < paths.len(),
        paths[p].1 is Item,
        paths[q].1 is Item,
        0 <= i < paths[p].1->Item_0.operations.len(),
        0 <= j < paths[q].1->Item_0.operations.len(),
        p < q || i < j,
        paths[p].1->Item_0.operations[i].1.operation_id is Some,
        paths[p].1->Item_0.operations[i].1.operation_id
            == paths[q].1->Item_0.operations[j].1.operation_id,
    ensures
        settled_paths(lambdas, paths, acc) is Err,
    decreases paths.len(),
{
    lemma_settled_paths_step(lambdas, paths, acc);
    let rest = paths.drop_first();
    if p == 0 {
        let item = paths[0].1->Item_0;
        if gateway_path_item(item) is Ok {
            let made = gateway_path_item(item)->Ok_0;
            lemma_gateway_operations_keep_ids(item.operations, Seq::empty());
            assert(made.operations[0 + i].1.operation_id == item.operations[i].1.operation_id);
            if q == 0 {
                assert(made.operations[0 + j].1.operation_id == item.operations[j].1.operation_id);
                lemma_shared_operation_id_in_a_path_is_an_error(
                    lambdas,
                    made.operations,
                    acc.visited,
                    Seq::empty(),
                    i,
                    j,
                );
            } else {
                match settled_first(lambdas, paths, acc) {
                    None => {},
                    Some(next) => {
                        lemma_settled_operations_are_seen(
                            lambdas,
                            made.operations,
                            acc.visited,
                            Seq::empty(),
                        );
                        assert(rest[q - 1] == paths[q]);
                        lemma_seen_operation_id_in_a_later_path_is_an_error(
                            lambdas,
                            rest,
                            next,
                            q - 1,
                            j,
                        );
                    },
                }
            }
        }
    } else {
        match settled_first(lambdas, paths, acc) {
            None => {},
            Some(next) => {
                assert(rest[p - 1] == paths[p]);
                assert(rest[q - 1] == paths[q]);
                lemma_shared_operation_id_among_paths_is_an_error(
                    lambdas,
                    rest,
                    next,
                    p - 1,
                    i,
                    q - 1,
                    j,
                );
            },
        }
    }
}

/// A document in which two operations have the same operation id is no
/// document for the gateway, whichever functions serve its operations and
/// whether or not one serves that operation id.
pub proof fn law_gateway_rejects_a_shared_operation_id(
    lambdas: Seq<(Seq<char>, (Seq<char>, bool))>,
    openapi: OpenApiView,
    p: int,
    i: int,
    q: int,
    j: int,
)
    requires
        0 <= p <= q < openapi.paths.len(),
        openapi.paths[p].1 is Item,
        openapi.paths[q].1 is Item,
        0 <= i < openapi.paths[p].1->Item_0.operations.len(),
        0 <= j < openapi.paths[q].1->Item_0.operations.len(),
        p < q || i < j,
        openapi.paths[p].1->Item_0.operations[i].1.operation_id is Some,
        openapi.paths[p].1->Item_0.operations[i].1.operation_id
            == openapi.paths[q].1->Item_0.operations[j].1.operation_id,
    ensures
        gateway_document(lambdas, openapi) is Err,
{
    lemma_shared_operation_id_among_paths_is_an_error(
        lambdas,
        openapi.paths,
        Settled { paths: Seq::empty(), emptied: Seq::empty(), visited: Seq::empty() },
        p,
        i,
        q,
        j,
    );
}

} // verus!
