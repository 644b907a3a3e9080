//! What the schema namer makes of a document, as mathematics over views.
//! Every schema that needs a named type and has no name is moved to the table
//! of shared schemas under a name made from the place where it stood, and a
//! reference takes its place.
use vstd::prelude::*;
use crate::document::{
    ComponentsView, HeaderView, MediaTypeView, Method, OpenApiView, OperationView,
    ParameterFormatView, ParameterView, PathItemView, RefOrView, RequestBodyView, ResponseView,
    ResponsesView, StatusCode,
};
use crate::fresh::fresh_name;
use crate::ir::{CompileErrorKind, CompileErrorView};
use crate::model_spec::{fail, schema_prefix};
use crate::outside::{mime_essence, pascal_case};
use crate::schema::{AdditionalView, SchemaKindView, SchemaRefView, SchemaView};
use crate::text::decimal_digits;

verus! {

/// The table of shared schemas.
pub type Table = Seq<(Seq<char>, SchemaRefView)>;

/// Whether a schema with these parts needs a named type: an object does,
/// unless all it says is what additional properties are; an enumeration does;
/// a union or an intersection always does.
pub open spec fn needs_name(kind: SchemaKindView) -> bool {
    match kind {
        SchemaKindView::Object { properties, required, additional } => properties.len() > 0 || !(
        additional is Schema || additional == AdditionalView::Any(true)),
        SchemaKindView::Array { .. } => false,
        SchemaKindView::String { format, enumeration } => enumeration.len() > 0,
        SchemaKindView::Integer { format, enumeration } => enumeration.len() > 0,
        SchemaKindView::Number { format, enumeration } => enumeration.len() > 0,
        SchemaKindView::Boolean { enumeration } => enumeration.len() > 0,
        SchemaKindView::OneOf(_) => true,
        SchemaKindView::AnyOf(_) => true,
        SchemaKindView::AllOf(_) => true,
        SchemaKindView::Not(_) => false,
        SchemaKindView::Any { .. } => false,
    }
}

/// A place for a schema after naming: a reference stays; a schema that needs
/// a name goes to the table under a fresh name and leaves a reference; any
/// other schema stays, with the schemas in it named.
pub open spec fn named_ref(table: Table, r: SchemaRefView, context: Seq<char>) -> Result<
    (SchemaRefView, Table),
    CompileErrorView,
>
    decreases r, 1nat,
{
    match r {
        SchemaRefView::Reference(_) => Ok((r, table)),
        SchemaRefView::Item(schema) => match named_schema(table, schema, context) {
            Err(e) => Err(e),
            Ok((made, next)) => if needs_name(schema.kind) {
                let name = fresh_name(next, context);
                Ok(
                    (
                        SchemaRefView::Reference(schema_prefix() + name),
                        next.push((name, SchemaRefView::Item(made))),
                    ),
                )
            } else {
                Ok((SchemaRefView::Item(made), next))
            },
        },
    }
}

/// The properties of an object after naming, after `acc`: each is named in
/// the context of the object followed by its own name.
pub open spec fn named_properties(
    table: Table,
    list: Seq<(Seq<char>, SchemaRefView)>,
    context: Seq<char>,
    acc: Seq<(Seq<char>, SchemaRefView)>,
) -> Result<(Seq<(Seq<char>, SchemaRefView)>, Table), CompileErrorView>
    decreases list, 0nat,
{
    if list.len() == 0 {
        Ok((acc, table))
    } else {
        match named_ref(table, list[0].1, context + pascal_case(list[0].0)) {
            Err(e) => Err(e),
            Ok((made, next)) => named_properties(
                next,
                list.drop_first(),
                context,
                acc.push((list[0].0, made)),
            ),
        }
    }
}

/// The branches of a union after naming, after `acc`, all in one context.
pub open spec fn named_branches(
    table: Table,
    list: Seq<SchemaRefView>,
    context: Seq<char>,
    acc: Seq<SchemaRefView>,
) -> Result<(Seq<SchemaRefView>, Table), CompileErrorView>
    decreases list, 0nat,
{
    if list.len() == 0 {
        Ok((acc, table))
    } else {
        match named_ref(table, list[0], context) {
            Err(e) => Err(e),
            Ok((made, next)) => named_branches(next, list.drop_first(), context, acc.push(made)),
        }
    }
}

/// The branches of an intersection after naming, after `acc`: a branch stays
/// where it is, since the intersection gathers its fields; only the schemas
/// in it are named.
pub open spec fn named_intersection(
    table: Table,
    list: Seq<SchemaRefView>,
    context: Seq<char>,
    acc: Seq<SchemaRefView>,
) -> Result<(Seq<SchemaRefView>, Table), CompileErrorView>
    decreases list, 0nat,
{
    if list.len() == 0 {
        Ok((acc, table))
    } else {
        match list[0] {
            SchemaRefView::Reference(_) => named_intersection(
                table,
                list.drop_first(),
                context,
                acc.push(list[0]),
            ),
            SchemaRefView::Item(schema) => match named_schema(table, schema, context) {
                Err(e) => Err(e),
                Ok((made, next)) => named_intersection(
                    next,
                    list.drop_first(),
                    context,
                    acc.push(SchemaRefView::Item(made)),
                ),
            },
        }
    }
}

/// The parts of a schema after naming.
pub open spec fn named_kind(table: Table, kind: SchemaKindView, context: Seq<char>) -> Result<
    (SchemaKindView, Table),
    CompileErrorView,
>
    decreases kind, 0nat,
{
    match kind {
        SchemaKindView::Object { properties, required, additional } => match named_properties(
            table,
            properties,
            context,
            Seq::empty(),
        ) {
            Err(e) => Err(e),
            Ok((made, next)) => match additional {
                AdditionalView::Schema(inner) => match named_ref(
                    next,
                    *inner,
                    context + "Value"@,
                ) {
                    Err(e) => Err(e),
                    Ok((extra, last)) => Ok(
                        (
                            SchemaKindView::Object {
                                properties: made,
                                required,
                                additional: AdditionalView::Schema(Box::new(extra)),
                            },
                            last,
                        ),
                    ),
                },
                _ => Ok((SchemaKindView::Object { properties: made, required, additional }, next)),
            },
        },
        SchemaKindView::Array { items, unique_items } => match items {
            Some(inner) => match named_ref(table, *inner, context + "Item"@) {
                Err(e) => Err(e),
                Ok((made, next)) => Ok(
                    (SchemaKindView::Array { items: Some(Box::new(made)), unique_items }, next),
                ),
            },
            None => Ok((kind, table)),
        },
        SchemaKindView::OneOf(list) => match named_branches(
            table,
            list,
            context + "OneOf"@,
            Seq::empty(),
        ) {
            Err(e) => Err(e),
            Ok((made, next)) => Ok((SchemaKindView::OneOf(made), next)),
        },
        SchemaKindView::AnyOf(list) => match named_branches(
            table,
            list,
            context + "AnyOf"@,
            Seq::empty(),
        ) {
            Err(e) => Err(e),
            Ok((made, next)) => Ok((SchemaKindView::AnyOf(made), next)),
        },
        SchemaKindView::AllOf(list) => match named_intersection(
            table,
            list,
            context,
            Seq::empty(),
        ) {
            Err(e) => Err(e),
            Ok((made, next)) => Ok((SchemaKindView::AllOf(made), next)),
        },
        SchemaKindView::Not(_) => fail(CompileErrorKind::Not, context),
        SchemaKindView::Any { trivial } => if trivial {
            Ok((kind, table))
        } else {
            fail(CompileErrorKind::FreeForm, context)
        },
        _ => Ok((kind, table)),
    }
}

/// A schema after naming: the schemas in it are named; the schema itself
/// stays.
pub open spec fn named_schema(table: Table, schema: SchemaView, context: Seq<char>) -> Result<
    (SchemaView, Table),
    CompileErrorView,
>
    decreases schema, 0nat,
{
    match named_kind(table, schema.kind, context) {
        Err(e) => Err(e),
        Ok((kind, next)) => Ok(
            (
                SchemaView {
                    description: schema.description,
                    discriminator: schema.discriminator,
                    kind,
                    rest: schema.rest,
                },
                next,
            ),
        ),
    }
}

/// The word that stands for a media type in a name: empty for a media type
/// that cannot be read or that has no word.
pub open spec fn media_word(mime: Seq<char>) -> Seq<char> {
    match mime_essence(mime) {
        None => Seq::empty(),
        Some(essence) => if essence == "application/json"@ {
            "Json"@
        } else if essence == "application/octet-stream"@ {
            "Binary"@
        } else if essence == "application/xml"@ || essence == "text/xml"@ {
            "Xml"@
        } else if essence == "image/gif"@ {
            "Gif"@
        } else if essence == "image/jpeg"@ {
            "Jpeg"@
        } else if essence == "image/png"@ {
            "Png"@
        } else if essence == "image/svg+xml"@ {
            "Svg"@
        } else if essence == "image/webp"@ {
            "Webp"@
        } else if essence == "text/csv"@ {
            "Csv"@
        } else if essence == "text/html"@ {
            "Html"@
        } else if essence == "text/plain"@ {
            "PlainText"@
        } else {
            Seq::empty()
        },
    }
}

/// How a status is written: the code, or the first digit of a range followed
/// by `XX`.
pub open spec fn status_text(status: StatusCode) -> Seq<char> {
    match status {
        StatusCode::Code(code) => decimal_digits(code as nat),
        StatusCode::Range(digit) => decimal_digits(digit as nat) + "XX"@,
    }
}

/// What stands under a media type after naming: its schema is named in the
/// given context.
pub open spec fn named_media(table: Table, context: Seq<char>, media: MediaTypeView) -> Result<
    (MediaTypeView, Table),
    CompileErrorView,
> {
    match media.schema {
        None => Ok((media, table)),
        Some(r) => match named_ref(table, r, context) {
            Err(e) => Err(e),
            Ok((made, next)) => Ok((MediaTypeView { schema: Some(made), examples: media.examples, rest: media.rest }, next)),
        },
    }
}

/// One entry of the content of a parameter after naming, in the context of
/// the parameter.
pub open spec fn named_plain_entry(
    table: Table,
    context: Seq<char>,
    entry: (Seq<char>, MediaTypeView),
) -> Result<((Seq<char>, MediaTypeView), Table), CompileErrorView> {
    match named_media(table, context, entry.1) {
        Err(e) => Err(e),
        Ok((made, next)) => Ok(((entry.0, made), next)),
    }
}

/// One entry of the content of a body after naming: the context is that of
/// the body, the word for the media type, and what kind of body it is.
pub open spec fn named_body_entry(
    table: Table,
    context: Seq<char>,
    kind: Seq<char>,
    entry: (Seq<char>, MediaTypeView),
) -> Result<((Seq<char>, MediaTypeView), Table), CompileErrorView> {
    match named_media(table, context + media_word(entry.0) + kind, entry.1) {
        Err(e) => Err(e),
        Ok((made, next)) => Ok(((entry.0, made), next)),
    }
}

/// The content of a parameter after naming, after `acc`.
pub open spec fn named_plain_content(
    table: Table,
    context: Seq<char>,
    list: Seq<(Seq<char>, MediaTypeView)>,
    acc: Seq<(Seq<char>, MediaTypeView)>,
) -> Result<(Seq<(Seq<char>, MediaTypeView)>, Table), CompileErrorView>
    decreases list.len(),
{
    if list.len() == 0 {
        Ok((acc, table))
    } else {
        match named_plain_entry(table, context, list[0]) {
            Err(e) => Err(e),
            Ok((made, next)) => named_plain_content(next, context, list.drop_first(), acc.push(made)),
        }
    }
}

/// The content of a body after naming, after `acc`.
pub open spec fn named_body_content(
    table: Table,
    context: Seq<char>,
    kind: Seq<char>,
    list: Seq<(Seq<char>, MediaTypeView)>,
    acc: Seq<(Seq<char>, MediaTypeView)>,
) -> Result<(Seq<(Seq<char>, MediaTypeView)>, Table), CompileErrorView>
    decreases list.len(),
{
    if list.len() == 0 {
        Ok((acc, table))
    } else {
        match named_body_entry(table, context, kind, list[0]) {
            Err(e) => Err(e),
            Ok((made, next)) => named_body_content(next, context, kind, list.drop_first(), acc.push(made)),
        }
    }
}

/// The description of the value of a parameter or header after naming.
pub open spec fn named_format(table: Table, context: Seq<char>, format: ParameterFormatView) -> Result<
    (ParameterFormatView, Table),
    CompileErrorView,
> {
    match format {
        ParameterFormatView::Schema(r) => match named_ref(table, r, context) {
            Err(e) => Err(e),
            Ok((made, next)) => Ok((ParameterFormatView::Schema(made), next)),
        },
        ParameterFormatView::Content(content) => match named_plain_content(
            table,
            context,
            content,
            Seq::empty(),
        ) {
            Err(e) => Err(e),
            Ok((made, next)) => Ok((ParameterFormatView::Content(made), next)),
        },
    }
}

/// A parameter after naming: the context is the given one, the name of the
/// parameter and `Param`. A reference stays.
pub open spec fn named_parameter(
    table: Table,
    context: Seq<char>,
    r: RefOrView<ParameterView>,
) -> Result<(RefOrView<ParameterView>, Table), CompileErrorView> {
    match r {
        RefOrView::Reference(_) => Ok((r, table)),
        RefOrView::Item(parameter) => match named_format(
            table,
            context + pascal_case(parameter.name) + "Param"@,
            parameter.format,
        ) {
            Err(e) => Err(e),
            Ok((format, next)) => Ok(
                (
                    RefOrView::Item(
                        ParameterView {
                            location: parameter.location,
                            name: parameter.name,
                            description: parameter.description,
                            required: parameter.required,
                            format,
                            examples: parameter.examples,
                            rest: parameter.rest,
                        },
                    ),
                    next,
                ),
            ),
        },
    }
}

/// A shared parameter after naming: it is named after itself alone.
pub open spec fn named_shared_parameter(
    table: Table,
    entry: (Seq<char>, RefOrView<ParameterView>),
) -> Result<((Seq<char>, RefOrView<ParameterView>), Table), CompileErrorView> {
    match named_parameter(table, Seq::empty(), entry.1) {
        Err(e) => Err(e),
        Ok((made, next)) => Ok(((entry.0, made), next)),
    }
}

/// A named header after naming: the context is the given one, the name of the
/// header and `Header`. A reference stays.
pub open spec fn named_header(
    table: Table,
    context: Seq<char>,
    entry: (Seq<char>, RefOrView<HeaderView>),
) -> Result<((Seq<char>, RefOrView<HeaderView>), Table), CompileErrorView> {
    match entry.1 {
        RefOrView::Reference(_) => Ok((entry, table)),
        RefOrView::Item(header) => match named_format(
            table,
            context + pascal_case(entry.0) + "Header"@,
            header.format,
        ) {
            Err(e) => Err(e),
            Ok((format, next)) => Ok(
                ((entry.0, RefOrView::Item(HeaderView { format, examples: header.examples, rest: header.rest })), next),
            ),
        },
    }
}

/// A list of parameters after naming, after `acc`.
pub open spec fn named_parameters(
    table: Table,
    context: Seq<char>,
    list: Seq<RefOrView<ParameterView>>,
    acc: Seq<RefOrView<ParameterView>>,
) -> Result<(Seq<RefOrView<ParameterView>>, Table), CompileErrorView>
    decreases list.len(),
{
    if list.len() == 0 {
        Ok((acc, table))
    } else {
        match named_parameter(table, context, list[0]) {
            Err(e) => Err(e),
            Ok((made, next)) => named_parameters(next, context, list.drop_first(), acc.push(made)),
        }
    }
}

/// The shared parameters after naming, after `acc`.
pub open spec fn named_shared_parameters(
    table: Table,
    list: Seq<(Seq<char>, RefOrView<ParameterView>)>,
    acc: Seq<(Seq<char>, RefOrView<ParameterView>)>,
) -> Result<(Seq<(Seq<char>, RefOrView<ParameterView>)>, Table), CompileErrorView>
    decreases list.len(),
{
    if list.len() == 0 {
        Ok((acc, table))
    } else {
        match named_shared_parameter(table, list[0]) {
            Err(e) => Err(e),
            Ok((made, next)) => named_shared_parameters(next, list.drop_first(), acc.push(made)),
        }
    }
}

/// A list of named headers after naming, after `acc`.
pub open spec fn named_headers(
    table: Table,
    context: Seq<char>,
    list: Seq<(Seq<char>, RefOrView<HeaderView>)>,
    acc: Seq<(Seq<char>, RefOrView<HeaderView>)>,
) -> Result<(Seq<(Seq<char>, RefOrView<HeaderView>)>, Table), CompileErrorView>
    decreases list.len(),
{
    if list.len() == 0 {
        Ok((acc, table))
    } else {
        match named_header(table, context, list[0]) {
            Err(e) => Err(e),
            Ok((made, next)) => named_headers(next, context, list.drop_first(), acc.push(made)),
        }
    }
}

/// The body of a request after naming. A reference stays.
pub open spec fn named_request_body(
    table: Table,
    context: Seq<char>,
    r: RefOrView<RequestBodyView>,
) -> Result<(RefOrView<RequestBodyView>, Table), CompileErrorView> {
    match r {
        RefOrView::Reference(_) => Ok((r, table)),
        RefOrView::Item(body) => match named_body_content(
            table,
            context,
            "RequestBody"@,
            body.content,
            Seq::empty(),
        ) {
            Err(e) => Err(e),
            Ok((content, next)) => Ok(
                (
                    RefOrView::Item(
                        RequestBodyView {
                            description: body.description,
                            content,
                            required: body.required,
                            rest: body.rest,
                        },
                    ),
                    next,
                ),
            ),
        },
    }
}

/// A shared request body after naming: the context is its name.
pub open spec fn named_shared_request_body(
    table: Table,
    entry: (Seq<char>, RefOrView<RequestBodyView>),
) -> Result<((Seq<char>, RefOrView<RequestBodyView>), Table), CompileErrorView> {
    match named_request_body(table, pascal_case(entry.0), entry.1) {
        Err(e) => Err(e),
        Ok((made, next)) => Ok(((entry.0, made), next)),
    }
}

/// A response after naming, its headers before its content. A reference
/// stays.
pub open spec fn named_response(
    table: Table,
    context: Seq<char>,
    r: RefOrView<ResponseView>,
) -> Result<(RefOrView<ResponseView>, Table), CompileErrorView> {
    match r {
        RefOrView::Reference(_) => Ok((r, table)),
        RefOrView::Item(response) => match named_headers(
            table,
            context,
            response.headers,
            Seq::empty(),
        ) {
            Err(e) => Err(e),
            Ok((headers, next)) => match named_body_content(
                next,
                context,
                "ResponseBody"@,
                response.content,
                Seq::empty(),
            ) {
                Err(e) => Err(e),
                Ok((content, last)) => Ok(
                    (
                        RefOrView::Item(
                            ResponseView {
                                description: response.description,
                                headers,
                                content,
                                links: response.links,
                                rest: response.rest,
                            },
                        ),
                        last,
                    ),
                ),
            },
        },
    }
}

/// A shared response after naming: the context is its name and `Response`.
pub open spec fn named_shared_response(
    table: Table,
    entry: (Seq<char>, RefOrView<ResponseView>),
) -> Result<((Seq<char>, RefOrView<ResponseView>), Table), CompileErrorView> {
    match named_response(table, pascal_case(entry.0) + "Response"@, entry.1) {
        Err(e) => Err(e),
        Ok((made, next)) => Ok(((entry.0, made), next)),
    }
}

/// A response under its status after naming: the context is that of the
/// operation, the status and `Response`.
pub open spec fn named_status_response(
    table: Table,
    context: Seq<char>,
    entry: (StatusCode, RefOrView<ResponseView>),
) -> Result<((StatusCode, RefOrView<ResponseView>), Table), CompileErrorView> {
    match named_response(
        table,
        context + pascal_case(status_text(entry.0)) + "Response"@,
        entry.1,
    ) {
        Err(e) => Err(e),
        Ok((made, next)) => Ok(((entry.0, made), next)),
    }
}

/// The shared request bodies after naming, after `acc`.
pub open spec fn named_shared_request_bodies(
    table: Table,
    list: Seq<(Seq<char>, RefOrView<RequestBodyView>)>,
    acc: Seq<(Seq<char>, RefOrView<RequestBodyView>)>,
) -> Result<(Seq<(Seq<char>, RefOrView<RequestBodyView>)>, Table), CompileErrorView>
    decreases list.len(),
{
    if list.len() == 0 {
        Ok((acc, table))
    } else {
        match named_shared_request_body(table, list[0]) {
            Err(e) => Err(e),
            Ok((made, next)) => named_shared_request_bodies(next, list.drop_first(), acc.push(made)),
        }
    }
}

/// The shared responses after naming, after `acc`.
pub open spec fn named_shared_responses(
    table: Table,
    list: Seq<(Seq<char>, RefOrView<ResponseView>)>,
    acc: Seq<(Seq<char>, RefOrView<ResponseView>)>,
) -> Result<(Seq<(Seq<char>, RefOrView<ResponseView>)>, Table), CompileErrorView>
    decreases list.len(),
{
    if list.len() == 0 {
        Ok((acc, table))
    } else {
        match named_shared_response(table, list[0]) {
            Err(e) => Err(e),
            Ok((made, next)) => named_shared_responses(next, list.drop_first(), acc.push(made)),
        }
    }
}

/// The responses of an operation by status after naming, after `acc`.
pub open spec fn named_status_responses(
    table: Table,
    context: Seq<char>,
    list: Seq<(StatusCode, RefOrView<ResponseView>)>,
    acc: Seq<(StatusCode, RefOrView<ResponseView>)>,
) -> Result<(Seq<(StatusCode, RefOrView<ResponseView>)>, Table), CompileErrorView>
    decreases list.len(),
{
    if list.len() == 0 {
        Ok((acc, table))
    } else {
        match named_status_response(table, context, list[0]) {
            Err(e) => Err(e),
            Ok((made, next)) => named_status_responses(next, context, list.drop_first(), acc.push(made)),
        }
    }
}

/// The responses of an operation after naming: the default response first,
/// in the context of the operation and `DefaultResponse`, then the others.
pub open spec fn named_responses(table: Table, context: Seq<char>, responses: ResponsesView) -> Result<
    (ResponsesView, Table),
    CompileErrorView,
> {
    let default: Result<(Option<RefOrView<ResponseView>>, Table), CompileErrorView> =
        match responses.default {
        None => Ok((None, table)),
        Some(r) => match named_response(table, context + "DefaultResponse"@, r) {
            Err(e) => Err(e),
            Ok((made, next)) => Ok((Some(made), next)),
        },
    };
    match default {
        Err(e) => Err(e),
        Ok((default, next)) => match named_status_responses(
            next,
            context,
            responses.responses,
            Seq::empty(),
        ) {
            Err(e) => Err(e),
            Ok((list, last)) => Ok((ResponsesView { default, responses: list }, last)),
        },
    }
}

/// An operation after naming. Its operation id is the naming context; an
/// operation without one is left as it is.
pub open spec fn named_operation(table: Table, entry: (Method, OperationView)) -> Result<
    ((Method, OperationView), Table),
    CompileErrorView,
> {
    let operation = entry.1;
    match operation.operation_id {
        None => Ok((entry, table)),
        Some(id) => {
            let context = pascal_case(id);
            match named_parameters(table, context, operation.parameters, Seq::empty()) {
                Err(e) => Err(e),
                Ok((parameters, t1)) => {
                    let body: Result<
                        (Option<RefOrView<RequestBodyView>>, Table),
                        CompileErrorView,
                    > = match operation.request_body {
                        None => Ok((None, t1)),
                        Some(r) => match named_request_body(t1, context, r) {
                            Err(e) => Err(e),
                            Ok((made, next)) => Ok((Some(made), next)),
                        },
                    };
                    match body {
                        Err(e) => Err(e),
                        Ok((request_body, t2)) => match named_responses(
                            t2,
                            context,
                            operation.responses,
                        ) {
                            Err(e) => Err(e),
                            Ok((responses, t3)) => Ok(
                                (
                                    (
                                        entry.0,
                                        OperationView {
                                            operation_id: operation.operation_id,
                                            tags: operation.tags,
                                            description: operation.description,
                                            parameters,
                                            request_body,
                                            responses,
                                            security: operation.security,
                                            integration: operation.integration,
                                            rest: operation.rest,
                                        },
                                    ),
                                    t3,
                                ),
                            ),
                        },
                    }
                },
            }
        },
    }
}

/// The operations of a path after naming, after `acc`.
pub open spec fn named_operations(
    table: Table,
    list: Seq<(Method, OperationView)>,
    acc: Seq<(Method, OperationView)>,
) -> Result<(Seq<(Method, OperationView)>, Table), CompileErrorView>
    decreases list.len(),
{
    if list.len() == 0 {
        Ok((acc, table))
    } else {
        match named_operation(table, list[0]) {
            Err(e) => Err(e),
            Ok((made, next)) => named_operations(next, list.drop_first(), acc.push(made)),
        }
    }
}

/// A path after naming: its operations, then the parameters they share,
/// which are named after themselves alone. A path that is a reference stays.
pub open spec fn named_path(table: Table, entry: (Seq<char>, RefOrView<PathItemView>)) -> Result<
    ((Seq<char>, RefOrView<PathItemView>), Table),
    CompileErrorView,
> {
    match entry.1 {
        RefOrView::Reference(_) => Ok((entry, table)),
        RefOrView::Item(item) => match named_operations(table, item.operations, Seq::empty()) {
            Err(e) => Err(e),
            Ok((operations, next)) => match named_parameters(
                next,
                Seq::empty(),
                item.parameters,
                Seq::empty(),
            ) {
                Err(e) => Err(e),
                Ok((parameters, last)) => Ok(
                    (
                        (
                            entry.0,
                            RefOrView::Item(PathItemView { operations, parameters, rest: item.rest }),
                        ),
                        last,
                    ),
                ),
            },
        },
    }
}

/// The paths of a document after naming, after `acc`.
pub open spec fn named_paths(
    table: Table,
    list: Seq<(Seq<char>, RefOrView<PathItemView>)>,
    acc: Seq<(Seq<char>, RefOrView<PathItemView>)>,
) -> Result<(Seq<(Seq<char>, RefOrView<PathItemView>)>, Table), CompileErrorView>
    decreases list.len(),
{
    if list.len() == 0 {
        Ok((acc, table))
    } else {
        match named_path(table, list[0]) {
            Err(e) => Err(e),
            Ok((made, next)) => named_paths(next, list.drop_first(), acc.push(made)),
        }
    }
}

/// The table of shared schemas after the schemas in its entries from `from`
/// up to `upto` have been named, each in the context of its own name. The
/// entries themselves stay where they are; what is named is appended.
pub open spec fn named_shared_schemas(table: Table, from: int, upto: int) -> Result<
    Table,
    CompileErrorView,
>
    decreases upto - from,
{
    if from < 0 || from >= upto || from >= table.len() {
        Ok(table)
    } else {
        match table[from].1 {
            SchemaRefView::Reference(_) => named_shared_schemas(table, from + 1, upto),
            SchemaRefView::Item(schema) => match named_schema(
                table,
                schema,
                pascal_case(table[from].0),
            ) {
                Err(e) => Err(e),
                Ok((made, next)) => named_shared_schemas(
                    next.update(from, (table[from].0, SchemaRefView::Item(made))),
                    from + 1,
                    upto,
                ),
            },
        }
    }
}

/// The shared parts of a document after naming: responses, parameters,
/// request bodies and headers, then the schemas that were shared before.
pub open spec fn named_components(components: ComponentsView) -> Result<
    ComponentsView,
    CompileErrorView,
> {
    match named_shared_responses(components.schemas, components.responses, Seq::empty()) {
        Err(e) => Err(e),
        Ok((responses, t1)) => match named_shared_parameters(
            t1,
            components.parameters,
            Seq::empty(),
        ) {
            Err(e) => Err(e),
            Ok((parameters, t2)) => match named_shared_request_bodies(
                t2,
                components.request_bodies,
                Seq::empty(),
            ) {
                Err(e) => Err(e),
                Ok((request_bodies, t3)) => match named_headers(
                    t3,
                    Seq::empty(),
                    components.headers,
                    Seq::empty(),
                ) {
                    Err(e) => Err(e),
                    Ok((headers, t4)) => match named_shared_schemas(t4, 0, t4.len() as int) {
                        Err(e) => Err(e),
                        Ok(schemas) => Ok(
                            ComponentsView {
                                schemas,
                                responses,
                                parameters,
                                request_bodies,
                                headers,
                                security_schemes: components.security_schemes,
                                examples: components.examples,
                                links: components.links,
                                callbacks: components.callbacks,
                            },
                        ),
                    },
                },
            },
        },
    }
}

/// The shared parts of a document that has none.
pub open spec fn no_components() -> ComponentsView {
    ComponentsView {
        schemas: Seq::empty(),
        responses: Seq::empty(),
        parameters: Seq::empty(),
        request_bodies: Seq::empty(),
        headers: Seq::empty(),
        security_schemes: Seq::empty(),
        examples: Seq::empty(),
        links: Seq::empty(),
        callbacks: Seq::empty(),
    }
}

/// A document after naming: its shared parts first, then its paths. The
/// document has shared parts afterwards even if it had none.
pub open spec fn named_document(openapi: OpenApiView) -> Result<OpenApiView, CompileErrorView> {
    let components = match openapi.components {
        Some(c) => c,
        None => no_components(),
    };
    match named_components(components) {
        Err(e) => Err(e),
        Ok(shared) => match named_paths(shared.schemas, openapi.paths, Seq::empty()) {
            Err(e) => Err(e),
            Ok((paths, schemas)) => Ok(
                OpenApiView {
                    paths,
                    components: Some(
                        ComponentsView {
                            schemas,
                            responses: shared.responses,
                            parameters: shared.parameters,
                            request_bodies: shared.request_bodies,
                            headers: shared.headers,
                            security_schemes: shared.security_schemes,
                            examples: shared.examples,
                            links: shared.links,
                            callbacks: shared.callbacks,
                        },
                    ),
                    rest: openapi.rest,
                },
            ),
        },
    }
}

} // verus!
