//! What the inline pass makes of a document, as mathematics over views. Every
//! reference is looked up among the references that the caller has resolved.
//! A reference into another document is replaced: a schema is merged into the
//! table of shared schemas under its own name, any other part is copied to
//! where the reference stood. A reference that leads back into the root
//! document becomes a local reference.
use vstd::prelude::*;
use crate::document::{
    ComponentsView, HeaderView, MediaTypeView, Method, OpenApiView, OperationView,
    ParameterFormatView, ParameterView, PathItemView, RefOrView, RequestBodyView, ResponseView,
    ResponsesView, StatusCode,
};
use crate::model_spec::schema_prefix;
use crate::naming_spec::{no_components, Table};
use crate::schema::{AdditionalView, DiscriminatorView, SchemaKindView, SchemaRefView, SchemaView};
use crate::table::lookup;

verus! {

/// The part that a resolved reference points to.
pub enum ForeignItemView {
    Schema(SchemaView),
    Parameter(ParameterView),
    Response(ResponseView),
    RequestBody(RequestBodyView),
    Header(HeaderView),
    PathItem(PathItemView),
    Callback(Seq<(Seq<char>, RefOrView<PathItemView>)>),
    /// A part that the library never looks into, as the text that it is
    /// written in.
    Opaque { kind: ForeignKind, text: Seq<char> },
}

/// The kinds of parts that a reference can point to.
#[derive(Clone, Copy, Debug, PartialEq, Eq, Structural)]
pub enum ForeignKind {
    Schema,
    Parameter,
    Response,
    RequestBody,
    Header,
    PathItem,
    Callback,
    Example,
    Link,
    SecurityScheme,
}

/// A reference that has been resolved: where it stands and how it is
/// written, the document it points into and the path in that document, the
/// name of its target, and the target.
pub struct ForeignView {
    pub referrer: Seq<char>,
    pub reference: Seq<char>,
    pub doc_path: Seq<char>,
    pub rel_ref: Seq<char>,
    pub name: Seq<char>,
    pub item: ForeignItemView,
}

/// Why a document cannot be inlined.
pub enum InlineErrorView {
    /// The reference has not been resolved yet; `kind` is what its place asks
    /// for.
    Unresolved { referrer: Seq<char>, reference: Seq<char>, kind: ForeignKind },
    /// The reference points to a part of another kind than the place asks
    /// for.
    WrongKind { referrer: Seq<char>, reference: Seq<char> },
    /// The reference leads to itself.
    Cyclic { referrer: Seq<char>, reference: Seq<char> },
    /// The mapping of a discriminator names a schema that cannot stay a
    /// reference.
    MappingInlined { reference: Seq<char> },
}

/// What the pass is given: the path of the root document and the resolved
/// references.
pub struct InlineInput {
    pub root: Seq<char>,
    pub foreign: Seq<ForeignView>,
}

/// The first resolved reference that stands in `referrer` and is written
/// `reference`; the number of resolved references where there is none.
pub open spec fn entry_of(foreign: Seq<ForeignView>, referrer: Seq<char>, reference: Seq<char>) -> int
    decreases foreign.len(),
{
    if foreign.len() == 0 {
        0
    } else if foreign[0].referrer == referrer && foreign[0].reference == reference {
        0
    } else {
        1 + entry_of(foreign.drop_first(), referrer, reference)
    }
}

/// `entry_of` finds the first entry, and the length exactly when there is
/// none.
pub proof fn lemma_entry_of(foreign: Seq<ForeignView>, referrer: Seq<char>, reference: Seq<char>)
    ensures
        0 <= entry_of(foreign, referrer, reference) <= foreign.len(),
        entry_of(foreign, referrer, reference) < foreign.len() ==> foreign[entry_of(
            foreign,
            referrer,
            reference,
        )].referrer == referrer && foreign[entry_of(foreign, referrer, reference)].reference
            == reference,
        forall|j: int|
            0 <= j < entry_of(foreign, referrer, reference) ==> !((#[trigger] foreign[j]).referrer
                == referrer && foreign[j].reference == reference),
    decreases foreign.len(),
{
    if foreign.len() > 0 && !(foreign[0].referrer == referrer && foreign[0].reference == reference) {
        let rest = foreign.drop_first();
        lemma_entry_of(rest, referrer, reference);
        assert forall|j: int| 0 <= j < entry_of(foreign, referrer, reference) implies !((
        #[trigger] foreign[j]).referrer == referrer && foreign[j].reference == reference) by {
            if j > 0 {
                assert(foreign[j] == rest[j - 1]);
            }
        }
    }
}

/// How many resolved references are not being followed.
pub open spec fn unvisited(visiting: Seq<bool>) -> nat
    decreases visiting.len(),
{
    if visiting.len() == 0 {
        0
    } else {
        unvisited(visiting.drop_last()) + if visiting.last() {
            0nat
        } else {
            1nat
        }
    }
}

/// Following one more reference leaves fewer to follow.
pub proof fn lemma_unvisited_enter(visiting: Seq<bool>, k: int)
    requires
        0 <= k < visiting.len(),
        !visiting[k],
    ensures
        unvisited(visiting.update(k, true)) < unvisited(visiting),
    decreases visiting.len(),
{
    let after = visiting.update(k, true);
    if k == visiting.len() - 1 {
        assert(after.drop_last() =~= visiting.drop_last());
    } else {
        assert(after.drop_last() =~= visiting.drop_last().update(k, true));
        lemma_unvisited_enter(visiting.drop_last(), k);
    }
}

/// What becomes of a schema from another document once the schemas in it are
/// inlined: it is shared under its own name if that name is free, or if the
/// schema under that name is the very same; otherwise it stands in place.
pub open spec fn merged(table: Table, name: Seq<char>, schema: SchemaView) -> (SchemaRefView, Table) {
    match lookup(table, name) {
        None => (
            SchemaRefView::Reference(schema_prefix() + name),
            table.push((name, SchemaRefView::Item(schema))),
        ),
        Some(existing) => if existing == SchemaRefView::Item(schema) {
            (SchemaRefView::Reference(schema_prefix() + name), table)
        } else {
            (SchemaRefView::Item(schema), table)
        },
    }
}

/// A place for a schema after inlining, where it stands in the document
/// `parent`.
pub open spec fn inlined_ref(
    input: InlineInput,
    visiting: Seq<bool>,
    parent: Seq<char>,
    table: Table,
    r: SchemaRefView,
) -> Result<(SchemaRefView, Table), InlineErrorView>
    decreases unvisited(visiting), 1nat, r, 1nat,
{
    match r {
        SchemaRefView::Item(schema) => match inlined_schema(input, visiting, parent, table, schema) {
            Err(e) => Err(e),
            Ok((made, next)) => Ok((SchemaRefView::Item(made), next)),
        },
        SchemaRefView::Reference(reference) => {
            let k = entry_of(input.foreign, parent, reference);
            if k >= input.foreign.len() || k >= visiting.len() {
                Err(InlineErrorView::Unresolved { referrer: parent, reference, kind: ForeignKind::Schema })
            } else {
                let entry = input.foreign[k];
                match entry.item {
                    ForeignItemView::Schema(target) => if entry.doc_path == input.root {
                        Ok((SchemaRefView::Reference("#/"@ + entry.rel_ref), table))
                    } else if visiting[k] {
                        Err(InlineErrorView::Cyclic { referrer: parent, reference })
                    } else {
                        proof {
                            lemma_entry_of(input.foreign, parent, reference);
                            lemma_unvisited_enter(visiting, k);
                        }
                        match inlined_schema(
                            input,
                            visiting.update(k, true),
                            entry.doc_path,
                            table,
                            target,
                        ) {
                            Err(e) => Err(e),
                            Ok((made, next)) => Ok(merged(next, entry.name, made)),
                        }
                    },
                    _ => Err(InlineErrorView::WrongKind { referrer: parent, reference }),
                }
            }
        },
    }
}

/// A list of places for schemas after inlining, after `acc`.
pub open spec fn inlined_refs(
    input: InlineInput,
    visiting: Seq<bool>,
    parent: Seq<char>,
    table: Table,
    list: Seq<SchemaRefView>,
    acc: Seq<SchemaRefView>,
) -> Result<(Seq<SchemaRefView>, Table), InlineErrorView>
    decreases unvisited(visiting), 1nat, list, 0nat,
{
    if list.len() == 0 {
        Ok((acc, table))
    } else {
        match inlined_ref(input, visiting, parent, table, list[0]) {
            Err(e) => Err(e),
            Ok((made, next)) => inlined_refs(
                input,
                visiting,
                parent,
                next,
                list.drop_first(),
                acc.push(made),
            ),
        }
    }
}

/// A list of named places for schemas after inlining, after `acc`.
pub open spec fn inlined_properties(
    input: InlineInput,
    visiting: Seq<bool>,
    parent: Seq<char>,
    table: Table,
    list: Seq<(Seq<char>, SchemaRefView)>,
    acc: Seq<(Seq<char>, SchemaRefView)>,
) -> Result<(Seq<(Seq<char>, SchemaRefView)>, Table), InlineErrorView>
    decreases unvisited(visiting), 1nat, list, 0nat,
{
    if list.len() == 0 {
        Ok((acc, table))
    } else {
        match inlined_ref(input, visiting, parent, table, list[0].1) {
            Err(e) => Err(e),
            Ok((made, next)) => inlined_properties(
                input,
                visiting,
                parent,
                next,
                list.drop_first(),
                acc.push((list[0].0, made)),
            ),
        }
    }
}

/// The parts of a schema after inlining.
pub open spec fn inlined_kind(
    input: InlineInput,
    visiting: Seq<bool>,
    parent: Seq<char>,
    table: Table,
    kind: SchemaKindView,
) -> Result<(SchemaKindView, Table), InlineErrorView>
    decreases unvisited(visiting), 1nat, kind, 0nat,
{
    match kind {
        SchemaKindView::Object { properties, required, additional } => match inlined_properties(
            input,
            visiting,
            parent,
            table,
            properties,
            Seq::empty(),
        ) {
            Err(e) => Err(e),
            Ok((made, next)) => match additional {
                AdditionalView::Schema(inner) => match inlined_ref(
                    input,
                    visiting,
                    parent,
                    next,
                    *inner,
                ) {
                    Err(e) => Err(e),
                    Ok((extra, last)) => Ok(
                        (
                            SchemaKindView::Object {
                                properties: made,
                                required,
                                additional: AdditionalView::Schema(Box::new(extra)),
                            },
                            last,
                        ),
                    ),
                },
                _ => Ok((SchemaKindView::Object { properties: made, required, additional }, next)),
            },
        },
        SchemaKindView::Array { items, unique_items } => match items {
            Some(inner) => match inlined_ref(input, visiting, parent, table, *inner) {
                Err(e) => Err(e),
                Ok((made, next)) => Ok(
                    (SchemaKindView::Array { items: Some(Box::new(made)), unique_items }, next),
                ),
            },
            None => Ok((kind, table)),
        },
        SchemaKindView::OneOf(list) => match inlined_refs(
            input,
            visiting,
            parent,
            table,
            list,
            Seq::empty(),
        ) {
            Err(e) => Err(e),
            Ok((made, next)) => Ok((SchemaKindView::OneOf(made), next)),
        },
        SchemaKindView::AllOf(list) => match inlined_refs(
            input,
            visiting,
            parent,
            table,
            list,
            Seq::empty(),
        ) {
            Err(e) => Err(e),
            Ok((made, next)) => Ok((SchemaKindView::AllOf(made), next)),
        },
        SchemaKindView::AnyOf(list) => match inlined_refs(
            input,
            visiting,
            parent,
            table,
            list,
            Seq::empty(),
        ) {
            Err(e) => Err(e),
            Ok((made, next)) => Ok((SchemaKindView::AnyOf(made), next)),
        },
        SchemaKindView::Not(inner) => match inlined_ref(input, visiting, parent, table, *inner) {
            Err(e) => Err(e),
            Ok((made, next)) => Ok((SchemaKindView::Not(Box::new(made)), next)),
        },
        _ => Ok((kind, table)),
    }
}

/// The mapping of a discriminator after inlining, after `acc`: each reference
/// is inlined as a schema would be, and must come out as a reference.
pub open spec fn inlined_mapping(
    input: InlineInput,
    visiting: Seq<bool>,
    parent: Seq<char>,
    table: Table,
    mapping: Seq<(Seq<char>, Seq<char>)>,
    acc: Seq<(Seq<char>, Seq<char>)>,
) -> Result<(Seq<(Seq<char>, Seq<char>)>, Table), InlineErrorView>
    decreases unvisited(visiting), 0nat, mapping, 0nat,
{
    if mapping.len() == 0 {
        Ok((acc, table))
    } else {
        match inlined_mapped(input, visiting, parent, table, mapping[0].1) {
            Err(e) => Err(e),
            Ok((reference, next)) => inlined_mapping(
                input,
                visiting,
                parent,
                next,
                mapping.drop_first(),
                acc.push((mapping[0].0, reference)),
            ),
        }
    }
}

/// One reference of the mapping of a discriminator after inlining.
pub open spec fn inlined_mapped(
    input: InlineInput,
    visiting: Seq<bool>,
    parent: Seq<char>,
    table: Table,
    reference: Seq<char>,
) -> Result<(Seq<char>, Table), InlineErrorView>
    decreases unvisited(visiting), 0nat, reference, 0nat,
{
    let k = entry_of(input.foreign, parent, reference);
    if k >= input.foreign.len() || k >= visiting.len() {
        Err(InlineErrorView::Unresolved { referrer: parent, reference, kind: ForeignKind::Schema })
    } else {
        let entry = input.foreign[k];
        match entry.item {
            ForeignItemView::Schema(target) => if entry.doc_path == input.root {
                Ok(("#/"@ + entry.rel_ref, table))
            } else if visiting[k] {
                Err(InlineErrorView::Cyclic { referrer: parent, reference })
            } else {
                proof {
                    lemma_entry_of(input.foreign, parent, reference);
                    lemma_unvisited_enter(visiting, k);
                }
                match inlined_schema(
                    input,
                    visiting.update(k, true),
                    entry.doc_path,
                    table,
                    target,
                ) {
                    Err(e) => Err(e),
                    Ok((made, next)) => match merged(next, entry.name, made) {
                        (SchemaRefView::Reference(local), last) => Ok((local, last)),
                        (SchemaRefView::Item(_), _) => Err(
                            InlineErrorView::MappingInlined { reference },
                        ),
                    },
                }
            },
            _ => Err(InlineErrorView::WrongKind { referrer: parent, reference }),
        }
    }
}

/// A schema after inlining: the schemas in it first, then the mapping of its
/// discriminator.
pub open spec fn inlined_schema(
    input: InlineInput,
    visiting: Seq<bool>,
    parent: Seq<char>,
    table: Table,
    schema: SchemaView,
) -> Result<(SchemaView, Table), InlineErrorView>
    decreases unvisited(visiting), 1nat, schema, 0nat,
{
    match inlined_kind(input, visiting, parent, table, schema.kind) {
        Err(e) => Err(e),
        Ok((kind, next)) => match schema.discriminator {
            None => Ok(
                (
                    SchemaView {
                        description: schema.description,
                        discriminator: None,
                        kind,
                        rest: schema.rest,
                    },
                    next,
                ),
            ),
            Some(d) => match inlined_mapping(
                input,
                visiting,
                parent,
                next,
                d.mapping,
                Seq::empty(),
            ) {
                Err(e) => Err(e),
                Ok((mapping, last)) => Ok(
                    (
                        SchemaView {
                            description: schema.description,
                            discriminator: Some(
                                DiscriminatorView { property_name: d.property_name, mapping },
                            ),
                            kind,
                            rest: schema.rest,
                        },
                        last,
                    ),
                ),
            },
        },
    }
}

/// A part that is carried as text, or a reference to one, after inlining: a
/// reference into another document is replaced by the text of its target, and
/// a reference that leads into the root document becomes a local reference.
pub open spec fn inlined_opaque(
    input: InlineInput,
    parent: Seq<char>,
    kind: ForeignKind,
    r: RefOrView<Seq<char>>,
) -> Result<RefOrView<Seq<char>>, InlineErrorView> {
    match r {
        RefOrView::Item(_) => Ok(r),
        RefOrView::Reference(reference) => {
            let k = entry_of(input.foreign, parent, reference);
            if k >= input.foreign.len() {
                Err(InlineErrorView::Unresolved { referrer: parent, reference, kind })
            } else {
                let entry = input.foreign[k];
                match entry.item {
                    ForeignItemView::Opaque { kind: found, text } => if found != kind {
                        Err(InlineErrorView::WrongKind { referrer: parent, reference })
                    } else if entry.doc_path == input.root {
                        Ok(RefOrView::Reference("#/"@ + entry.rel_ref))
                    } else {
                        Ok(RefOrView::Item(text))
                    },
                    _ => Err(InlineErrorView::WrongKind { referrer: parent, reference }),
                }
            }
        },
    }
}

/// A list of named parts that are carried as text after inlining, after
/// `acc`.
pub open spec fn inlined_opaques(
    input: InlineInput,
    parent: Seq<char>,
    kind: ForeignKind,
    list: Seq<(Seq<char>, RefOrView<Seq<char>>)>,
    acc: Seq<(Seq<char>, RefOrView<Seq<char>>)>,
) -> Result<Seq<(Seq<char>, RefOrView<Seq<char>>)>, InlineErrorView>
    decreases list.len(),
{
    if list.len() == 0 {
        Ok(acc)
    } else {
        match inlined_opaque(input, parent, kind, list[0].1) {
            Err(e) => Err(e),
            Ok(made) => inlined_opaques(
                input,
                parent,
                kind,
                list.drop_first(),
                acc.push((list[0].0, made)),
            ),
        }
    }
}

/// What stands under a media type after inlining: its schema, then its
/// examples.
pub open spec fn inlined_media(
    input: InlineInput,
    visiting: Seq<bool>,
    parent: Seq<char>,
    table: Table,
    media: MediaTypeView,
) -> Result<(MediaTypeView, Table), InlineErrorView> {
    let schema = match media.schema {
        None => Ok((None, table)),
        Some(r) => match inlined_ref(input, visiting, parent, table, r) {
            Err(e) => Err(e),
            Ok((made, next)) => Ok((Some(made), next)),
        },
    };
    match schema {
        Err(e) => Err(e),
        Ok((schema, next)) => match inlined_opaques(
            input,
            parent,
            ForeignKind::Example,
            media.examples,
            Seq::empty(),
        ) {
            Err(e) => Err(e),
            Ok(examples) => Ok((MediaTypeView { schema, examples, rest: media.rest }, next)),
        },
    }
}

/// One entry of the content of a body after inlining.
pub open spec fn inlined_content_entry(
    input: InlineInput,
    visiting: Seq<bool>,
    parent: Seq<char>,
    table: Table,
    entry: (Seq<char>, MediaTypeView),
) -> Result<((Seq<char>, MediaTypeView), Table), InlineErrorView> {
    match inlined_media(input, visiting, parent, table, entry.1) {
        Err(e) => Err(e),
        Ok((made, next)) => Ok(((entry.0, made), next)),
    }
}

/// The content of a body after inlining, after `acc`.
pub open spec fn inlined_content(
    input: InlineInput,
    visiting: Seq<bool>,
    parent: Seq<char>,
    table: Table,
    list: Seq<(Seq<char>, MediaTypeView)>,
    acc: Seq<(Seq<char>, MediaTypeView)>,
) -> Result<(Seq<(Seq<char>, MediaTypeView)>, Table), InlineErrorView>
    decreases list.len(),
{
    if list.len() == 0 {
        Ok((acc, table))
    } else {
        match inlined_content_entry(input, visiting, parent, table, list[0]) {
            Err(e) => Err(e),
            Ok((made, next)) => inlined_content(input, visiting, parent, next, list.drop_first(), acc.push(made)),
        }
    }
}

/// The description of the value of a parameter or header after inlining.
pub open spec fn inlined_format(
    input: InlineInput,
    visiting: Seq<bool>,
    parent: Seq<char>,
    table: Table,
    format: ParameterFormatView,
) -> Result<(ParameterFormatView, Table), InlineErrorView> {
    match format {
        ParameterFormatView::Schema(r) => match inlined_ref(input, visiting, parent, table, r) {
            Err(e) => Err(e),
            Ok((made, next)) => Ok((ParameterFormatView::Schema(made), next)),
        },
        ParameterFormatView::Content(content) => match inlined_content(
            input, visiting, parent, table,
            content,
            Seq::empty(),
        ) {
            Err(e) => Err(e),
            Ok((made, next)) => Ok((ParameterFormatView::Content(made), next)),
        },
    }
}

/// A parameter after inlining.
pub open spec fn inlined_parameter_item(
    input: InlineInput,
    visiting: Seq<bool>,
    parent: Seq<char>,
    table: Table,
    parameter: ParameterView,
) -> Result<(ParameterView, Table), InlineErrorView> {
    match inlined_format(input, visiting, parent, table, parameter.format) {
        Err(e) => Err(e),
        Ok((format, next)) => match inlined_opaques(
            input,
            parent,
            ForeignKind::Example,
            parameter.examples,
            Seq::empty(),
        ) {
            Err(e) => Err(e),
            Ok(examples) => Ok(
                (
                    ParameterView {
                        location: parameter.location,
                        name: parameter.name,
                        description: parameter.description,
                        required: parameter.required,
                        format,
                        examples,
                        rest: parameter.rest,
                    },
                    next,
                ),
            ),
        },
    }
}

/// A parameter or a reference to one after inlining: a reference into another
/// document is replaced by its target, inlined in turn; a reference that
/// leads into the root document becomes a local reference.
pub open spec fn inlined_parameter(
    input: InlineInput,
    visiting: Seq<bool>,
    parent: Seq<char>,
    table: Table,
    r: RefOrView<ParameterView>,
) -> Result<(RefOrView<ParameterView>, Table), InlineErrorView> {
    match r {
        RefOrView::Item(item) => match inlined_parameter_item(input, visiting, parent, table, item) {
            Err(e) => Err(e),
            Ok((made, next)) => Ok((RefOrView::Item(made), next)),
        },
        RefOrView::Reference(reference) => {
            let k = entry_of(input.foreign, parent, reference);
            if k >= input.foreign.len() {
                Err(
                    InlineErrorView::Unresolved {
                        referrer: parent,
                        reference,
                        kind: ForeignKind::Parameter,
                    },
                )
            } else {
                let entry = input.foreign[k];
                match entry.item {
                    ForeignItemView::Parameter(target) => if entry.doc_path == input.root {
                        Ok((RefOrView::Reference("#/"@ + entry.rel_ref), table))
                    } else {
                        match inlined_parameter_item(input, visiting, entry.doc_path, table, target) {
                            Err(e) => Err(e),
                            Ok((made, next)) => Ok((RefOrView::Item(made), next)),
                        }
                    },
                    _ => Err(InlineErrorView::WrongKind { referrer: parent, reference }),
                }
            }
        },
    }
}

/// A shared parameter after inlining.
pub open spec fn inlined_named_parameter(
    input: InlineInput,
    visiting: Seq<bool>,
    parent: Seq<char>,
    table: Table,
    entry: (Seq<char>, RefOrView<ParameterView>),
) -> Result<((Seq<char>, RefOrView<ParameterView>), Table), InlineErrorView> {
    match inlined_parameter(input, visiting, parent, table, entry.1) {
        Err(e) => Err(e),
        Ok((made, next)) => Ok(((entry.0, made), next)),
    }
}

/// A list of parameters after inlining, after `acc`.
pub open spec fn inlined_parameters(
    input: InlineInput,
    visiting: Seq<bool>,
    parent: Seq<char>,
    table: Table,
    list: Seq<RefOrView<ParameterView>>,
    acc: Seq<RefOrView<ParameterView>>,
) -> Result<(Seq<RefOrView<ParameterView>>, Table), InlineErrorView>
    decreases list.len(),
{
    if list.len() == 0 {
        Ok((acc, table))
    } else {
        match inlined_parameter(input, visiting, parent, table, list[0]) {
            Err(e) => Err(e),
            Ok((made, next)) => inlined_parameters(input, visiting, parent, next, list.drop_first(), acc.push(made)),
        }
    }
}

/// The shared parameters after inlining, after `acc`.
pub open spec fn inlined_named_parameters(
    input: InlineInput,
    visiting: Seq<bool>,
    parent: Seq<char>,
    table: Table,
    list: Seq<(Seq<char>, RefOrView<ParameterView>)>,
    acc: Seq<(Seq<char>, RefOrView<ParameterView>)>,
) -> Result<(Seq<(Seq<char>, RefOrView<ParameterView>)>, Table), InlineErrorView>
    decreases list.len(),
{
    if list.len() == 0 {
        Ok((acc, table))
    } else {
        match inlined_named_parameter(input, visiting, parent, table, list[0]) {
            Err(e) => Err(e),
            Ok((made, next)) => inlined_named_parameters(input, visiting, parent, next, list.drop_first(), acc.push(made)),
        }
    }
}

/// A header after inlining.
pub open spec fn inlined_header_item(
    input: InlineInput,
    visiting: Seq<bool>,
    parent: Seq<char>,
    table: Table,
    header: HeaderView,
) -> Result<(HeaderView, Table), InlineErrorView> {
    match inlined_format(input, visiting, parent, table, header.format) {
        Err(e) => Err(e),
        Ok((format, next)) => match inlined_opaques(
            input,
            parent,
            ForeignKind::Example,
            header.examples,
            Seq::empty(),
        ) {
            Err(e) => Err(e),
            Ok(examples) => Ok((HeaderView { format, examples, rest: header.rest }, next)),
        },
    }
}

/// A header or a reference to one after inlining.
pub open spec fn inlined_header(
    input: InlineInput,
    visiting: Seq<bool>,
    parent: Seq<char>,
    table: Table,
    r: RefOrView<HeaderView>,
) -> Result<(RefOrView<HeaderView>, Table), InlineErrorView> {
    match r {
        RefOrView::Item(item) => match inlined_header_item(input, visiting, parent, table, item) {
            Err(e) => Err(e),
            Ok((made, next)) => Ok((RefOrView::Item(made), next)),
        },
        RefOrView::Reference(reference) => {
            let k = entry_of(input.foreign, parent, reference);
            if k >= input.foreign.len() {
                Err(
                    InlineErrorView::Unresolved {
                        referrer: parent,
                        reference,
                        kind: ForeignKind::Header,
                    },
                )
            } else {
                let entry = input.foreign[k];
                match entry.item {
                    ForeignItemView::Header(target) => if entry.doc_path == input.root {
                        Ok((RefOrView::Reference("#/"@ + entry.rel_ref), table))
                    } else {
                        match inlined_header_item(input, visiting, entry.doc_path, table, target) {
                            Err(e) => Err(e),
                            Ok((made, next)) => Ok((RefOrView::Item(made), next)),
                        }
                    },
                    _ => Err(InlineErrorView::WrongKind { referrer: parent, reference }),
                }
            }
        },
    }
}

/// A named header after inlining.
pub open spec fn inlined_named_header(
    input: InlineInput,
    visiting: Seq<bool>,
    parent: Seq<char>,
    table: Table,
    entry: (Seq<char>, RefOrView<HeaderView>),
) -> Result<((Seq<char>, RefOrView<HeaderView>), Table), InlineErrorView> {
    match inlined_header(input, visiting, parent, table, entry.1) {
        Err(e) => Err(e),
        Ok((made, next)) => Ok(((entry.0, made), next)),
    }
}

/// A list of named headers after inlining, after `acc`.
pub open spec fn inlined_named_headers(
    input: InlineInput,
    visiting: Seq<bool>,
    parent: Seq<char>,
    table: Table,
    list: Seq<(Seq<char>, RefOrView<HeaderView>)>,
    acc: Seq<(Seq<char>, RefOrView<HeaderView>)>,
) -> Result<(Seq<(Seq<char>, RefOrView<HeaderView>)>, Table), InlineErrorView>
    decreases list.len(),
{
    if list.len() == 0 {
        Ok((acc, table))
    } else {
        match inlined_named_header(input, visiting, parent, table, list[0]) {
            Err(e) => Err(e),
            Ok((made, next)) => inlined_named_headers(input, visiting, parent, next, list.drop_first(), acc.push(made)),
        }
    }
}

/// The body of a request after inlining.
pub open spec fn inlined_body(
    input: InlineInput,
    visiting: Seq<bool>,
    parent: Seq<char>,
    table: Table,
    body: RequestBodyView,
) -> Result<(RequestBodyView, Table), InlineErrorView> {
    match inlined_content(input, visiting, parent, table, body.content, Seq::empty()) {
        Err(e) => Err(e),
        Ok((content, next)) => Ok(
            (
                RequestBodyView {
                    description: body.description,
                    content,
                    required: body.required,
                    rest: body.rest,
                },
                next,
            ),
        ),
    }
}

/// The body of a request or a reference to one after inlining.
pub open spec fn inlined_request_body(
    input: InlineInput,
    visiting: Seq<bool>,
    parent: Seq<char>,
    table: Table,
    r: RefOrView<RequestBodyView>,
) -> Result<(RefOrView<RequestBodyView>, Table), InlineErrorView> {
    match r {
        RefOrView::Item(item) => match inlined_body(input, visiting, parent, table, item) {
            Err(e) => Err(e),
            Ok((made, next)) => Ok((RefOrView::Item(made), next)),
        },
        RefOrView::Reference(reference) => {
            let k = entry_of(input.foreign, parent, reference);
            if k >= input.foreign.len() {
                Err(
                    InlineErrorView::Unresolved {
                        referrer: parent,
                        reference,
                        kind: ForeignKind::RequestBody,
                    },
                )
            } else {
                let entry = input.foreign[k];
                match entry.item {
                    ForeignItemView::RequestBody(target) => if entry.doc_path == input.root {
                        Ok((RefOrView::Reference("#/"@ + entry.rel_ref), table))
                    } else {
                        match inlined_body(input, visiting, entry.doc_path, table, target) {
                            Err(e) => Err(e),
                            Ok((made, next)) => Ok((RefOrView::Item(made), next)),
                        }
                    },
                    _ => Err(InlineErrorView::WrongKind { referrer: parent, reference }),
                }
            }
        },
    }
}

/// A shared request body after inlining.
pub open spec fn inlined_named_request_body(
    input: InlineInput,
    visiting: Seq<bool>,
    parent: Seq<char>,
    table: Table,
    entry: (Seq<char>, RefOrView<RequestBodyView>),
) -> Result<((Seq<char>, RefOrView<RequestBodyView>), Table), InlineErrorView> {
    match inlined_request_body(input, visiting, parent, table, entry.1) {
        Err(e) => Err(e),
        Ok((made, next)) => Ok(((entry.0, made), next)),
    }
}

/// The shared request bodies after inlining, after `acc`.
pub open spec fn inlined_named_request_bodies(
    input: InlineInput,
    visiting: Seq<bool>,
    parent: Seq<char>,
    table: Table,
    list: Seq<(Seq<char>, RefOrView<RequestBodyView>)>,
    acc: Seq<(Seq<char>, RefOrView<RequestBodyView>)>,
) -> Result<(Seq<(Seq<char>, RefOrView<RequestBodyView>)>, Table), InlineErrorView>
    decreases list.len(),
{
    if list.len() == 0 {
        Ok((acc, table))
    } else {
        match inlined_named_request_body(input, visiting, parent, table, list[0]) {
            Err(e) => Err(e),
            Ok((made, next)) => inlined_named_request_bodies(input, visiting, parent, next, list.drop_first(), acc.push(made)),
        }
    }
}

/// A response after inlining: its headers, its content, then its links.
pub open spec fn inlined_response_item(
    input: InlineInput,
    visiting: Seq<bool>,
    parent: Seq<char>,
    table: Table,
    response: ResponseView,
) -> Result<(ResponseView, Table), InlineErrorView> {
    match inlined_named_headers(input, visiting, parent, table, response.headers, Seq::empty()) {
        Err(e) => Err(e),
        Ok((headers, next)) => match inlined_content(
            input, visiting, parent, next,
            response.content,
            Seq::empty(),
        ) {
            Err(e) => Err(e),
            Ok((content, last)) => match inlined_opaques(
                input,
                parent,
                ForeignKind::Link,
                response.links,
                Seq::empty(),
            ) {
                Err(e) => Err(e),
                Ok(links) => Ok(
                    (
                        ResponseView {
                            description: response.description,
                            headers,
                            content,
                            links,
                            rest: response.rest,
                        },
                        last,
                    ),
                ),
            },
        },
    }
}

/// A response or a reference to one after inlining.
pub open spec fn inlined_response(
    input: InlineInput,
    visiting: Seq<bool>,
    parent: Seq<char>,
    table: Table,
    r: RefOrView<ResponseView>,
) -> Result<(RefOrView<ResponseView>, Table), InlineErrorView> {
    match r {
        RefOrView::Item(item) => match inlined_response_item(input, visiting, parent, table, item) {
            Err(e) => Err(e),
            Ok((made, next)) => Ok((RefOrView::Item(made), next)),
        },
        RefOrView::Reference(reference) => {
            let k = entry_of(input.foreign, parent, reference);
            if k >= input.foreign.len() {
                Err(
                    InlineErrorView::Unresolved {
                        referrer: parent,
                        reference,
                        kind: ForeignKind::Response,
                    },
                )
            } else {
                let entry = input.foreign[k];
                match entry.item {
                    ForeignItemView::Response(target) => if entry.doc_path == input.root {
                        Ok((RefOrView::Reference("#/"@ + entry.rel_ref), table))
                    } else {
                        match inlined_response_item(input, visiting, entry.doc_path, table, target) {
                            Err(e) => Err(e),
                            Ok((made, next)) => Ok((RefOrView::Item(made), next)),
                        }
                    },
                    _ => Err(InlineErrorView::WrongKind { referrer: parent, reference }),
                }
            }
        },
    }
}

/// A shared response after inlining.
pub open spec fn inlined_named_response(
    input: InlineInput,
    visiting: Seq<bool>,
    parent: Seq<char>,
    table: Table,
    entry: (Seq<char>, RefOrView<ResponseView>),
) -> Result<((Seq<char>, RefOrView<ResponseView>), Table), InlineErrorView> {
    match inlined_response(input, visiting, parent, table, entry.1) {
        Err(e) => Err(e),
        Ok((made, next)) => Ok(((entry.0, made), next)),
    }
}

/// A response under its status after inlining.
pub open spec fn inlined_status_response(
    input: InlineInput,
    visiting: Seq<bool>,
    parent: Seq<char>,
    table: Table,
    entry: (StatusCode, RefOrView<ResponseView>),
) -> Result<((StatusCode, RefOrView<ResponseView>), Table), InlineErrorView> {
    match inlined_response(input, visiting, parent, table, entry.1) {
        Err(e) => Err(e),
        Ok((made, next)) => Ok(((entry.0, made), next)),
    }
}

/// The shared responses after inlining, after `acc`.
pub open spec fn inlined_named_responses(
    input: InlineInput,
    visiting: Seq<bool>,
    parent: Seq<char>,
    table: Table,
    list: Seq<(Seq<char>, RefOrView<ResponseView>)>,
    acc: Seq<(Seq<char>, RefOrView<ResponseView>)>,
) -> Result<(Seq<(Seq<char>, RefOrView<ResponseView>)>, Table), InlineErrorView>
    decreases list.len(),
{
    if list.len() == 0 {
        Ok((acc, table))
    } else {
        match inlined_named_response(input, visiting, parent, table, list[0]) {
            Err(e) => Err(e),
            Ok((made, next)) => inlined_named_responses(input, visiting, parent, next, list.drop_first(), acc.push(made)),
        }
    }
}

/// The responses of an operation by status after inlining, after `acc`.
pub open spec fn inlined_status_responses(
    input: InlineInput,
    visiting: Seq<bool>,
    parent: Seq<char>,
    table: Table,
    list: Seq<(StatusCode, RefOrView<ResponseView>)>,
    acc: Seq<(StatusCode, RefOrView<ResponseView>)>,
) -> Result<(Seq<(StatusCode, RefOrView<ResponseView>)>, Table), InlineErrorView>
    decreases list.len(),
{
    if list.len() == 0 {
        Ok((acc, table))
    } else {
        match inlined_status_response(input, visiting, parent, table, list[0]) {
            Err(e) => Err(e),
            Ok((made, next)) => inlined_status_responses(input, visiting, parent, next, list.drop_first(), acc.push(made)),
        }
    }
}

/// The responses of an operation after inlining: the default response first,
/// then the others.
pub open spec fn inlined_responses(
    input: InlineInput,
    visiting: Seq<bool>,
    parent: Seq<char>,
    table: Table,
    responses: ResponsesView,
) -> Result<(ResponsesView, Table), InlineErrorView> {
    let default: Result<(Option<RefOrView<ResponseView>>, Table), InlineErrorView> =
        match responses.default {
        None => Ok((None, table)),
        Some(r) => match inlined_response(input, visiting, parent, table, r) {
            Err(e) => Err(e),
            Ok((made, next)) => Ok((Some(made), next)),
        },
    };
    match default {
        Err(e) => Err(e),
        Ok((default, next)) => match inlined_status_responses(
            input, visiting, parent, next,
            responses.responses,
            Seq::empty(),
        ) {
            Err(e) => Err(e),
            Ok((list, last)) => Ok((ResponsesView { default, responses: list }, last)),
        },
    }
}

/// An operation under its method after inlining: its parameters, then the
/// body of its request, then its responses.
pub open spec fn inlined_operation(
    input: InlineInput,
    visiting: Seq<bool>,
    parent: Seq<char>,
    table: Table,
    entry: (Method, OperationView),
) -> Result<((Method, OperationView), Table), InlineErrorView> {
    let operation = entry.1;
    match inlined_parameters(input, visiting, parent, table, operation.parameters, Seq::empty()) {
        Err(e) => Err(e),
        Ok((parameters, t1)) => {
            let body: Result<(Option<RefOrView<RequestBodyView>>, Table), InlineErrorView> =
                match operation.request_body {
                None => Ok((None, t1)),
                Some(r) => match inlined_request_body(input, visiting, parent, t1, r) {
                    Err(e) => Err(e),
                    Ok((made, next)) => Ok((Some(made), next)),
                },
            };
            match body {
                Err(e) => Err(e),
                Ok((request_body, t2)) => match inlined_responses(
                    input, visiting, parent, t2,
                    operation.responses,
                ) {
                    Err(e) => Err(e),
                    Ok((responses, t3)) => Ok(
                        (
                            (
                                entry.0,
                                OperationView {
                                    operation_id: operation.operation_id,
                                    tags: operation.tags,
                                    description: operation.description,
                                    parameters,
                                    request_body,
                                    responses,
                                    security: operation.security,
                                    integration: operation.integration,
                                    rest: operation.rest,
                                },
                            ),
                            t3,
                        ),
                    ),
                },
            }
        },
    }
}

/// The operations of a path after inlining, after `acc`.
pub open spec fn inlined_operations(
    input: InlineInput,
    visiting: Seq<bool>,
    parent: Seq<char>,
    table: Table,
    list: Seq<(Method, OperationView)>,
    acc: Seq<(Method, OperationView)>,
) -> Result<(Seq<(Method, OperationView)>, Table), InlineErrorView>
    decreases list.len(),
{
    if list.len() == 0 {
        Ok((acc, table))
    } else {
        match inlined_operation(input, visiting, parent, table, list[0]) {
            Err(e) => Err(e),
            Ok((made, next)) => inlined_operations(input, visiting, parent, next, list.drop_first(), acc.push(made)),
        }
    }
}

/// What stands under a path after inlining: its operations, then the
/// parameters they share.
pub open spec fn inlined_path_item(
    input: InlineInput,
    visiting: Seq<bool>,
    parent: Seq<char>,
    table: Table,
    item: PathItemView,
) -> Result<(PathItemView, Table), InlineErrorView> {
    match inlined_operations(input, visiting, parent, table, item.operations, Seq::empty()) {
        Err(e) => Err(e),
        Ok((operations, next)) => match inlined_parameters(
            input, visiting, parent, next,
            item.parameters,
            Seq::empty(),
        ) {
            Err(e) => Err(e),
            Ok((parameters, last)) => Ok(
                (PathItemView { operations, parameters, rest: item.rest }, last),
            ),
        },
    }
}

/// What stands under a path, or a reference to it, after inlining.
pub open spec fn inlined_path(
    input: InlineInput,
    visiting: Seq<bool>,
    parent: Seq<char>,
    table: Table,
    r: RefOrView<PathItemView>,
) -> Result<(RefOrView<PathItemView>, Table), InlineErrorView> {
    match r {
        RefOrView::Item(item) => match inlined_path_item(input, visiting, parent, table, item) {
            Err(e) => Err(e),
            Ok((made, next)) => Ok((RefOrView::Item(made), next)),
        },
        RefOrView::Reference(reference) => {
            let k = entry_of(input.foreign, parent, reference);
            if k >= input.foreign.len() {
                Err(
                    InlineErrorView::Unresolved {
                        referrer: parent,
                        reference,
                        kind: ForeignKind::PathItem,
                    },
                )
            } else {
                let entry = input.foreign[k];
                match entry.item {
                    ForeignItemView::PathItem(target) => if entry.doc_path == input.root {
                        Ok((RefOrView::Reference("#/"@ + entry.rel_ref), table))
                    } else {
                        match inlined_path_item(input, visiting, entry.doc_path, table, target) {
                            Err(e) => Err(e),
                            Ok((made, next)) => Ok((RefOrView::Item(made), next)),
                        }
                    },
                    _ => Err(InlineErrorView::WrongKind { referrer: parent, reference }),
                }
            }
        },
    }
}

/// A path after inlining.
pub open spec fn inlined_named_path(
    input: InlineInput,
    visiting: Seq<bool>,
    parent: Seq<char>,
    table: Table,
    entry: (Seq<char>, RefOrView<PathItemView>),
) -> Result<((Seq<char>, RefOrView<PathItemView>), Table), InlineErrorView> {
    match inlined_path(input, visiting, parent, table, entry.1) {
        Err(e) => Err(e),
        Ok((made, next)) => Ok(((entry.0, made), next)),
    }
}

/// The paths of a document after inlining, after `acc`.
pub open spec fn inlined_paths(
    input: InlineInput,
    visiting: Seq<bool>,
    parent: Seq<char>,
    table: Table,
    list: Seq<(Seq<char>, RefOrView<PathItemView>)>,
    acc: Seq<(Seq<char>, RefOrView<PathItemView>)>,
) -> Result<(Seq<(Seq<char>, RefOrView<PathItemView>)>, Table), InlineErrorView>
    decreases list.len(),
{
    if list.len() == 0 {
        Ok((acc, table))
    } else {
        match inlined_named_path(input, visiting, parent, table, list[0]) {
            Err(e) => Err(e),
            Ok((made, next)) => inlined_paths(input, visiting, parent, next, list.drop_first(), acc.push(made)),
        }
    }
}

/// A shared callback or a reference to one after inlining: the paths of a
/// callback are inlined like the paths of a document.
pub open spec fn inlined_callback(
    input: InlineInput,
    visiting: Seq<bool>,
    parent: Seq<char>,
    table: Table,
    r: RefOrView<Seq<(Seq<char>, RefOrView<PathItemView>)>>,
) -> Result<(RefOrView<Seq<(Seq<char>, RefOrView<PathItemView>)>>, Table), InlineErrorView> {
    match r {
        RefOrView::Item(paths) => match inlined_paths(
            input,
            visiting,
            parent,
            table,
            paths,
            Seq::empty(),
        ) {
            Err(e) => Err(e),
            Ok((made, next)) => Ok((RefOrView::Item(made), next)),
        },
        RefOrView::Reference(reference) => {
            let k = entry_of(input.foreign, parent, reference);
            if k >= input.foreign.len() {
                Err(
                    InlineErrorView::Unresolved {
                        referrer: parent,
                        reference,
                        kind: ForeignKind::Callback,
                    },
                )
            } else {
                let entry = input.foreign[k];
                match entry.item {
                    ForeignItemView::Callback(target) => if entry.doc_path == input.root {
                        Ok((RefOrView::Reference("#/"@ + entry.rel_ref), table))
                    } else {
                        match inlined_paths(
                            input,
                            visiting,
                            entry.doc_path,
                            table,
                            target,
                            Seq::empty(),
                        ) {
                            Err(e) => Err(e),
                            Ok((made, next)) => Ok((RefOrView::Item(made), next)),
                        }
                    },
                    _ => Err(InlineErrorView::WrongKind { referrer: parent, reference }),
                }
            }
        },
    }
}

/// The shared callbacks after inlining, after `acc`.
pub open spec fn inlined_callbacks(
    input: InlineInput,
    visiting: Seq<bool>,
    parent: Seq<char>,
    table: Table,
    list: Seq<(Seq<char>, RefOrView<Seq<(Seq<char>, RefOrView<PathItemView>)>>)>,
    acc: Seq<(Seq<char>, RefOrView<Seq<(Seq<char>, RefOrView<PathItemView>)>>)>,
) -> Result<(Seq<(Seq<char>, RefOrView<Seq<(Seq<char>, RefOrView<PathItemView>)>>)>, Table), InlineErrorView>
    decreases list.len(),
{
    if list.len() == 0 {
        Ok((acc, table))
    } else {
        match inlined_callback(input, visiting, parent, table, list[0].1) {
            Err(e) => Err(e),
            Ok((made, next)) => inlined_callbacks(
                input,
                visiting,
                parent,
                next,
                list.drop_first(),
                acc.push((list[0].0, made)),
            ),
        }
    }
}

/// A shared schema after inlining.
pub open spec fn inlined_named_schema(
    input: InlineInput,
    visiting: Seq<bool>,
    parent: Seq<char>,
    table: Table,
    entry: (Seq<char>, SchemaRefView),
) -> Result<((Seq<char>, SchemaRefView), Table), InlineErrorView> {
    match inlined_ref(input, visiting, parent, table, entry.1) {
        Err(e) => Err(e),
        Ok((made, next)) => Ok(((entry.0, made), next)),
    }
}

/// The shared schemas after inlining, after `acc`. The table that is read
/// and filled on the way is given apart from them.
pub open spec fn inlined_shared_schemas(
    input: InlineInput,
    visiting: Seq<bool>,
    parent: Seq<char>,
    table: Table,
    list: Seq<(Seq<char>, SchemaRefView)>,
    acc: Seq<(Seq<char>, SchemaRefView)>,
) -> Result<(Seq<(Seq<char>, SchemaRefView)>, Table), InlineErrorView>
    decreases list.len(),
{
    if list.len() == 0 {
        Ok((acc, table))
    } else {
        match inlined_named_schema(input, visiting, parent, table, list[0]) {
            Err(e) => Err(e),
            Ok((made, next)) => inlined_shared_schemas(input, visiting, parent, next, list.drop_first(), acc.push(made)),
        }
    }
}

/// The shared parts of the root document that are carried as text, after
/// inlining: security schemes, examples and links.
pub open spec fn inlined_shared_texts(input: InlineInput, components: ComponentsView) -> Result<
    (
        Seq<(Seq<char>, RefOrView<Seq<char>>)>,
        Seq<(Seq<char>, RefOrView<Seq<char>>)>,
        Seq<(Seq<char>, RefOrView<Seq<char>>)>,
    ),
    InlineErrorView,
> {
    match inlined_opaques(
        input,
        input.root,
        ForeignKind::SecurityScheme,
        components.security_schemes,
        Seq::empty(),
    ) {
        Err(e) => Err(e),
        Ok(security_schemes) => match inlined_opaques(
            input,
            input.root,
            ForeignKind::Example,
            components.examples,
            Seq::empty(),
        ) {
            Err(e) => Err(e),
            Ok(examples) => match inlined_opaques(
                input,
                input.root,
                ForeignKind::Link,
                components.links,
                Seq::empty(),
            ) {
                Err(e) => Err(e),
                Ok(links) => Ok((security_schemes, examples, links)),
            },
        },
    }
}

/// The shared parts of the root document after inlining: the parts that are
/// carried as text, then responses, parameters, request bodies and headers,
/// then the shared schemas, then the callbacks. While the shared schemas are
/// inlined, the table is read as it was before, with the schemas that were
/// merged into it; afterwards each shared schema stands in its place as
/// inlined, and the merged schemas follow.
pub open spec fn inlined_components(
    input: InlineInput,
    visiting: Seq<bool>,
    components: ComponentsView,
) -> Result<ComponentsView, InlineErrorView> {
    let parent = input.root;
    match inlined_shared_texts(input, components) {
        Err(e) => Err(e),
        Ok(texts) => match inlined_named_responses(
            input,
            visiting,
            parent,
            components.schemas,
            components.responses,
            Seq::empty(),
        ) {
            Err(e) => Err(e),
            Ok((responses, t1)) => match inlined_named_parameters(
                input,
                visiting,
                parent,
                t1,
                components.parameters,
                Seq::empty(),
            ) {
                Err(e) => Err(e),
                Ok((parameters, t2)) => match inlined_named_request_bodies(
                    input,
                    visiting,
                    parent,
                    t2,
                    components.request_bodies,
                    Seq::empty(),
                ) {
                    Err(e) => Err(e),
                    Ok((request_bodies, t3)) => match inlined_named_headers(
                        input,
                        visiting,
                        parent,
                        t3,
                        components.headers,
                        Seq::empty(),
                    ) {
                        Err(e) => Err(e),
                        Ok((headers, t4)) => match inlined_shared_schemas(
                            input,
                            visiting,
                            parent,
                            t4,
                            t4,
                            Seq::empty(),
                        ) {
                            Err(e) => Err(e),
                            Ok((shared, t5)) => match inlined_callbacks(
                                input,
                                visiting,
                                parent,
                                shared + t5.skip(t4.len() as int),
                                components.callbacks,
                                Seq::empty(),
                            ) {
                                Err(e) => Err(e),
                                Ok((callbacks, schemas)) => Ok(
                                    ComponentsView {
                                        schemas,
                                        responses,
                                        parameters,
                                        request_bodies,
                                        headers,
                                        security_schemes: texts.0,
                                        examples: texts.1,
                                        links: texts.2,
                                        callbacks,
                                    },
                                ),
                            },
                        },
                    },
                },
            },
        },
    }
}

/// The root document after inlining: its shared parts first, then its paths.
/// No resolved reference is being followed at the start.
pub open spec fn inlined_document(input: InlineInput, openapi: OpenApiView) -> Result<
    OpenApiView,
    InlineErrorView,
> {
    let visiting = Seq::new(input.foreign.len(), |i: int| false);
    let components = match openapi.components {
        Some(c) => c,
        None => no_components(),
    };
    match inlined_components(input, visiting, components) {
        Err(e) => Err(e),
        Ok(shared) => match inlined_paths(
            input,
            visiting,
            input.root,
            shared.schemas,
            openapi.paths,
            Seq::empty(),
        ) {
            Err(e) => Err(e),
            Ok((paths, schemas)) => Ok(
                OpenApiView {
                    paths,
                    components: Some(
                        ComponentsView {
                            schemas,
                            responses: shared.responses,
                            parameters: shared.parameters,
                            request_bodies: shared.request_bodies,
                            headers: shared.headers,
                            security_schemes: shared.security_schemes,
                            examples: shared.examples,
                            links: shared.links,
                            callbacks: shared.callbacks,
                        },
                    ),
                    rest: openapi.rest,
                },
            ),
        },
    }
}

/// Two schemas of another document that are the very same and have the same
/// name are shared as one; of two that differ, the first is shared and the
/// second stands in place, so that both are there.
pub proof fn law_merge_collapses_or_keeps_both(
    table: Table,
    name: Seq<char>,
    first: SchemaView,
    second: SchemaView,
)
    requires
        lookup(table, name) is None,
    ensures
        merged(table, name, first).1 == table.push((name, SchemaRefView::Item(first))),
        merged(table, name, first).0 == SchemaRefView::Reference(schema_prefix() + name),
        merged(merged(table, name, first).1, name, second).1 == merged(table, name, first).1,
        second == first ==> merged(merged(table, name, first).1, name, second).0
            == SchemaRefView::Reference(schema_prefix() + name),
        second != first ==> merged(merged(table, name, first).1, name, second).0
            == SchemaRefView::Item(second),
{
    let after = table.push((name, SchemaRefView::Item(first)));
    crate::table::lemma_index_of(table, name);
    assert forall|j: int| 0 <= j < table.len() implies (#[trigger] after[j]).0 != name by {
        assert(after[j] == table[j]);
    }
    crate::table::lemma_index_of_first(after, name, table.len() as int);
}

} // verus!
