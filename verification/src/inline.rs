//! The inline pass, on schemas: every reference into another document is
//! replaced. A schema of another document keeps its name: it is merged into
//! the table of shared schemas, and a local reference takes the place of the
//! reference to it, unless another schema has that name already.
use vstd::prelude::*;
use vstd::string::*;
use crate::copy::{copy_additional, copy_literals, copy_strings};
use crate::document::{Header, Parameter, PathItem, RefOr, RequestBody, Response};
use crate::inline_spec::{
    entry_of, inlined_kind, inlined_mapped, inlined_mapping, inlined_opaque, inlined_opaques,
    inlined_properties, inlined_ref, inlined_refs, inlined_schema, lemma_unvisited_enter, merged, unvisited, ForeignItemView,
    ForeignKind, ForeignView, InlineErrorView, InlineInput,
};
use crate::model::{copy_text, lemma_properties_view, lemma_refs_view, push_item};
use crate::same::schema_ref_eq;
use crate::schema::{schema_kind_view, Additional, Discriminator, Schema, SchemaKind, SchemaRef};
use crate::table::find_key;
use crate::text::{concat2, str_eq};

verus! {

/// The part that a resolved reference points to.
#[derive(Debug, PartialEq, Eq)]
pub enum ForeignItem {
    Schema(Schema),
    Parameter(Parameter),
    Response(Response),
    RequestBody(RequestBody),
    Header(Header),
    PathItem(PathItem),
    Callback(Vec<(String, RefOr<PathItem>)>),
    /// A part that the library never looks into (an example, a link, a
    /// security scheme), as the text that it is written in.
    Opaque { kind: ForeignKind, text: String },
}

impl DeepView for ForeignItem {
    type V = ForeignItemView;

    open spec fn deep_view(&self) -> ForeignItemView {
        match self {
            ForeignItem::Schema(x) => ForeignItemView::Schema(x.deep_view()),
            ForeignItem::Parameter(x) => ForeignItemView::Parameter(x.deep_view()),
            ForeignItem::Response(x) => ForeignItemView::Response(x.deep_view()),
            ForeignItem::RequestBody(x) => ForeignItemView::RequestBody(x.deep_view()),
            ForeignItem::Header(x) => ForeignItemView::Header(x.deep_view()),
            ForeignItem::PathItem(x) => ForeignItemView::PathItem(x.deep_view()),
            ForeignItem::Callback(x) => ForeignItemView::Callback(x.deep_view()),
            ForeignItem::Opaque { kind, text } => ForeignItemView::Opaque {
                kind: *kind,
                text: text@,
            },
        }
    }
}

/// A reference that has been resolved: the document in which it stands and
/// how it is written there, the document it points into and the path in that
/// document, the name of its target, and the target itself.
#[derive(Debug, PartialEq, Eq)]
pub struct Foreign {
    pub referrer: String,
    pub reference: String,
    pub doc_path: String,
    pub rel_ref: String,
    pub name: String,
    pub item: ForeignItem,
}

impl DeepView for Foreign {
    type V = ForeignView;

    open spec fn deep_view(&self) -> ForeignView {
        ForeignView {
            referrer: self.referrer@,
            reference: self.reference@,
            doc_path: self.doc_path@,
            rel_ref: self.rel_ref@,
            name: self.name@,
            item: self.item.deep_view(),
        }
    }
}

/// Why a document cannot be inlined.
#[derive(Debug, PartialEq, Eq)]
pub enum InlineError {
    /// The reference has not been resolved yet: the caller resolves it, as a
    /// part of the kind that its place asks for, and runs the pass again.
    Unresolved { referrer: String, reference: String, kind: ForeignKind },
    /// The reference points to a part of another kind than its place asks
    /// for.
    WrongKind { referrer: String, reference: String },
    /// The reference leads to itself.
    Cyclic { referrer: String, reference: String },
    /// The mapping of a discriminator names a schema that cannot stay a
    /// reference, because another schema has its name.
    MappingInlined { reference: String },
}

impl DeepView for InlineError {
    type V = InlineErrorView;

    open spec fn deep_view(&self) -> InlineErrorView {
        match self {
            InlineError::Unresolved { referrer, reference, kind } => InlineErrorView::Unresolved {
                referrer: referrer@,
                reference: reference@,
                kind: *kind,
            },
            InlineError::WrongKind { referrer, reference } => InlineErrorView::WrongKind {
                referrer: referrer@,
                reference: reference@,
            },
            InlineError::Cyclic { referrer, reference } => InlineErrorView::Cyclic {
                referrer: referrer@,
                reference: reference@,
            },
            InlineError::MappingInlined { reference } => InlineErrorView::MappingInlined {
                reference: reference@,
            },
        }
    }
}

/// What the pass is given: the path of the root document and the references
/// that have been resolved.
pub struct Inliner<'a> {
    pub root: &'a str,
    pub foreign: &'a Vec<Foreign>,
}

impl<'a> DeepView for Inliner<'a> {
    type V = InlineInput;

    open spec fn deep_view(&self) -> InlineInput {
        InlineInput { root: self.root@, foreign: self.foreign.deep_view() }
    }
}

/// Whether a call left what the mathematics gives: on success the value and
/// the table after it, with the references that are being followed as they
/// were.
pub open spec fn inlined<T: DeepView, S>(
    res: Result<T, InlineError>,
    after: S,
    visiting_before: Seq<bool>,
    visiting_after: Seq<bool>,
    expected: Result<(T::V, S), InlineErrorView>,
) -> bool {
    match expected {
        Ok((value, state)) => res is Ok && res->Ok_0.deep_view() == value && after == state
            && visiting_after == visiting_before,
        Err(e) => res is Err && res->Err_0.deep_view() == e,
    }
}

/// Finds the resolved reference that stands in `referrer` and is written
/// `reference`.
pub fn find_entry(foreign: &Vec<Foreign>, referrer: &str, reference: &str) -> (r: usize)
    ensures
        r == entry_of(foreign.deep_view(), referrer@, reference@),
        r <= foreign.len(),
{
    let mut i: usize = 0;
    proof {
        assert(foreign.deep_view().skip(0) =~= foreign.deep_view());
    }
    while i < foreign.len()
        invariant
            i <= foreign.len(),
            entry_of(foreign.deep_view(), referrer@, reference@) == i + entry_of(
                foreign.deep_view().skip(i as int),
                referrer@,
                reference@,
            ),
        decreases foreign.len() - i,
    {
        proof {
            let rest = foreign.deep_view().skip(i as int);
            assert(rest[0] == foreign[i as int].deep_view());
            assert(rest.drop_first() =~= foreign.deep_view().skip(i as int + 1));
        }
        if str_eq(foreign[i].referrer.as_str(), referrer) && str_eq(
            foreign[i].reference.as_str(),
            reference,
        ) {
            return i;
        }
        i += 1;
    }
    proof {
        assert(foreign.deep_view().skip(foreign.len() as int) =~= Seq::empty());
    }
    i
}

/// Inlines a part that is carried as text, or a reference to one.
pub fn inline_opaque(cx: &Inliner, parent: &str, kind: ForeignKind, r: &RefOr<String>) -> (res: Result<
    RefOr<String>,
    InlineError,
>)
    ensures
        crate::model::agrees(res, inlined_opaque(cx.deep_view(), parent@, kind, r.deep_view())),
{
    match r {
        RefOr::Item(text) => Ok(RefOr::Item(text.clone())),
        RefOr::Reference(reference) => {
            let k = find_entry(cx.foreign, parent, reference.as_str());
            if k >= cx.foreign.len() {
                return Err(
                    InlineError::Unresolved {
                        referrer: String::from_str(parent),
                        reference: reference.clone(),
                        kind,
                    },
                );
            }
            assert(cx.foreign.deep_view()[k as int] == cx.foreign[k as int].deep_view());
            let entry = &cx.foreign[k];
            match &entry.item {
                ForeignItem::Opaque { kind: found, text } => {
                    if *found != kind {
                        Err(
                            InlineError::WrongKind {
                                referrer: String::from_str(parent),
                                reference: reference.clone(),
                            },
                        )
                    } else if str_eq(entry.doc_path.as_str(), cx.root) {
                        Ok(RefOr::Reference(concat2("#/", entry.rel_ref.as_str())))
                    } else {
                        Ok(RefOr::Item(text.clone()))
                    }
                },
                _ => Err(
                    InlineError::WrongKind {
                        referrer: String::from_str(parent),
                        reference: reference.clone(),
                    },
                ),
            }
        },
    }
}

/// Inlines a list of named parts that are carried as text.
#[verifier::loop_isolation(false)]
pub fn inline_opaques(
    cx: &Inliner,
    parent: &str,
    kind: ForeignKind,
    list: &Vec<(String, RefOr<String>)>,
) -> (res: Result<Vec<(String, RefOr<String>)>, InlineError>)
    ensures
        crate::model::agrees(
            res,
            inlined_opaques(cx.deep_view(), parent@, kind, list.deep_view(), Seq::empty()),
        ),
{
    let ghost goal = inlined_opaques(cx.deep_view(), parent@, kind, list.deep_view(), Seq::empty());
    let mut out: Vec<(String, RefOr<String>)> = Vec::new();
    let mut i: usize = 0;
    proof {
        assert(out.deep_view() =~= Seq::empty());
        assert(list.deep_view().skip(0) =~= list.deep_view());
    }
    while i < list.len()
        invariant
            i <= list.len(),
            goal == inlined_opaques(
                cx.deep_view(),
                parent@,
                kind,
                list.deep_view().skip(i as int),
                out.deep_view(),
            ),
        decreases list.len() - i,
    {
        proof {
            let rest = list.deep_view().skip(i as int);
            assert(rest[0] == list[i as int].deep_view());
            assert(rest.drop_first() =~= list.deep_view().skip(i as int + 1));
        }
        let made = match inline_opaque(cx, parent, kind, &list[i].1) {
            Err(e) => {
                return Err(e);
            },
            Ok(made) => made,
        };
        push_item(&mut out, (list[i].0.clone(), made));
        i += 1;
    }
    Ok(out)
}

/// Merges a schema of another document into the table of shared schemas: it
/// is shared under its own name where the name is free or the schema under it
/// is the very same, and stands in place otherwise.
pub fn merge_schema(table: &mut Vec<(String, SchemaRef)>, name: &str, schema: Schema) -> (r: SchemaRef)
    ensures
        (r.deep_view(), final(table).deep_view()) == merged(
            old(table).deep_view(),
            name@,
            schema.deep_view(),
        ),
        final(table).len() >= old(table).len(),
{
    let k = find_key(table, name);
    let item = SchemaRef::Item(schema);
    if k >= table.len() {
        push_item(table, (String::from_str(name), item));
        SchemaRef::Reference(concat2("#/components/schemas/", name))
    } else {
        assert(table.deep_view()[k as int].1 == table[k as int].1.deep_view());
        if schema_ref_eq(&table[k].1, &item) {
            SchemaRef::Reference(concat2("#/components/schemas/", name))
        } else {
            item
        }
    }
}

/// Inlines the schema at a place where a schema or a reference stands, in the
/// document `parent`. A reference into another document is replaced: its
/// target is inlined in turn and merged into the table of shared schemas. A
/// reference that leads into the root document becomes, or stays, a local
/// reference.
pub fn inline_reference_or_schema(
    cx: &Inliner,
    visiting: &mut Vec<bool>,
    parent: &str,
    table: &mut Vec<(String, SchemaRef)>,
    r: &SchemaRef,
) -> (res: Result<SchemaRef, InlineError>)
    ensures
        inlined(
            res,
            final(table).deep_view(),
            old(visiting)@,
            final(visiting)@,
            inlined_ref(
                cx.deep_view(),
                old(visiting)@,
                parent@,
                old(table).deep_view(),
                r.deep_view(),
            ),
        ),
        final(table).len() >= old(table).len(),
    decreases unvisited(old(visiting)@), 1nat, r, 1nat,
{
    match r {
        SchemaRef::Item(schema) => {
            match inline_schema(cx, visiting, parent, table, schema) {
                Err(e) => Err(e),
                Ok(made) => Ok(SchemaRef::Item(made)),
            }
        },
        SchemaRef::Reference(reference) => {
            let k = find_entry(cx.foreign, parent, reference.as_str());
            if k >= cx.foreign.len() || k >= visiting.len() {
                return Err(
                    InlineError::Unresolved {
                        referrer: String::from_str(parent),
                        reference: reference.clone(),
                        kind: ForeignKind::Schema,
                    },
                );
            }
            assert(cx.foreign.deep_view()[k as int] == cx.foreign[k as int].deep_view());
            let entry = &cx.foreign[k];
            match &entry.item {
                ForeignItem::Schema(target) => {
                    if str_eq(entry.doc_path.as_str(), cx.root) {
                        return Ok(SchemaRef::Reference(concat2("#/", entry.rel_ref.as_str())));
                    }
                    if visiting[k] {
                        return Err(
                            InlineError::Cyclic {
                                referrer: String::from_str(parent),
                                reference: reference.clone(),
                            },
                        );
                    }
                    let ghost before = visiting@;
                    proof {
                        lemma_unvisited_enter(before, k as int);
                    }
                    visiting.set(k, true);
                    match inline_schema(cx, visiting, entry.doc_path.as_str(), table, target) {
                        Err(e) => Err(e),
                        Ok(made) => {
                            visiting.set(k, false);
                            assert(visiting@ =~= before);
                            Ok(merge_schema(table, entry.name.as_str(), made))
                        },
                    }
                },
                _ => Err(
                    InlineError::WrongKind {
                        referrer: String::from_str(parent),
                        reference: reference.clone(),
                    },
                ),
            }
        },
    }
}

/// Inlines a list of schemas or references.
#[verifier::loop_isolation(false)]
pub fn inline_schema_refs(
    cx: &Inliner,
    visiting: &mut Vec<bool>,
    parent: &str,
    table: &mut Vec<(String, SchemaRef)>,
    list: &Vec<SchemaRef>,
) -> (res: Result<Vec<SchemaRef>, InlineError>)
    ensures
        inlined(
            res,
            final(table).deep_view(),
            old(visiting)@,
            final(visiting)@,
            inlined_refs(
                cx.deep_view(),
                old(visiting)@,
                parent@,
                old(table).deep_view(),
                list.deep_view(),
                Seq::empty(),
            ),
        ),
        final(table).len() >= old(table).len(),
    decreases unvisited(old(visiting)@), 1nat, list, 0nat,
{
    let ghost goal = inlined_refs(
        cx.deep_view(),
        visiting@,
        parent@,
        table.deep_view(),
        list.deep_view(),
        Seq::empty(),
    );
    let ghost flags = visiting@;
    let mut out: Vec<SchemaRef> = Vec::new();
    let mut i: usize = 0;
    proof {
        assert(out.deep_view() =~= Seq::empty());
        assert(list.deep_view().skip(0) =~= list.deep_view());
    }
    while i < list.len()
        invariant
            i <= list.len(),
            visiting@ == flags,
            table.len() >= old(table).len(),
            goal == inlined_refs(
                cx.deep_view(),
                flags,
                parent@,
                table.deep_view(),
                list.deep_view().skip(i as int),
                out.deep_view(),
            ),
        decreases list.len() - i,
    {
        proof {
            let rest = list.deep_view().skip(i as int);
            assert(rest[0] == list.deep_view()[i as int]);
            assert(rest.drop_first() =~= list.deep_view().skip(i as int + 1));
            assert(decreases_to!(*list => list[i as int]));
        }
        let made = match inline_reference_or_schema(cx, visiting, parent, table, &list[i]) {
            Err(e) => {
                return Err(e);
            },
            Ok(made) => made,
        };
        push_item(&mut out, made);
        i += 1;
    }
    Ok(out)
}

/// Inlines a list of named schemas or references.
#[verifier::loop_isolation(false)]
pub fn inline_properties(
    cx: &Inliner,
    visiting: &mut Vec<bool>,
    parent: &str,
    table: &mut Vec<(String, SchemaRef)>,
    list: &Vec<(String, SchemaRef)>,
) -> (res: Result<Vec<(String, SchemaRef)>, InlineError>)
    ensures
        inlined(
            res,
            final(table).deep_view(),
            old(visiting)@,
            final(visiting)@,
            inlined_properties(
                cx.deep_view(),
                old(visiting)@,
                parent@,
                old(table).deep_view(),
                list.deep_view(),
                Seq::empty(),
            ),
        ),
        final(table).len() >= old(table).len(),
    decreases unvisited(old(visiting)@), 1nat, list, 0nat,
{
    let ghost goal = inlined_properties(
        cx.deep_view(),
        visiting@,
        parent@,
        table.deep_view(),
        list.deep_view(),
        Seq::empty(),
    );
    let ghost flags = visiting@;
    let mut out: Vec<(String, SchemaRef)> = Vec::new();
    let mut i: usize = 0;
    proof {
        assert(out.deep_view() =~= Seq::empty());
        assert(list.deep_view().skip(0) =~= list.deep_view());
    }
    while i < list.len()
        invariant
            i <= list.len(),
            visiting@ == flags,
            table.len() >= old(table).len(),
            goal == inlined_properties(
                cx.deep_view(),
                flags,
                parent@,
                table.deep_view(),
                list.deep_view().skip(i as int),
                out.deep_view(),
            ),
        decreases list.len() - i,
    {
        proof {
            let rest = list.deep_view().skip(i as int);
            assert(rest[0] == list.deep_view()[i as int]);
            assert(rest.drop_first() =~= list.deep_view().skip(i as int + 1));
            assert(decreases_to!(*list => list[i as int]));
            assert(decreases_to!(list[i as int] => list[i as int].1));
        }
        let made = match inline_reference_or_schema(cx, visiting, parent, table, &list[i].1) {
            Err(e) => {
                return Err(e);
            },
            Ok(made) => made,
        };
        push_item(&mut out, (list[i].0.clone(), made));
        i += 1;
    }
    Ok(out)
}

/// Inlines the schemas in the parts of a schema.
fn inline_kind(
    cx: &Inliner,
    visiting: &mut Vec<bool>,
    parent: &str,
    table: &mut Vec<(String, SchemaRef)>,
    kind: &SchemaKind,
) -> (res: Result<SchemaKind, InlineError>)
    ensures
        match inlined_kind(
            cx.deep_view(),
            old(visiting)@,
            parent@,
            old(table).deep_view(),
            schema_kind_view(*kind),
        ) {
            Ok((made, next)) => res is Ok && schema_kind_view(res->Ok_0) == made
                && final(table).deep_view() == next && final(visiting)@ == old(visiting)@,
            Err(e) => res is Err && res->Err_0.deep_view() == e,
        },
        final(table).len() >= old(table).len(),
    decreases unvisited(old(visiting)@), 1nat, kind, 0nat,
{
    match kind {
        SchemaKind::Object { properties, required, additional } => {
            proof {
                lemma_properties_view(*properties);
            }
            let made = match inline_properties(cx, visiting, parent, table, properties) {
                Err(e) => {
                    return Err(e);
                },
                Ok(made) => made,
            };
            proof {
                lemma_properties_view(made);
            }
            let extra = match additional {
                Additional::Schema(inner) => {
                    match inline_reference_or_schema(cx, visiting, parent, table, &**inner) {
                        Err(e) => {
                            return Err(e);
                        },
                        Ok(extra) => Additional::Schema(Box::new(extra)),
                    }
                },
                other => copy_additional(other),
            };
            Ok(
                SchemaKind::Object {
                    properties: made,
                    required: copy_strings(required),
                    additional: extra,
                },
            )
        },
        SchemaKind::Array { items, unique_items } => {
            match items {
                Some(inner) => {
                    match inline_reference_or_schema(cx, visiting, parent, table, &**inner) {
                        Err(e) => Err(e),
                        Ok(made) => Ok(
                            SchemaKind::Array {
                                items: Some(Box::new(made)),
                                unique_items: *unique_items,
                            },
                        ),
                    }
                },
                None => Ok(SchemaKind::Array { items: None, unique_items: *unique_items }),
            }
        },
        SchemaKind::OneOf(list) => {
            proof {
                lemma_refs_view(*list);
            }
            match inline_schema_refs(cx, visiting, parent, table, list) {
                Err(e) => Err(e),
                Ok(made) => {
                    proof {
                        lemma_refs_view(made);
                    }
                    Ok(SchemaKind::OneOf(made))
                },
            }
        },
        SchemaKind::AllOf(list) => {
            proof {
                lemma_refs_view(*list);
            }
            match inline_schema_refs(cx, visiting, parent, table, list) {
                Err(e) => Err(e),
                Ok(made) => {
                    proof {
                        lemma_refs_view(made);
                    }
                    Ok(SchemaKind::AllOf(made))
                },
            }
        },
        SchemaKind::AnyOf(list) => {
            proof {
                lemma_refs_view(*list);
            }
            match inline_schema_refs(cx, visiting, parent, table, list) {
                Err(e) => Err(e),
                Ok(made) => {
                    proof {
                        lemma_refs_view(made);
                    }
                    Ok(SchemaKind::AnyOf(made))
                },
            }
        },
        SchemaKind::Not(inner) => {
            match inline_reference_or_schema(cx, visiting, parent, table, &**inner) {
                Err(e) => Err(e),
                Ok(made) => Ok(SchemaKind::Not(Box::new(made))),
            }
        },
        SchemaKind::String { format, enumeration } => Ok(
            SchemaKind::String {
                format: copy_text(format),
                enumeration: copy_literals(enumeration),
            },
        ),
        SchemaKind::Integer { format, enumeration } => Ok(
            SchemaKind::Integer {
                format: copy_text(format),
                enumeration: copy_literals(enumeration),
            },
        ),
        SchemaKind::Number { format, enumeration } => Ok(
            SchemaKind::Number {
                format: copy_text(format),
                enumeration: copy_literals(enumeration),
            },
        ),
        SchemaKind::Boolean { enumeration } => Ok(
            SchemaKind::Boolean { enumeration: copy_literals(enumeration) },
        ),
        SchemaKind::Any { trivial } => Ok(SchemaKind::Any { trivial: *trivial }),
    }
}

/// Inlines one reference of the mapping of a discriminator, which must come
/// out as a reference.
fn inline_mapped(
    cx: &Inliner,
    visiting: &mut Vec<bool>,
    parent: &str,
    table: &mut Vec<(String, SchemaRef)>,
    reference: &str,
) -> (res: Result<String, InlineError>)
    ensures
        inlined(
            res,
            final(table).deep_view(),
            old(visiting)@,
            final(visiting)@,
            inlined_mapped(
                cx.deep_view(),
                old(visiting)@,
                parent@,
                old(table).deep_view(),
                reference@,
            ),
        ),
        final(table).len() >= old(table).len(),
    decreases unvisited(old(visiting)@), 0nat, reference@, 0nat,
{
    let k = find_entry(cx.foreign, parent, reference);
    if k >= cx.foreign.len() || k >= visiting.len() {
        return Err(
            InlineError::Unresolved {
                referrer: String::from_str(parent),
                reference: String::from_str(reference),
                kind: ForeignKind::Schema,
            },
        );
    }
    assert(cx.foreign.deep_view()[k as int] == cx.foreign[k as int].deep_view());
    let entry = &cx.foreign[k];
    match &entry.item {
        ForeignItem::Schema(target) => {
            if str_eq(entry.doc_path.as_str(), cx.root) {
                return Ok(concat2("#/", entry.rel_ref.as_str()));
            }
            if visiting[k] {
                return Err(
                    InlineError::Cyclic {
                        referrer: String::from_str(parent),
                        reference: String::from_str(reference),
                    },
                );
            }
            let ghost before = visiting@;
            proof {
                lemma_unvisited_enter(before, k as int);
            }
            visiting.set(k, true);
            match inline_schema(cx, visiting, entry.doc_path.as_str(), table, target) {
                Err(e) => Err(e),
                Ok(made) => {
                    visiting.set(k, false);
                    assert(visiting@ =~= before);
                    match merge_schema(table, entry.name.as_str(), made) {
                        SchemaRef::Reference(local) => Ok(local),
                        SchemaRef::Item(_) => Err(
                            InlineError::MappingInlined { reference: String::from_str(reference) },
                        ),
                    }
                },
            }
        },
        _ => Err(
            InlineError::WrongKind {
                referrer: String::from_str(parent),
                reference: String::from_str(reference),
            },
        ),
    }
}

/// Inlines the mapping of a discriminator.
#[verifier::loop_isolation(false)]
fn inline_mapping(
    cx: &Inliner,
    visiting: &mut Vec<bool>,
    parent: &str,
    table: &mut Vec<(String, SchemaRef)>,
    mapping: &Vec<(String, String)>,
) -> (res: Result<Vec<(String, String)>, InlineError>)
    ensures
        inlined(
            res,
            final(table).deep_view(),
            old(visiting)@,
            final(visiting)@,
            inlined_mapping(
                cx.deep_view(),
                old(visiting)@,
                parent@,
                old(table).deep_view(),
                mapping.deep_view(),
                Seq::empty(),
            ),
        ),
        final(table).len() >= old(table).len(),
    decreases unvisited(old(visiting)@), 0nat, mapping.deep_view(), 0nat,
{
    let ghost goal = inlined_mapping(
        cx.deep_view(),
        visiting@,
        parent@,
        table.deep_view(),
        mapping.deep_view(),
        Seq::empty(),
    );
    let ghost flags = visiting@;
    let mut out: Vec<(String, String)> = Vec::new();
    let mut i: usize = 0;
    proof {
        assert(out.deep_view() =~= Seq::empty());
        assert(mapping.deep_view().skip(0) =~= mapping.deep_view());
    }
    while i < mapping.len()
        invariant
            i <= mapping.len(),
            visiting@ == flags,
            table.len() >= old(table).len(),
            goal == inlined_mapping(
                cx.deep_view(),
                flags,
                parent@,
                table.deep_view(),
                mapping.deep_view().skip(i as int),
                out.deep_view(),
            ),
        decreases mapping.len() - i,
    {
        proof {
            let rest = mapping.deep_view().skip(i as int);
            assert(rest[0] == mapping.deep_view()[i as int]);
            assert(rest.drop_first() =~= mapping.deep_view().skip(i as int + 1));
            assert(mapping.deep_view()[i as int].1 == mapping[i as int].1@);
            assert(decreases_to!(mapping.deep_view() => mapping.deep_view()[i as int]));
            assert(decreases_to!(mapping.deep_view()[i as int] => mapping.deep_view()[i as int].1));
        }
        let local = match inline_mapped(cx, visiting, parent, table, mapping[i].1.as_str()) {
            Err(e) => {
                return Err(e);
            },
            Ok(local) => local,
        };
        push_item(&mut out, (mapping[i].0.clone(), local));
        i += 1;
    }
    Ok(out)
}

/// Inlines the schemas in a schema that stands in the document `parent`:
/// those of its parts first, then those that the mapping of its discriminator
/// names.
pub fn inline_schema(
    cx: &Inliner,
    visiting: &mut Vec<bool>,
    parent: &str,
    table: &mut Vec<(String, SchemaRef)>,
    schema: &Schema,
) -> (res: Result<Schema, InlineError>)
    ensures
        inlined(
            res,
            final(table).deep_view(),
            old(visiting)@,
            final(visiting)@,
            inlined_schema(
                cx.deep_view(),
                old(visiting)@,
                parent@,
                old(table).deep_view(),
                schema.deep_view(),
            ),
        ),
        final(table).len() >= old(table).len(),
    decreases unvisited(old(visiting)@), 1nat, schema, 0nat,
{
    let kind = match inline_kind(cx, visiting, parent, table, &schema.kind) {
        Err(e) => {
            return Err(e);
        },
        Ok(kind) => kind,
    };
    let discriminator = match &schema.discriminator {
        None => None,
        Some(d) => {
            match inline_mapping(cx, visiting, parent, table, &d.mapping) {
                Err(e) => {
                    return Err(e);
                },
                Ok(mapping) => Some(
                    Discriminator { property_name: d.property_name.clone(), mapping },
                ),
            }
        },
    };
    Ok(
        Schema {
            description: copy_text(&schema.description),
            discriminator,
            kind,
            rest: schema.rest.clone(),
        },
    )
}

} // verus!
