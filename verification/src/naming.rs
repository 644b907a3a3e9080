//! The schema namer, on schemas.
use vstd::prelude::*;
use vstd::string::*;
use crate::copy::{copy_additional, copy_discriminator, copy_literals, copy_strings};
use crate::fresh::unique_name;
use crate::ir::{CompileError, CompileErrorKind, CompileErrorView};
use crate::model::{copy_text, error, lemma_properties_view, lemma_refs_view, push_item};
use crate::naming_spec::{
    named_branches, named_intersection, named_kind, named_properties, named_ref, named_schema,
    needs_name,
};
use crate::outside::to_pascal_case;
use crate::schema::{schema_kind_view, Additional, Schema, SchemaKind, SchemaRef};
use crate::text::concat2;

verus! {

/// Whether a call left what the mathematics gives: on success the value, and
/// the state after it.
pub open spec fn threaded<T: DeepView, S>(
    res: Result<T, CompileError>,
    after: S,
    expected: Result<(T::V, S), CompileErrorView>,
) -> bool {
    match expected {
        Ok((value, state)) => res is Ok && res->Ok_0.deep_view() == value && after == state,
        Err(e) => res is Err && res->Err_0.deep_view() == e,
    }
}

/// Whether a schema with these parts needs a named type.
pub fn kind_needs_name(kind: &SchemaKind) -> (r: bool)
    ensures
        r == needs_name(schema_kind_view(*kind)),
{
    match kind {
        SchemaKind::Object { properties, required, additional } => {
            proof {
                lemma_properties_view(*properties);
            }
            let map_only = match additional {
                Additional::Schema(_) => true,
                Additional::Any(allowed) => *allowed,
                Additional::Absent => false,
            };
            properties.len() > 0 || !map_only
        },
        SchemaKind::Array { .. } => false,
        SchemaKind::String { format, enumeration } => enumeration.len() > 0,
        SchemaKind::Integer { format, enumeration } => enumeration.len() > 0,
        SchemaKind::Number { format, enumeration } => enumeration.len() > 0,
        SchemaKind::Boolean { enumeration } => enumeration.len() > 0,
        SchemaKind::OneOf(_) => true,
        SchemaKind::AnyOf(_) => true,
        SchemaKind::AllOf(_) => true,
        SchemaKind::Not(_) => false,
        SchemaKind::Any { .. } => false,
    }
}

/// Names the schema at a place where a schema without a name may stand. A
/// schema that needs a named type is moved to the table under the naming
/// context, or under the context with the first number from 2 on that is
/// free, and a reference to it is left.
pub fn visit_unnamed_schema(table: &mut Vec<(String, SchemaRef)>, r: &SchemaRef, context: &str) -> (res:
    Result<SchemaRef, CompileError>)
    ensures
        threaded(
            res,
            final(table).deep_view(),
            named_ref(old(table).deep_view(), r.deep_view(), context@),
        ),
        final(table).len() >= old(table).len(),
    decreases r, 1nat,
{
    match r {
        SchemaRef::Reference(reference) => Ok(SchemaRef::Reference(reference.clone())),
        SchemaRef::Item(schema) => {
            let made = match visit_schema(table, schema, context) {
                Err(e) => {
                    return Err(e);
                },
                Ok(made) => made,
            };
            if kind_needs_name(&schema.kind) {
                let name = unique_name(table, context);
                let reference = concat2("#/components/schemas/", name.as_str());
                push_item(table, (name, SchemaRef::Item(made)));
                Ok(SchemaRef::Reference(reference))
            } else {
                Ok(SchemaRef::Item(made))
            }
        },
    }
}

/// Names the properties of an object.
#[verifier::loop_isolation(false)]
pub fn visit_properties(
    table: &mut Vec<(String, SchemaRef)>,
    list: &Vec<(String, SchemaRef)>,
    context: &str,
) -> (res: Result<Vec<(String, SchemaRef)>, CompileError>)
    ensures
        threaded(
            res,
            final(table).deep_view(),
            named_properties(old(table).deep_view(), list.deep_view(), context@, Seq::empty()),
        ),
        final(table).len() >= old(table).len(),
    decreases list, 0nat,
{
    let ghost goal = named_properties(table.deep_view(), list.deep_view(), context@, Seq::empty());
    let mut out: Vec<(String, SchemaRef)> = Vec::new();
    let mut i: usize = 0;
    proof {
        assert(out.deep_view() =~= Seq::empty());
        assert(list.deep_view().skip(0) =~= list.deep_view());
    }
    while i < list.len()
        invariant
            i <= list.len(),
            table.len() >= old(table).len(),
            goal == named_properties(
                table.deep_view(),
                list.deep_view().skip(i as int),
                context@,
                out.deep_view(),
            ),
        decreases list.len() - i,
    {
        proof {
            let rest = list.deep_view().skip(i as int);
            assert(rest[0] == list.deep_view()[i as int]);
            assert(rest.drop_first() =~= list.deep_view().skip(i as int + 1));
            assert(decreases_to!(*list => list[i as int]));
            assert(decreases_to!(list[i as int] => list[i as int].1));
        }
        let pascal = to_pascal_case(list[i].0.as_str());
        let inner = concat2(context, pascal.as_str());
        let made = match visit_unnamed_schema(table, &list[i].1, inner.as_str()) {
            Err(e) => {
                return Err(e);
            },
            Ok(made) => made,
        };
        push_item(&mut out, (list[i].0.clone(), made));
        i += 1;
    }
    Ok(out)
}

/// Names the branches of a union, all in one context.
#[verifier::loop_isolation(false)]
pub fn visit_branches(table: &mut Vec<(String, SchemaRef)>, list: &Vec<SchemaRef>, context: &str) -> (res:
    Result<Vec<SchemaRef>, CompileError>)
    ensures
        threaded(
            res,
            final(table).deep_view(),
            named_branches(old(table).deep_view(), list.deep_view(), context@, Seq::empty()),
        ),
        final(table).len() >= old(table).len(),
    decreases list, 0nat,
{
    let ghost goal = named_branches(table.deep_view(), list.deep_view(), context@, Seq::empty());
    let mut out: Vec<SchemaRef> = Vec::new();
    let mut i: usize = 0;
    proof {
        assert(out.deep_view() =~= Seq::empty());
        assert(list.deep_view().skip(0) =~= list.deep_view());
    }
    while i < list.len()
        invariant
            i <= list.len(),
            table.len() >= old(table).len(),
            goal == named_branches(
                table.deep_view(),
                list.deep_view().skip(i as int),
                context@,
                out.deep_view(),
            ),
        decreases list.len() - i,
    {
        proof {
            let rest = list.deep_view().skip(i as int);
            assert(rest[0] == list.deep_view()[i as int]);
            assert(rest.drop_first() =~= list.deep_view().skip(i as int + 1));
            assert(decreases_to!(*list => list[i as int]));
        }
        let made = match visit_unnamed_schema(table, &list[i], context) {
            Err(e) => {
                return Err(e);
            },
            Ok(made) => made,
        };
        push_item(&mut out, made);
        i += 1;
    }
    Ok(out)
}

/// Names the schemas in the branches of an intersection; the branches stay.
#[verifier::loop_isolation(false)]
pub fn visit_intersection(table: &mut Vec<(String, SchemaRef)>, list: &Vec<SchemaRef>, context: &str) -> (res:
    Result<Vec<SchemaRef>, CompileError>)
    ensures
        threaded(
            res,
            final(table).deep_view(),
            named_intersection(old(table).deep_view(), list.deep_view(), context@, Seq::empty()),
        ),
        final(table).len() >= old(table).len(),
    decreases list, 0nat,
{
    let ghost goal = named_intersection(table.deep_view(), list.deep_view(), context@, Seq::empty());
    let mut out: Vec<SchemaRef> = Vec::new();
    let mut i: usize = 0;
    proof {
        assert(out.deep_view() =~= Seq::empty());
        assert(list.deep_view().skip(0) =~= list.deep_view());
    }
    while i < list.len()
        invariant
            i <= list.len(),
            table.len() >= old(table).len(),
            goal == named_intersection(
                table.deep_view(),
                list.deep_view().skip(i as int),
                context@,
                out.deep_view(),
            ),
        decreases list.len() - i,
    {
        proof {
            let rest = list.deep_view().skip(i as int);
            assert(rest[0] == list.deep_view()[i as int]);
            assert(rest.drop_first() =~= list.deep_view().skip(i as int + 1));
            assert(decreases_to!(*list => list[i as int]));
        }
        let made = match &list[i] {
            SchemaRef::Reference(reference) => SchemaRef::Reference(reference.clone()),
            SchemaRef::Item(schema) => {
                match visit_schema(table, schema, context) {
                    Err(e) => {
                        return Err(e);
                    },
                    Ok(made) => SchemaRef::Item(made),
                }
            },
        };
        push_item(&mut out, made);
        i += 1;
    }
    Ok(out)
}

/// Names the schemas in the parts of a schema.
fn visit_kind(table: &mut Vec<(String, SchemaRef)>, kind: &SchemaKind, context: &str) -> (res: Result<
    SchemaKind,
    CompileError,
>)
    ensures
        match named_kind(old(table).deep_view(), schema_kind_view(*kind), context@) {
            Ok((made, next)) => res is Ok && schema_kind_view(res->Ok_0) == made
                && final(table).deep_view() == next,
            Err(e) => res is Err && res->Err_0.deep_view() == e,
        },
        final(table).len() >= old(table).len(),
    decreases kind, 0nat,
{
    match kind {
        SchemaKind::Object { properties, required, additional } => {
            proof {
                lemma_properties_view(*properties);
            }
            let made = match visit_properties(table, properties, context) {
                Err(e) => {
                    return Err(e);
                },
                Ok(made) => made,
            };
            proof {
                lemma_properties_view(made);
            }
            let extra = match additional {
                Additional::Schema(inner) => {
                    let inner_context = concat2(context, "Value");
                    match visit_unnamed_schema(table, &**inner, inner_context.as_str()) {
                        Err(e) => {
                            return Err(e);
                        },
                        Ok(extra) => Additional::Schema(Box::new(extra)),
                    }
                },
                other => copy_additional(other),
            };
            Ok(
                SchemaKind::Object {
                    properties: made,
                    required: copy_strings(required),
                    additional: extra,
                },
            )
        },
        SchemaKind::Array { items, unique_items } => {
            match items {
                Some(inner) => {
                    let inner_context = concat2(context, "Item");
                    match visit_unnamed_schema(table, &**inner, inner_context.as_str()) {
                        Err(e) => Err(e),
                        Ok(made) => Ok(
                            SchemaKind::Array {
                                items: Some(Box::new(made)),
                                unique_items: *unique_items,
                            },
                        ),
                    }
                },
                None => Ok(SchemaKind::Array { items: None, unique_items: *unique_items }),
            }
        },
        SchemaKind::OneOf(list) => {
            proof {
                lemma_refs_view(*list);
            }
            let inner_context = concat2(context, "OneOf");
            match visit_branches(table, list, inner_context.as_str()) {
                Err(e) => Err(e),
                Ok(made) => {
                    proof {
                        lemma_refs_view(made);
                    }
                    Ok(SchemaKind::OneOf(made))
                },
            }
        },
        SchemaKind::AnyOf(list) => {
            proof {
                lemma_refs_view(*list);
            }
            let inner_context = concat2(context, "AnyOf");
            match visit_branches(table, list, inner_context.as_str()) {
                Err(e) => Err(e),
                Ok(made) => {
                    proof {
                        lemma_refs_view(made);
                    }
                    Ok(SchemaKind::AnyOf(made))
                },
            }
        },
        SchemaKind::AllOf(list) => {
            proof {
                lemma_refs_view(*list);
            }
            match visit_intersection(table, list, context) {
                Err(e) => Err(e),
                Ok(made) => {
                    proof {
                        lemma_refs_view(made);
                    }
                    Ok(SchemaKind::AllOf(made))
                },
            }
        },
        SchemaKind::Not(_) => Err(error(CompileErrorKind::Not, context)),
        SchemaKind::Any { trivial } => {
            if *trivial {
                Ok(SchemaKind::Any { trivial: true })
            } else {
                Err(error(CompileErrorKind::FreeForm, context))
            }
        },
        SchemaKind::String { format, enumeration } => Ok(
            SchemaKind::String {
                format: copy_text(format),
                enumeration: copy_literals(enumeration),
            },
        ),
        SchemaKind::Integer { format, enumeration } => Ok(
            SchemaKind::Integer {
                format: copy_text(format),
                enumeration: copy_literals(enumeration),
            },
        ),
        SchemaKind::Number { format, enumeration } => Ok(
            SchemaKind::Number {
                format: copy_text(format),
                enumeration: copy_literals(enumeration),
            },
        ),
        SchemaKind::Boolean { enumeration } => Ok(
            SchemaKind::Boolean { enumeration: copy_literals(enumeration) },
        ),
    }
}

/// Names the schemas in a schema. Each is named in the context of the schema
/// followed by what tells its place: the name of the property, `Value` for
/// additional properties, `Item` for the items of an array, `OneOf` or `AnyOf`
/// for the branches of a union. `not` and free-form schemas that constrain
/// something are errors.
pub fn visit_schema(table: &mut Vec<(String, SchemaRef)>, schema: &Schema, context: &str) -> (res: Result<
    Schema,
    CompileError,
>)
    ensures
        threaded(
            res,
            final(table).deep_view(),
            named_schema(old(table).deep_view(), schema.deep_view(), context@),
        ),
        final(table).len() >= old(table).len(),
    decreases schema, 0nat,
{
    match visit_kind(table, &schema.kind, context) {
        Err(e) => Err(e),
        Ok(kind) => Ok(
            Schema {
                description: copy_text(&schema.description),
                discriminator: copy_discriminator(&schema.discriminator),
                kind,
                rest: schema.rest.clone(),
            },
        ),
    }
}

} // verus!
