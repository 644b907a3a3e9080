//! The gateway transformer, on schemas: the gateway does not know
//! discriminators, so each is taken out once the property it names is
//! required.
use vstd::prelude::*;
use vstd::string::*;
use crate::copy::{copy_additional, copy_literals, copy_strings};
use crate::gateway_spec::{
    gateway_kind, gateway_properties, gateway_ref, gateway_refs, gateway_schema, with_required,
};
use crate::ir::{CompileError, CompileErrorKind};
use crate::model::{agrees, copy_text, error, lemma_properties_view, lemma_refs_view, push_item};
use crate::schema::{schema_kind_view, Additional, Schema, SchemaKind, SchemaRef};
use crate::table::find_key;
use crate::text::contains_str;

verus! {

/// Transforms a schema or reference: a reference stays as it is.
pub fn transform_schema_ref(r: &SchemaRef) -> (res: Result<SchemaRef, CompileError>)
    ensures
        agrees(res, gateway_ref(r.deep_view())),
    decreases r, 1nat,
{
    match r {
        SchemaRef::Reference(reference) => Ok(SchemaRef::Reference(reference.clone())),
        SchemaRef::Item(schema) => {
            match transform_schema(schema) {
                Err(e) => Err(e),
                Ok(made) => Ok(SchemaRef::Item(made)),
            }
        },
    }
}

/// Transforms a list of schemas or references.
#[verifier::loop_isolation(false)]
pub fn transform_schema_refs(list: &Vec<SchemaRef>) -> (res: Result<Vec<SchemaRef>, CompileError>)
    ensures
        agrees(res, gateway_refs(list.deep_view(), Seq::empty())),
    decreases list, 0nat,
{
    let mut out: Vec<SchemaRef> = Vec::new();
    let mut i: usize = 0;
    proof {
        assert(out.deep_view() =~= Seq::empty());
        assert(list.deep_view().skip(0) =~= list.deep_view());
    }
    while i < list.len()
        invariant
            i <= list.len(),
            gateway_refs(list.deep_view(), Seq::empty()) == gateway_refs(
                list.deep_view().skip(i as int),
                out.deep_view(),
            ),
        decreases list.len() - i,
    {
        proof {
            let rest = list.deep_view().skip(i as int);
            assert(rest[0] == list.deep_view()[i as int]);
            assert(rest.drop_first() =~= list.deep_view().skip(i as int + 1));
            assert(decreases_to!(*list => list[i as int]));
        }
        let made = match transform_schema_ref(&list[i]) {
            Err(e) => {
                return Err(e);
            },
            Ok(made) => made,
        };
        push_item(&mut out, made);
        i += 1;
    }
    Ok(out)
}

/// Transforms a list of named schemas or references.
#[verifier::loop_isolation(false)]
pub fn transform_properties(list: &Vec<(String, SchemaRef)>) -> (res: Result<
    Vec<(String, SchemaRef)>,
    CompileError,
>)
    ensures
        agrees(res, gateway_properties(list.deep_view(), Seq::empty())),
    decreases list, 0nat,
{
    let mut out: Vec<(String, SchemaRef)> = Vec::new();
    let mut i: usize = 0;
    proof {
        assert(out.deep_view() =~= Seq::empty());
        assert(list.deep_view().skip(0) =~= list.deep_view());
    }
    while i < list.len()
        invariant
            i <= list.len(),
            gateway_properties(list.deep_view(), Seq::empty()) == gateway_properties(
                list.deep_view().skip(i as int),
                out.deep_view(),
            ),
        decreases list.len() - i,
    {
        proof {
            let rest = list.deep_view().skip(i as int);
            assert(rest[0] == list.deep_view()[i as int]);
            assert(rest.drop_first() =~= list.deep_view().skip(i as int + 1));
            assert(decreases_to!(*list => list[i as int]));
            assert(decreases_to!(list[i as int] => list[i as int].1));
        }
        let made = match transform_schema_ref(&list[i].1) {
            Err(e) => {
                return Err(e);
            },
            Ok(made) => made,
        };
        push_item(&mut out, (list[i].0.clone(), made));
        i += 1;
    }
    Ok(out)
}

/// Transforms the parts of a schema.
fn transform_kind(kind: &SchemaKind) -> (res: Result<SchemaKind, CompileError>)
    ensures
        match gateway_kind(schema_kind_view(*kind)) {
            Ok(made) => res is Ok && schema_kind_view(res->Ok_0) == made,
            Err(e) => res is Err && res->Err_0.deep_view() == e,
        },
    decreases kind, 0nat,
{
    match kind {
        SchemaKind::Object { properties, required, additional } => {
            proof {
                lemma_properties_view(*properties);
            }
            let made = match transform_properties(properties) {
                Err(e) => {
                    return Err(e);
                },
                Ok(made) => made,
            };
            proof {
                lemma_properties_view(made);
            }
            let extra = match additional {
                Additional::Schema(inner) => {
                    match transform_schema_ref(&**inner) {
                        Err(e) => {
                            return Err(e);
                        },
                        Ok(extra) => Additional::Schema(Box::new(extra)),
                    }
                },
                other => copy_additional(other),
            };
            Ok(
                SchemaKind::Object {
                    properties: made,
                    required: copy_strings(required),
                    additional: extra,
                },
            )
        },
        SchemaKind::Array { items, unique_items } => {
            match items {
                Some(inner) => {
                    match transform_schema_ref(&**inner) {
                        Err(e) => Err(e),
                        Ok(made) => Ok(
                            SchemaKind::Array {
                                items: Some(Box::new(made)),
                                unique_items: *unique_items,
                            },
                        ),
                    }
                },
                None => Ok(SchemaKind::Array { items: None, unique_items: *unique_items }),
            }
        },
        SchemaKind::OneOf(list) => {
            proof {
                lemma_refs_view(*list);
            }
            match transform_schema_refs(list) {
                Err(e) => Err(e),
                Ok(made) => {
                    proof {
                        lemma_refs_view(made);
                    }
                    Ok(SchemaKind::OneOf(made))
                },
            }
        },
        SchemaKind::AllOf(list) => {
            proof {
                lemma_refs_view(*list);
            }
            match transform_schema_refs(list) {
                Err(e) => Err(e),
                Ok(made) => {
                    proof {
                        lemma_refs_view(made);
                    }
                    Ok(SchemaKind::AllOf(made))
                },
            }
        },
        SchemaKind::AnyOf(list) => {
            proof {
                lemma_refs_view(*list);
            }
            match transform_schema_refs(list) {
                Err(e) => Err(e),
                Ok(made) => {
                    proof {
                        lemma_refs_view(made);
                    }
                    Ok(SchemaKind::AnyOf(made))
                },
            }
        },
        SchemaKind::Not(inner) => {
            match transform_schema_ref(&**inner) {
                Err(e) => Err(e),
                Ok(made) => Ok(SchemaKind::Not(Box::new(made))),
            }
        },
        SchemaKind::String { format, enumeration } => Ok(
            SchemaKind::String {
                format: copy_text(format),
                enumeration: copy_literals(enumeration),
            },
        ),
        SchemaKind::Integer { format, enumeration } => Ok(
            SchemaKind::Integer {
                format: copy_text(format),
                enumeration: copy_literals(enumeration),
            },
        ),
        SchemaKind::Number { format, enumeration } => Ok(
            SchemaKind::Number {
                format: copy_text(format),
                enumeration: copy_literals(enumeration),
            },
        ),
        SchemaKind::Boolean { enumeration } => Ok(
            SchemaKind::Boolean { enumeration: copy_literals(enumeration) },
        ),
        SchemaKind::Any { trivial } => Ok(SchemaKind::Any { trivial: *trivial }),
    }
}

/// Makes the property `name` of a discriminator required. The schema must be
/// an object that has the property; a composition or a schema without a type
/// is left as it is.
fn require_property(kind: SchemaKind, name: &str) -> (res: Result<SchemaKind, CompileError>)
    ensures
        match with_required(schema_kind_view(kind), name@) {
            Ok(made) => res is Ok && schema_kind_view(res->Ok_0) == made,
            Err(e) => res is Err && res->Err_0.deep_view() == e,
        },
{
    match kind {
        SchemaKind::Object { properties, required, additional } => {
            proof {
                lemma_properties_view(properties);
            }
            if find_key(&properties, name) >= properties.len() {
                return Err(error(CompileErrorKind::DiscriminatorProperty, name));
            }
            let mut required = required;
            if !contains_str(&required, name) {
                push_item(&mut required, String::from_str(name));
            }
            Ok(SchemaKind::Object { properties, required, additional })
        },
        SchemaKind::Array { .. } => Err(error(CompileErrorKind::DiscriminatorProperty, name)),
        SchemaKind::String { .. } => Err(error(CompileErrorKind::DiscriminatorProperty, name)),
        SchemaKind::Integer { .. } => Err(error(CompileErrorKind::DiscriminatorProperty, name)),
        SchemaKind::Number { .. } => Err(error(CompileErrorKind::DiscriminatorProperty, name)),
        SchemaKind::Boolean { .. } => Err(error(CompileErrorKind::DiscriminatorProperty, name)),
        other => Ok(other),
    }
}

/// Transforms a schema for the gateway: every schema in it is transformed,
/// the property that its discriminator names becomes required, and the
/// discriminator is taken out. A discriminator on an object without that
/// property, or on a schema that is neither an object nor a composition, is an
/// error.
pub fn transform_schema(schema: &Schema) -> (res: Result<Schema, CompileError>)
    ensures
        agrees(res, gateway_schema(schema.deep_view())),
    decreases schema, 0nat,
{
    let kind = match transform_kind(&schema.kind) {
        Err(e) => {
            return Err(e);
        },
        Ok(kind) => kind,
    };
    let kind = match &schema.discriminator {
        Some(d) => {
            match require_property(kind, d.property_name.as_str()) {
                Err(e) => {
                    return Err(e);
                },
                Ok(kind) => kind,
            }
        },
        None => kind,
    };
    Ok(
        Schema {
            description: copy_text(&schema.description),
            discriminator: None,
            kind,
            rest: schema.rest.clone(),
        },
    )
}

} // verus!
