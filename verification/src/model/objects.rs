//! Objects: the fields of a struct and the map of extra fields beside them.
use vstd::prelude::*;
use vstd::string::*;
use crate::ir::{Body, CompileError, CompileErrorKind, CompiledType, Field, TypeExpr};
use crate::model::types::inline_ref_or_schema;
use crate::model::{identifier, lemma_properties_view, outcome, plain_error, push_item};
use crate::model_spec::{extra_type, fields_of, object_body, open_count};
use crate::outside::{in_progress, to_snake_case};
use crate::schema::{additional_view, schema_kind_view, Additional, Schema, SchemaKind, SchemaRef};
use crate::text::{contains_str, str_eq};
use indexmap::IndexSet;

verus! {

/// The fields for the properties of an object, appended to `fields`: one for
/// each property but the one named `tag`, in order. A field is required where
/// the object says so, and is renamed to the property's name where its
/// identifier differs from it.
#[verifier::loop_isolation(false)]
pub fn generate_object_struct_properties(
    table: &Vec<(String, SchemaRef)>,
    properties: &Vec<(String, SchemaRef)>,
    required: &Vec<String>,
    tag: Option<&String>,
    fields: Vec<Field>,
    models: &mut Vec<CompiledType>,
    stack: &mut IndexSet<String>,
) -> (res: Result<Vec<Field>, CompileError>)
    ensures
        outcome(
            res,
            final(models).deep_view(),
            in_progress(*old(stack)),
            in_progress(*final(stack)),
            fields_of(
                table.deep_view(),
                properties.deep_view(),
                required.deep_view(),
                tag.deep_view(),
                fields.deep_view(),
                old(models).deep_view(),
                in_progress(*old(stack)),
            ),
        ),
    decreases open_count(table.deep_view(), in_progress(*old(stack))), 3nat, properties, 0nat,
{
    let ghost goal = fields_of(
        table.deep_view(),
        properties.deep_view(),
        required.deep_view(),
        tag.deep_view(),
        fields.deep_view(),
        models.deep_view(),
        in_progress(*stack),
    );
    let ghost stack0 = in_progress(*stack);
    let mut out = fields;
    let mut i: usize = 0;
    proof {
        assert(properties.deep_view().skip(0) =~= properties.deep_view());
    }
    while i < properties.len()
        invariant
            i <= properties.len(),
            in_progress(*stack) == stack0,
            goal == fields_of(
                table.deep_view(),
                properties.deep_view().skip(i as int),
                required.deep_view(),
                tag.deep_view(),
                out.deep_view(),
                models.deep_view(),
                stack0,
            ),
        decreases properties.len() - i,
    {
        proof {
            let rest = properties.deep_view().skip(i as int);
            assert(rest[0] == properties.deep_view()[i as int]);
            assert(rest.drop_first() =~= properties.deep_view().skip(i as int + 1));
            assert(decreases_to!(*properties => properties[i as int]));
            assert(decreases_to!(properties[i as int] => properties[i as int].1));
        }
        let name = &properties[i].0;
        let skip = match tag {
            Some(t) => str_eq(t.as_str(), name.as_str()),
            None => false,
        };
        if !skip {
            let snake = to_snake_case(name.as_str());
            let ident = match identifier(snake.as_str()) {
                Err(e) => {
                    return Err(e);
                },
                Ok(ident) => ident,
            };
            let (ty, description) = match inline_ref_or_schema(
                table,
                &properties[i].1,
                models,
                stack,
                true,
            ) {
                Err(e) => {
                    return Err(e);
                },
                Ok(found) => found,
            };
            let rename = if str_eq(ident.as_str(), name.as_str()) {
                None
            } else {
                Some(name.clone())
            };
            let is_required = contains_str(required, name.as_str());
            push_item(
                &mut out,
                Field { ident, rename, ty, required: is_required, description },
            );
        }
        i += 1;
    }
    Ok(out)
}

/// The value type of the map of extra fields that `additional` asks for, if it
/// asks for one.
pub fn generate_object_struct_additional_properties_type(
    table: &Vec<(String, SchemaRef)>,
    additional: &Additional,
    models: &mut Vec<CompiledType>,
    stack: &mut IndexSet<String>,
) -> (res: Result<Option<TypeExpr>, CompileError>)
    ensures
        outcome(
            res,
            final(models).deep_view(),
            in_progress(*old(stack)),
            in_progress(*final(stack)),
            extra_type(
                table.deep_view(),
                additional_view(*additional),
                old(models).deep_view(),
                in_progress(*old(stack)),
            ),
        ),
    decreases open_count(table.deep_view(), in_progress(*old(stack))), 1nat, additional, 0nat,
{
    match additional {
        Additional::Absent => Ok(None),
        Additional::Any(allowed) => {
            if *allowed {
                Ok(Some(TypeExpr::AnyValue))
            } else {
                Ok(None)
            }
        },
        Additional::Schema(inner) => {
            match inline_ref_or_schema(table, &**inner, models, stack, true) {
                Err(e) => Err(e),
                Ok((t, _)) => Ok(Some(t)),
            }
        },
    }
}

/// The body of a struct for an object schema: its fields and, where the object
/// allows additional properties, one map of extra fields beside them. Without
/// fields, the map alone is the body.
pub fn generate_object_struct_body(
    table: &Vec<(String, SchemaRef)>,
    kind: &SchemaKind,
    tag: Option<&String>,
    models: &mut Vec<CompiledType>,
    stack: &mut IndexSet<String>,
) -> (res: Result<Body, CompileError>)
    ensures
        outcome(
            res,
            final(models).deep_view(),
            in_progress(*old(stack)),
            in_progress(*final(stack)),
            object_body(
                table.deep_view(),
                schema_kind_view(*kind),
                tag.deep_view(),
                old(models).deep_view(),
                in_progress(*old(stack)),
            ),
        ),
    decreases open_count(table.deep_view(), in_progress(*old(stack))), 3nat, kind, 0nat,
{
    match kind {
        SchemaKind::Object { properties, required, additional } => {
            proof {
                lemma_properties_view(*properties);
            }
            let start: Vec<Field> = Vec::new();
            assert(start.deep_view() =~= Seq::empty());
            let fields = match generate_object_struct_properties(
                table,
                properties,
                required,
                tag,
                start,
                models,
                stack,
            ) {
                Err(e) => {
                    return Err(e);
                },
                Ok(fields) => fields,
            };
            let extra = match generate_object_struct_additional_properties_type(
                table,
                additional,
                models,
                stack,
            ) {
                Err(e) => {
                    return Err(e);
                },
                Ok(extra) => extra,
            };
            if fields.len() == 0 {
                match extra {
                    Some(t) => Ok(Body::Extra(t)),
                    None => {
                        assert(fields.deep_view() =~= Seq::empty());
                        Ok(Body::Named { fields, extra: None })
                    },
                }
            } else {
                Ok(Body::Named { fields, extra })
            }
        },
        _ => Err(plain_error(CompileErrorKind::VariantShape)),
    }
}

} // verus!
