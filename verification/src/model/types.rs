//! Type expressions: what stands where a schema or a reference is used.
use vstd::prelude::*;
use vstd::string::*;
use crate::ir::{type_expr_view, CompileError, CompileErrorKind, CompiledType, TypeExpr};
use crate::model::{
    build_model, contains_model, copy_text, enter, error, inline_integer, inline_number,
    inline_string, leave, lemma_properties_view, model_identifier, outcome, plain_error, push_item,
    reference_schema_name,
};
use crate::model_spec::{lemma_open_count_enter, open_count, ref_type, type_in_place};
use crate::outside::{in_progress, set_contains};
use crate::schema::{Additional, Schema, SchemaKind, SchemaRef};
use crate::table::find_key;
use indexmap::IndexSet;

verus! {

/// The type that stands where `r` stands, and the description of the schema
/// there. A reference to a schema that has a model gives the model's name; a
/// reference to any other schema gives that schema's type in place. With
/// `generate`, a model that is missing is made first.
pub fn inline_ref_or_schema(
    table: &Vec<(String, SchemaRef)>,
    r: &SchemaRef,
    models: &mut Vec<CompiledType>,
    stack: &mut IndexSet<String>,
    generate: bool,
) -> (res: Result<(TypeExpr, Option<String>), CompileError>)
    ensures
        outcome(
            res,
            final(models).deep_view(),
            in_progress(*old(stack)),
            in_progress(*final(stack)),
            ref_type(
                table.deep_view(),
                r.deep_view(),
                old(models).deep_view(),
                in_progress(*old(stack)),
                generate,
            ),
        ),
    decreases open_count(table.deep_view(), in_progress(*old(stack))), 1nat, r, 0nat,
{
    match r {
        SchemaRef::Item(schema) => {
            match inline_type(table, schema, models, stack, generate) {
                Err(e) => Err(e),
                Ok(t) => Ok((t, copy_text(&schema.description))),
            }
        },
        SchemaRef::Reference(reference) => {
            let name = match reference_schema_name(reference.as_str()) {
                Err(e) => {
                    return Err(e);
                },
                Ok(name) => name,
            };
            let k = find_key(table, name.as_str());
            if k >= table.len() {
                return Err(error(CompileErrorKind::MissingSchema, reference.as_str()));
            }
            assert(table.deep_view()[k as int].1 == table[k as int].1.deep_view());
            match &table[k].1 {
                SchemaRef::Reference(_) => Err(
                    error(CompileErrorKind::ReferenceChain, reference.as_str()),
                ),
                SchemaRef::Item(target) => {
                    let ident = match model_identifier(name.as_str()) {
                        Err(e) => {
                            return Err(e);
                        },
                        Ok(ident) => ident,
                    };
                    if contains_model(models, ident.as_str()) {
                        return Ok((TypeExpr::Model(ident), copy_text(&target.description)));
                    }
                    if set_contains(stack, ident.as_str()) {
                        return Err(error(CompileErrorKind::CyclicDependency, ident.as_str()));
                    }
                    let ghost before = in_progress(*stack);
                    proof {
                        lemma_open_count_enter(table.deep_view(), before, name@);
                    }
                    enter(stack, ident.clone());
                    let built = if generate {
                        build_model(table, ident.as_str(), target, models, stack)
                    } else {
                        Ok(None)
                    };
                    match built {
                        Err(e) => {
                            leave(stack, ident.as_str(), Ghost(before));
                            Err(e)
                        },
                        Ok(Some(model)) => {
                            push_item(models, model);
                            leave(stack, ident.as_str(), Ghost(before));
                            Ok((TypeExpr::Model(ident), copy_text(&target.description)))
                        },
                        Ok(None) => {
                            match inline_type(table, target, models, stack, generate) {
                                Err(e) => {
                                    leave(stack, ident.as_str(), Ghost(before));
                                    Err(e)
                                },
                                Ok(t) => {
                                    leave(stack, ident.as_str(), Ghost(before));
                                    Ok((t, copy_text(&target.description)))
                                },
                            }
                        },
                    }
                },
            }
        },
    }
}

/// The type of a schema that stands in place. An object with properties, an
/// enumeration, a union or an intersection cannot: they need a name.
pub fn inline_type(
    table: &Vec<(String, SchemaRef)>,
    schema: &Schema,
    models: &mut Vec<CompiledType>,
    stack: &mut IndexSet<String>,
    generate: bool,
) -> (res: Result<TypeExpr, CompileError>)
    ensures
        outcome(
            res,
            final(models).deep_view(),
            in_progress(*old(stack)),
            in_progress(*final(stack)),
            type_in_place(
                table.deep_view(),
                schema.deep_view(),
                old(models).deep_view(),
                in_progress(*old(stack)),
                generate,
            ),
        ),
    decreases open_count(table.deep_view(), in_progress(*old(stack))), 1nat, schema, 0nat,
{
    proof {
        reveal_with_fuel(type_expr_view, 2);
    }
    match &schema.kind {
        SchemaKind::String { format, enumeration } => inline_string(format, enumeration),
        SchemaKind::Number { format, enumeration } => inline_number(format, enumeration),
        SchemaKind::Integer { format, enumeration } => inline_integer(format, enumeration),
        SchemaKind::Object { properties, required, additional } => {
            proof {
                lemma_properties_view(*properties);
            }
            if properties.len() > 0 {
                assert(properties.deep_view()[0].0 == properties[0].0@);
                return Err(error(CompileErrorKind::InlineObject, properties[0].0.as_str()));
            }
            match additional {
                Additional::Absent => Ok(TypeExpr::EmptyModel),
                Additional::Any(allowed) => {
                    if *allowed {
                        Ok(TypeExpr::MapOf(Box::new(TypeExpr::AnyValue)))
                    } else {
                        Ok(TypeExpr::EmptyModel)
                    }
                },
                Additional::Schema(inner) => {
                    match inline_ref_or_schema(table, &**inner, models, stack, generate) {
                        Err(e) => Err(e),
                        Ok((t, _)) => Ok(TypeExpr::MapOf(Box::new(t))),
                    }
                },
            }
        },
        SchemaKind::Array { items, unique_items } => {
            let item = match items {
                None => TypeExpr::AnyValue,
                Some(inner) => {
                    match inline_ref_or_schema(table, &**inner, models, stack, generate) {
                        Err(e) => {
                            return Err(e);
                        },
                        Ok((t, _)) => t,
                    }
                },
            };
            if *unique_items {
                Ok(TypeExpr::SetOf(Box::new(item)))
            } else {
                Ok(TypeExpr::ListOf(Box::new(item)))
            }
        },
        SchemaKind::Boolean { enumeration } => {
            if enumeration.len() > 0 {
                Err(plain_error(CompileErrorKind::InlineEnum))
            } else {
                Ok(TypeExpr::Bool)
            }
        },
        SchemaKind::OneOf(_) => Err(plain_error(CompileErrorKind::InlineComposite)),
        SchemaKind::AllOf(_) => Err(plain_error(CompileErrorKind::InlineComposite)),
        SchemaKind::AnyOf(_) => Err(plain_error(CompileErrorKind::InlineComposite)),
        SchemaKind::Not(_) => Err(plain_error(CompileErrorKind::InlineComposite)),
        SchemaKind::Any { trivial } => {
            if *trivial {
                Ok(TypeExpr::AnyValue)
            } else {
                Err(plain_error(CompileErrorKind::FreeForm))
            }
        },
    }
}

} // verus!
