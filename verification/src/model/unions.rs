//! Unions: the variants of a `oneOf`, tagged by a discriminator or tried in order.
use vstd::prelude::*;
use vstd::string::*;
use crate::ir::{
    Body, CompileError, CompileErrorKind, CompiledKind, CompiledKindView, CompiledType, Variant,
};
use crate::model::intersections::generate_composed_object_struct_body;
use crate::model::objects::generate_object_struct_body;
use crate::model::{
    agrees, copy_text, enter, error, identifier, leave, lemma_properties_view, lemma_refs_view,
    model_identifier, outcome, push_item, reference_schema_name,
};
use crate::model_spec::{
    branch_names, checked_mapping, lemma_open_count_enter, named_variants, open_count,
    tag_value_of, tagged_union, untagged_variants, variant_body, variant_of,
};
use crate::outside::{in_progress, set_contains};
use crate::schema::{Additional, Discriminator, Schema, SchemaKind, SchemaRef};
use crate::table::find_key;
use crate::text::{contains_str, str_eq};
use indexmap::IndexSet;

verus! {

/// What a variant of a union holds: nothing for an object without properties
/// that allows no others, the body of the object or of the intersection
/// otherwise. The property named `tag` never becomes a field.
pub fn generate_enum_variant(
    table: &Vec<(String, SchemaRef)>,
    owner: &str,
    target: &Schema,
    tag: Option<&String>,
    models: &mut Vec<CompiledType>,
    stack: &mut IndexSet<String>,
) -> (res: Result<Body, CompileError>)
    ensures
        outcome(
            res,
            final(models).deep_view(),
            in_progress(*old(stack)),
            in_progress(*final(stack)),
            variant_body(
                table.deep_view(),
                owner@,
                target.deep_view(),
                tag.deep_view(),
                old(models).deep_view(),
                in_progress(*old(stack)),
            ),
        ),
    decreases open_count(table.deep_view(), in_progress(*old(stack))), 3nat, target, 0nat,
{
    match &target.kind {
        SchemaKind::Object { properties, required, additional } => {
            proof {
                lemma_properties_view(*properties);
            }
            let closed = match additional {
                Additional::Absent => true,
                Additional::Any(allowed) => !*allowed,
                Additional::Schema(_) => false,
            };
            if properties.len() == 0 && closed {
                Ok(Body::Unit)
            } else {
                generate_object_struct_body(table, &target.kind, tag, models, stack)
            }
        },
        SchemaKind::AllOf(inner) => {
            proof {
                lemma_refs_view(*inner);
            }
            generate_composed_object_struct_body(table, owner, inner, tag, models, stack)
        },
        _ => Err(error(CompileErrorKind::VariantShape, owner)),
    }
}

/// The variant of a union for the shared schema named `name`. In a tagged
/// union `tag_value` selects it, and the variant is renamed to that value
/// where its identifier differs from it.
pub fn generate_variant(
    table: &Vec<(String, SchemaRef)>,
    owner: &str,
    tag_value: Option<&String>,
    name: &str,
    tag: Option<&String>,
    models: &mut Vec<CompiledType>,
    stack: &mut IndexSet<String>,
) -> (res: Result<Variant, CompileError>)
    ensures
        outcome(
            res,
            final(models).deep_view(),
            in_progress(*old(stack)),
            in_progress(*final(stack)),
            variant_of(
                table.deep_view(),
                owner@,
                tag_value.deep_view(),
                name@,
                tag.deep_view(),
                old(models).deep_view(),
                in_progress(*old(stack)),
            ),
        ),
    decreases open_count(table.deep_view(), in_progress(*old(stack))), 0nat, name@, 0nat,
{
    let k = find_key(table, name);
    if k >= table.len() {
        return Err(error(CompileErrorKind::MissingSchema, name));
    }
    assert(table.deep_view()[k as int].1 == table[k as int].1.deep_view());
    match &table[k].1 {
        SchemaRef::Reference(_) => Err(error(CompileErrorKind::MissingSchema, name)),
        SchemaRef::Item(target) => {
            let ident = match model_identifier(name) {
                Err(e) => {
                    return Err(e);
                },
                Ok(ident) => ident,
            };
            if set_contains(stack, ident.as_str()) {
                return Err(error(CompileErrorKind::CyclicDependency, ident.as_str()));
            }
            let ghost before = in_progress(*stack);
            proof {
                lemma_open_count_enter(table.deep_view(), before, name@);
            }
            enter(stack, ident.clone());
            match generate_enum_variant(table, owner, target, tag, models, stack) {
                Err(e) => {
                    leave(stack, ident.as_str(), Ghost(before));
                    Err(e)
                },
                Ok(body) => {
                    leave(stack, ident.as_str(), Ghost(before));
                    let rename = match tag_value {
                        Some(value) => {
                            if str_eq(ident.as_str(), value.as_str()) {
                                None
                            } else {
                                Some(value.clone())
                            }
                        },
                        None => None,
                    };
                    Ok(
                        Variant {
                            ident,
                            rename,
                            description: copy_text(&target.description),
                            body,
                        },
                    )
                },
            }
        },
    }
}

/// The names of the shared schemas that the branches of a union refer to, each
/// once, in the order of their first branch. Every branch must be a reference
/// to a schema of the table.
#[verifier::loop_isolation(false)]
pub fn variant_names(table: &Vec<(String, SchemaRef)>, owner: &str, branches: &Vec<SchemaRef>) -> (res:
    Result<Vec<String>, CompileError>)
    ensures
        agrees(res, branch_names(table.deep_view(), owner@, branches.deep_view(), Seq::empty())),
{
    let mut names: Vec<String> = Vec::new();
    let mut i: usize = 0;
    proof {
        assert(branches.deep_view().skip(0) =~= branches.deep_view());
        assert(names.deep_view() =~= Seq::empty());
    }
    while i < branches.len()
        invariant
            i <= branches.len(),
            branch_names(table.deep_view(), owner@, branches.deep_view(), Seq::empty())
                == branch_names(
                table.deep_view(),
                owner@,
                branches.deep_view().skip(i as int),
                names.deep_view(),
            ),
        decreases branches.len() - i,
    {
        proof {
            let rest = branches.deep_view().skip(i as int);
            assert(rest[0] == branches.deep_view()[i as int]);
            assert(rest.drop_first() =~= branches.deep_view().skip(i as int + 1));
        }
        match &branches[i] {
            SchemaRef::Item(_) => {
                return Err(error(CompileErrorKind::InlineVariant, owner));
            },
            SchemaRef::Reference(reference) => {
                let name = match reference_schema_name(reference.as_str()) {
                    Err(e) => {
                        return Err(e);
                    },
                    Ok(name) => name,
                };
                let k = find_key(table, name.as_str());
                if k >= table.len() {
                    return Err(error(CompileErrorKind::MissingSchema, reference.as_str()));
                }
                assert(table.deep_view()[k as int].1 == table[k as int].1.deep_view());
                match &table[k].1 {
                    SchemaRef::Reference(_) => {
                        return Err(error(CompileErrorKind::MissingSchema, reference.as_str()));
                    },
                    SchemaRef::Item(_) => {
                        if !contains_str(&names, name.as_str()) {
                            push_item(&mut names, name);
                        }
                    },
                }
            },
        }
        i += 1;
    }
    Ok(names)
}

/// Checks the mapping of a discriminator against the branches: every entry
/// must refer to a shared schema that is one of the branches.
#[verifier::loop_isolation(false)]
pub fn check_mapping(names: &Vec<String>, mapping: &Vec<(String, String)>) -> (res: Result<
    (),
    CompileError,
>)
    ensures
        agrees(res, checked_mapping(names.deep_view(), mapping.deep_view())),
{
    let ghost goal = checked_mapping(names.deep_view(), mapping.deep_view());
    let mut i: usize = 0;
    proof {
        assert(mapping.deep_view().skip(0) =~= mapping.deep_view());
    }
    while i < mapping.len()
        invariant
            i <= mapping.len(),
            goal == checked_mapping(names.deep_view(), mapping.deep_view().skip(i as int)),
        decreases mapping.len() - i,
    {
        proof {
            let rest = mapping.deep_view().skip(i as int);
            assert(rest[0] == mapping.deep_view()[i as int]);
            assert(rest.drop_first() =~= mapping.deep_view().skip(i as int + 1));
        }
        let name = match reference_schema_name(mapping[i].1.as_str()) {
            Err(e) => {
                return Err(e);
            },
            Ok(name) => name,
        };
        if !contains_str(names, name.as_str()) {
            return Err(error(CompileErrorKind::UnknownVariant, mapping[i].0.as_str()));
        }
        i += 1;
    }
    Ok(())
}

/// The value of the discriminator that selects the branch named `name`: the
/// key of the first entry of the mapping that refers to it, and the name
/// itself where no entry does.
#[verifier::loop_isolation(false)]
pub fn tag_value(mapping: &Vec<(String, String)>, name: &str) -> (r: String)
    ensures
        r@ == tag_value_of(mapping.deep_view(), name@),
{
    let ghost goal = tag_value_of(mapping.deep_view(), name@);
    let mut i: usize = 0;
    proof {
        assert(mapping.deep_view().skip(0) =~= mapping.deep_view());
    }
    while i < mapping.len()
        invariant
            i <= mapping.len(),
            goal == tag_value_of(mapping.deep_view().skip(i as int), name@),
        decreases mapping.len() - i,
    {
        proof {
            let rest = mapping.deep_view().skip(i as int);
            assert(rest[0] == mapping.deep_view()[i as int]);
            assert(rest.drop_first() =~= mapping.deep_view().skip(i as int + 1));
        }
        let names_it = match reference_schema_name(mapping[i].1.as_str()) {
            Err(_) => false,
            Ok(found) => str_eq(found.as_str(), name),
        };
        if names_it {
            return mapping[i].0.clone();
        }
        i += 1;
    }
    String::from_str(name)
}

/// The tagged union for a `oneOf` with a discriminator: one variant for each
/// branch, in the order of the branches. A branch is selected by the key
/// under which the discriminator's mapping refers to it, and by its own name
/// where the mapping does not name it.
#[verifier::loop_isolation(false)]
pub fn generate_tagged_enum_model(
    table: &Vec<(String, SchemaRef)>,
    owner: &str,
    branches: &Vec<SchemaRef>,
    discriminator: &Discriminator,
    models: &mut Vec<CompiledType>,
    stack: &mut IndexSet<String>,
) -> (res: Result<CompiledKind, CompileError>)
    ensures
        outcome(
            res,
            final(models).deep_view(),
            in_progress(*old(stack)),
            in_progress(*final(stack)),
            tagged_union(
                table.deep_view(),
                owner@,
                branches.deep_view(),
                discriminator.deep_view(),
                old(models).deep_view(),
                in_progress(*old(stack)),
            ),
        ),
    decreases open_count(table.deep_view(), in_progress(*old(stack))), 3nat, branches, 0nat,
{
    if discriminator.property_name.as_str().unicode_len() == 0 {
        return Err(error(CompileErrorKind::EmptyDiscriminator, owner));
    }
    let names = match variant_names(table, owner, branches) {
        Err(e) => {
            return Err(e);
        },
        Ok(names) => names,
    };
    let tag = &discriminator.property_name;
    let mapping = &discriminator.mapping;
    match check_mapping(&names, mapping) {
        Err(e) => {
            return Err(e);
        },
        Ok(()) => {},
    }
    let ghost stack0 = in_progress(*stack);
    let mut variants: Vec<Variant> = Vec::new();
    proof {
        assert(variants.deep_view() =~= Seq::empty());
        assert(names.deep_view().skip(0) =~= names.deep_view());
    }
    let ghost goal = named_variants(
        table.deep_view(),
        owner@,
        names.deep_view(),
        mapping.deep_view(),
        tag@,
        Seq::empty(),
        models.deep_view(),
        stack0,
    );
    let mut i: usize = 0;
    while i < names.len()
        invariant
            i <= names.len(),
            in_progress(*stack) == stack0,
            goal == named_variants(
                table.deep_view(),
                owner@,
                names.deep_view().skip(i as int),
                mapping.deep_view(),
                tag@,
                variants.deep_view(),
                models.deep_view(),
                stack0,
            ),
        decreases names.len() - i,
    {
        proof {
            let rest = names.deep_view().skip(i as int);
            assert(rest[0] == names.deep_view()[i as int]);
            assert(rest.drop_first() =~= names.deep_view().skip(i as int + 1));
        }
        let value = tag_value(mapping, names[i].as_str());
        let variant = match generate_variant(
            table,
            owner,
            Some(&value),
            names[i].as_str(),
            Some(tag),
            models,
            stack,
        ) {
            Err(e) => {
                return Err(e);
            },
            Ok(variant) => variant,
        };
        push_item(&mut variants, variant);
        i += 1;
    }
    Ok(CompiledKind::Tagged { tag: tag.clone(), variants })
}

/// The untagged union for a `oneOf` without a discriminator: one variant for
/// each branch, in the order in which they are declared.
#[verifier::loop_isolation(false)]
pub fn generate_untagged_enum_model(
    table: &Vec<(String, SchemaRef)>,
    owner: &str,
    branches: &Vec<SchemaRef>,
    models: &mut Vec<CompiledType>,
    stack: &mut IndexSet<String>,
) -> (res: Result<CompiledKind, CompileError>)
    ensures
        outcome(
            res,
            final(models).deep_view(),
            in_progress(*old(stack)),
            in_progress(*final(stack)),
            match untagged_variants(
                table.deep_view(),
                owner@,
                branches.deep_view(),
                Seq::empty(),
                old(models).deep_view(),
                in_progress(*old(stack)),
            ) {
                Err(e) => Err(e),
                Ok((variants, models1)) => Ok(
                    (CompiledKindView::Untagged(variants), models1),
                ),
            },
        ),
    decreases open_count(table.deep_view(), in_progress(*old(stack))), 3nat, branches, 0nat,
{
    let ghost stack0 = in_progress(*stack);
    let ghost goal = untagged_variants(
        table.deep_view(),
        owner@,
        branches.deep_view(),
        Seq::empty(),
        models.deep_view(),
        stack0,
    );
    let mut variants: Vec<Variant> = Vec::new();
    let mut i: usize = 0;
    proof {
        assert(variants.deep_view() =~= Seq::empty());
        assert(branches.deep_view().skip(0) =~= branches.deep_view());
    }
    while i < branches.len()
        invariant
            i <= branches.len(),
            in_progress(*stack) == stack0,
            goal == untagged_variants(
                table.deep_view(),
                owner@,
                branches.deep_view().skip(i as int),
                variants.deep_view(),
                models.deep_view(),
                stack0,
            ),
        decreases branches.len() - i,
    {
        proof {
            let rest = branches.deep_view().skip(i as int);
            assert(rest[0] == branches.deep_view()[i as int]);
            assert(rest.drop_first() =~= branches.deep_view().skip(i as int + 1));
        }
        match &branches[i] {
            SchemaRef::Item(_) => {
                return Err(error(CompileErrorKind::InlineVariant, owner));
            },
            SchemaRef::Reference(reference) => {
                let name = match reference_schema_name(reference.as_str()) {
                    Err(e) => {
                        return Err(e);
                    },
                    Ok(name) => name,
                };
                let variant = match generate_variant(
                    table,
                    owner,
                    None,
                    name.as_str(),
                    None,
                    models,
                    stack,
                ) {
                    Err(e) => {
                        return Err(e);
                    },
                    Ok(variant) => variant,
                };
                push_item(&mut variants, variant);
            },
        }
        i += 1;
    }
    Ok(CompiledKind::Untagged(variants))
}

} // verus!
