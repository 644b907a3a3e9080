//! Intersections: the branches of an `allOf` gathered into one struct.
use vstd::prelude::*;
use vstd::string::*;
use crate::ir::{Body, CompileError, CompileErrorKind, CompiledType, Field};
use crate::model::objects::{
    generate_object_struct_additional_properties_type, generate_object_struct_properties,
};
use crate::model::{
    enter, error, leave, lemma_properties_view, lemma_refs_view, model_identifier, outcome,
    reference_schema_name,
};
use crate::model_spec::{
    composed_body, gather, gather_branch, lemma_open_count_enter, open_count, Gathered,
};
use crate::outside::{in_progress, set_contains};
use crate::schema::{additional_view, Additional, AdditionalView, SchemaKind, SchemaRef};
use crate::table::find_key;
use indexmap::IndexSet;

verus! {

/// What has been gathered from the branches of an intersection: the fields,
/// whether a branch spoke of additional properties, and what it said.
pub struct Parts<'a> {
    pub fields: Vec<Field>,
    pub spoken: bool,
    pub additional: Option<&'a Additional>,
}

impl<'a> DeepView for Parts<'a> {
    type V = Gathered;

    open spec fn deep_view(&self) -> Gathered {
        Gathered {
            fields: self.fields.deep_view(),
            spoken: self.spoken,
            additional: match self.additional {
                Some(additional) => additional_view(*additional),
                None => AdditionalView::Absent,
            },
        }
    }
}

/// Gathers the branches of an intersection into one list of fields, in order:
/// an object gives its fields, a nested intersection is gathered in turn, and
/// a reference stands for its target. Only one branch may speak of additional
/// properties.
#[verifier::loop_isolation(false)]
pub fn flatten_composed_object_components<'a>(
    table: &'a Vec<(String, SchemaRef)>,
    owner: &str,
    branches: &'a Vec<SchemaRef>,
    tag: Option<&String>,
    acc: Parts<'a>,
    models: &mut Vec<CompiledType>,
    stack: &mut IndexSet<String>,
) -> (res: Result<Parts<'a>, CompileError>)
    ensures
        outcome(
            res,
            final(models).deep_view(),
            in_progress(*old(stack)),
            in_progress(*final(stack)),
            gather(
                table.deep_view(),
                owner@,
                branches.deep_view(),
                tag.deep_view(),
                acc.deep_view(),
                old(models).deep_view(),
                in_progress(*old(stack)),
            ),
        ),
    decreases open_count(table.deep_view(), in_progress(*old(stack))), 3nat, branches, 0nat,
{
    let ghost goal = gather(
        table.deep_view(),
        owner@,
        branches.deep_view(),
        tag.deep_view(),
        acc.deep_view(),
        models.deep_view(),
        in_progress(*stack),
    );
    let ghost stack0 = in_progress(*stack);
    let mut out = acc;
    let mut i: usize = 0;
    proof {
        assert(branches.deep_view().skip(0) =~= branches.deep_view());
    }
    while i < branches.len()
        invariant
            i <= branches.len(),
            in_progress(*stack) == stack0,
            goal == gather(
                table.deep_view(),
                owner@,
                branches.deep_view().skip(i as int),
                tag.deep_view(),
                out.deep_view(),
                models.deep_view(),
                stack0,
            ),
        decreases branches.len() - i,
    {
        proof {
            let rest = branches.deep_view().skip(i as int);
            assert(rest[0] == branches.deep_view()[i as int]);
            assert(rest.drop_first() =~= branches.deep_view().skip(i as int + 1));
            assert(decreases_to!(*branches => branches[i as int]));
        }
        out = match gather_one(table, owner, &branches[i], tag, out, models, stack) {
            Err(e) => {
                return Err(e);
            },
            Ok(next) => next,
        };
        i += 1;
    }
    Ok(out)
}

/// Gathers one branch of an intersection: the fields of an object, the
/// branches of a nested intersection, or what the target of a reference gives.
pub fn gather_one<'a>(
    table: &'a Vec<(String, SchemaRef)>,
    owner: &str,
    branch: &'a SchemaRef,
    tag: Option<&String>,
    acc: Parts<'a>,
    models: &mut Vec<CompiledType>,
    stack: &mut IndexSet<String>,
) -> (res: Result<Parts<'a>, CompileError>)
    ensures
        outcome(
            res,
            final(models).deep_view(),
            in_progress(*old(stack)),
            in_progress(*final(stack)),
            gather_branch(
                table.deep_view(),
                owner@,
                branch.deep_view(),
                tag.deep_view(),
                acc.deep_view(),
                old(models).deep_view(),
                in_progress(*old(stack)),
            ),
        ),
    decreases open_count(table.deep_view(), in_progress(*old(stack))), 3nat, branch, 0nat,
{
    match branch {
        SchemaRef::Item(schema) => {
            match &schema.kind {
                SchemaKind::Object { properties, required, additional } => {
                    proof {
                        lemma_properties_view(*properties);
                    }
                    let Parts { fields, spoken, additional: said } = acc;
                    let fields = match generate_object_struct_properties(
                        table,
                        properties,
                        required,
                        tag,
                        fields,
                        models,
                        stack,
                    ) {
                        Err(e) => {
                            return Err(e);
                        },
                        Ok(fields) => fields,
                    };
                    let speaks = match additional {
                        Additional::Absent => false,
                        _ => true,
                    };
                    assert(speaks == !(additional_view(*additional) is Absent));
                    if spoken && speaks {
                        return Err(error(CompileErrorKind::ConflictingAdditional, owner));
                    }
                    Ok(
                        Parts {
                            fields,
                            spoken: spoken || speaks,
                            additional: if speaks {
                                Some(additional)
                            } else {
                                said
                            },
                        },
                    )
                },
                SchemaKind::AllOf(inner) => {
                    proof {
                        lemma_refs_view(*inner);
                    }
                    flatten_composed_object_components(table, owner, inner, tag, acc, models, stack)
                },
                _ => Err(error(CompileErrorKind::IntersectionBranch, owner)),
            }
        },
        SchemaRef::Reference(reference) => {
            let name = match reference_schema_name(reference.as_str()) {
                Err(e) => {
                    return Err(e);
                },
                Ok(name) => name,
            };
            let k = find_key(table, name.as_str());
            if k >= table.len() {
                return Err(error(CompileErrorKind::MissingSchema, reference.as_str()));
            }
            assert(table.deep_view()[k as int].1 == table[k as int].1.deep_view());
            let ident = match model_identifier(name.as_str()) {
                Err(e) => {
                    return Err(e);
                },
                Ok(ident) => ident,
            };
            if set_contains(stack, ident.as_str()) {
                return Err(error(CompileErrorKind::CyclicDependency, ident.as_str()));
            }
            let ghost before = in_progress(*stack);
            proof {
                lemma_open_count_enter(table.deep_view(), before, name@);
            }
            enter(stack, ident.clone());
            match gather_one(table, owner, &table[k].1, tag, acc, models, stack) {
                Err(e) => {
                    leave(stack, ident.as_str(), Ghost(before));
                    Err(e)
                },
                Ok(parts) => {
                    leave(stack, ident.as_str(), Ghost(before));
                    Ok(parts)
                },
            }
        },
    }
}

/// The body of a struct for an intersection: the fields of all its branches,
/// and last the map of extra fields that the one branch that speaks of
/// additional properties asks for.
pub fn generate_composed_object_struct_body(
    table: &Vec<(String, SchemaRef)>,
    owner: &str,
    branches: &Vec<SchemaRef>,
    tag: Option<&String>,
    models: &mut Vec<CompiledType>,
    stack: &mut IndexSet<String>,
) -> (res: Result<Body, CompileError>)
    ensures
        outcome(
            res,
            final(models).deep_view(),
            in_progress(*old(stack)),
            in_progress(*final(stack)),
            composed_body(
                table.deep_view(),
                owner@,
                branches.deep_view(),
                tag.deep_view(),
                old(models).deep_view(),
                in_progress(*old(stack)),
            ),
        ),
    decreases open_count(table.deep_view(), in_progress(*old(stack))), 3nat, branches, 1nat,
{
    let start = Parts { fields: Vec::new(), spoken: false, additional: None };
    assert(start.fields.deep_view() =~= Seq::empty());
    let parts = match flatten_composed_object_components(
        table,
        owner,
        branches,
        tag,
        start,
        models,
        stack,
    ) {
        Err(e) => {
            return Err(e);
        },
        Ok(parts) => parts,
    };
    let extra = match parts.additional {
        None => None,
        Some(additional) => {
            match generate_object_struct_additional_properties_type(
                table,
                additional,
                models,
                stack,
            ) {
                Err(e) => {
                    return Err(e);
                },
                Ok(extra) => extra,
            }
        },
    };
    Ok(Body::Named { fields: parts.fields, extra })
}

} // verus!
