//! Laws of the type model compiler, proved from its definition.
use vstd::prelude::*;
use crate::codec::tag_of;
use crate::ir::{
    BodyView, CompileErrorKind, CompileErrorView, CompiledKindView, CompiledTypeView, FieldView,
    TypeExprView, VariantView,
};
use crate::model_spec::{
    branch_names, built_model, fail, fields_of, gather, gather_branch, has_model, ident_of,
    lemma_open_count_enter, model_ident, named_variants, open_count, ref_type, referenced_name,
    tag_value_of, tagged_union, type_in_place, variant_body, variant_of, Gathered,
};
use crate::outside::snake_case;
use crate::schema::{AdditionalView, DiscriminatorView, SchemaKindView, SchemaRefView, SchemaView};
use crate::table::lookup;

verus! {

/// The name of the property that a field stands for.
pub open spec fn property_of(field: FieldView) -> Seq<char> {
    match field.rename {
        Some(name) => name,
        None => field.ident,
    }
}

/// None of the fields stands for the property `tag`.
pub open spec fn fields_avoid(fields: Seq<FieldView>, tag: Seq<char>) -> bool {
    forall|i: int| 0 <= i < fields.len() ==> property_of(#[trigger] fields[i]) != tag
}

/// No field of the body stands for the property `tag`.
pub open spec fn body_avoids(body: BodyView, tag: Seq<char>) -> bool {
    match body {
        BodyView::Named { fields, extra } => fields_avoid(fields, tag),
        _ => true,
    }
}

/// No field of any of the variants stands for the property `tag`.
pub open spec fn variants_avoid(variants: Seq<VariantView>, tag: Seq<char>) -> bool {
    forall|i: int| 0 <= i < variants.len() ==> body_avoids((#[trigger] variants[i]).body, tag)
}

/// The fields made for a list of properties never stand for the property that
/// is left out.
pub proof fn lemma_fields_avoid_tag(
    table: Seq<(Seq<char>, SchemaRefView)>,
    properties: Seq<(Seq<char>, SchemaRefView)>,
    required: Seq<Seq<char>>,
    tag: Seq<char>,
    acc: Seq<FieldView>,
    models: Seq<CompiledTypeView>,
    stack: Seq<Seq<char>>,
)
    requires
        fields_avoid(acc, tag),
        fields_of(table, properties, required, Some(tag), acc, models, stack) is Ok,
    ensures
        fields_avoid(
            fields_of(table, properties, required, Some(tag), acc, models, stack)->Ok_0.0,
            tag,
        ),
    decreases properties.len(),
{
    if properties.len() > 0 {
        let name = properties[0].0;
        if tag == name {
            lemma_fields_avoid_tag(
                table,
                properties.drop_first(),
                required,
                tag,
                acc,
                models,
                stack,
            );
        } else {
            let ident = ident_of(snake_case(name))->Ok_0;
            let found = ref_type(table, properties[0].1, models, stack, true)->Ok_0;
            let field = FieldView {
                ident,
                rename: if ident != name {
                    Some(name)
                } else {
                    None
                },
                ty: found.0.0,
                required: required.contains(name),
                description: found.0.1,
            };
            assert(property_of(field) == name);
            let next = acc.push(field);
            assert forall|i: int| 0 <= i < next.len() implies property_of(#[trigger] next[i])
                != tag by {
                if i < acc.len() {
                    assert(next[i] == acc[i]);
                }
            }
            lemma_fields_avoid_tag(
                table,
                properties.drop_first(),
                required,
                tag,
                next,
                found.1,
                stack,
            );
        }
    }
}

/// What one branch of an intersection adds never stands for the property that
/// is left out.
pub proof fn lemma_branch_avoids_tag(
    table: Seq<(Seq<char>, SchemaRefView)>,
    owner: Seq<char>,
    branch: SchemaRefView,
    tag: Seq<char>,
    acc: Gathered,
    models: Seq<CompiledTypeView>,
    stack: Seq<Seq<char>>,
)
    requires
        fields_avoid(acc.fields, tag),
        gather_branch(table, owner, branch, Some(tag), acc, models, stack) is Ok,
    ensures
        fields_avoid(
            gather_branch(table, owner, branch, Some(tag), acc, models, stack)->Ok_0.0.fields,
            tag,
        ),
    decreases open_count(table, stack), branch,
{
    match branch {
        SchemaRefView::Item(schema) => match schema.kind {
            SchemaKindView::Object { properties, required, additional } => {
                lemma_fields_avoid_tag(
                    table,
                    properties,
                    required,
                    tag,
                    acc.fields,
                    models,
                    stack,
                );
            },
            SchemaKindView::AllOf(inner) => {
                lemma_gather_avoids_tag(table, owner, inner, tag, acc, models, stack);
            },
            _ => {},
        },
        SchemaRefView::Reference(reference) => {
            let name = referenced_name(reference)->Ok_0;
            let target = lookup(table, name)->0;
            let ident = model_ident(name)->Ok_0;
            lemma_open_count_enter(table, stack, name);
            lemma_branch_avoids_tag(table, owner, target, tag, acc, models, stack.push(ident));
        },
    }
}

/// What is gathered from the branches of an intersection never stands for the
/// property that is left out.
pub proof fn lemma_gather_avoids_tag(
    table: Seq<(Seq<char>, SchemaRefView)>,
    owner: Seq<char>,
    branches: Seq<SchemaRefView>,
    tag: Seq<char>,
    acc: Gathered,
    models: Seq<CompiledTypeView>,
    stack: Seq<Seq<char>>,
)
    requires
        fields_avoid(acc.fields, tag),
        gather(table, owner, branches, Some(tag), acc, models, stack) is Ok,
    ensures
        fields_avoid(
            gather(table, owner, branches, Some(tag), acc, models, stack)->Ok_0.0.fields,
            tag,
        ),
    decreases open_count(table, stack), branches,
{
    if branches.len() > 0 {
        lemma_branch_avoids_tag(table, owner, branches[0], tag, acc, models, stack);
        let first = gather_branch(table, owner, branches[0], Some(tag), acc, models, stack)->Ok_0;
        lemma_gather_avoids_tag(
            table,
            owner,
            branches.drop_first(),
            tag,
            first.0,
            first.1,
            stack,
        );
    }
}

/// What a variant of a tagged union holds never stands for the discriminator.
pub proof fn lemma_variant_body_avoids_tag(
    table: Seq<(Seq<char>, SchemaRefView)>,
    owner: Seq<char>,
    target: SchemaView,
    tag: Seq<char>,
    models: Seq<CompiledTypeView>,
    stack: Seq<Seq<char>>,
)
    requires
        variant_body(table, owner, target, Some(tag), models, stack) is Ok,
    ensures
        body_avoids(variant_body(table, owner, target, Some(tag), models, stack)->Ok_0.0, tag),
{
    match target.kind {
        SchemaKindView::Object { properties, required, additional } => {
            if !(properties.len() == 0 && (additional is Absent || additional
                == AdditionalView::Any(false))) {
                lemma_fields_avoid_tag(
                    table,
                    properties,
                    required,
                    tag,
                    Seq::empty(),
                    models,
                    stack,
                );
            }
        },
        SchemaKindView::AllOf(inner) => {
            lemma_gather_avoids_tag(
                table,
                owner,
                inner,
                tag,
                Gathered { fields: Seq::empty(), spoken: false, additional: AdditionalView::Absent },
                models,
                stack,
            );
        },
        _ => {},
    }
}

/// The variants of a tagged union never hold the discriminator as a field.
pub proof fn lemma_named_variants_avoid_tag(
    table: Seq<(Seq<char>, SchemaRefView)>,
    owner: Seq<char>,
    names: Seq<Seq<char>>,
    mapping: Seq<(Seq<char>, Seq<char>)>,
    tag: Seq<char>,
    acc: Seq<VariantView>,
    models: Seq<CompiledTypeView>,
    stack: Seq<Seq<char>>,
)
    requires
        variants_avoid(acc, tag),
        named_variants(table, owner, names, mapping, tag, acc, models, stack) is Ok,
    ensures
        variants_avoid(
            named_variants(table, owner, names, mapping, tag, acc, models, stack)->Ok_0.0,
            tag,
        ),
    decreases names.len(),
{
    if names.len() > 0 {
        let value = Some(tag_value_of(mapping, names[0]));
        let made = variant_of(table, owner, value, names[0], Some(tag), models, stack)->Ok_0;
        lemma_variant_avoids_tag(table, owner, value, names[0], tag, models, stack);
        let next = acc.push(made.0);
        assert forall|i: int| 0 <= i < next.len() implies body_avoids(
            (#[trigger] next[i]).body,
            tag,
        ) by {
            if i < acc.len() {
                assert(next[i] == acc[i]);
            }
        }
        lemma_named_variants_avoid_tag(
            table,
            owner,
            names.drop_first(),
            mapping,
            tag,
            next,
            made.1,
            stack,
        );
    }
}

/// The variants of a tagged union come one for each name, in order, after
/// those that were there, and each is selected by the tag value of its name.
pub proof fn lemma_named_variants_follow_names(
    table: Seq<(Seq<char>, SchemaRefView)>,
    owner: Seq<char>,
    names: Seq<Seq<char>>,
    mapping: Seq<(Seq<char>, Seq<char>)>,
    tag: Seq<char>,
    acc: Seq<VariantView>,
    models: Seq<CompiledTypeView>,
    stack: Seq<Seq<char>>,
)
    requires
        named_variants(table, owner, names, mapping, tag, acc, models, stack) is Ok,
    ensures
        ({
            let made = named_variants(table, owner, names, mapping, tag, acc, models, stack)->Ok_0.0;
            &&& made.len() == acc.len() + names.len()
            &&& forall|i: int| 0 <= i < acc.len() ==> (#[trigger] made[i]) == acc[i]
            &&& forall|i: int|
                0 <= i < names.len() ==> model_ident(names[i]) == Ok::<_, CompileErrorView>(
                    (#[trigger] made[acc.len() + i]).ident,
                ) && tag_of(made[acc.len() + i]) == tag_value_of(mapping, names[i])
        }),
    decreases names.len(),
{
    if names.len() > 0 {
        let value = tag_value_of(mapping, names[0]);
        let first = variant_of(table, owner, Some(value), names[0], Some(tag), models, stack)->Ok_0;
        let next = acc.push(first.0);
        let rest = names.drop_first();
        lemma_named_variants_follow_names(table, owner, rest, mapping, tag, next, first.1, stack);
        let made = named_variants(table, owner, names, mapping, tag, acc, models, stack)->Ok_0.0;
        assert(made == named_variants(table, owner, rest, mapping, tag, next, first.1, stack)->Ok_0.0);
        assert forall|i: int| 0 <= i < acc.len() implies (#[trigger] made[i]) == acc[i] by {
            assert(next[i] == acc[i]);
        }
        assert forall|i: int| 0 <= i < names.len() implies model_ident(names[i]) == Ok::<
            _,
            CompileErrorView,
        >((#[trigger] made[acc.len() + i]).ident) && tag_of(made[acc.len() + i]) == tag_value_of(
            mapping,
            names[i],
        ) by {
            if i == 0 {
                assert(made[acc.len() as int] == next[acc.len() as int]);
                assert(tag_of(first.0) == value);
            } else {
                assert(rest[i - 1] == names[i]);
                assert(made[next.len() + (i - 1)] == made[acc.len() + i]);
            }
        }
    }
}

/// A variant of a tagged union never holds the discriminator as a field.
pub proof fn lemma_variant_avoids_tag(
    table: Seq<(Seq<char>, SchemaRefView)>,
    owner: Seq<char>,
    tag_value: Option<Seq<char>>,
    name: Seq<char>,
    tag: Seq<char>,
    models: Seq<CompiledTypeView>,
    stack: Seq<Seq<char>>,
)
    requires
        variant_of(table, owner, tag_value, name, Some(tag), models, stack) is Ok,
    ensures
        body_avoids(
            variant_of(table, owner, tag_value, name, Some(tag), models, stack)->Ok_0.0.body,
            tag,
        ),
{
    match lookup(table, name) {
        Some(SchemaRefView::Item(target)) => {
            let ident = model_ident(name)->Ok_0;
            lemma_variant_body_avoids_tag(table, owner, target, tag, models, stack.push(ident));
        },
        _ => {},
    }
}

/// A tagged union never exposes its discriminator: whatever the branches
/// declare, no field of any variant stands for the discriminator property.
pub proof fn law_discriminator_is_no_field(
    table: Seq<(Seq<char>, SchemaRefView)>,
    owner: Seq<char>,
    branches: Seq<SchemaRefView>,
    discriminator: DiscriminatorView,
    models: Seq<CompiledTypeView>,
    stack: Seq<Seq<char>>,
)
    requires
        tagged_union(table, owner, branches, discriminator, models, stack) is Ok,
    ensures
        tagged_union(table, owner, branches, discriminator, models, stack)->Ok_0.0 matches CompiledKindView::Tagged {
            tag,
            variants,
        } && tag == discriminator.property_name && variants_avoid(
            variants,
            discriminator.property_name,
        ),
{
    let names = branch_names(table, owner, branches, Seq::empty())->Ok_0;
    lemma_named_variants_avoid_tag(
        table,
        owner,
        names,
        discriminator.mapping,
        discriminator.property_name,
        Seq::empty(),
        models,
        stack,
    );
}

/// A tagged union has one variant for each of its branches, in the order of
/// the branches, whatever the mapping of its discriminator names: a branch is
/// selected by the key under which the mapping refers to it, and by its own
/// name where the mapping does not.
pub proof fn law_one_variant_for_each_branch(
    table: Seq<(Seq<char>, SchemaRefView)>,
    owner: Seq<char>,
    branches: Seq<SchemaRefView>,
    discriminator: DiscriminatorView,
    models: Seq<CompiledTypeView>,
    stack: Seq<Seq<char>>,
)
    requires
        tagged_union(table, owner, branches, discriminator, models, stack) is Ok,
    ensures
        branch_names(table, owner, branches, Seq::empty()) is Ok,
        ({
            let names = branch_names(table, owner, branches, Seq::empty())->Ok_0;
            tagged_union(table, owner, branches, discriminator, models, stack)->Ok_0.0 matches CompiledKindView::Tagged {
                tag,
                variants,
            } && variants.len() == names.len() && forall|i: int|
                0 <= i < names.len() ==> model_ident(names[i]) == Ok::<_, CompileErrorView>(
                    (#[trigger] variants[i]).ident,
                ) && tag_of(variants[i]) == tag_value_of(discriminator.mapping, names[i])
        }),
{
    let names = branch_names(table, owner, branches, Seq::empty())->Ok_0;
    lemma_named_variants_follow_names(
        table,
        owner,
        names,
        discriminator.mapping,
        discriminator.property_name,
        Seq::empty(),
        models,
        stack,
    );
    let made = named_variants(
        table,
        owner,
        names,
        discriminator.mapping,
        discriminator.property_name,
        Seq::empty(),
        models,
        stack,
    )->Ok_0.0;
    assert forall|i: int| 0 <= i < names.len() implies model_ident(names[i]) == Ok::<
        _,
        CompileErrorView,
    >((#[trigger] made[i]).ident) && tag_of(made[i]) == tag_value_of(
        discriminator.mapping,
        names[i],
    ) by {
        assert(made[0 + i] == made[i]);
    }
}

/// An object schema with at least one property compiles to a struct, whenever
/// it compiles.
pub proof fn law_object_with_properties_is_struct(
    table: Seq<(Seq<char>, SchemaRefView)>,
    ident: Seq<char>,
    schema: SchemaView,
    models: Seq<CompiledTypeView>,
    stack: Seq<Seq<char>>,
)
    requires
        schema.kind matches SchemaKindView::Object { properties, required, additional }
            && properties.len() >= 1,
        built_model(table, ident, schema, models, stack) is Ok,
    ensures
        built_model(table, ident, schema, models, stack)->Ok_0.0 matches Some(model)
            && model.ident == ident && model.kind is Struct,
{
}

/// An object schema without properties that allows no additional ones stands
/// for the one empty object type, wherever it is used and whatever else has
/// been compiled; it gets no named type of its own.
pub proof fn law_empty_object_is_shared(
    table: Seq<(Seq<char>, SchemaRefView)>,
    ident: Seq<char>,
    schema: SchemaView,
    models: Seq<CompiledTypeView>,
    stack: Seq<Seq<char>>,
    generate: bool,
)
    requires
        schema.kind matches SchemaKindView::Object { properties, required, additional }
            && properties.len() == 0 && (additional is Absent || additional
            == AdditionalView::Any(false)),
    ensures
        type_in_place(table, schema, models, stack, generate) == Ok::<_, crate::ir::CompileErrorView>(
            (TypeExprView::EmptyModel, models),
        ),
        built_model(table, ident, schema, models, stack) == Ok::<_, crate::ir::CompileErrorView>(
            (None::<CompiledTypeView>, models),
        ),
{
}

/// Following a reference to a schema that is being compiled is a cyclic
/// dependency: the reference fails with that error, whatever stands between
/// the schema and the reference.
pub proof fn law_reentry_is_cycle(
    table: Seq<(Seq<char>, SchemaRefView)>,
    reference: Seq<char>,
    models: Seq<CompiledTypeView>,
    stack: Seq<Seq<char>>,
    generate: bool,
)
    requires
        referenced_name(reference) is Ok,
        lookup(table, referenced_name(reference)->Ok_0) matches Some(SchemaRefView::Item(_)),
        model_ident(referenced_name(reference)->Ok_0) is Ok,
        !has_model(models, model_ident(referenced_name(reference)->Ok_0)->Ok_0),
        stack.contains(model_ident(referenced_name(reference)->Ok_0)->Ok_0),
    ensures
        ref_type(table, SchemaRefView::Reference(reference), models, stack, generate) == fail::<
            ((TypeExprView, Option<Seq<char>>), Seq<CompiledTypeView>),
        >(
            CompileErrorKind::CyclicDependency,
            model_ident(referenced_name(reference)->Ok_0)->Ok_0,
        ),
{
}

/// Reading the type at a reference or schema without making models leaves
/// the models as they are.
pub proof fn lemma_reading_keeps_models(
    table: Seq<(Seq<char>, SchemaRefView)>,
    r: SchemaRefView,
    models: Seq<CompiledTypeView>,
    stack: Seq<Seq<char>>,
)
    ensures
        ref_type(table, r, models, stack, false) matches Ok((_, after)) ==> after == models,
    decreases open_count(table, stack), r,
{
    match r {
        SchemaRefView::Item(schema) => {
            lemma_reading_in_place_keeps_models(table, schema, models, stack);
        },
        SchemaRefView::Reference(reference) => {
            if referenced_name(reference) is Ok {
                let name = referenced_name(reference)->Ok_0;
                if lookup(table, name) matches Some(SchemaRefView::Item(_)) {
                    let target = lookup(table, name)->0->Item_0;
                    if model_ident(name) is Ok {
                        let ident = model_ident(name)->Ok_0;
                        if !has_model(models, ident) && !stack.contains(ident) {
                            lemma_open_count_enter(table, stack, name);
                            lemma_reading_in_place_keeps_models(
                                table,
                                target,
                                models,
                                stack.push(ident),
                            );
                        }
                    }
                }
            }
        },
    }
}

/// Reading the type of a schema in place without making models leaves the
/// models as they are.
pub proof fn lemma_reading_in_place_keeps_models(
    table: Seq<(Seq<char>, SchemaRefView)>,
    schema: SchemaView,
    models: Seq<CompiledTypeView>,
    stack: Seq<Seq<char>>,
)
    ensures
        type_in_place(table, schema, models, stack, false) matches Ok((_, after)) ==> after
            == models,
    decreases open_count(table, stack), schema,
{
    match schema.kind {
        SchemaKindView::Object { properties, required, additional } => {
            if let AdditionalView::Schema(inner) = additional {
                lemma_reading_keeps_models(table, *inner, models, stack);
            }
        },
        SchemaKindView::Array { items, unique_items } => {
            if let Some(inner) = items {
                lemma_reading_keeps_models(table, *inner, models, stack);
            }
        },
        _ => {},
    }
}

} // verus!
