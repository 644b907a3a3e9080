//! What the type model compiler computes, as mathematics over the views of
//! schemas. A schema table is read by name; the models made so far are threaded
//! through; `stack` holds the identifiers of the schemas that are being
//! followed, outermost first, and a reference to one of them is a cycle.
use vstd::prelude::*;
use crate::ir::{
    BodyView, CompileErrorKind, CompileErrorView, CompiledKindView, CompiledTypeView, FieldView,
    LiteralView, TypeExprView, VariantView,
};
use crate::outside::{lexes_as_tokens, parsed_ident, pascal_case, snake_case, xid_start};
use crate::schema::{AdditionalView, DiscriminatorView, SchemaKindView, SchemaRefView, SchemaView};
use crate::table::{has_key, index_of, lemma_index_of, lemma_index_of_first, lookup};
use crate::text::has_prefix;

verus! {

/// An error of the given kind at the given subject.
pub open spec fn fail<T>(kind: CompileErrorKind, subject: Seq<char>) -> Result<
    T,
    CompileErrorView,
> {
    Err(CompileErrorView { kind, subject })
}

/// The keywords that cannot be identifiers even in raw form.
pub open spec fn is_reserved(name: Seq<char>) -> bool {
    name == "crate"@ || name == "self"@ || name == "super"@ || name == "Self"@
}

/// The identifier for a name: the name itself where it is an identifier, with
/// an underscore appended where it is one of the reserved keywords, and in raw
/// form where that is an identifier.
pub open spec fn ident_of(name: Seq<char>) -> Result<Seq<char>, CompileErrorView> {
    match parsed_ident(name) {
        Some(ident) => Ok(ident),
        None => if is_reserved(name) {
            Ok(name + "_"@)
        } else {
            match parsed_ident("r#"@ + name) {
                Some(ident) => Ok(ident),
                None => fail(CompileErrorKind::InvalidIdentifier, name),
            }
        },
    }
}

/// The identifier of the model that a schema of this name compiles to.
pub open spec fn model_ident(name: Seq<char>) -> Result<Seq<char>, CompileErrorView> {
    ident_of(pascal_case(name))
}

/// The path under which the shared schemas of a document stand.
pub open spec fn schema_prefix() -> Seq<char> {
    "#/components/schemas/"@
}

/// The name of the shared schema that a reference points to.
pub open spec fn referenced_name(reference: Seq<char>) -> Result<Seq<char>, CompileErrorView> {
    if has_prefix(reference, schema_prefix()) {
        Ok(reference.subrange(schema_prefix().len() as int, reference.len() as int))
    } else {
        fail(CompileErrorKind::ForeignReference, reference)
    }
}

/// Whether a model of this identifier has been made.
pub open spec fn has_model(models: Seq<CompiledTypeView>, ident: Seq<char>) -> bool {
    exists|i: int| 0 <= i < models.len() && (#[trigger] models[i]).ident == ident
}

/// Whether following a reference to the schema named `name` is barred by the
/// stack.
pub open spec fn on_stack(name: Seq<char>, stack: Seq<Seq<char>>) -> bool {
    model_ident(name) is Ok && stack.contains(model_ident(name)->Ok_0)
}

/// How many entries of the table can still be entered.
pub open spec fn open_count(table: Seq<(Seq<char>, SchemaRefView)>, stack: Seq<Seq<char>>) -> nat
    decreases table.len(),
{
    if table.len() == 0 {
        0
    } else {
        open_count(table.drop_last(), stack) + if on_stack(table.last().0, stack) {
            0nat
        } else {
            1nat
        }
    }
}

/// Entering one more schema never opens an entry.
pub proof fn lemma_open_count_monotone(
    table: Seq<(Seq<char>, SchemaRefView)>,
    stack: Seq<Seq<char>>,
    ident: Seq<char>,
)
    ensures
        open_count(table, stack.push(ident)) <= open_count(table, stack),
    decreases table.len(),
{
    if table.len() > 0 {
        lemma_open_count_monotone(table.drop_last(), stack, ident);
        if on_stack(table.last().0, stack) {
            let id = model_ident(table.last().0)->Ok_0;
            let k = choose|k: int| 0 <= k < stack.len() && stack[k] == id;
            assert(stack.push(ident)[k] == id);
        }
    }
}

/// Entering a schema of the table that is not on the stack closes an entry.
pub proof fn lemma_open_count_enter(
    table: Seq<(Seq<char>, SchemaRefView)>,
    stack: Seq<Seq<char>>,
    name: Seq<char>,
)
    requires
        has_key(table, name),
        model_ident(name) is Ok,
        !stack.contains(model_ident(name)->Ok_0),
    ensures
        open_count(table, stack.push(model_ident(name)->Ok_0)) < open_count(table, stack),
    decreases table.len(),
{
    let ident = model_ident(name)->Ok_0;
    lemma_index_of(table, name);
    let k = index_of(table, name);
    if table.len() > 0 {
        let rest = table.drop_last();
        if k == table.len() - 1 {
            lemma_open_count_monotone(rest, stack, ident);
            assert(stack.push(ident)[stack.len() as int] == ident);
        } else {
            assert(rest[k] == table[k]);
            assert forall|j: int| 0 <= j < k implies (#[trigger] rest[j]).0 != name by {
                assert(rest[j] == table[j]);
            }
            lemma_index_of_first(rest, name, k);
            lemma_open_count_enter(rest, stack, name);
            if on_stack(table.last().0, stack) {
                let id = model_ident(table.last().0)->Ok_0;
                let i = choose|i: int| 0 <= i < stack.len() && stack[i] == id;
                assert(stack.push(ident)[i] == id);
            }
        }
    }
}

/// The type of a string schema that is no enumeration.
pub open spec fn string_type(format: Option<Seq<char>>, enumeration: Seq<Option<Seq<char>>>) -> Result<
    TypeExprView,
    CompileErrorView,
> {
    if enumeration.len() > 0 {
        fail(CompileErrorKind::InlineEnum, Seq::empty())
    } else {
        match format {
            None => Ok(TypeExprView::Text),
            Some(f) => if f == "date"@ {
                Ok(TypeExprView::Date)
            } else if f == "date-time"@ {
                Ok(TypeExprView::DateTime)
            } else if f == "byte"@ || f == "password"@ {
                Ok(TypeExprView::Text)
            } else if f == "binary"@ {
                Ok(TypeExprView::Bytes)
            } else if lexes_as_tokens(f) {
                Ok(TypeExprView::Custom(f))
            } else {
                fail(CompileErrorKind::InvalidFormat, f)
            },
        }
    }
}

/// The type of an integer schema that is no enumeration.
pub open spec fn integer_type(format: Option<Seq<char>>, enumeration: Seq<Option<Seq<char>>>) -> Result<
    TypeExprView,
    CompileErrorView,
> {
    if enumeration.len() > 0 {
        fail(CompileErrorKind::InlineEnum, Seq::empty())
    } else {
        match format {
            None => Ok(TypeExprView::Int64),
            Some(f) => if f == "int32"@ {
                Ok(TypeExprView::Int32)
            } else if f == "int64"@ {
                Ok(TypeExprView::Int64)
            } else if lexes_as_tokens(f) {
                Ok(TypeExprView::Custom(f))
            } else {
                fail(CompileErrorKind::InvalidFormat, f)
            },
        }
    }
}

/// The type of a number schema that is no enumeration.
pub open spec fn number_type(format: Option<Seq<char>>, enumeration: Seq<Option<Seq<char>>>) -> Result<
    TypeExprView,
    CompileErrorView,
> {
    if enumeration.len() > 0 {
        fail(CompileErrorKind::InlineEnum, Seq::empty())
    } else {
        match format {
            None => Ok(TypeExprView::Double),
            Some(f) => if f == "float"@ {
                Ok(TypeExprView::Float)
            } else if f == "double"@ {
                Ok(TypeExprView::Double)
            } else if lexes_as_tokens(f) {
                Ok(TypeExprView::Custom(f))
            } else {
                fail(CompileErrorKind::InvalidFormat, f)
            },
        }
    }
}

/// The name from which the identifier of an enumerated literal is made.
pub open spec fn literal_ident_source(literal: Seq<char>) -> Seq<char> {
    if literal.len() == 0 {
        "EmptyString"@
    } else if literal[0] != '_' && !xid_start(literal[0]) {
        "__"@ + pascal_case(literal)
    } else {
        pascal_case(literal)
    }
}

/// The members of a closed enumeration for the given literals, after the
/// members `acc` that were made before; `null` cannot be a member.
pub open spec fn literals_of(enumeration: Seq<Option<Seq<char>>>, acc: Seq<LiteralView>) -> Result<
    Seq<LiteralView>,
    CompileErrorView,
>
    decreases enumeration.len(),
{
    if enumeration.len() == 0 {
        Ok(acc)
    } else {
        match enumeration[0] {
            None => fail(CompileErrorKind::NullableEnum, Seq::empty()),
            Some(literal) => match ident_of(literal_ident_source(literal)) {
                Err(e) => Err(e),
                Ok(ident) => literals_of(
                    enumeration.drop_first(),
                    acc.push(LiteralView { ident, literal }),
                ),
            },
        }
    }
}

/// The closed enumeration that a string schema named `owner` compiles to, if
/// it enumerates anything.
pub open spec fn enumeration_model(owner: Seq<char>, enumeration: Seq<Option<Seq<char>>>) -> Result<
    Option<CompiledKindView>,
    CompileErrorView,
> {
    if enumeration.len() == 0 {
        Ok(None)
    } else if enumeration.contains(None) {
        fail(CompileErrorKind::NullableEnum, owner)
    } else {
        match literals_of(enumeration, Seq::empty()) {
            Err(e) => Err(e),
            Ok(literals) => Ok(Some(CompiledKindView::Enumeration(literals))),
        }
    }
}

/// What an integer, number or boolean schema named `owner` compiles to: no
/// model where it enumerates nothing, and an error otherwise.
pub open spec fn scalar_model(owner: Seq<char>, enumeration: Seq<Option<Seq<char>>>) -> Result<
    Option<CompiledKindView>,
    CompileErrorView,
> {
    if enumeration.len() == 0 {
        Ok(None)
    } else if enumeration.contains(None) {
        fail(CompileErrorKind::NullableEnum, owner)
    } else {
        fail(CompileErrorKind::ScalarEnum, owner)
    }
}

/// A type expression together with the models made so far.
pub type Typed = Result<(TypeExprView, Seq<CompiledTypeView>), CompileErrorView>;

/// The type that stands where `r` stands, with the description of the schema
/// there. With `generate`, the models that it needs are made on the way.
pub open spec fn ref_type(
    table: Seq<(Seq<char>, SchemaRefView)>,
    r: SchemaRefView,
    models: Seq<CompiledTypeView>,
    stack: Seq<Seq<char>>,
    generate: bool,
) -> Result<((TypeExprView, Option<Seq<char>>), Seq<CompiledTypeView>), CompileErrorView>
    decreases open_count(table, stack), 1nat, r, 0nat,
{
    match r {
        SchemaRefView::Item(schema) => match type_in_place(table, schema, models, stack, generate) {
            Err(e) => Err(e),
            Ok((t, models1)) => Ok(((t, schema.description), models1)),
        },
        SchemaRefView::Reference(reference) => match referenced_name(reference) {
            Err(e) => Err(e),
            Ok(name) => match lookup(table, name) {
                None => fail(CompileErrorKind::MissingSchema, reference),
                Some(SchemaRefView::Reference(_)) => fail(
                    CompileErrorKind::ReferenceChain,
                    reference,
                ),
                Some(SchemaRefView::Item(target)) => match model_ident(name) {
                    Err(e) => Err(e),
                    Ok(ident) => if has_model(models, ident) {
                        Ok(((TypeExprView::Model(ident), target.description), models))
                    } else if stack.contains(ident) {
                        fail(CompileErrorKind::CyclicDependency, ident)
                    } else {
                        proof {
                            lemma_open_count_enter(table, stack, name);
                        }
                        let inner = stack.push(ident);
                        let built = if generate {
                            built_model(table, ident, target, models, inner)
                        } else {
                            Ok((None, models))
                        };
                        match built {
                            Err(e) => Err(e),
                            Ok((Some(model), models1)) => Ok(
                                (
                                    (TypeExprView::Model(ident), target.description),
                                    models1.push(model),
                                ),
                            ),
                            Ok((None, models1)) => match type_in_place(
                                table,
                                target,
                                models1,
                                inner,
                                generate,
                            ) {
                                Err(e) => Err(e),
                                Ok((t, models2)) => Ok(((t, target.description), models2)),
                            },
                        }
                    },
                },
            },
        },
    }
}

/// The type of a schema that stands in place, without a name of its own.
pub open spec fn type_in_place(
    table: Seq<(Seq<char>, SchemaRefView)>,
    schema: SchemaView,
    models: Seq<CompiledTypeView>,
    stack: Seq<Seq<char>>,
    generate: bool,
) -> Typed
    decreases open_count(table, stack), 1nat, schema, 0nat,
{
    match schema.kind {
        SchemaKindView::String { format, enumeration } => match string_type(format, enumeration) {
            Err(e) => Err(e),
            Ok(t) => Ok((t, models)),
        },
        SchemaKindView::Number { format, enumeration } => match number_type(format, enumeration) {
            Err(e) => Err(e),
            Ok(t) => Ok((t, models)),
        },
        SchemaKindView::Integer { format, enumeration } => match integer_type(
            format,
            enumeration,
        ) {
            Err(e) => Err(e),
            Ok(t) => Ok((t, models)),
        },
        SchemaKindView::Object { properties, required, additional } => if properties.len() > 0 {
            fail(CompileErrorKind::InlineObject, properties[0].0)
        } else {
            match additional {
                AdditionalView::Absent => Ok((TypeExprView::EmptyModel, models)),
                AdditionalView::Any(allowed) => if allowed {
                    Ok((TypeExprView::MapOf(Box::new(TypeExprView::AnyValue)), models))
                } else {
                    Ok((TypeExprView::EmptyModel, models))
                },
                AdditionalView::Schema(inner) => match ref_type(
                    table,
                    *inner,
                    models,
                    stack,
                    generate,
                ) {
                    Err(e) => Err(e),
                    Ok(((t, _), models1)) => Ok((TypeExprView::MapOf(Box::new(t)), models1)),
                },
            }
        },
        SchemaKindView::Array { items, unique_items } => {
            let item: Typed = match items {
                None => Ok((TypeExprView::AnyValue, models)),
                Some(inner) => match ref_type(table, *inner, models, stack, generate) {
                    Err(e) => Err(e),
                    Ok(((t, _), models1)) => Ok((t, models1)),
                },
            };
            match item {
                Err(e) => Err(e),
                Ok((t, models1)) => if unique_items {
                    Ok((TypeExprView::SetOf(Box::new(t)), models1))
                } else {
                    Ok((TypeExprView::ListOf(Box::new(t)), models1))
                },
            }
        },
        SchemaKindView::Boolean { enumeration } => if enumeration.len() > 0 {
            fail(CompileErrorKind::InlineEnum, Seq::empty())
        } else {
            Ok((TypeExprView::Bool, models))
        },
        SchemaKindView::OneOf(_) => fail(CompileErrorKind::InlineComposite, Seq::empty()),
        SchemaKindView::AllOf(_) => fail(CompileErrorKind::InlineComposite, Seq::empty()),
        SchemaKindView::AnyOf(_) => fail(CompileErrorKind::InlineComposite, Seq::empty()),
        SchemaKindView::Not(_) => fail(CompileErrorKind::InlineComposite, Seq::empty()),
        SchemaKindView::Any { trivial } => if trivial {
            Ok((TypeExprView::AnyValue, models))
        } else {
            fail(CompileErrorKind::FreeForm, Seq::empty())
        },
    }
}

/// The fields for a list of properties, leaving out the property named `tag`,
/// after the fields `acc` that were made before.
pub open spec fn fields_of(
    table: Seq<(Seq<char>, SchemaRefView)>,
    properties: Seq<(Seq<char>, SchemaRefView)>,
    required: Seq<Seq<char>>,
    tag: Option<Seq<char>>,
    acc: Seq<FieldView>,
    models: Seq<CompiledTypeView>,
    stack: Seq<Seq<char>>,
) -> Result<(Seq<FieldView>, Seq<CompiledTypeView>), CompileErrorView>
    decreases open_count(table, stack), 3nat, properties, 0nat,
{
    if properties.len() == 0 {
        Ok((acc, models))
    } else {
        let name = properties[0].0;
        if tag == Some(name) {
            fields_of(table, properties.drop_first(), required, tag, acc, models, stack)
        } else {
            match ident_of(snake_case(name)) {
                Err(e) => Err(e),
                Ok(ident) => match ref_type(table, properties[0].1, models, stack, true) {
                    Err(e) => Err(e),
                    Ok(((ty, description), models1)) => fields_of(
                        table,
                        properties.drop_first(),
                        required,
                        tag,
                        acc.push(
                            FieldView {
                                ident,
                                rename: if ident != name {
                                    Some(name)
                                } else {
                                    None
                                },
                                ty,
                                required: required.contains(name),
                                description,
                            },
                        ),
                        models1,
                        stack,
                    ),
                },
            }
        }
    }
}

/// The value type of the map of extra fields that `additional` asks for.
pub open spec fn extra_type(
    table: Seq<(Seq<char>, SchemaRefView)>,
    additional: AdditionalView,
    models: Seq<CompiledTypeView>,
    stack: Seq<Seq<char>>,
) -> Result<(Option<TypeExprView>, Seq<CompiledTypeView>), CompileErrorView>
    decreases open_count(table, stack), 1nat, additional, 0nat,
{
    match additional {
        AdditionalView::Absent => Ok((None, models)),
        AdditionalView::Any(allowed) => if allowed {
            Ok((Some(TypeExprView::AnyValue), models))
        } else {
            Ok((None, models))
        },
        AdditionalView::Schema(inner) => match ref_type(table, *inner, models, stack, true) {
            Err(e) => Err(e),
            Ok(((t, _), models1)) => Ok((Some(t), models1)),
        },
    }
}

/// The body of a struct for an object schema.
pub open spec fn object_body(
    table: Seq<(Seq<char>, SchemaRefView)>,
    kind: SchemaKindView,
    tag: Option<Seq<char>>,
    models: Seq<CompiledTypeView>,
    stack: Seq<Seq<char>>,
) -> Result<(BodyView, Seq<CompiledTypeView>), CompileErrorView>
    decreases open_count(table, stack), 3nat, kind, 0nat,
{
    match kind {
        SchemaKindView::Object { properties, required, additional } => match fields_of(
            table,
            properties,
            required,
            tag,
            Seq::empty(),
            models,
            stack,
        ) {
            Err(e) => Err(e),
            Ok((fields, models1)) => match extra_type(table, additional, models1, stack) {
                Err(e) => Err(e),
                Ok((extra, models2)) => if fields.len() == 0 {
                    match extra {
                        Some(t) => Ok((BodyView::Extra(t), models2)),
                        None => Ok(
                            (BodyView::Named { fields: Seq::empty(), extra: None }, models2),
                        ),
                    }
                } else {
                    Ok((BodyView::Named { fields, extra }, models2))
                },
            },
        },
        _ => fail(CompileErrorKind::VariantShape, Seq::empty()),
    }
}

/// What has been gathered from the branches of an intersection: the fields,
/// whether a branch spoke of additional properties, and what it said.
pub struct Gathered {
    pub fields: Seq<FieldView>,
    pub spoken: bool,
    pub additional: AdditionalView,
}

/// What one branch of an intersection adds to what was gathered. A branch is
/// an object, a nested intersection, or a reference to either.
pub open spec fn gather_branch(
    table: Seq<(Seq<char>, SchemaRefView)>,
    owner: Seq<char>,
    branch: SchemaRefView,
    tag: Option<Seq<char>>,
    acc: Gathered,
    models: Seq<CompiledTypeView>,
    stack: Seq<Seq<char>>,
) -> Result<(Gathered, Seq<CompiledTypeView>), CompileErrorView>
    decreases open_count(table, stack), 3nat, branch, 0nat,
{
    match branch {
        SchemaRefView::Item(schema) => match schema.kind {
            SchemaKindView::Object { properties, required, additional } => match fields_of(
                table,
                properties,
                required,
                tag,
                acc.fields,
                models,
                stack,
            ) {
                Err(e) => Err(e),
                Ok((fields, models1)) => if acc.spoken && !(additional is Absent) {
                    fail(CompileErrorKind::ConflictingAdditional, owner)
                } else {
                    Ok(
                        (
                            Gathered {
                                fields,
                                spoken: acc.spoken || !(additional is Absent),
                                additional: if additional is Absent {
                                    acc.additional
                                } else {
                                    additional
                                },
                            },
                            models1,
                        ),
                    )
                },
            },
            SchemaKindView::AllOf(inner) => gather(table, owner, inner, tag, acc, models, stack),
            _ => fail(CompileErrorKind::IntersectionBranch, owner),
        },
        SchemaRefView::Reference(reference) => match referenced_name(reference) {
            Err(e) => Err(e),
            Ok(name) => match lookup(table, name) {
                None => fail(CompileErrorKind::MissingSchema, reference),
                Some(target) => match model_ident(name) {
                    Err(e) => Err(e),
                    Ok(ident) => if stack.contains(ident) {
                        fail(CompileErrorKind::CyclicDependency, ident)
                    } else {
                        proof {
                            lemma_open_count_enter(table, stack, name);
                        }
                        gather_branch(table, owner, target, tag, acc, models, stack.push(ident))
                    },
                },
            },
        },
    }
}

/// Gathers the branches of an intersection into `acc`, in order.
pub open spec fn gather(
    table: Seq<(Seq<char>, SchemaRefView)>,
    owner: Seq<char>,
    branches: Seq<SchemaRefView>,
    tag: Option<Seq<char>>,
    acc: Gathered,
    models: Seq<CompiledTypeView>,
    stack: Seq<Seq<char>>,
) -> Result<(Gathered, Seq<CompiledTypeView>), CompileErrorView>
    decreases open_count(table, stack), 3nat, branches, 0nat,
{
    if branches.len() == 0 {
        Ok((acc, models))
    } else {
        match gather_branch(table, owner, branches[0], tag, acc, models, stack) {
            Err(e) => Err(e),
            Ok((acc1, models1)) => gather(
                table,
                owner,
                branches.drop_first(),
                tag,
                acc1,
                models1,
                stack,
            ),
        }
    }
}

/// The body of a struct for an intersection: the fields of all its branches,
/// and last the map of extra fields that the one branch that speaks of
/// additional properties asks for.
pub open spec fn composed_body(
    table: Seq<(Seq<char>, SchemaRefView)>,
    owner: Seq<char>,
    branches: Seq<SchemaRefView>,
    tag: Option<Seq<char>>,
    models: Seq<CompiledTypeView>,
    stack: Seq<Seq<char>>,
) -> Result<(BodyView, Seq<CompiledTypeView>), CompileErrorView>
    decreases open_count(table, stack), 3nat, branches, 1nat,
{
    match gather(
        table,
        owner,
        branches,
        tag,
        Gathered { fields: Seq::empty(), spoken: false, additional: AdditionalView::Absent },
        models,
        stack,
    ) {
        Err(e) => Err(e),
        Ok((acc, models1)) => match extra_type(table, acc.additional, models1, stack) {
            Err(e) => Err(e),
            Ok((extra, models2)) => Ok((BodyView::Named { fields: acc.fields, extra }, models2)),
        },
    }
}

/// What a variant of a union holds, for the schema that the variant refers to.
pub open spec fn variant_body(
    table: Seq<(Seq<char>, SchemaRefView)>,
    owner: Seq<char>,
    target: SchemaView,
    tag: Option<Seq<char>>,
    models: Seq<CompiledTypeView>,
    stack: Seq<Seq<char>>,
) -> Result<(BodyView, Seq<CompiledTypeView>), CompileErrorView>
    decreases open_count(table, stack), 3nat, target, 0nat,
{
    match target.kind {
        SchemaKindView::Object { properties, required, additional } => if properties.len() == 0
            && (additional is Absent || additional == AdditionalView::Any(false)) {
            Ok((BodyView::Unit, models))
        } else {
            object_body(table, target.kind, tag, models, stack)
        },
        SchemaKindView::AllOf(inner) => composed_body(table, owner, inner, tag, models, stack),
        _ => fail(CompileErrorKind::VariantShape, owner),
    }
}

/// The variant for the shared schema named `name`. `tag_value` is the value
/// that selects it in a tagged union.
pub open spec fn variant_of(
    table: Seq<(Seq<char>, SchemaRefView)>,
    owner: Seq<char>,
    tag_value: Option<Seq<char>>,
    name: Seq<char>,
    tag: Option<Seq<char>>,
    models: Seq<CompiledTypeView>,
    stack: Seq<Seq<char>>,
) -> Result<(VariantView, Seq<CompiledTypeView>), CompileErrorView>
    decreases open_count(table, stack), 0nat, name, 0nat,
{
    match lookup(table, name) {
        Some(SchemaRefView::Item(target)) => match model_ident(name) {
            Err(e) => Err(e),
            Ok(ident) => if stack.contains(ident) {
                fail(CompileErrorKind::CyclicDependency, ident)
            } else {
                proof {
                    lemma_open_count_enter(table, stack, name);
                }
                match variant_body(table, owner, target, tag, models, stack.push(ident)) {
                    Err(e) => Err(e),
                    Ok((body, models1)) => Ok(
                        (
                            VariantView {
                                ident,
                                rename: match tag_value {
                                    Some(value) => if ident != value {
                                        Some(value)
                                    } else {
                                        None
                                    },
                                    None => None,
                                },
                                description: target.description,
                                body,
                            },
                            models1,
                        ),
                    ),
                }
            },
        },
        _ => fail(CompileErrorKind::MissingSchema, name),
    }
}

/// The names of the shared schemas that the branches of a union refer to, each
/// once, in the order of their first branch, after the names `acc`.
pub open spec fn branch_names(
    table: Seq<(Seq<char>, SchemaRefView)>,
    owner: Seq<char>,
    branches: Seq<SchemaRefView>,
    acc: Seq<Seq<char>>,
) -> Result<Seq<Seq<char>>, CompileErrorView>
    decreases branches.len(),
{
    if branches.len() == 0 {
        Ok(acc)
    } else {
        match branches[0] {
            SchemaRefView::Item(_) => fail(CompileErrorKind::InlineVariant, owner),
            SchemaRefView::Reference(reference) => match referenced_name(reference) {
                Err(e) => Err(e),
                Ok(name) => match lookup(table, name) {
                    Some(SchemaRefView::Item(_)) => branch_names(
                        table,
                        owner,
                        branches.drop_first(),
                        if acc.contains(name) {
                            acc
                        } else {
                            acc.push(name)
                        },
                    ),
                    _ => fail(CompileErrorKind::MissingSchema, reference),
                },
            },
        }
    }
}

/// The value of the discriminator that selects the branch named `name`: the
/// key of the first entry of the mapping whose reference names that branch,
/// and the name itself where no entry does.
pub open spec fn tag_value_of(mapping: Seq<(Seq<char>, Seq<char>)>, name: Seq<char>) -> Seq<char>
    decreases mapping.len(),
{
    if mapping.len() == 0 {
        name
    } else if referenced_name(mapping[0].1) == Ok::<Seq<char>, CompileErrorView>(name) {
        mapping[0].0
    } else {
        tag_value_of(mapping.drop_first(), name)
    }
}

/// Whether the mapping of a discriminator fits the branches: every entry must
/// refer to a shared schema that is one of the branches. The first entry that
/// does not is the error.
pub open spec fn checked_mapping(names: Seq<Seq<char>>, mapping: Seq<(Seq<char>, Seq<char>)>) -> Result<
    (),
    CompileErrorView,
>
    decreases mapping.len(),
{
    if mapping.len() == 0 {
        Ok(())
    } else {
        match referenced_name(mapping[0].1) {
            Err(e) => Err(e),
            Ok(name) => if !names.contains(name) {
                fail(CompileErrorKind::UnknownVariant, mapping[0].0)
            } else {
                checked_mapping(names, mapping.drop_first())
            },
        }
    }
}

/// The variants of a tagged union: one for each name, in order, selected by
/// the tag value that the mapping gives the name, after the variants `acc`.
pub open spec fn named_variants(
    table: Seq<(Seq<char>, SchemaRefView)>,
    owner: Seq<char>,
    names: Seq<Seq<char>>,
    mapping: Seq<(Seq<char>, Seq<char>)>,
    tag: Seq<char>,
    acc: Seq<VariantView>,
    models: Seq<CompiledTypeView>,
    stack: Seq<Seq<char>>,
) -> Result<(Seq<VariantView>, Seq<CompiledTypeView>), CompileErrorView>
    decreases open_count(table, stack), 2nat, names, 0nat,
{
    if names.len() == 0 {
        Ok((acc, models))
    } else {
        match variant_of(
            table,
            owner,
            Some(tag_value_of(mapping, names[0])),
            names[0],
            Some(tag),
            models,
            stack,
        ) {
            Err(e) => Err(e),
            Ok((variant, models1)) => named_variants(
                table,
                owner,
                names.drop_first(),
                mapping,
                tag,
                acc.push(variant),
                models1,
                stack,
            ),
        }
    }
}

/// The variants of an untagged union: one for each branch, in order, after the
/// variants `acc`.
pub open spec fn untagged_variants(
    table: Seq<(Seq<char>, SchemaRefView)>,
    owner: Seq<char>,
    branches: Seq<SchemaRefView>,
    acc: Seq<VariantView>,
    models: Seq<CompiledTypeView>,
    stack: Seq<Seq<char>>,
) -> Result<(Seq<VariantView>, Seq<CompiledTypeView>), CompileErrorView>
    decreases open_count(table, stack), 2nat, branches, 0nat,
{
    if branches.len() == 0 {
        Ok((acc, models))
    } else {
        match branches[0] {
            SchemaRefView::Item(_) => fail(CompileErrorKind::InlineVariant, owner),
            SchemaRefView::Reference(reference) => match referenced_name(reference) {
                Err(e) => Err(e),
                Ok(name) => match variant_of(table, owner, None, name, None, models, stack) {
                    Err(e) => Err(e),
                    Ok((variant, models1)) => untagged_variants(
                        table,
                        owner,
                        branches.drop_first(),
                        acc.push(variant),
                        models1,
                        stack,
                    ),
                },
            },
        }
    }
}

/// The tagged union for the branches of a `oneOf` with a discriminator: one
/// variant for each branch, in the order of the branches. The mapping of the
/// discriminator only says which value selects a branch; a branch that it does
/// not name is selected by its own name.
pub open spec fn tagged_union(
    table: Seq<(Seq<char>, SchemaRefView)>,
    owner: Seq<char>,
    branches: Seq<SchemaRefView>,
    discriminator: DiscriminatorView,
    models: Seq<CompiledTypeView>,
    stack: Seq<Seq<char>>,
) -> Result<(CompiledKindView, Seq<CompiledTypeView>), CompileErrorView>
    decreases open_count(table, stack), 3nat, branches, 0nat,
{
    if discriminator.property_name.len() == 0 {
        fail(CompileErrorKind::EmptyDiscriminator, owner)
    } else {
        match branch_names(table, owner, branches, Seq::empty()) {
            Err(e) => Err(e),
            Ok(names) => match checked_mapping(names, discriminator.mapping) {
                Err(e) => Err(e),
                Ok(_) => match named_variants(
                    table,
                    owner,
                    names,
                    discriminator.mapping,
                    discriminator.property_name,
                    Seq::empty(),
                    models,
                    stack,
                ) {
                    Err(e) => Err(e),
                    Ok((variants, models1)) => Ok(
                        (
                            CompiledKindView::Tagged {
                                tag: discriminator.property_name,
                                variants,
                            },
                            models1,
                        ),
                    ),
                },
            },
        }
    }
}

/// The model that the schema `schema`, whose identifier `ident` is on the
/// stack, compiles to; `None` where it needs no named type.
pub open spec fn built_model(
    table: Seq<(Seq<char>, SchemaRefView)>,
    ident: Seq<char>,
    schema: SchemaView,
    models: Seq<CompiledTypeView>,
    stack: Seq<Seq<char>>,
) -> Result<(Option<CompiledTypeView>, Seq<CompiledTypeView>), CompileErrorView>
    decreases open_count(table, stack), 3nat, schema, 0nat,
{
    let kind: Result<(Option<CompiledKindView>, Seq<CompiledTypeView>), CompileErrorView> =
        match schema.kind {
        SchemaKindView::Object { properties, required, additional } => if properties.len() == 0 {
            Ok((None, models))
        } else {
            match object_body(table, schema.kind, None, models, stack) {
                Err(e) => Err(e),
                Ok((body, models1)) => Ok((Some(CompiledKindView::Struct(body)), models1)),
            }
        },
        SchemaKindView::Array { items, unique_items } => Ok((None, models)),
        SchemaKindView::String { format, enumeration } => match enumeration_model(
            ident,
            enumeration,
        ) {
            Err(e) => Err(e),
            Ok(made) => Ok((made, models)),
        },
        SchemaKindView::Integer { format, enumeration } => match scalar_model(ident, enumeration) {
            Err(e) => Err(e),
            Ok(made) => Ok((made, models)),
        },
        SchemaKindView::Number { format, enumeration } => match scalar_model(ident, enumeration) {
            Err(e) => Err(e),
            Ok(made) => Ok((made, models)),
        },
        SchemaKindView::Boolean { enumeration } => match scalar_model(ident, enumeration) {
            Err(e) => Err(e),
            Ok(made) => Ok((made, models)),
        },
        SchemaKindView::OneOf(branches) => {
            let made = match schema.discriminator {
                Some(discriminator) => tagged_union(
                    table,
                    ident,
                    branches,
                    discriminator,
                    models,
                    stack,
                ),
                None => match untagged_variants(
                    table,
                    ident,
                    branches,
                    Seq::empty(),
                    models,
                    stack,
                ) {
                    Err(e) => Err(e),
                    Ok((variants, models1)) => Ok(
                        (CompiledKindView::Untagged(variants), models1),
                    ),
                },
            };
            match made {
                Err(e) => Err(e),
                Ok((kind, models1)) => Ok((Some(kind), models1)),
            }
        },
        SchemaKindView::AnyOf(_) => fail(CompileErrorKind::AnyOf, ident),
        SchemaKindView::AllOf(branches) => match composed_body(
            table,
            ident,
            branches,
            None,
            models,
            stack,
        ) {
            Err(e) => Err(e),
            Ok((body, models1)) => Ok((Some(CompiledKindView::Struct(body)), models1)),
        },
        SchemaKindView::Not(_) => fail(CompileErrorKind::Not, ident),
        SchemaKindView::Any { trivial } => if trivial {
            Ok((None, models))
        } else {
            fail(CompileErrorKind::FreeForm, ident)
        },
    };
    match kind {
        Err(e) => Err(e),
        Ok((None, models1)) => Ok((None, models1)),
        Ok((Some(kind), models1)) => Ok(
            (Some(CompiledTypeView { ident, description: schema.description, kind }), models1),
        ),
    }
}

/// Compiles the schema `schema` under the identifier `ident` unless a model of
/// that identifier exists: whether there is such a model afterwards, and the
/// models then. Entering an identifier that is on the stack is a cycle.
pub open spec fn generated(
    table: Seq<(Seq<char>, SchemaRefView)>,
    ident: Seq<char>,
    schema: SchemaView,
    models: Seq<CompiledTypeView>,
    stack: Seq<Seq<char>>,
) -> Result<(bool, Seq<CompiledTypeView>), CompileErrorView> {
    if has_model(models, ident) {
        Ok((true, models))
    } else if stack.contains(ident) {
        fail(CompileErrorKind::CyclicDependency, ident)
    } else {
        match built_model(table, ident, schema, models, stack.push(ident)) {
            Err(e) => Err(e),
            Ok((Some(model), models1)) => Ok((true, models1.push(model))),
            Ok((None, models1)) => Ok((false, models1)),
        }
    }
}

/// The models after compiling the entries of the schema table from position
/// `from` on, in order, given the models made before. An entry that is a
/// reference is passed over.
pub open spec fn generated_components(
    table: Seq<(Seq<char>, SchemaRefView)>,
    from: int,
    models: Seq<CompiledTypeView>,
) -> Result<Seq<CompiledTypeView>, CompileErrorView>
    decreases table.len() - from,
{
    if from < 0 || from >= table.len() {
        Ok(models)
    } else {
        match table[from].1 {
            SchemaRefView::Reference(_) => generated_components(table, from + 1, models),
            SchemaRefView::Item(schema) => match model_ident(table[from].0) {
                Err(e) => Err(e),
                Ok(ident) => match generated(table, ident, schema, models, Seq::empty()) {
                    Err(e) => Err(e),
                    Ok((_, models1)) => generated_components(table, from + 1, models1),
                },
            },
        }
    }
}

} // verus!
