//! The type model compiler: named schemas become structs, tagged or untagged
//! unions and closed enumerations; everything else becomes a type expression
//! that stands in place. A type may not depend on itself: whenever a reference
//! is followed, the identifier of its target goes on a stack, and meeting an
//! identifier that is on the stack is an error.
use vstd::prelude::*;
use vstd::string::*;
use crate::ir::{
    CompileError, CompileErrorKind, CompileErrorView, CompiledKind, CompiledType, CompiledTypeView,
    Literal, TypeExpr, TypeExprView,
};
use crate::model::intersections::generate_composed_object_struct_body;
use crate::model::objects::generate_object_struct_body;
use crate::model::types::inline_ref_or_schema;
use crate::model::unions::{generate_tagged_enum_model, generate_untagged_enum_model};
use crate::model_laws::lemma_reading_keeps_models;
use crate::model_spec::{
    built_model, enumeration_model, fail, generated, generated_components, has_model, ident_of,
    integer_type, literal_ident_source, literals_of, model_ident, number_type, open_count,
    referenced_name, scalar_model, string_type,
};
use crate::operation_spec::typed;
use crate::outside::{
    in_progress, is_token_stream, is_xid_start, lexes_as_tokens, parse_ident, set_contains,
    set_insert, set_new, set_swap_remove, to_pascal_case,
};
use crate::schema::{properties_view, schema_refs_view, Schema, SchemaKind, SchemaRef};
use crate::text::{concat2, starts_with, str_eq, tail_from};
use indexmap::IndexSet;

pub mod intersections;
pub mod objects;
pub mod types;
pub mod unions;

verus! {

/// Whether a result of the library is the result that the mathematics gives.
pub open spec fn agrees<T: DeepView, E: DeepView>(r: Result<T, E>, expected: Result<T::V, E::V>) -> bool {
    match expected {
        Ok(value) => r is Ok && r->Ok_0.deep_view() == value,
        Err(error) => r is Err && r->Err_0.deep_view() == error,
    }
}

/// Appends to a list, stated over deep views.
pub fn push_item<T: DeepView>(list: &mut Vec<T>, item: T)
    ensures
        final(list).deep_view() == old(list).deep_view().push(item.deep_view()),
        final(list)@ == old(list)@.push(item),
{
    list.push(item);
    assert(list.deep_view() =~= old(list).deep_view().push(item.deep_view()));
}

/// A copy of an optional string.
pub fn copy_text(text: &Option<String>) -> (r: Option<String>)
    ensures
        r.deep_view() == text.deep_view(),
{
    match text {
        Some(s) => Some(s.clone()),
        None => None,
    }
}

/// An error of the given kind at the given subject.
pub fn error(kind: CompileErrorKind, subject: &str) -> (r: CompileError)
    ensures
        r.kind == kind,
        r.subject@ == subject@,
{
    CompileError { kind, subject: String::from_str(subject) }
}

/// An error of the given kind without a subject.
pub fn plain_error(kind: CompileErrorKind) -> (r: CompileError)
    ensures
        r.kind == kind,
        r.subject@ == Seq::<char>::empty(),
{
    CompileError { kind, subject: String::new() }
}

/// Makes a Rust identifier for a name: the name itself where it is one, the
/// name with an underscore for a keyword that cannot be raw, the raw form
/// otherwise; an error where even that is no identifier.
pub fn identifier(name: &str) -> (r: Result<String, CompileError>)
    ensures
        agrees(r, ident_of(name@)),
{
    match parse_ident(name) {
        Some(ident) => Ok(ident),
        None => {
            if str_eq(name, "crate") || str_eq(name, "self") || str_eq(name, "super") || str_eq(
                name,
                "Self",
            ) {
                Ok(concat2(name, "_"))
            } else {
                let raw = concat2("r#", name);
                match parse_ident(raw.as_str()) {
                    Some(ident) => Ok(ident),
                    None => Err(error(CompileErrorKind::InvalidIdentifier, name)),
                }
            }
        },
    }
}

/// The identifier of the model for the shared schema named `name`.
pub fn model_identifier(name: &str) -> (r: Result<String, CompileError>)
    ensures
        agrees(r, model_ident(name@)),
{
    let pascal = to_pascal_case(name);
    identifier(pascal.as_str())
}

/// The name of the shared schema that `reference` points to; an error where
/// the reference does not point into the shared schemas.
pub fn reference_schema_name(reference: &str) -> (r: Result<String, CompileError>)
    ensures
        agrees(r, referenced_name(reference@)),
{
    let prefix = "#/components/schemas/";
    if starts_with(reference, prefix) {
        let n = prefix.unicode_len();
        Ok(tail_from(reference, n))
    } else {
        Err(error(CompileErrorKind::ForeignReference, reference))
    }
}

/// Whether `models` holds a model of the identifier `ident`.
pub fn contains_model(models: &Vec<CompiledType>, ident: &str) -> (r: bool)
    ensures
        r == has_model(models.deep_view(), ident@),
{
    let mut i: usize = 0;
    while i < models.len()
        invariant
            i <= models.len(),
            forall|j: int| 0 <= j < i ==> (#[trigger] models.deep_view()[j]).ident != ident@,
        decreases models.len() - i,
    {
        if str_eq(models[i].ident.as_str(), ident) {
            assert(models.deep_view()[i as int].ident == ident@);
            return true;
        }
        assert(models.deep_view()[i as int].ident == models[i as int].ident@);
        i += 1;
    }
    false
}

/// The type for a made-up format: the format itself, where it can stand as a
/// type.
fn custom_type(format: &String) -> (r: Result<TypeExpr, CompileError>)
    ensures
        agrees(
            r,
            if lexes_as_tokens(format@) {
                Ok(TypeExprView::Custom(format@))
            } else {
                fail(CompileErrorKind::InvalidFormat, format@)
            },
        ),
{
    if is_token_stream(format.as_str()) {
        Ok(TypeExpr::Custom(format.clone()))
    } else {
        Err(error(CompileErrorKind::InvalidFormat, format.as_str()))
    }
}

/// The type of a string schema that stands in place.
pub fn inline_string(format: &Option<String>, enumeration: &Vec<Option<String>>) -> (r: Result<
    TypeExpr,
    CompileError,
>)
    ensures
        agrees(r, string_type(format.deep_view(), enumeration.deep_view())),
{
    if enumeration.len() > 0 {
        return Err(plain_error(CompileErrorKind::InlineEnum));
    }
    match format {
        None => Ok(TypeExpr::Text),
        Some(f) => {
            if str_eq(f.as_str(), "date") {
                Ok(TypeExpr::Date)
            } else if str_eq(f.as_str(), "date-time") {
                Ok(TypeExpr::DateTime)
            } else if str_eq(f.as_str(), "byte") || str_eq(f.as_str(), "password") {
                Ok(TypeExpr::Text)
            } else if str_eq(f.as_str(), "binary") {
                Ok(TypeExpr::Bytes)
            } else {
                custom_type(f)
            }
        },
    }
}

/// The type of an integer schema that stands in place.
pub fn inline_integer(format: &Option<String>, enumeration: &Vec<Option<String>>) -> (r: Result<
    TypeExpr,
    CompileError,
>)
    ensures
        agrees(r, integer_type(format.deep_view(), enumeration.deep_view())),
{
    if enumeration.len() > 0 {
        return Err(plain_error(CompileErrorKind::InlineEnum));
    }
    match format {
        None => Ok(TypeExpr::Int64),
        Some(f) => {
            if str_eq(f.as_str(), "int32") {
                Ok(TypeExpr::Int32)
            } else if str_eq(f.as_str(), "int64") {
                Ok(TypeExpr::Int64)
            } else {
                custom_type(f)
            }
        },
    }
}

/// The type of a number schema that stands in place.
pub fn inline_number(format: &Option<String>, enumeration: &Vec<Option<String>>) -> (r: Result<
    TypeExpr,
    CompileError,
>)
    ensures
        agrees(r, number_type(format.deep_view(), enumeration.deep_view())),
{
    if enumeration.len() > 0 {
        return Err(plain_error(CompileErrorKind::InlineEnum));
    }
    match format {
        None => Ok(TypeExpr::Double),
        Some(f) => {
            if str_eq(f.as_str(), "float") {
                Ok(TypeExpr::Float)
            } else if str_eq(f.as_str(), "double") {
                Ok(TypeExpr::Double)
            } else {
                custom_type(f)
            }
        },
    }
}

/// Whether an enumeration holds `null`.
pub fn has_null(enumeration: &Vec<Option<String>>) -> (r: bool)
    ensures
        r == enumeration.deep_view().contains(None),
{
    let mut i: usize = 0;
    while i < enumeration.len()
        invariant
            i <= enumeration.len(),
            forall|j: int| 0 <= j < i ==> (#[trigger] enumeration.deep_view()[j]) is Some,
        decreases enumeration.len() - i,
    {
        if enumeration[i].is_none() {
            assert(enumeration.deep_view()[i as int] == None::<Seq<char>>);
            return true;
        }
        i += 1;
    }
    false
}

/// The closed enumeration for a string schema: one member for each literal,
/// which keeps the literal as it is written and gets an identifier made from
/// it.
#[verifier::loop_isolation(false)]
pub fn generate_string_model(owner: &str, enumeration: &Vec<Option<String>>) -> (r: Result<
    Option<CompiledKind>,
    CompileError,
>)
    ensures
        agrees(r, enumeration_model(owner@, enumeration.deep_view())),
{
    if enumeration.len() == 0 {
        return Ok(None);
    }
    if has_null(enumeration) {
        return Err(error(CompileErrorKind::NullableEnum, owner));
    }
    let mut literals: Vec<Literal> = Vec::new();
    let mut i: usize = 0;
    proof {
        assert(enumeration.deep_view().skip(0) =~= enumeration.deep_view());
        assert(literals.deep_view() =~= Seq::empty());
    }
    while i < enumeration.len()
        invariant
            i <= enumeration.len(),
            enumeration.len() > 0,
            !enumeration.deep_view().contains(None),
            literals_of(enumeration.deep_view(), Seq::empty()) == literals_of(
                enumeration.deep_view().skip(i as int),
                literals.deep_view(),
            ),
        decreases enumeration.len() - i,
    {
        proof {
            let rest = enumeration.deep_view().skip(i as int);
            assert(rest[0] == enumeration.deep_view()[i as int]);
            assert(rest.drop_first() =~= enumeration.deep_view().skip(i as int + 1));
        }
        match &enumeration[i] {
            None => {
                proof {
                    assert(enumeration.deep_view()[i as int] == None::<Seq<char>>);
                    assert(false);
                }
                return Err(plain_error(CompileErrorKind::NullableEnum));
            },
            Some(literal) => {
                let pascal = to_pascal_case(literal.as_str());
                let source = if literal.as_str().unicode_len() == 0 {
                    String::from_str("EmptyString")
                } else {
                    let first = literal.as_str().get_char(0);
                    if first != '_' && !is_xid_start(first) {
                        concat2("__", pascal.as_str())
                    } else {
                        pascal
                    }
                };
                assert(source@ == literal_ident_source(literal@));
                match identifier(source.as_str()) {
                    Err(e) => {
                        return Err(e);
                    },
                    Ok(ident) => {
                        push_item(&mut literals, Literal { ident, literal: literal.clone() });
                    },
                }
            },
        }
        i += 1;
    }
    Ok(Some(CompiledKind::Enumeration(literals)))
}

/// What an integer, number or boolean schema compiles to: nothing where it
/// enumerates nothing; enumerations of these are not supported.
pub fn generate_scalar_model(owner: &str, enumeration: &Vec<Option<String>>) -> (r: Result<
    Option<CompiledKind>,
    CompileError,
>)
    ensures
        agrees(r, scalar_model(owner@, enumeration.deep_view())),
{
    if enumeration.len() == 0 {
        Ok(None)
    } else if has_null(enumeration) {
        Err(error(CompileErrorKind::NullableEnum, owner))
    } else {
        Err(error(CompileErrorKind::ScalarEnum, owner))
    }
}

/// Whether a call left what the mathematics gives: on success the value and
/// the models made. The schemas in progress are as they were before the call,
/// whether it succeeded or failed. After a failure the list of models holds
/// what had been made when the error was found.
pub open spec fn outcome<T: DeepView>(
    res: Result<T, CompileError>,
    models_after: Seq<CompiledTypeView>,
    stack_before: Seq<Seq<char>>,
    stack_after: Seq<Seq<char>>,
    expected: Result<(T::V, Seq<CompiledTypeView>), CompileErrorView>,
) -> bool {
    match expected {
        Ok((value, models)) => res is Ok && res->Ok_0.deep_view() == value && models_after
            == models && stack_after == stack_before,
        Err(e) => res is Err && res->Err_0.deep_view() == e && stack_after == stack_before,
    }
}

/// The deep view of a list of named schemas is the view that schemas use.
pub proof fn lemma_properties_view(list: Vec<(String, SchemaRef)>)
    ensures
        list.deep_view() == properties_view(list@),
{
    assert(list.deep_view() =~= properties_view(list@));
}

/// The deep view of a list of schemas is the view that schemas use.
pub proof fn lemma_refs_view(list: Vec<SchemaRef>)
    ensures
        list.deep_view() == schema_refs_view(list@),
{
    assert(list.deep_view() =~= schema_refs_view(list@));
}

/// Enters a schema: its identifier, which is not in progress, comes last
/// among those that are.
pub(crate) fn enter(stack: &mut IndexSet<String>, ident: String)
    requires
        !in_progress(*old(stack)).contains(ident@),
    ensures
        in_progress(*final(stack)) == in_progress(*old(stack)).push(ident@),
{
    let _ = set_insert(stack, ident);
}

/// Leaves the schema that was entered last.
pub(crate) fn leave(stack: &mut IndexSet<String>, ident: &str, Ghost(before): Ghost<Seq<Seq<char>>>)
    requires
        in_progress(*old(stack)) == before.push(ident@),
        !before.contains(ident@),
    ensures
        in_progress(*final(stack)) == before,
{
    let ghost held = in_progress(*stack);
    assert(held[before.len() as int] == ident@);
    let _ = set_swap_remove(stack, ident);
    proof {
        let i = choose|i: int|
            0 <= i < held.len() && held[i] == ident@ && in_progress(*stack) == held.update(
                i,
                held.last(),
            ).drop_last();
        if i < before.len() {
            assert(before[i] == held[i]);
            assert(before.contains(ident@));
        }
        assert(held.update(i, held.last()).drop_last() =~= before);
    }
}

/// Compiles a schema whose identifier is on the stack: a struct for an object
/// with properties or an intersection, a union for a `oneOf`, a closed
/// enumeration for an enumerated string; `None` for what needs no named type.
/// `anyOf`, `not` and free-form schemas that constrain something are errors.
pub fn build_model(
    table: &Vec<(String, SchemaRef)>,
    ident: &str,
    schema: &Schema,
    models: &mut Vec<CompiledType>,
    stack: &mut IndexSet<String>,
) -> (res: Result<Option<CompiledType>, CompileError>)
    ensures
        outcome(
            res,
            final(models).deep_view(),
            in_progress(*old(stack)),
            in_progress(*final(stack)),
            built_model(
                table.deep_view(),
                ident@,
                schema.deep_view(),
                old(models).deep_view(),
                in_progress(*old(stack)),
            ),
        ),
    decreases open_count(table.deep_view(), in_progress(*old(stack))), 3nat, schema, 0nat,
{
    let kind = match &schema.kind {
        SchemaKind::Object { properties, required, additional } => {
            proof {
                lemma_properties_view(*properties);
            }
            if properties.len() == 0 {
                None
            } else {
                match generate_object_struct_body(table, &schema.kind, None, models, stack) {
                    Err(e) => {
                        return Err(e);
                    },
                    Ok(body) => Some(CompiledKind::Struct(body)),
                }
            }
        },
        SchemaKind::Array { items, unique_items } => None,
        SchemaKind::String { format, enumeration } => {
            match generate_string_model(ident, enumeration) {
                Err(e) => {
                    return Err(e);
                },
                Ok(made) => made,
            }
        },
        SchemaKind::Integer { format, enumeration } => {
            match generate_scalar_model(ident, enumeration) {
                Err(e) => {
                    return Err(e);
                },
                Ok(made) => made,
            }
        },
        SchemaKind::Number { format, enumeration } => {
            match generate_scalar_model(ident, enumeration) {
                Err(e) => {
                    return Err(e);
                },
                Ok(made) => made,
            }
        },
        SchemaKind::Boolean { enumeration } => {
            match generate_scalar_model(ident, enumeration) {
                Err(e) => {
                    return Err(e);
                },
                Ok(made) => made,
            }
        },
        SchemaKind::OneOf(branches) => {
            proof {
                lemma_refs_view(*branches);
            }
            let made = match &schema.discriminator {
                Some(discriminator) => generate_tagged_enum_model(
                    table,
                    ident,
                    branches,
                    discriminator,
                    models,
                    stack,
                ),
                None => generate_untagged_enum_model(table, ident, branches, models, stack),
            };
            match made {
                Err(e) => {
                    return Err(e);
                },
                Ok(kind) => Some(kind),
            }
        },
        SchemaKind::AnyOf(_) => {
            return Err(error(CompileErrorKind::AnyOf, ident));
        },
        SchemaKind::AllOf(branches) => {
            proof {
                lemma_refs_view(*branches);
            }
            match generate_composed_object_struct_body(
                table,
                ident,
                branches,
                None,
                models,
                stack,
            ) {
                Err(e) => {
                    return Err(e);
                },
                Ok(body) => Some(CompiledKind::Struct(body)),
            }
        },
        SchemaKind::Not(_) => {
            return Err(error(CompileErrorKind::Not, ident));
        },
        SchemaKind::Any { trivial } => {
            if *trivial {
                None
            } else {
                return Err(error(CompileErrorKind::FreeForm, ident));
            }
        },
    };
    match kind {
        None => Ok(None),
        Some(kind) => Ok(
            Some(
                CompiledType {
                    ident: String::from_str(ident),
                    description: copy_text(&schema.description),
                    kind,
                },
            ),
        ),
    }
}

/// Compiles the schema `schema` under the identifier `ident`, with the models
/// that it depends on, unless a model of that identifier exists already. Says
/// whether there is a model of that identifier afterwards: `false` means that
/// the schema stands in place wherever it is used. Entering an identifier that
/// is on the stack is a cyclic dependency.
pub fn generate_model(
    table: &Vec<(String, SchemaRef)>,
    ident: &str,
    schema: &Schema,
    models: &mut Vec<CompiledType>,
    stack: &mut IndexSet<String>,
) -> (res: Result<bool, CompileError>)
    ensures
        outcome(
            res,
            final(models).deep_view(),
            in_progress(*old(stack)),
            in_progress(*final(stack)),
            generated(
                table.deep_view(),
                ident@,
                schema.deep_view(),
                old(models).deep_view(),
                in_progress(*old(stack)),
            ),
        ),
{
    if contains_model(models, ident) {
        return Ok(true);
    }
    if set_contains(stack, ident) {
        return Err(error(CompileErrorKind::CyclicDependency, ident));
    }
    let ghost before = in_progress(*stack);
    enter(stack, String::from_str(ident));
    match build_model(table, ident, schema, models, stack) {
        Err(e) => {
            leave(stack, ident, Ghost(before));
            Err(e)
        },
        Ok(Some(model)) => {
            push_item(models, model);
            leave(stack, ident, Ghost(before));
            Ok(true)
        },
        Ok(None) => {
            leave(stack, ident, Ghost(before));
            Ok(false)
        },
    }
}

/// Compiles every schema of the table, in order, into the list of named types.
/// An entry that is itself a reference is passed over.
#[verifier::loop_isolation(false)]
pub fn generate_components(table: &Vec<(String, SchemaRef)>) -> (res: Result<
    Vec<CompiledType>,
    CompileError,
>)
    ensures
        agrees(res, generated_components(table.deep_view(), 0, Seq::empty())),
{
    let mut models: Vec<CompiledType> = Vec::new();
    let mut stack = set_new();
    let mut i: usize = 0;
    proof {
        assert(models.deep_view() =~= Seq::empty());
    }
    while i < table.len()
        invariant
            i <= table.len(),
            in_progress(stack) == Seq::<Seq<char>>::empty(),
            generated_components(table.deep_view(), 0, Seq::empty()) == generated_components(
                table.deep_view(),
                i as int,
                models.deep_view(),
            ),
        decreases table.len() - i,
    {
        assert(table.deep_view()[i as int] == (table[i as int].0@, table[i as int].1.deep_view()));
        match &table[i].1 {
            SchemaRef::Reference(_) => {},
            SchemaRef::Item(schema) => {
                let ident = match model_identifier(table[i].0.as_str()) {
                    Err(e) => {
                        return Err(e);
                    },
                    Ok(ident) => ident,
                };
                match generate_model(table, ident.as_str(), schema, &mut models, &mut stack) {
                    Err(e) => {
                        return Err(e);
                    },
                    Ok(_) => {},
                }
            },
        }
        i += 1;
    }
    Ok(models)
}

/// The type that stands where `r` stands, once the models have been made: the
/// name of the model for a reference to a schema that has one, the type in
/// place otherwise. The models are only read.
pub fn type_of(table: &Vec<(String, SchemaRef)>, r: &SchemaRef, models: &mut Vec<CompiledType>) -> (res:
    Result<TypeExpr, CompileError>)
    ensures
        agrees(res, typed(table.deep_view(), r.deep_view(), old(models).deep_view())),
        res is Ok ==> final(models).deep_view() == old(models).deep_view(),
{
    let mut stack = set_new();
    proof {
        lemma_reading_keeps_models(
            table.deep_view(),
            r.deep_view(),
            models.deep_view(),
            Seq::empty(),
        );
    }
    match inline_ref_or_schema(table, r, models, &mut stack, false) {
        Err(e) => Err(e),
        Ok((t, _)) => Ok(t),
    }
}

} // verus!
