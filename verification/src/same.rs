//! Whether two parts of a document are the very same, by their views.
use vstd::prelude::*;
use crate::model::{lemma_properties_view, lemma_refs_view};
use crate::schema::{
    additional_view, schema_kind_view, Additional, Discriminator, Schema, SchemaKind, SchemaRef,
};
use crate::text::str_eq;

verus! {

/// Whether two optional strings are the same.
pub fn text_eq(a: &Option<String>, b: &Option<String>) -> (r: bool)
    ensures
        r == (a.deep_view() == b.deep_view()),
{
    match (a, b) {
        (None, None) => true,
        (Some(x), Some(y)) => str_eq(x.as_str(), y.as_str()),
        _ => false,
    }
}

/// Whether two pairs of strings are the same.
pub fn pair_eq(a: &(String, String), b: &(String, String)) -> (r: bool)
    ensures
        r == (a.deep_view() == b.deep_view()),
{
    str_eq(a.0.as_str(), b.0.as_str()) && str_eq(a.1.as_str(), b.1.as_str())
}

/// Whether two lists of strings are the same.
#[verifier::loop_isolation(false)]
pub fn strings_eq(a: &Vec<String>, b: &Vec<String>) -> (r: bool)
    ensures
        r == (a.deep_view() == b.deep_view()),
{
    if a.len() != b.len() {
        assert(a.deep_view().len() != b.deep_view().len());
        return false;
    }
    let mut i: usize = 0;
    while i < a.len()
        invariant
            i <= a.len(),
            a.len() == b.len(),
            forall|j: int| 0 <= j < i ==> a.deep_view()[j] == b.deep_view()[j],
        decreases a.len() - i,
    {
        proof {
            assert(a.deep_view()[i as int] == a[i as int].deep_view());
            assert(b.deep_view()[i as int] == b[i as int].deep_view());
        }
        if !str_eq(a[i].as_str(), b[i].as_str()) {
            return false;
        }
        i += 1;
    }
    assert(a.deep_view() =~= b.deep_view());
    true
}

/// Whether two lists of optional strings are the same.
#[verifier::loop_isolation(false)]
pub fn literals_eq(a: &Vec<Option<String>>, b: &Vec<Option<String>>) -> (r: bool)
    ensures
        r == (a.deep_view() == b.deep_view()),
{
    if a.len() != b.len() {
        assert(a.deep_view().len() != b.deep_view().len());
        return false;
    }
    let mut i: usize = 0;
    while i < a.len()
        invariant
            i <= a.len(),
            a.len() == b.len(),
            forall|j: int| 0 <= j < i ==> a.deep_view()[j] == b.deep_view()[j],
        decreases a.len() - i,
    {
        proof {
            assert(a.deep_view()[i as int] == a[i as int].deep_view());
            assert(b.deep_view()[i as int] == b[i as int].deep_view());
        }
        if !text_eq(&a[i], &b[i]) {
            return false;
        }
        i += 1;
    }
    assert(a.deep_view() =~= b.deep_view());
    true
}

/// Whether two lists of pairs of strings are the same.
#[verifier::loop_isolation(false)]
pub fn pairs_eq(a: &Vec<(String, String)>, b: &Vec<(String, String)>) -> (r: bool)
    ensures
        r == (a.deep_view() == b.deep_view()),
{
    if a.len() != b.len() {
        assert(a.deep_view().len() != b.deep_view().len());
        return false;
    }
    let mut i: usize = 0;
    while i < a.len()
        invariant
            i <= a.len(),
            a.len() == b.len(),
            forall|j: int| 0 <= j < i ==> a.deep_view()[j] == b.deep_view()[j],
        decreases a.len() - i,
    {
        proof {
            assert(a.deep_view()[i as int] == a[i as int].deep_view());
            assert(b.deep_view()[i as int] == b[i as int].deep_view());
        }
        if !pair_eq(&a[i], &b[i]) {
            return false;
        }
        i += 1;
    }
    assert(a.deep_view() =~= b.deep_view());
    true
}

/// Whether two discriminators are the same.
pub fn discriminator_eq(a: &Option<Discriminator>, b: &Option<Discriminator>) -> (r: bool)
    ensures
        r == (a.deep_view() == b.deep_view()),
{
    match (a, b) {
        (None, None) => true,
        (Some(x), Some(y)) => str_eq(x.property_name.as_str(), y.property_name.as_str())
            && pairs_eq(&x.mapping, &y.mapping),
        _ => false,
    }
}

/// Whether two schemas or references are the same.
pub fn schema_ref_eq(a: &SchemaRef, b: &SchemaRef) -> (r: bool)
    ensures
        r == (a.deep_view() == b.deep_view()),
    decreases a,
{
    match (a, b) {
        (SchemaRef::Reference(x), SchemaRef::Reference(y)) => str_eq(x.as_str(), y.as_str()),
        (SchemaRef::Item(x), SchemaRef::Item(y)) => schema_eq(x, y),
        _ => false,
    }
}

/// Whether two lists of schemas or references are the same.
#[verifier::loop_isolation(false)]
pub fn schema_refs_eq(a: &Vec<SchemaRef>, b: &Vec<SchemaRef>) -> (r: bool)
    ensures
        r == (a.deep_view() == b.deep_view()),
    decreases a,
{
    if a.len() != b.len() {
        assert(a.deep_view().len() != b.deep_view().len());
        return false;
    }
    let mut i: usize = 0;
    while i < a.len()
        invariant
            i <= a.len(),
            a.len() == b.len(),
            forall|j: int| 0 <= j < i ==> a.deep_view()[j] == b.deep_view()[j],
        decreases a.len() - i,
    {
        proof {
            assert(a.deep_view()[i as int] == a[i as int].deep_view());
            assert(b.deep_view()[i as int] == b[i as int].deep_view());
            assert(decreases_to!(*a => a[i as int]));
        }
        if !schema_ref_eq(&a[i], &b[i]) {
            return false;
        }
        i += 1;
    }
    assert(a.deep_view() =~= b.deep_view());
    true
}

/// Whether two named schemas or references are the same.
pub fn property_eq(a: &(String, SchemaRef), b: &(String, SchemaRef)) -> (r: bool)
    ensures
        r == (a.deep_view() == b.deep_view()),
    decreases a,
{
    str_eq(a.0.as_str(), b.0.as_str()) && schema_ref_eq(&a.1, &b.1)
}

/// Whether two lists of named schemas or references are the same.
#[verifier::loop_isolation(false)]
pub fn properties_eq(a: &Vec<(String, SchemaRef)>, b: &Vec<(String, SchemaRef)>) -> (r: bool)
    ensures
        r == (a.deep_view() == b.deep_view()),
    decreases a,
{
    if a.len() != b.len() {
        assert(a.deep_view().len() != b.deep_view().len());
        return false;
    }
    let mut i: usize = 0;
    while i < a.len()
        invariant
            i <= a.len(),
            a.len() == b.len(),
            forall|j: int| 0 <= j < i ==> a.deep_view()[j] == b.deep_view()[j],
        decreases a.len() - i,
    {
        proof {
            assert(a.deep_view()[i as int] == a[i as int].deep_view());
            assert(b.deep_view()[i as int] == b[i as int].deep_view());
            assert(decreases_to!(*a => a[i as int]));
        }
        if !property_eq(&a[i], &b[i]) {
            return false;
        }
        i += 1;
    }
    assert(a.deep_view() =~= b.deep_view());
    true
}

/// Whether two objects say the same of additional properties.
pub fn additional_eq(a: &Additional, b: &Additional) -> (r: bool)
    ensures
        r == (additional_view(*a) == additional_view(*b)),
    decreases a,
{
    match (a, b) {
        (Additional::Absent, Additional::Absent) => true,
        (Additional::Any(x), Additional::Any(y)) => *x == *y,
        (Additional::Schema(x), Additional::Schema(y)) => schema_ref_eq(&**x, &**y),
        _ => false,
    }
}

/// Whether the parts of two schemas are the same.
pub fn kind_eq(a: &SchemaKind, b: &SchemaKind) -> (r: bool)
    ensures
        r == (schema_kind_view(*a) == schema_kind_view(*b)),
    decreases a,
{
    match (a, b) {
        (
            SchemaKind::Object { properties: left, required: left_required, additional: left_extra },
            SchemaKind::Object {
                properties: right,
                required: right_required,
                additional: right_extra,
            },
        ) => {
            proof {
                lemma_properties_view(*left);
                lemma_properties_view(*right);
            }
            properties_eq(left, right) && strings_eq(left_required, right_required) && additional_eq(
                left_extra,
                right_extra,
            )
        },
        (
            SchemaKind::Array { items: i1, unique_items: u1 },
            SchemaKind::Array { items: i2, unique_items: u2 },
        ) => {
            let same = match (i1, i2) {
                (None, None) => true,
                (Some(x), Some(y)) => schema_ref_eq(&**x, &**y),
                _ => false,
            };
            same && *u1 == *u2
        },
        (
            SchemaKind::String { format: f1, enumeration: e1 },
            SchemaKind::String { format: f2, enumeration: e2 },
        ) => text_eq(f1, f2) && literals_eq(e1, e2),
        (
            SchemaKind::Integer { format: f1, enumeration: e1 },
            SchemaKind::Integer { format: f2, enumeration: e2 },
        ) => text_eq(f1, f2) && literals_eq(e1, e2),
        (
            SchemaKind::Number { format: f1, enumeration: e1 },
            SchemaKind::Number { format: f2, enumeration: e2 },
        ) => text_eq(f1, f2) && literals_eq(e1, e2),
        (SchemaKind::Boolean { enumeration: e1 }, SchemaKind::Boolean { enumeration: e2 }) => literals_eq(
            e1,
            e2,
        ),
        (SchemaKind::OneOf(x), SchemaKind::OneOf(y)) => {
            proof {
                lemma_refs_view(*x);
                lemma_refs_view(*y);
            }
            schema_refs_eq(x, y)
        },
        (SchemaKind::AllOf(x), SchemaKind::AllOf(y)) => {
            proof {
                lemma_refs_view(*x);
                lemma_refs_view(*y);
            }
            schema_refs_eq(x, y)
        },
        (SchemaKind::AnyOf(x), SchemaKind::AnyOf(y)) => {
            proof {
                lemma_refs_view(*x);
                lemma_refs_view(*y);
            }
            schema_refs_eq(x, y)
        },
        (SchemaKind::Not(x), SchemaKind::Not(y)) => schema_ref_eq(&**x, &**y),
        (SchemaKind::Any { trivial: t1 }, SchemaKind::Any { trivial: t2 }) => *t1 == *t2,
        _ => false,
    }
}

/// Whether two schemas are the very same: the same parts, the same
/// description and discriminator, and the same in everything else they say.
pub fn schema_eq(a: &Schema, b: &Schema) -> (r: bool)
    ensures
        r == (a.deep_view() == b.deep_view()),
    decreases a,
{
    text_eq(&a.description, &b.description) && discriminator_eq(&a.discriminator, &b.discriminator)
        && kind_eq(&a.kind, &b.kind) && str_eq(a.rest.as_str(), b.rest.as_str())
}

} // verus!
