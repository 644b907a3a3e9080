//! Reading and writing the values of closed enumerations and the tags of
//! tagged unions. A value is read from and written as the literal of the
//! document, never as the identifier that was made from it.
use vstd::prelude::*;
use vstd::string::*;
use crate::ir::{CompiledKindView, Literal, LiteralView, Variant, VariantView};
use crate::model_spec::{enumeration_model, ident_of, literal_ident_source, literals_of};
use crate::text::{concat3, str_eq};

verus! {

/// Whether some member of the enumeration is written as `text`.
pub open spec fn is_member(literals: Seq<LiteralView>, text: Seq<char>) -> bool {
    exists|i: int| 0 <= i < literals.len() && (#[trigger] literals[i]).literal == text
}

/// The member that `text` is read as: the first that is written so.
pub open spec fn member_of(literals: Seq<LiteralView>, text: Seq<char>) -> int {
    choose|i: int|
        0 <= i < literals.len() && (#[trigger] literals[i]).literal == text && forall|j: int|
            0 <= j < i ==> (#[trigger] literals[j]).literal != text
}

/// The error of reading a text that no member of an enumeration is written
/// as.
#[derive(Debug, PartialEq, Eq)]
pub struct InvalidVariant {
    pub text: String,
}

impl InvalidVariant {
    /// What the error says.
    pub fn message(&self) -> (r: String)
        ensures
            r@ == "invalid enum variant `"@ + self.text@ + "`"@,
    {
        concat3("invalid enum variant `", self.text.as_str(), "`")
    }
}

/// The first position at which a text stands among the literals; the length
/// where it stands nowhere.
fn position_of(literals: &Vec<Literal>, text: &str) -> (r: usize)
    ensures
        r <= literals.len(),
        r < literals.len() ==> literals.deep_view()[r as int].literal == text@,
        forall|j: int| 0 <= j < r ==> (#[trigger] literals.deep_view()[j]).literal != text@,
{
    let mut i: usize = 0;
    while i < literals.len()
        invariant
            i <= literals.len(),
            forall|j: int| 0 <= j < i ==> (#[trigger] literals.deep_view()[j]).literal != text@,
        decreases literals.len() - i,
    {
        if str_eq(literals[i].literal.as_str(), text) {
            assert(literals.deep_view()[i as int].literal == text@);
            return i;
        }
        assert(literals.deep_view()[i as int].literal == literals[i as int].literal@);
        i += 1;
    }
    i
}

/// Reads a text as a member of a closed enumeration: the position of the
/// member that is written so. A text that no member is written as is an
/// invalid variant.
pub fn parse_literal(literals: &Vec<Literal>, text: &str) -> (res: Result<usize, InvalidVariant>)
    ensures
        is_member(literals.deep_view(), text@) ==> res is Ok && res->Ok_0 == member_of(
            literals.deep_view(),
            text@,
        ) && res->Ok_0 < literals.len(),
        !is_member(literals.deep_view(), text@) ==> res is Err && res->Err_0.text@ == text@,
{
    let i = position_of(literals, text);
    if i < literals.len() {
        proof {
            let views = literals.deep_view();
            let found = member_of(views, text@);
            if found < i {
                assert(views[found].literal != text@);
            }
            if i < found {
                assert(views[i as int].literal != text@);
            }
        }
        Ok(i)
    } else {
        Err(InvalidVariant { text: String::from_str(text) })
    }
}

/// Writes a member of a closed enumeration: its literal.
pub fn literal_text(literals: &Vec<Literal>, member: usize) -> (r: Option<&str>)
    ensures
        member < literals.len() ==> r is Some && r->0@ == literals.deep_view()[member as int].literal,
        member >= literals.len() ==> r is None,
{
    if member < literals.len() {
        Some(literals[member].literal.as_str())
    } else {
        None
    }
}

/// Reading the literal of any member and writing what was read gives the
/// literal back; a text that no member is written as is not read at all.
pub proof fn law_enumeration_round_trip(literals: Seq<LiteralView>, text: Seq<char>)
    ensures
        is_member(literals, text) ==> 0 <= member_of(literals, text) < literals.len()
            && literals[member_of(literals, text)].literal == text,
        forall|i: int|
            0 <= i < literals.len() ==> is_member(literals, (#[trigger] literals[i]).literal),
{
    if is_member(literals, text) {
        let k = choose|i: int| 0 <= i < literals.len() && (#[trigger] literals[i]).literal == text;
        lemma_first_member(literals, text, k);
    }
}

/// Below any member that is written as `text` stands a first one.
pub proof fn lemma_first_member(literals: Seq<LiteralView>, text: Seq<char>, k: int)
    requires
        0 <= k < literals.len(),
        literals[k].literal == text,
    ensures
        exists|i: int|
            0 <= i <= k && (#[trigger] literals[i]).literal == text && forall|j: int|
                0 <= j < i ==> (#[trigger] literals[j]).literal != text,
    decreases k,
{
    if exists|j: int| 0 <= j < k && (#[trigger] literals[j]).literal == text {
        let j = choose|j: int| 0 <= j < k && (#[trigger] literals[j]).literal == text;
        lemma_first_member(literals, text, j);
    }
}

/// The members that are made for an enumeration keep its literals, one for
/// one and in order, after the members that were made before.
pub proof fn lemma_literals_kept(enumeration: Seq<Option<Seq<char>>>, acc: Seq<LiteralView>)
    requires
        literals_of(enumeration, acc) is Ok,
    ensures
        literals_of(enumeration, acc)->Ok_0.len() == acc.len() + enumeration.len(),
        forall|i: int|
            0 <= i < acc.len() ==> (#[trigger] literals_of(enumeration, acc)->Ok_0[i]) == acc[i],
        forall|i: int|
            0 <= i < enumeration.len() ==> enumeration[i] == Some(
                (#[trigger] literals_of(enumeration, acc)->Ok_0[acc.len() + i]).literal,
            ),
    decreases enumeration.len(),
{
    if enumeration.len() > 0 {
        let literal = enumeration[0]->0;
        let ident = ident_of(literal_ident_source(literal))->Ok_0;
        let next = acc.push(LiteralView { ident, literal });
        let rest = enumeration.drop_first();
        lemma_literals_kept(rest, next);
        let made = literals_of(enumeration, acc)->Ok_0;
        assert(made == literals_of(rest, next)->Ok_0);
        assert forall|i: int| 0 <= i < acc.len() implies (#[trigger] made[i]) == acc[i] by {
            assert(next[i] == acc[i]);
        }
        assert forall|i: int| 0 <= i < enumeration.len() implies enumeration[i] == Some(
            (#[trigger] made[acc.len() + i]).literal,
        ) by {
            if i == 0 {
                assert(made[acc.len() as int] == next[acc.len() as int]);
            } else {
                assert(rest[i - 1] == enumeration[i]);
                assert(made[next.len() + (i - 1)] == made[acc.len() + i]);
            }
        }
    }
}

/// For every string schema that enumerates literals: each of its literals is
/// read as a member of the compiled enumeration, and that member is written
/// as the very same literal.
pub proof fn law_enumerated_literals_round_trip(
    owner: Seq<char>,
    enumeration: Seq<Option<Seq<char>>>,
    i: int,
)
    requires
        enumeration_model(owner, enumeration) is Ok,
        0 <= i < enumeration.len(),
    ensures
        enumeration_model(owner, enumeration)->Ok_0 matches Some(
            CompiledKindView::Enumeration(literals),
        ) && enumeration[i] is Some && is_member(literals, enumeration[i]->0) && literals[member_of(
            literals,
            enumeration[i]->0,
        )].literal == enumeration[i]->0,
{
    lemma_literals_kept(enumeration, Seq::empty());
    let literals = literals_of(enumeration, Seq::empty())->Ok_0;
    assert(enumeration[i] == Some(literals[0 + i].literal));
    law_enumeration_round_trip(literals, enumeration[i]->0);
}

/// The value of the discriminator that selects a variant of a tagged union.
pub open spec fn tag_of(variant: VariantView) -> Seq<char> {
    match variant.rename {
        Some(value) => value,
        None => variant.ident,
    }
}

/// Whether some variant is selected by the tag value `value`.
pub open spec fn is_tag(variants: Seq<VariantView>, value: Seq<char>) -> bool {
    exists|i: int| 0 <= i < variants.len() && tag_of(#[trigger] variants[i]) == value
}

/// Writing a variant of a tagged union and reading it again gives the variant
/// back: the tag that a variant is written with selects a variant, and where
/// no two variants are written with the same tag it selects that very one.
pub proof fn law_tag_round_trip(variants: Seq<VariantView>, i: int)
    requires
        0 <= i < variants.len(),
    ensures
        is_tag(variants, tag_of(variants[i])),
        (forall|a: int, b: int|
            0 <= a < b < variants.len() ==> tag_of(#[trigger] variants[a]) != tag_of(
                #[trigger] variants[b],
            )) ==> forall|k: int|
            0 <= k < variants.len() && tag_of(#[trigger] variants[k]) == tag_of(variants[i]) ==> k
                == i,
{
    assert(tag_of(variants[i]) == tag_of(variants[i]));
    if forall|a: int, b: int|
        0 <= a < b < variants.len() ==> tag_of(#[trigger] variants[a]) != tag_of(
            #[trigger] variants[b],
        ) {
        assert forall|k: int|
            0 <= k < variants.len() && tag_of(#[trigger] variants[k]) == tag_of(
                variants[i],
            ) implies k == i by {
            if k < i {
                assert(tag_of(variants[k]) != tag_of(variants[i]));
            }
            if i < k {
                assert(tag_of(variants[i]) != tag_of(variants[k]));
            }
        }
    }
}

/// The value of the discriminator that a variant is written with.
pub fn variant_tag(variant: &Variant) -> (r: &str)
    ensures
        r@ == tag_of(variant.deep_view()),
{
    match &variant.rename {
        Some(value) => value.as_str(),
        None => variant.ident.as_str(),
    }
}

/// Selects the variant of a tagged union for a value of the discriminator: the
/// first variant with that tag; `None` where no variant has it.
pub fn select_variant(variants: &Vec<Variant>, value: &str) -> (r: Option<usize>)
    ensures
        match r {
            Some(i) => i < variants.len() && tag_of(variants.deep_view()[i as int]) == value@
                && forall|j: int|
                0 <= j < i ==> tag_of(#[trigger] variants.deep_view()[j]) != value@,
            None => !is_tag(variants.deep_view(), value@),
        },
{
    let mut i: usize = 0;
    while i < variants.len()
        invariant
            i <= variants.len(),
            forall|j: int| 0 <= j < i ==> tag_of(#[trigger] variants.deep_view()[j]) != value@,
        decreases variants.len() - i,
    {
        assert(variants.deep_view()[i as int] == variants[i as int].deep_view());
        if str_eq(variant_tag(&variants[i]), value) {
            return Some(i);
        }
        i += 1;
    }
    None
}

} // verus!
