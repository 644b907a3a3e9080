//! Names for schemas that have none: the naming context where it is free,
//! and the context with the first number from 2 on that makes it free
//! otherwise.
use vstd::prelude::*;
use vstd::set_lib::*;
use vstd::string::*;
use crate::table::{find_key, has_key, index_of, lemma_index_of};
use crate::text::{
    concat2, decimal, decimal_digits, lemma_decimal_injective, lemma_suffix_injective,
};

verus! {

/// The name that is tried for a context with the number `i`.
pub open spec fn candidate(context: Seq<char>, i: nat) -> Seq<char> {
    context + decimal_digits(i)
}

/// Whether `i` is the first number from 2 on with which the context is a name
/// that the table does not have.
pub open spec fn is_first_free<V>(table: Seq<(Seq<char>, V)>, context: Seq<char>, i: nat) -> bool {
    i >= 2 && !has_key(table, candidate(context, i)) && forall|j: nat|
        2 <= j < i ==> has_key(table, #[trigger] candidate(context, j))
}

/// The name for a schema in the naming context `context`: the context itself
/// where the table has no such name; otherwise the context with a number, the
/// first from 2 on that the table does not have.
pub open spec fn fresh_name<V>(table: Seq<(Seq<char>, V)>, context: Seq<char>) -> Seq<char> {
    if !has_key(table, context) {
        context
    } else {
        candidate(context, choose|i: nat| is_first_free(table, context, i))
    }
}

/// The places in the table of the candidates from 2 up to `i`.
pub open spec fn taken<V>(table: Seq<(Seq<char>, V)>, context: Seq<char>, i: nat) -> Set<int> {
    Set::new(
        |k: int| exists|j: nat| 2 <= j < i && k == index_of(table, #[trigger] candidate(context, j)),
    )
}

/// Candidates with different numbers are different names.
pub proof fn lemma_candidates_differ(context: Seq<char>, i: nat, j: nat)
    requires
        i != j,
    ensures
        candidate(context, i) != candidate(context, j),
{
    if candidate(context, i) == candidate(context, j) {
        lemma_suffix_injective(context, decimal_digits(i), decimal_digits(j));
        lemma_decimal_injective(i, j);
    }
}

/// A table cannot hold more candidates than it has entries.
pub proof fn lemma_taken_bounded<V>(table: Seq<(Seq<char>, V)>, context: Seq<char>, i: nat)
    requires
        i >= 2,
        forall|j: nat| 2 <= j < i ==> has_key(table, #[trigger] candidate(context, j)),
    ensures
        taken(table, context, i).finite(),
        taken(table, context, i).len() == i - 2,
        i - 2 <= table.len(),
    decreases i,
{
    let all = set_int_range(0, table.len() as int);
    lemma_int_range(0, table.len() as int);
    let now = taken(table, context, i);
    assert(now.subset_of(all)) by {
        assert forall|k: int| now.contains(k) implies all.contains(k) by {
            let j = choose|j: nat| 2 <= j < i && k == index_of(table, #[trigger] candidate(context, j));
            lemma_index_of(table, candidate(context, j));
        }
    }
    lemma_len_subset(now, all);
    if i == 2 {
        assert(now =~= Set::empty());
    } else {
        let before = taken(table, context, (i - 1) as nat);
        lemma_taken_bounded(table, context, (i - 1) as nat);
        let last = candidate(context, (i - 1) as nat);
        let place = index_of(table, last);
        lemma_index_of(table, last);
        assert(!before.contains(place)) by {
            if before.contains(place) {
                let j = choose|j: nat|
                    2 <= j < i - 1 && place == index_of(table, #[trigger] candidate(context, j));
                lemma_index_of(table, candidate(context, j));
                lemma_candidates_differ(context, j, (i - 1) as nat);
            }
        }
        assert(now =~= before.insert(place)) by {
            assert forall|k: int| now.contains(k) implies before.insert(place).contains(k) by {
                let j = choose|j: nat|
                    2 <= j < i && k == index_of(table, #[trigger] candidate(context, j));
                if j < i - 1 {
                    assert(before.contains(k));
                }
            }
            assert forall|k: int| before.insert(place).contains(k) implies now.contains(k) by {
                if k == place {
                    let j: nat = (i - 1) as nat;
                    assert(2 <= j && j < i && k == index_of(table, candidate(context, j)));
                } else {
                    let j = choose|j: nat|
                        2 <= j < i - 1 && k == index_of(table, #[trigger] candidate(context, j));
                    assert(2 <= j < i);
                }
            }
        }
    }
}

/// Finds the name for a schema in the naming context `context`.
pub fn unique_name<V: DeepView>(table: &Vec<(String, V)>, context: &str) -> (r: String)
    ensures
        r@ == fresh_name(table.deep_view(), context@),
        !has_key(table.deep_view(), r@),
{
    if find_key(table, context) >= table.len() {
        return String::from_str(context);
    }
    let mut i: u128 = 2;
    loop
        invariant
            2 <= i <= table.len() + 2,
            forall|j: nat|
                2 <= j < i ==> has_key(table.deep_view(), #[trigger] candidate(context@, j)),
            has_key(table.deep_view(), context@),
        decreases table.len() + 2 - i,
    {
        let number = decimal(i);
        let name = concat2(context, number.as_str());
        if find_key(table, name.as_str()) >= table.len() {
            proof {
                assert(is_first_free(table.deep_view(), context@, i as nat));
                let chosen = choose|k: nat| is_first_free(table.deep_view(), context@, k);
                if chosen < i {
                    assert(has_key(table.deep_view(), candidate(context@, chosen)));
                }
                if i < chosen {
                    assert(has_key(table.deep_view(), candidate(context@, i as nat)));
                }
            }
            return name;
        }
        proof {
            lemma_taken_bounded(table.deep_view(), context@, (i + 1) as nat);
        }
        i = i + 1;
    }
}

} // verus!
