//! Lists of named entries that keep the order in which the entries came, read
//! by the first entry of a name.
use vstd::prelude::*;
use crate::text::str_eq;

verus! {

/// The position of the first entry named `name`, or the length of the table
/// where there is none.
pub open spec fn index_of<V>(table: Seq<(Seq<char>, V)>, name: Seq<char>) -> int
    decreases table.len(),
{
    if table.len() == 0 {
        0
    } else if table[0].0 == name {
        0
    } else {
        1 + index_of(table.drop_first(), name)
    }
}

/// Whether the table holds an entry named `name`.
pub open spec fn has_key<V>(table: Seq<(Seq<char>, V)>, name: Seq<char>) -> bool {
    index_of(table, name) < table.len()
}

/// The value of the first entry named `name`.
pub open spec fn lookup<V>(table: Seq<(Seq<char>, V)>, name: Seq<char>) -> Option<V> {
    if has_key(table, name) {
        Some(table[index_of(table, name)].1)
    } else {
        None
    }
}

/// `index_of` finds the first entry of the name, and the length exactly when
/// no entry has it.
pub proof fn lemma_index_of<V>(table: Seq<(Seq<char>, V)>, name: Seq<char>)
    ensures
        0 <= index_of(table, name) <= table.len(),
        index_of(table, name) < table.len() ==> table[index_of(table, name)].0 == name,
        forall|j: int| 0 <= j < index_of(table, name) ==> (#[trigger] table[j]).0 != name,
    decreases table.len(),
{
    if table.len() > 0 && table[0].0 != name {
        let rest = table.drop_first();
        lemma_index_of(rest, name);
        assert forall|j: int| 0 <= j < index_of(table, name) implies (#[trigger] table[j]).0
            != name by {
            if j > 0 {
                assert(table[j] == rest[j - 1]);
            }
        }
    }
}

/// The first position at which a name stands is what `index_of` gives.
pub proof fn lemma_index_of_first<V>(table: Seq<(Seq<char>, V)>, name: Seq<char>, i: int)
    requires
        0 <= i <= table.len(),
        i < table.len() ==> table[i].0 == name,
        forall|j: int| 0 <= j < i ==> (#[trigger] table[j]).0 != name,
    ensures
        index_of(table, name) == i,
{
    lemma_index_of(table, name);
    let k = index_of(table, name);
    if k < i {
        assert(table[k].0 != name);
    }
}

/// Finds the first entry named `name`; the length of the table where there is
/// none.
pub fn find_key<V: DeepView>(table: &Vec<(String, V)>, name: &str) -> (r: usize)
    ensures
        r == index_of(table.deep_view(), name@),
        r <= table.len(),
{
    let mut i: usize = 0;
    while i < table.len()
        invariant
            i <= table.len(),
            forall|j: int| 0 <= j < i ==> (#[trigger] table.deep_view()[j]).0 != name@,
        decreases table.len() - i,
    {
        if str_eq(table[i].0.as_str(), name) {
            proof {
                assert(table.deep_view()[i as int].0 == name@);
                lemma_index_of_first(table.deep_view(), name@, i as int);
            }
            return i;
        }
        proof {
            assert(table.deep_view()[i as int].0 == table[i as int].0@);
        }
        i += 1;
    }
    proof {
        lemma_index_of_first(table.deep_view(), name@, i as int);
    }
    i
}

} // verus!
