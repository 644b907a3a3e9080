//! The order in which generated items are written: by name, and for equal
//! names in the order in which they came.
use vstd::prelude::*;
use vstd::set_lib::{lemma_int_range, lemma_subset_equality, set_int_range};
use vstd::string::*;

verus! {

/// Whether `a` comes before `b` or is `b`, character by character.
pub open spec fn text_le(a: Seq<char>, b: Seq<char>) -> bool
    decreases a.len(),
{
    if a.len() == 0 {
        true
    } else if b.len() == 0 {
        false
    } else if (a[0] as u32) < (b[0] as u32) {
        true
    } else if (a[0] as u32) > (b[0] as u32) {
        false
    } else {
        text_le(a.drop_first(), b.drop_first())
    }
}

/// Whether the key `a` comes before the key `b` or is `b`: no key comes
/// before any key.
pub open spec fn key_le(a: Option<Seq<char>>, b: Option<Seq<char>>) -> bool {
    match (a, b) {
        (None, _) => true,
        (Some(_), None) => false,
        (Some(x), Some(y)) => text_le(x, y),
    }
}

/// Of two texts one comes before the other or they are the same.
pub proof fn lemma_text_le_total(a: Seq<char>, b: Seq<char>)
    ensures
        text_le(a, b) || text_le(b, a),
    decreases a.len(),
{
    if a.len() > 0 && b.len() > 0 && (a[0] as u32) == (b[0] as u32) {
        lemma_text_le_total(a.drop_first(), b.drop_first());
    }
}

/// What comes before something that comes before a third comes before the
/// third.
pub proof fn lemma_text_le_transitive(a: Seq<char>, b: Seq<char>, c: Seq<char>)
    requires
        text_le(a, b),
        text_le(b, c),
    ensures
        text_le(a, c),
    decreases a.len(),
{
    if a.len() > 0 && b.len() > 0 && c.len() > 0 {
        if (a[0] as u32) == (b[0] as u32) && (b[0] as u32) == (c[0] as u32) {
            lemma_text_le_transitive(a.drop_first(), b.drop_first(), c.drop_first());
        }
    }
}

/// Every text comes before itself or is itself.
pub proof fn lemma_text_le_reflexive(a: Seq<char>)
    ensures
        text_le(a, a),
    decreases a.len(),
{
    if a.len() > 0 {
        lemma_text_le_reflexive(a.drop_first());
    }
}

/// Whether `a` comes before `b` or is `b`.
pub fn text_before(a: &str, b: &str) -> (r: bool)
    ensures
        r == text_le(a@, b@),
{
    let n = a.unicode_len();
    let m = b.unicode_len();
    let mut i: usize = 0;
    proof {
        assert(a@.skip(0) =~= a@);
        assert(b@.skip(0) =~= b@);
    }
    while i < n && i < m
        invariant
            i <= n,
            i <= m,
            n == a@.len(),
            m == b@.len(),
            text_le(a@, b@) == text_le(a@.skip(i as int), b@.skip(i as int)),
        decreases n - i,
    {
        let x = a.get_char(i) as u32;
        let y = b.get_char(i) as u32;
        proof {
            assert(a@.skip(i as int)[0] == a@[i as int]);
            assert(b@.skip(i as int)[0] == b@[i as int]);
            assert(a@.skip(i as int).drop_first() =~= a@.skip(i as int + 1));
            assert(b@.skip(i as int).drop_first() =~= b@.skip(i as int + 1));
        }
        if x < y {
            return true;
        }
        if x > y {
            return false;
        }
        i += 1;
    }
    i >= n
}

/// Whether the key `a` comes before the key `b` or is `b`.
pub fn key_before(a: &Option<String>, b: &Option<String>) -> (r: bool)
    ensures
        r == key_le(a.deep_view(), b.deep_view()),
{
    match (a, b) {
        (None, _) => true,
        (Some(_), None) => false,
        (Some(x), Some(y)) => text_before(x.as_str(), y.as_str()),
    }
}

/// Whether `order` lists the positions of `keys`, each once, by key, and for
/// equal keys by position.
pub open spec fn is_sorted_order(keys: Seq<Option<Seq<char>>>, order: Seq<usize>) -> bool {
    &&& order.len() == keys.len()
    &&& forall|a: int| 0 <= a < order.len() ==> (#[trigger] order[a]) < keys.len()
    &&& forall|a: int, b: int|
        0 <= a < b < order.len() ==> {
            &&& key_le(keys[(#[trigger] order[a]) as int], keys[(#[trigger] order[b]) as int])
            &&& order[a] != order[b]
            &&& keys[order[a] as int] == keys[order[b] as int] ==> order[a] < order[b]
        }
}

/// The first `n` positions, by key, and for equal keys by position.
pub open spec fn is_sorted_prefix(keys: Seq<Option<Seq<char>>>, order: Seq<usize>, n: int) -> bool {
    &&& order.len() == n
    &&& forall|a: int| 0 <= a < order.len() ==> (#[trigger] order[a]) < n
    &&& forall|a: int, b: int|
        0 <= a < b < order.len() ==> {
            &&& key_le(keys[(#[trigger] order[a]) as int], keys[(#[trigger] order[b]) as int])
            &&& order[a] != order[b]
            &&& keys[order[a] as int] == keys[order[b] as int] ==> order[a] < order[b]
        }
}

/// Of two keys one comes before the other or they are the same.
pub proof fn lemma_key_le_total(a: Option<Seq<char>>, b: Option<Seq<char>>)
    ensures
        key_le(a, b) || key_le(b, a),
{
    if a is Some && b is Some {
        lemma_text_le_total(a->0, b->0);
    }
}

/// The order of keys is transitive.
pub proof fn lemma_key_le_transitive(
    a: Option<Seq<char>>,
    b: Option<Seq<char>>,
    c: Option<Seq<char>>,
)
    requires
        key_le(a, b),
        key_le(b, c),
    ensures
        key_le(a, c),
{
    if a is Some && b is Some && c is Some {
        lemma_text_le_transitive(a->0, b->0, c->0);
    }
}

/// Two characters with the same code are the same.
proof fn lemma_code_names_char(a: char, b: char)
    requires
        a as u32 == b as u32,
    ensures
        a == b,
{
}

/// Two texts of which each comes before the other or is it are the same.
pub proof fn lemma_text_le_antisymmetric(a: Seq<char>, b: Seq<char>)
    requires
        text_le(a, b),
        text_le(b, a),
    ensures
        a == b,
    decreases a.len(),
{
    if a.len() == 0 || b.len() == 0 {
        assert(a =~= b);
    } else {
        lemma_code_names_char(a[0], b[0]);
        lemma_text_le_antisymmetric(a.drop_first(), b.drop_first());
        assert(a =~= seq![a[0]] + a.drop_first());
        assert(b =~= seq![b[0]] + b.drop_first());
    }
}

/// Two keys of which each comes before the other or is it are the same.
pub proof fn lemma_key_le_antisymmetric(a: Option<Seq<char>>, b: Option<Seq<char>>)
    requires
        key_le(a, b),
        key_le(b, a),
    ensures
        a == b,
{
    if a is Some && b is Some {
        lemma_text_le_antisymmetric(a->0, b->0);
    }
}

/// A sorted order lists every position.
pub proof fn lemma_sorted_order_covers(keys: Seq<Option<Seq<char>>>, order: Seq<usize>, x: int)
    requires
        is_sorted_order(keys, order),
        0 <= x < keys.len(),
    ensures
        exists|p: int| 0 <= p < order.len() && #[trigger] order[p] == x,
{
    let listed = order.map_values(|v: usize| v as int);
    assert forall|a: int, b: int| 0 <= a < listed.len() && 0 <= b < listed.len() && a != b implies listed[a]
        != listed[b] by {
        if a < b {
            assert(order[a] != order[b]);
        } else {
            assert(order[b] != order[a]);
        }
    }
    listed.unique_seq_to_set();
    lemma_int_range(0, keys.len() as int);
    let all = set_int_range(0, keys.len() as int);
    assert forall|v: int| listed.to_set().contains(v) implies all.contains(v) by {
        let p = choose|p: int| 0 <= p < listed.len() && listed[p] == v;
        assert(order[p] < keys.len());
    }
    lemma_subset_equality(listed.to_set(), all);
    assert(all.contains(x));
    assert(listed.to_set().contains(x));
    let p = choose|p: int| 0 <= p < listed.len() && listed[p] == x;
    assert(order[p] == x);
}

/// There is one way to list positions by key and, for equal keys, by
/// position: two sorted orders of the same keys are the same.
pub proof fn law_sorted_order_is_unique(
    keys: Seq<Option<Seq<char>>>,
    first: Seq<usize>,
    second: Seq<usize>,
)
    requires
        is_sorted_order(keys, first),
        is_sorted_order(keys, second),
    ensures
        first == second,
{
    assert forall|p: int| 0 <= p < first.len() implies first[p] == second[p] by {
        lemma_same_upto(keys, first, second, p);
    }
    assert(first =~= second);
}

/// Two sorted orders of the same keys agree at every place up to `p`.
proof fn lemma_same_upto(keys: Seq<Option<Seq<char>>>, first: Seq<usize>, second: Seq<usize>, p: int)
    requires
        is_sorted_order(keys, first),
        is_sorted_order(keys, second),
        0 <= p < first.len(),
    ensures
        forall|q: int| 0 <= q <= p ==> first[q] == second[q],
    decreases p,
{
    if p > 0 {
        lemma_same_upto(keys, first, second, p - 1);
    }
    let x = first[p];
    let y = second[p];
    if x != y {
        lemma_sorted_order_covers(keys, second, x as int);
        let q = choose|q: int| 0 <= q < second.len() && #[trigger] second[q] == x;
        if q < p {
            assert(first[q] == second[q]);
            assert(first[q] != first[p]);
        }
        assert(q > p);
        lemma_sorted_order_covers(keys, first, y as int);
        let r = choose|r: int| 0 <= r < first.len() && #[trigger] first[r] == y;
        if r < p {
            assert(first[r] == second[r]);
            assert(second[r] != second[p]);
        }
        assert(r > p);
        assert(key_le(keys[second[p] as int], keys[second[q] as int]));
        assert(key_le(keys[first[p] as int], keys[first[r] as int]));
        lemma_key_le_antisymmetric(keys[x as int], keys[y as int]);
        assert(second[p] < second[q]);
        assert(first[p] < first[r]);
    }
}

/// The positions of `keys` by key and, for equal keys, by position: the one
/// sorted order of the keys. `lemma_sorted_positions` shows that it is a
/// sorted order, `law_sorted_order_is_unique` that there is no other.
pub open spec fn sorted_positions(keys: Seq<Option<Seq<char>>>) -> Seq<usize> {
    choose|order: Seq<usize>| is_sorted_order(keys, order)
}

/// Where the position `x` goes among the sorted positions `order`: behind
/// the last of them whose key comes before the key at `x` or is it.
pub open spec fn place_of(keys: Seq<Option<Seq<char>>>, order: Seq<usize>, x: int) -> int
    decreases order.len(),
{
    if order.len() == 0 {
        0
    } else if key_le(keys[order.last() as int], keys[x]) {
        order.len() as int
    } else {
        place_of(keys, order.drop_last(), x)
    }
}

/// The place of a position stands behind a key that comes before its own or
/// is it, and before keys that come after its own.
proof fn lemma_place_of(keys: Seq<Option<Seq<char>>>, order: Seq<usize>, x: int)
    ensures
        0 <= place_of(keys, order, x) <= order.len(),
        place_of(keys, order, x) > 0 ==> key_le(
            keys[order[place_of(keys, order, x) - 1] as int],
            keys[x],
        ),
        forall|b: int|
            place_of(keys, order, x) <= b < order.len() ==> !key_le(
                keys[(#[trigger] order[b]) as int],
                keys[x],
            ),
    decreases order.len(),
{
    if order.len() > 0 && !key_le(keys[order.last() as int], keys[x]) {
        let shorter = order.drop_last();
        lemma_place_of(keys, shorter, x);
        let p = place_of(keys, order, x);
        if p > 0 {
            assert(shorter[p - 1] == order[p - 1]);
        }
        assert forall|b: int| p <= b < order.len() implies !key_le(
            keys[(#[trigger] order[b]) as int],
            keys[x],
        ) by {
            if b < shorter.len() {
                assert(shorter[b] == order[b]);
            }
        }
    }
}

/// The first `n` positions of `keys` in sorted order.
pub open spec fn sorted_upto(keys: Seq<Option<Seq<char>>>, n: nat) -> Seq<usize>
    decreases n,
{
    if n == 0 {
        Seq::empty()
    } else {
        let before = sorted_upto(keys, (n - 1) as nat);
        before.insert(place_of(keys, before, n - 1), (n - 1) as usize)
    }
}

/// Putting each position in its place gives a sorted order of the first `n`.
proof fn lemma_sorted_upto(keys: Seq<Option<Seq<char>>>, n: nat)
    requires
        n <= keys.len(),
        n <= usize::MAX,
    ensures
        is_sorted_prefix(keys, sorted_upto(keys, n), n as int),
    decreases n,
{
    if n > 0 {
        let i = (n - 1) as int;
        let before = sorted_upto(keys, (n - 1) as nat);
        lemma_sorted_upto(keys, (n - 1) as nat);
        lemma_place_of(keys, before, i);
        let p = place_of(keys, before, i);
        let after = before.insert(p, i as usize);
        assert forall|a: int, b: int| 0 <= a < b < after.len() implies {
            &&& key_le(keys[(#[trigger] after[a]) as int], keys[(#[trigger] after[b]) as int])
            &&& after[a] != after[b]
            &&& keys[after[a] as int] == keys[after[b] as int] ==> after[a] < after[b]
        } by {
            if b < p {
                assert(after[a] == before[a] && after[b] == before[b]);
            } else if b == p {
                assert(after[a] == before[a]);
                assert(key_le(keys[before[p - 1] as int], keys[i]));
                if a < p - 1 {
                    assert(key_le(keys[before[a] as int], keys[before[p - 1] as int]));
                    lemma_key_le_transitive(
                        keys[before[a] as int],
                        keys[before[p - 1] as int],
                        keys[i],
                    );
                }
            } else if a == p {
                assert(after[b] == before[b - 1]);
                lemma_key_le_total(keys[i], keys[before[b - 1] as int]);
                if keys[i] is Some {
                    lemma_text_le_reflexive(keys[i]->0);
                }
            } else if a < p {
                assert(after[a] == before[a] && after[b] == before[b - 1]);
            } else {
                assert(after[a] == before[a - 1] && after[b] == before[b - 1]);
            }
        }
        assert forall|a: int| 0 <= a < after.len() implies (#[trigger] after[a]) < i + 1 by {
            if a < p {
                assert(after[a] == before[a]);
            } else if a > p {
                assert(after[a] == before[a - 1]);
            }
        }
    }
}

/// The sorted positions of a list of keys are a sorted order of it: they list
/// every position once, by key, and for equal keys by position.
pub proof fn lemma_sorted_positions(keys: Seq<Option<Seq<char>>>)
    requires
        keys.len() <= usize::MAX,
    ensures
        is_sorted_order(keys, sorted_positions(keys)),
{
    lemma_sorted_upto(keys, keys.len());
    assert(is_sorted_order(keys, sorted_upto(keys, keys.len())));
}

/// The positions of the keys in the order in which the items are written: by
/// key, and for equal keys in the order in which they came.
pub fn sorted_order(keys: &Vec<Option<String>>) -> (order: Vec<usize>)
    ensures
        order@ == sorted_positions(keys.deep_view()),
        is_sorted_order(keys.deep_view(), order@),
{
    let ghost views = keys.deep_view();
    let mut order: Vec<usize> = Vec::new();
    let mut i: usize = 0;
    while i < keys.len()
        invariant
            i <= keys.len(),
            views == keys.deep_view(),
            is_sorted_prefix(views, order@, i as int),
        decreases keys.len() - i,
    {
        let mut p: usize = order.len();
        while p > 0 && !key_before(&keys[order[p - 1]], &keys[i])
            invariant
                p <= order.len(),
                i < keys.len(),
                views == keys.deep_view(),
                is_sorted_prefix(views, order@, i as int),
                forall|b: int|
                    p <= b < order.len() ==> !key_le(views[(#[trigger] order[b]) as int], views[i as int]),
            decreases p,
        {
            p -= 1;
        }
        let ghost before = order@;
        order.insert(p, i);
        proof {
            let after = order@;
            assert forall|a: int, b: int| 0 <= a < b < after.len() implies {
                &&& key_le(views[(#[trigger] after[a]) as int], views[(#[trigger] after[b]) as int])
                &&& after[a] != after[b]
                &&& views[after[a] as int] == views[after[b] as int] ==> after[a] < after[b]
            } by {
                if b < p {
                    assert(after[a] == before[a] && after[b] == before[b]);
                } else if b == p {
                    assert(after[a] == before[a]);
                    assert(key_le(views[before[p as int - 1] as int], views[i as int]));
                    if a < p - 1 {
                        assert(key_le(
                            views[before[a] as int],
                            views[before[p as int - 1] as int],
                        ));
                        lemma_key_le_transitive(
                            views[before[a] as int],
                            views[before[p as int - 1] as int],
                            views[i as int],
                        );
                    }
                } else if a == p {
                    assert(after[b] == before[b - 1]);
                    lemma_key_le_total(views[i as int], views[before[b - 1] as int]);
                    if views[i as int] is Some {
                        lemma_text_le_reflexive(views[i as int]->0);
                    }
                } else if a < p {
                    assert(after[a] == before[a] && after[b] == before[b - 1]);
                } else {
                    assert(after[a] == before[a - 1] && after[b] == before[b - 1]);
                }
            }
            assert forall|a: int| 0 <= a < after.len() implies (#[trigger] after[a]) < i + 1 by {
                if a < p {
                    assert(after[a] == before[a]);
                } else if a > p {
                    assert(after[a] == before[a - 1]);
                }
            }
        }
        i += 1;
    }
    proof {
        law_sorted_order_is_unique(views, order@, sorted_positions(views));
    }
    order
}

} // verus!
