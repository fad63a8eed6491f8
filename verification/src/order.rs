//! The order in which a loaded profile lists its mods: by name, without
//! regard to case, and among equal names as they stood before.

use crate::codec::views;
use crate::schema::{Mod, ModView};
use vstd::prelude::*;
use vstd::set_lib::{lemma_int_range, lemma_len_subset, lemma_subset_equality, set_int_range};

verus! {

/// What `str::to_lowercase` makes of a text.
pub uninterp spec fn lowercase(text: Seq<char>) -> Seq<char>;

/// `str::to_lowercase`: the lowercase form of a text, which depends on the
/// text alone.
#[verifier::external_body]
fn to_lowercase(text: &str) -> (r: String)
    ensures
        r@ == lowercase(text@),
{
    text.to_lowercase()
}

/// The characters of a text.
fn chars_of(text: &str) -> (r: Vec<char>)
    ensures
        r@ == text@,
{
    let mut out: Vec<char> = Vec::new();
    for c in it: text.chars()
        invariant
            it.seq() == text@,
            out@ == text@.take(it.index() as int),
    {
        out.push(c);
    }
    out
}

/// Whether two texts are the same in their first `n` characters.
pub open spec fn same_start(a: Seq<char>, b: Seq<char>, n: int) -> bool {
    &&& 0 <= n <= a.len()
    &&& n <= b.len()
    &&& forall|k: int| 0 <= k < n ==> #[trigger] a[k] == b[k]
}

/// Whether `a` comes before `b` by what stands at place `n`: up to there
/// the two are the same, and there `a` ends while `b` goes on, or `a` has
/// the character with the smaller code.
pub open spec fn precedes_at(a: Seq<char>, b: Seq<char>, n: int) -> bool {
    &&& same_start(a, b, n)
    &&& n < b.len()
    &&& (n == a.len() || (a[n] as int) < (b[n] as int))
}

/// Whether `a` comes before `b` in the order of a dictionary, character
/// by character.
pub open spec fn precedes(a: Seq<char>, b: Seq<char>) -> bool {
    exists|n: int| precedes_at(a, b, n)
}

/// No text comes before itself.
pub proof fn lemma_precedes_irreflexive(a: Seq<char>)
    ensures
        !precedes(a, a),
{
}

/// Of two texts that differ, one comes before the other.
pub proof fn lemma_precedes_total(a: Seq<char>, b: Seq<char>)
    ensures
        precedes(a, b) || a == b || precedes(b, a),
{
    lemma_decided_from(a, b, 0);
}

proof fn lemma_decided_from(a: Seq<char>, b: Seq<char>, n: int)
    requires
        same_start(a, b, n),
    ensures
        precedes(a, b) || a == b || precedes(b, a),
    decreases a.len() - n,
{
    if n == a.len() && n == b.len() {
        assert(a =~= b);
    } else if n == a.len() {
        assert(precedes_at(a, b, n));
    } else if n == b.len() {
        assert(same_start(b, a, n));
        assert(precedes_at(b, a, n));
    } else if a[n] == b[n] {
        lemma_decided_from(a, b, n + 1);
    } else if (a[n] as int) < (b[n] as int) {
        assert(precedes_at(a, b, n));
    } else {
        assert(same_start(b, a, n));
        assert(precedes_at(b, a, n));
    }
}

/// What comes before a text comes before all that the text comes before.
pub proof fn lemma_precedes_transitive(a: Seq<char>, b: Seq<char>, c: Seq<char>)
    requires
        precedes(a, b),
        precedes(b, c),
    ensures
        precedes(a, c),
{
    let m = choose|m: int| precedes_at(a, b, m);
    let n = choose|n: int| precedes_at(b, c, n);
    if m <= n {
        assert(precedes_at(a, c, m));
    } else {
        assert(precedes_at(a, c, n));
    }
}

/// Decides whether one text comes before another.
fn key_precedes(a: &Vec<char>, b: &Vec<char>) -> (r: bool)
    ensures
        r == precedes(a@, b@),
{
    let mut n: usize = 0;
    while n < a.len() && n < b.len() && a[n] == b[n]
        invariant
            same_start(a@, b@, n as int),
        decreases a.len() - n,
    {
        n += 1;
    }
    let r = n < b.len() && (n == a.len() || a[n] < b[n]);
    proof {
        if r {
            assert(precedes_at(a@, b@, n as int));
        } else {
            assert forall|m: int| !precedes_at(a@, b@, m) by {
                if precedes_at(a@, b@, m) {
                    if m < n {
                        assert(a@[m] == b@[m]);
                    } else if m > n {
                        assert(a@[n as int] == b@[n as int]);
                    }
                }
            }
        }
    }
    r
}

/// The keys by which a row of mods is ordered: their names in lowercase.
pub open spec fn sort_keys(mods: Seq<ModView>) -> Seq<Seq<char>> {
    mods.map_values(|m: ModView| lowercase(m.name))
}

/// Whether, of two places in a row with the given keys, the first is to
/// stand before the second: its key comes first, or the keys are the same
/// and it is the earlier place.
pub open spec fn stands_before(keys: Seq<Seq<char>>, p: int, q: int) -> bool {
    precedes(keys[p], keys[q]) || (keys[p] == keys[q] && p < q)
}

/// Whether `order` lists places of a row with the given keys, as many as
/// the row has, so that each stands before all that follow it.
pub open spec fn is_stable_order(keys: Seq<Seq<char>>, order: Seq<int>) -> bool {
    &&& order.len() == keys.len()
    &&& forall|i: int| 0 <= i < order.len() ==> 0 <= #[trigger] order[i] < keys.len()
    &&& forall|i: int, j: int|
        0 <= i < j < order.len() ==> stands_before(keys, #[trigger] order[i], #[trigger] order[j])
}

/// Of two places, at most one stands before the other.
pub proof fn lemma_stands_before_one_way(keys: Seq<Seq<char>>, p: int, q: int)
    requires
        stands_before(keys, p, q),
    ensures
        !stands_before(keys, q, p),
{
    lemma_precedes_irreflexive(keys[p]);
    if precedes(keys[p], keys[q]) && precedes(keys[q], keys[p]) {
        lemma_precedes_transitive(keys[p], keys[q], keys[p]);
    }
}

/// A stable order lists every place of the row.
pub proof fn lemma_stable_order_lists_all(keys: Seq<Seq<char>>, order: Seq<int>, p: int)
    requires
        is_stable_order(keys, order),
        0 <= p < keys.len(),
    ensures
        exists|i: int| 0 <= i < order.len() && #[trigger] order[i] == p,
{
    assert forall|i: int, j: int| 0 <= i < j < order.len() implies order[i] != order[j] by {
        lemma_stands_before_one_way(keys, order[i], order[j]);
    }
    order.unique_seq_to_set();
    let places = set_int_range(0, keys.len() as int);
    lemma_int_range(0, keys.len() as int);
    assert forall|x: int| order.to_set().contains(x) implies places.contains(x) by {
        let i = choose|i: int| 0 <= i < order.len() && order[i] == x;
        assert(0 <= order[i] < keys.len());
    }
    lemma_len_subset(order.to_set(), places);
    lemma_subset_equality(order.to_set(), places);
    assert(places.contains(p));
    assert(order.to_set().contains(p));
}

/// Two stable orders of one row are the same in their first `n` places.
proof fn lemma_stable_orders_agree(keys: Seq<Seq<char>>, a: Seq<int>, b: Seq<int>, n: int)
    requires
        is_stable_order(keys, a),
        is_stable_order(keys, b),
        0 <= n <= keys.len(),
    ensures
        forall|i: int| 0 <= i < n ==> a[i] == b[i],
    decreases n,
{
    if n > 0 {
        lemma_stable_orders_agree(keys, a, b, n - 1);
        let i = n - 1;
        lemma_stable_order_lists_all(keys, b, a[i]);
        lemma_stable_order_lists_all(keys, a, b[i]);
        let in_b = choose|j: int| 0 <= j < b.len() && #[trigger] b[j] == a[i];
        let in_a = choose|j: int| 0 <= j < a.len() && #[trigger] a[j] == b[i];
        if in_b < i {
            assert(a[in_b] == b[in_b]);
            lemma_stands_before_one_way(keys, a[in_b], a[i]);
        } else if in_a < i {
            assert(a[in_a] == b[in_a]);
            lemma_stands_before_one_way(keys, b[in_a], b[i]);
        } else if in_b > i && in_a > i {
            assert(stands_before(keys, b[i], b[in_b]));
            assert(stands_before(keys, a[i], a[in_a]));
            lemma_stands_before_one_way(keys, a[i], b[i]);
        }
    }
}

/// A row has at most one stable order.
pub proof fn lemma_stable_order_unique(keys: Seq<Seq<char>>, a: Seq<int>, b: Seq<int>)
    requires
        is_stable_order(keys, a),
        is_stable_order(keys, b),
    ensures
        a == b,
{
    lemma_stable_orders_agree(keys, a, b, keys.len() as int);
    assert(a =~= b);
}

/// Where `a` does not come after `b`, nor `b` after `c`, `a` does not come
/// after `c`.
proof fn lemma_not_after(a: Seq<char>, b: Seq<char>, c: Seq<char>)
    requires
        precedes(a, b) || a == b,
        !precedes(c, b),
    ensures
        !precedes(c, a),
{
    if precedes(c, a) {
        if precedes(a, b) {
            lemma_precedes_transitive(c, a, b);
        }
    }
}

/// A stable order of a row without its last place becomes one of the whole
/// row when the last place is put behind all that do not come after it.
proof fn lemma_stable_order_grows(keys: Seq<Seq<char>>, order: Seq<int>, pos: int)
    requires
        keys.len() > 0,
        is_stable_order(keys.drop_last(), order),
        0 <= pos <= order.len(),
        forall|i: int| pos <= i < order.len() ==> precedes(keys.last(), keys[#[trigger] order[i]]),
        pos == 0 || !precedes(keys.last(), keys[order[pos - 1]]),
    ensures
        is_stable_order(keys, order.insert(pos, keys.len() - 1)),
{
    let n = keys.len() - 1;
    let front = keys.drop_last();
    let grown = order.insert(pos, n);
    assert forall|i: int, j: int| 0 <= i < j < grown.len() implies stands_before(
        keys,
        #[trigger] grown[i],
        #[trigger] grown[j],
    ) by {
        if j == pos {
            let last = order[pos - 1];
            if i < pos - 1 {
                assert(stands_before(front, order[i], last));
            }
            lemma_not_after(keys[grown[i]], keys[last], keys[n]);
            lemma_precedes_total(keys[grown[i]], keys[n]);
        } else if i == pos {
            assert(grown[j] == order[j - 1]);
        } else {
            let before_i = if i < pos { i } else { i - 1 };
            let before_j = if j < pos { j } else { j - 1 };
            assert(stands_before(front, order[before_i], order[before_j]));
        }
    }
}

/// Where the last place of a row is to go in a stable order of the others:
/// behind all that do not come after it.
proof fn lemma_place_found(keys: Seq<Seq<char>>, order: Seq<int>, from: int) -> (pos: int)
    requires
        keys.len() > 0,
        is_stable_order(keys.drop_last(), order),
        0 <= from <= order.len(),
        forall|i: int| from <= i < order.len() ==> precedes(keys.last(), keys[#[trigger] order[i]]),
    ensures
        0 <= pos <= order.len(),
        forall|i: int| pos <= i < order.len() ==> precedes(keys.last(), keys[#[trigger] order[i]]),
        pos == 0 || !precedes(keys.last(), keys[order[pos - 1]]),
    decreases from,
{
    if from > 0 && precedes(keys.last(), keys[order[from - 1]]) {
        lemma_place_found(keys, order, from - 1)
    } else {
        from
    }
}

/// Every row has a stable order.
pub proof fn lemma_stable_order_exists(keys: Seq<Seq<char>>)
    ensures
        exists|order: Seq<int>| is_stable_order(keys, order),
    decreases keys.len(),
{
    if keys.len() == 0 {
        assert(is_stable_order(keys, Seq::empty()));
    } else {
        lemma_stable_order_exists(keys.drop_last());
        let order = choose|order: Seq<int>| is_stable_order(keys.drop_last(), order);
        let pos = lemma_place_found(keys, order, order.len() as int);
        lemma_stable_order_grows(keys, order, pos);
    }
}

/// The stable order of a row: its places, each once, so that each stands
/// before all that follow it.
pub open spec fn stable_order(keys: Seq<Seq<char>>) -> Seq<int> {
    choose|order: Seq<int>| is_stable_order(keys, order)
}

/// The stable order of a row is one: it has the row's length, holds places
/// of the row, and each of them stands before all that follow it.
pub proof fn lemma_stable_order_is_stable(keys: Seq<Seq<char>>)
    ensures
        is_stable_order(keys, stable_order(keys)),
{
    lemma_stable_order_exists(keys);
}

/// The mods of a row in the order of their names without regard to case,
/// those with the same name in lowercase as they follow each other in the
/// row.
pub open spec fn sorted_by_name(mods: Seq<ModView>) -> Seq<ModView> {
    stable_order(sort_keys(mods)).map_values(|p: int| mods[p])
}

/// A sorted row holds the mods of the row it was made of: as many, and
/// each of them at some place.
pub proof fn lemma_sorted_by_name_holds_all(mods: Seq<ModView>, p: int)
    requires
        0 <= p < mods.len(),
    ensures
        sorted_by_name(mods).len() == mods.len(),
        exists|i: int| 0 <= i < mods.len() && #[trigger] sorted_by_name(mods)[i] == mods[p],
{
    let keys = sort_keys(mods);
    lemma_stable_order_is_stable(keys);
    lemma_stable_order_lists_all(keys, stable_order(keys), p);
    let i = choose|i: int| 0 <= i < mods.len() && #[trigger] stable_order(keys)[i] == p;
    assert(sorted_by_name(mods)[i] == mods[p]);
}

/// In a sorted row the names ascend: none comes, in lowercase, before the
/// name of a mod that stands earlier.
pub proof fn lemma_sorted_by_name_ascends(mods: Seq<ModView>, i: int, j: int)
    requires
        0 <= i < j < mods.len(),
    ensures
        sorted_by_name(mods).len() == mods.len(),
        !precedes(lowercase(sorted_by_name(mods)[j].name), lowercase(sorted_by_name(mods)[i].name)),
{
    let keys = sort_keys(mods);
    let order = stable_order(keys);
    lemma_stable_order_is_stable(keys);
    assert(stands_before(keys, order[i], order[j]));
    lemma_stands_before_one_way(keys, order[i], order[j]);
}

/// Sorting is stable: of two mods with the same name in lowercase, the one
/// that stood first in the row stands first in the sorted row.
pub proof fn lemma_sorted_by_name_keeps_ties(mods: Seq<ModView>, i: int, j: int)
    requires
        0 <= i < j < mods.len(),
        lowercase(sorted_by_name(mods)[i].name) == lowercase(sorted_by_name(mods)[j].name),
    ensures
        0 <= stable_order(sort_keys(mods))[i] < stable_order(sort_keys(mods))[j] < mods.len(),
        sorted_by_name(mods)[i] == mods[stable_order(sort_keys(mods))[i]],
        sorted_by_name(mods)[j] == mods[stable_order(sort_keys(mods))[j]],
{
    let keys = sort_keys(mods);
    let order = stable_order(keys);
    lemma_stable_order_is_stable(keys);
    assert(stands_before(keys, order[i], order[j]));
    lemma_precedes_irreflexive(keys[order[i]]);
}

/// Sorting a sorted row changes nothing.
pub proof fn lemma_sorted_by_name_twice(mods: Seq<ModView>)
    ensures
        sorted_by_name(sorted_by_name(mods)) == sorted_by_name(mods),
{
    let keys = sort_keys(mods);
    let order = stable_order(keys);
    lemma_stable_order_is_stable(keys);
    let sorted = sorted_by_name(mods);
    let sorted_keys = sort_keys(sorted);
    let as_it_is = Seq::new(sorted.len(), |i: int| i);
    assert forall|i: int, j: int| 0 <= i < j < as_it_is.len() implies stands_before(
        sorted_keys,
        #[trigger] as_it_is[i],
        #[trigger] as_it_is[j],
    ) by {
        assert(stands_before(keys, order[i], order[j]));
    }
    lemma_stable_order_is_stable(sorted_keys);
    lemma_stable_order_unique(sorted_keys, as_it_is, stable_order(sorted_keys));
    assert(sorted_by_name(sorted) =~= sorted);
}

/// Puts mods in the order of their names without regard to case. Mods
/// whose names are the same in lowercase stay in the order they had.
pub fn sort_by_name(mods: Vec<Mod>) -> (sorted: Vec<Mod>)
    ensures
        views(sorted@) == sorted_by_name(views(mods@)),
{
    let ghost keys = sort_keys(views(mods@));
    let ghost mut order: Seq<int> = Seq::empty();
    let mut sorted: Vec<Mod> = Vec::new();
    let mut sorted_keys: Vec<Vec<char>> = Vec::new();
    for m in it: mods
        invariant
            it.seq() == mods@,
            keys == sort_keys(views(mods@)),
            is_stable_order(keys.take(it.index() as int), order),
            sorted@.len() == it.index(),
            sorted_keys@.len() == it.index(),
            forall|i: int| 0 <= i < order.len() ==> (#[trigger] sorted@[i])@ == mods@[order[i]]@,
            forall|i: int|
                0 <= i < order.len() ==> (#[trigger] sorted_keys@[i])@ == keys[order[i]],
    {
        let ghost n = it.index() as int;
        let ghost seen = keys.take(n + 1);
        let lowered = to_lowercase(m.name.as_str());
        let key = chars_of(lowered.as_str());
        assert(seen.drop_last() =~= keys.take(n));
        assert(key@ == seen.last());
        let mut pos: usize = sorted.len();
        while pos > 0 && key_precedes(&key, &sorted_keys[pos - 1])
            invariant
                pos <= sorted_keys@.len(),
                sorted_keys@.len() == order.len(),
                is_stable_order(seen.drop_last(), order),
                key@ == seen.last(),
                seen == keys.take(n + 1),
                0 <= n < keys.len(),
                forall|i: int|
                    0 <= i < order.len() ==> (#[trigger] sorted_keys@[i])@ == keys[order[i]],
                forall|i: int|
                    pos <= i < order.len() ==> precedes(seen.last(), seen[#[trigger] order[i]]),
            decreases pos,
        {
            pos -= 1;
        }
        proof {
            lemma_stable_order_grows(seen, order, pos as int);
            order = order.insert(pos as int, n);
        }
        sorted.insert(pos, m);
        sorted_keys.insert(pos, key);
    }
    proof {
        assert(keys.take(mods@.len() as int) =~= keys);
        lemma_stable_order_unique(keys, order, stable_order(keys));
        assert(views(sorted@) =~= sorted_by_name(views(mods@)));
    }
    sorted
}

} // verus!
