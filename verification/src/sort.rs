//! Orderings of pools by a numeric field.
//!
//! Sorting returns a new list with the same pools. Pools with equal values
//! may come in any order. A field name that is not known orders nothing: the
//! pools come back as they were given.

use vstd::prelude::*;
use vstd::seq_lib::{to_multiset_build, to_multiset_contains, to_multiset_insert, to_multiset_len};
use crate::filter::{filter_by_volume, with_volume};
use crate::float::Float;
use crate::json::views;
use crate::records::{Pool, PoolView};
use crate::text::same_text;

verus! {

/// A numeric field of a pool that pools can be ordered by.
#[derive(Clone, Copy, Debug, PartialEq, Eq, Structural)]
pub enum OrderField {
    /// The volume in dollars.
    VolumeUsd,
    /// The price in dollars.
    PriceUsd,
    /// The number of transactions.
    Transactions,
    /// The price change over 24 hours.
    PriceChange24h,
    /// The size of the price change over 24 hours, up or down.
    Movement,
}

/// The field that a name stands for, if it stands for one.
pub open spec fn field_named(name: Seq<char>) -> Option<OrderField> {
    if name == "volume_usd"@ {
        Some(OrderField::VolumeUsd)
    } else if name == "price_usd"@ {
        Some(OrderField::PriceUsd)
    } else if name == "transactions"@ {
        Some(OrderField::Transactions)
    } else if name == "last_price_change_usd_24h"@ {
        Some(OrderField::PriceChange24h)
    } else {
        None
    }
}

/// True when the pool's value of the field takes part in an order: a count
/// always does, an amount unless it is NaN.
pub open spec fn comparable(p: PoolView, field: OrderField) -> bool {
    match field {
        OrderField::VolumeUsd => !p.volume_usd.nan(),
        OrderField::PriceUsd => !p.price_usd.nan(),
        OrderField::Transactions => true,
        OrderField::PriceChange24h => !p.last_price_change_usd_24h.nan(),
        OrderField::Movement => !p.last_price_change_usd_24h.nan(),
    }
}

/// An integer that orders pools as the field's values order them.
pub open spec fn key(p: PoolView, field: OrderField) -> int {
    match field {
        OrderField::VolumeUsd => p.volume_usd.rank(),
        OrderField::PriceUsd => p.price_usd.rank(),
        OrderField::Transactions => p.transactions as int,
        OrderField::PriceChange24h => p.last_price_change_usd_24h.rank(),
        OrderField::Movement => p.last_price_change_usd_24h.magnitude(),
    }
}

/// True when `a` must come before `b`: both values take part in the order,
/// and `a`'s is the smaller one, or the larger one in a descending order.
pub open spec fn comes_before(a: PoolView, b: PoolView, field: OrderField, descending: bool) -> bool {
    comparable(a, field) && comparable(b, field) && if descending {
        key(b, field) < key(a, field)
    } else {
        key(a, field) < key(b, field)
    }
}

/// True when no pool of the list must come before an earlier one.
pub open spec fn ordered(s: Seq<PoolView>, field: OrderField, descending: bool) -> bool {
    forall|i: int, j: int|
        0 <= i < j < s.len() ==> !comes_before(#[trigger] s[j], #[trigger] s[i], field, descending)
}

/// True when every pool's value of the field takes part in the order.
pub open spec fn all_comparable(s: Seq<PoolView>, field: OrderField) -> bool {
    forall|i: int| 0 <= i < s.len() ==> comparable(#[trigger] s[i], field)
}

/// True when `s` is `input` sorted by the field: it holds the same pools,
/// each as often as the input does, and it is ordered, provided that no
/// value of the input is NaN.
pub open spec fn is_sort_of(
    s: Seq<PoolView>,
    input: Seq<PoolView>,
    field: OrderField,
    descending: bool,
) -> bool {
    &&& s.to_multiset() == input.to_multiset()
    &&& all_comparable(input, field) ==> ordered(s, field, descending) && all_comparable(s, field)
}

/// True when `s` is `input` sorted by the field of the given name; a name
/// that stands for no field leaves the input as it is.
pub open spec fn sorted_as(
    s: Seq<PoolView>,
    input: Seq<PoolView>,
    name: Seq<char>,
    descending: bool,
) -> bool {
    match field_named(name) {
        Some(field) => is_sort_of(s, input, field, descending),
        None => s == input,
    }
}

/// The smaller of two lengths.
pub open spec fn at_most(n: nat, len: nat) -> int {
    if n <= len {
        n as int
    } else {
        len as int
    }
}

/// The field that a name stands for.
pub fn parse_field(name: &str) -> (r: Option<OrderField>)
    ensures
        r == field_named(name@),
{
    if same_text(name, "volume_usd") {
        Some(OrderField::VolumeUsd)
    } else if same_text(name, "price_usd") {
        Some(OrderField::PriceUsd)
    } else if same_text(name, "transactions") {
        Some(OrderField::Transactions)
    } else if same_text(name, "last_price_change_usd_24h") {
        Some(OrderField::PriceChange24h)
    } else {
        None
    }
}

/// Whether `a` must come before `b`.
pub fn precedes(a: &Pool, b: &Pool, field: OrderField, descending: bool) -> (r: bool)
    ensures
        r == comes_before(a@, b@, field, descending),
{
    let (low, high) = if descending {
        (b, a)
    } else {
        (a, b)
    };
    match field {
        OrderField::VolumeUsd => low.volume_usd.lt(high.volume_usd),
        OrderField::PriceUsd => low.price_usd.lt(high.price_usd),
        OrderField::Transactions => low.transactions < high.transactions,
        OrderField::PriceChange24h => low.last_price_change_usd_24h.lt(
            high.last_price_change_usd_24h,
        ),
        OrderField::Movement => low.last_price_change_usd_24h.abs().lt(
            high.last_price_change_usd_24h.abs(),
        ),
    }
}

/// The pools sorted by a field, ascending or descending.
pub fn sort_pools(pools: &[Pool], field: OrderField, descending: bool) -> (r: Vec<Pool>)
    ensures
        is_sort_of(views(r@), views(pools@), field, descending),
        r.len() == pools.len(),
{
    let ghost all = views(pools@);
    let mut out: Vec<Pool> = Vec::new();
    let mut i: usize = 0;
    proof {
        assert(all.take(0) =~= Seq::empty());
        assert(views(out@) =~= Seq::empty());
    }
    while i < pools.len()
        invariant
            i <= pools.len(),
            out.len() == i,
            all == views(pools@),
            views(out@).to_multiset() == all.take(i as int).to_multiset(),
            all_comparable(all, field) ==> ordered(views(out@), field, descending)
                && all_comparable(views(out@), field),
        decreases pools.len() - i,
    {
        let x = pools[i].clone();
        let mut pos: usize = out.len();
        while pos > 0 && precedes(&x, &out[pos - 1], field, descending)
            invariant
                pos <= out.len(),
                forall|k: int|
                    pos <= k < out.len() ==> comes_before(x@, #[trigger] out[k]@, field, descending),
            decreases pos,
        {
            pos = pos - 1;
        }
        let ghost before = views(out@);
        let ghost item = x@;
        out.insert(pos, x);
        proof {
            let after = views(out@);
            assert(after =~= before.insert(pos as int, item));
            to_multiset_insert(before, pos as int, item);
            assert(all.take(i as int + 1) =~= all.take(i as int).push(item));
            to_multiset_build(all.take(i as int), item);
            if all_comparable(all, field) {
                assert(comparable(all[i as int], field));
                assert forall|k: int| 0 <= k < after.len() implies comparable(
                    #[trigger] after[k],
                    field,
                ) by {
                    if k < pos {
                        assert(after[k] == before[k]);
                    } else if k > pos {
                        assert(after[k] == before[k - 1]);
                    }
                }
                assert forall|a: int, b: int| 0 <= a < b < after.len() implies !comes_before(
                    #[trigger] after[b],
                    #[trigger] after[a],
                    field,
                    descending,
                ) by {
                    if b == pos {
                        assert(after[a] == before[a]);
                        if a < pos - 1 {
                            assert(!comes_before(before[pos - 1], before[a], field, descending));
                        }
                    } else if a == pos {
                        assert(after[b] == before[b - 1]);
                        assert(comes_before(item, out[b]@, field, descending));
                    } else {
                        let a0 = if a < pos { a } else { a - 1 };
                        let b0 = if b < pos { b } else { b - 1 };
                        assert(after[a] == before[a0]);
                        assert(after[b] == before[b0]);
                    }
                }
            }
        }
        i += 1;
    }
    assert(all.take(i as int) =~= all);
    out
}

/// A copy of a list of pools.
pub fn copy_slice(pools: &[Pool]) -> (r: Vec<Pool>)
    ensures
        views(r@) == views(pools@),
        r.len() == pools.len(),
{
    let mut out: Vec<Pool> = Vec::new();
    let mut i: usize = 0;
    while i < pools.len()
        invariant
            i <= pools.len(),
            out.len() == i,
            forall|k: int| 0 <= k < i ==> out[k]@ == pools[k]@,
        decreases pools.len() - i,
    {
        out.push(pools[i].clone());
        i += 1;
    }
    assert(views(out@) =~= views(pools@));
    out
}

/// The pools sorted by the field of the given name. A name that stands for
/// no field orders nothing: the pools come back as they were given.
pub fn sort_by_field(pools: &[Pool], field: &str, descending: bool) -> (r: Vec<Pool>)
    ensures
        sorted_as(views(r@), views(pools@), field@, descending),
        r.len() == pools.len(),
{
    match parse_field(field) {
        Some(f) => sort_pools(pools, f, descending),
        None => copy_slice(pools),
    }
}

/// The `n` pools with the largest values of the field, largest first: the
/// first `n` of the pools in descending order, or all of them where there
/// are fewer.
pub fn top_n(pools: &[Pool], field: &str, n: usize) -> (r: Vec<Pool>)
    ensures
        r.len() == at_most(n as nat, pools.len() as nat),
        exists|s: Seq<PoolView>| #[trigger]
            sorted_as(s, views(pools@), field@, true) && views(r@) == s.take(r.len() as int),
{
    let mut sorted = sort_by_field(pools, field, true);
    let ghost whole = views(sorted@);
    sorted.truncate(n);
    proof {
        assert(views(sorted@) =~= whole.take(sorted.len() as int));
    }
    sorted
}

/// The `n` pools with the smallest values of the field, smallest first: the
/// first `n` of the pools in ascending order, or all of them where there
/// are fewer.
pub fn bottom_n(pools: &[Pool], field: &str, n: usize) -> (r: Vec<Pool>)
    ensures
        r.len() == at_most(n as nat, pools.len() as nat),
        exists|s: Seq<PoolView>| #[trigger]
            sorted_as(s, views(pools@), field@, false) && views(r@) == s.take(r.len() as int),
{
    let mut sorted = sort_by_field(pools, field, false);
    let ghost whole = views(sorted@);
    sorted.truncate(n);
    proof {
        assert(views(sorted@) =~= whole.take(sorted.len() as int));
    }
    sorted
}

/// The pools that moved most: of the pools with a volume of at least
/// `min_volume`, the `limit` with the largest price change over 24 hours, up
/// or down, largest first.
pub fn top_movers(pools: &[Pool], limit: u32, min_volume: Float) -> (r: Vec<Pool>)
    ensures
        r.len() <= limit,
        exists|s: Seq<PoolView>| #[trigger]
            is_sort_of(s, with_volume(views(pools@), min_volume), OrderField::Movement, true)
                && r.len() == at_most(limit as nat, s.len()) && views(r@) == s.take(
                r.len() as int,
            ),
{
    let filtered = filter_by_volume(pools, min_volume);
    let mut sorted = sort_pools(filtered.as_slice(), OrderField::Movement, true);
    let ghost whole = views(sorted@);
    sorted.truncate(limit as usize);
    proof {
        assert(views(sorted@) =~= whole.take(sorted.len() as int));
        assert(whole.len() == sorted@.len() || sorted.len() == limit);
    }
    sorted
}

/// The place of the pool with the largest volume, where a later pool takes
/// the place of an earlier one unless the earlier one's volume is larger;
/// `None` for an empty list.
pub open spec fn largest_at(pools: Seq<PoolView>) -> Option<int>
    decreases pools.len(),
{
    if pools.len() == 0 {
        None
    } else {
        match largest_at(pools.drop_last()) {
            Some(i) => if pools.last().volume_usd.below(pools[i].volume_usd) {
                Some(i)
            } else {
                Some(pools.len() - 1)
            },
            None => Some(pools.len() - 1),
        }
    }
}

/// The pool with the largest volume; `None` for an empty list.
pub fn largest_pool(pools: &[Pool]) -> (r: Option<Pool>)
    ensures
        match r {
            Some(p) => largest_at(views(pools@)) matches Some(i) && 0 <= i < pools.len() && p@
                == pools[i]@,
            None => largest_at(views(pools@)) is None,
        },
{
    if pools.len() == 0 {
        return None;
    }
    let ghost all = views(pools@);
    let mut best: usize = 0;
    let mut i: usize = 1;
    proof {
        assert(all.take(1).drop_last() =~= Seq::empty());
        reveal_with_fuel(largest_at, 2);
    }
    while i < pools.len()
        invariant
            1 <= i <= pools.len(),
            best < i,
            all == views(pools@),
            largest_at(all.take(i as int)) == Some(best as int),
        decreases pools.len() - i,
    {
        proof {
            assert(all.take(i as int + 1).drop_last() =~= all.take(i as int));
        }
        if !pools[i].volume_usd.lt(pools[best].volume_usd) {
            best = i;
        }
        i += 1;
    }
    assert(all.take(i as int) =~= all);
    Some(pools[best].clone())
}

/// True when no two pools of the list have the same value of the field.
pub open spec fn distinct_keys(s: Seq<PoolView>, field: OrderField) -> bool {
    forall|i: int, j: int|
        0 <= i < j < s.len() ==> key(#[trigger] s[i], field) != key(#[trigger] s[j], field)
}

/// True when the values of the field grow from each pool to the next.
pub open spec fn ascending(s: Seq<PoolView>, field: OrderField) -> bool {
    forall|i: int, j: int|
        0 <= i < j < s.len() ==> key(#[trigger] s[i], field) < key(#[trigger] s[j], field)
}

/// A list that holds the same pools as one with distinct values has
/// distinct values too.
pub proof fn lemma_distinct_keys_carry(input: Seq<PoolView>, s: Seq<PoolView>, field: OrderField)
    requires
        distinct_keys(input, field),
        s.to_multiset() == input.to_multiset(),
    ensures
        distinct_keys(s, field),
{
    assert(input.no_duplicates()) by {
        assert forall|i: int, j: int|
            0 <= i < input.len() && 0 <= j < input.len() && i != j implies input[i] != input[j] by {
            if i < j {
                assert(key(input[i], field) != key(input[j], field));
            } else {
                assert(key(input[j], field) != key(input[i], field));
            }
        }
    }
    input.lemma_multiset_has_no_duplicates();
    s.lemma_multiset_has_no_duplicates_conv();
    assert forall|i: int, j: int| 0 <= i < j < s.len() implies key(#[trigger] s[i], field) != key(
        #[trigger] s[j],
        field,
    ) by {
        assert(s[i] != s[j]);
        to_multiset_contains(s, s[i]);
        to_multiset_contains(s, s[j]);
        to_multiset_contains(input, s[i]);
        to_multiset_contains(input, s[j]);
        assert(s.contains(s[i]));
        assert(s.contains(s[j]));
        let p = choose|p: int| 0 <= p < input.len() && input[p] == s[i];
        let q = choose|q: int| 0 <= q < input.len() && input[q] == s[j];
        if p < q {
            assert(key(input[p], field) != key(input[q], field));
        } else {
            assert(key(input[q], field) != key(input[p], field));
        }
    }
}

/// Two lists that hold the same pools, each with values that grow from pool
/// to pool, are the same list.
pub proof fn lemma_ascending_is_unique(a: Seq<PoolView>, b: Seq<PoolView>, field: OrderField)
    requires
        a.to_multiset() == b.to_multiset(),
        ascending(a, field),
        ascending(b, field),
    ensures
        a == b,
    decreases a.len(),
{
    to_multiset_len(a);
    to_multiset_len(b);
    if a.len() == 0 {
        assert(a =~= b);
    } else {
        let n = a.len() as int;
        to_multiset_contains(a, a.last());
        to_multiset_contains(b, a.last());
        to_multiset_contains(a, b.last());
        to_multiset_contains(b, b.last());
        assert(a.contains(a.last()));
        assert(b.contains(b.last()));
        let j = choose|j: int| 0 <= j < b.len() && b[j] == a.last();
        let i = choose|i: int| 0 <= i < a.len() && a[i] == b.last();
        if i < n - 1 {
            assert(key(a[i], field) < key(a[n - 1], field));
            if j < n - 1 {
                assert(key(b[j], field) < key(b[n - 1], field));
            }
            assert(false);
        }
        assert(a.last() == b.last());
        let a0 = a.drop_last();
        let b0 = b.drop_last();
        assert(a0.push(a.last()) =~= a);
        assert(b0.push(b.last()) =~= b);
        to_multiset_build(a0, a.last());
        to_multiset_build(b0, b.last());
        assert(a0.to_multiset() =~= a.to_multiset().remove(a.last()));
        assert(b0.to_multiset() =~= b.to_multiset().remove(b.last()));
        assert forall|x: int, y: int| 0 <= x < y < a0.len() implies key(
            #[trigger] a0[x],
            field,
        ) < key(#[trigger] a0[y], field) by {
            assert(a0[x] == a[x] && a0[y] == a[y]);
        }
        assert forall|x: int, y: int| 0 <= x < y < b0.len() implies key(
            #[trigger] b0[x],
            field,
        ) < key(#[trigger] b0[y], field) by {
            assert(b0[x] == b[x] && b0[y] == b[y]);
        }
        lemma_ascending_is_unique(a0, b0, field);
        assert(a =~= b);
    }
}

/// Where no two pools have the same value of the field and no value is NaN,
/// the descending order is the ascending order read backwards. So the `n`
/// largest, largest first, are the last `n` of the ascending order read
/// backwards, and the largest of all is the last of the smallest-first list.
pub proof fn lemma_descending_reverses_ascending(
    input: Seq<PoolView>,
    field: OrderField,
    up: Seq<PoolView>,
    down: Seq<PoolView>,
)
    requires
        all_comparable(input, field),
        distinct_keys(input, field),
        is_sort_of(up, input, field, false),
        is_sort_of(down, input, field, true),
    ensures
        down == up.reverse(),
        up == down.reverse(),
{
    lemma_distinct_keys_carry(input, up, field);
    lemma_distinct_keys_carry(input, down, field);
    let back = down.reverse();
    down.lemma_reverse_to_multiset();
    to_multiset_len(up);
    to_multiset_len(down);
    to_multiset_len(input);
    assert forall|i: int, j: int| 0 <= i < j < up.len() implies key(#[trigger] up[i], field) < key(
        #[trigger] up[j],
        field,
    ) by {
        assert(!comes_before(up[j], up[i], field, false));
        assert(key(up[i], field) != key(up[j], field));
    }
    assert forall|i: int, j: int| 0 <= i < j < back.len() implies key(
        #[trigger] back[i],
        field,
    ) < key(#[trigger] back[j], field) by {
        let n = down.len() as int;
        assert(back[i] == down[n - 1 - i]);
        assert(back[j] == down[n - 1 - j]);
        assert(!comes_before(down[n - 1 - i], down[n - 1 - j], field, true));
        assert(key(down[n - 1 - j], field) != key(down[n - 1 - i], field));
    }
    lemma_ascending_is_unique(up, back, field);
    assert(down =~= up.reverse());
}

} // verus!
