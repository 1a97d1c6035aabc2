//! The parts of the analyses that are decisions, not arithmetic: which
//! values an analysis looks at, in which order, in which groups, and which
//! of them it reports.
//!
//! Sums, means, deviations and ratios of doubles are left to the caller. The
//! functions here hand the caller the values to work on and take the
//! results back where a decision depends on them.

use vstd::prelude::*;
use vstd::arithmetic::power2::{lemma2_to64, lemma2_to64_rest};
use vstd::seq_lib::{to_multiset_build, to_multiset_insert};
use crate::assoc::{find_key, firsts, keys, position};
use crate::endpoints::{get_network_pools, network_pools_path, Request, RequestView};
use crate::float::Float;
use crate::json::views;
use crate::metrics::{
    names_view, shares_view, DexDistribution, DexDistributionView, LiquidityAnalysis,
    LiquidityAnalysisView,
};
use crate::params::{no_params, ApiParams, ApiParamsView};
use crate::records::{Network, NetworkView, OHLCVRecord, OHLCVRecordView, Pool, PoolView};
use crate::text::{eq_ignoring_case, same_ignoring_case, same_text};

verus! {

/// The bits of the double 1,000,000.
pub const MILLION_BITS: u64 = 0x412e_8480_0000_0000;

/// The bits of the double 10,000,000.
pub const TEN_MILLION_BITS: u64 = 0x4163_12d0_0000_0000;

/// The bits of the double 100,000,000.
pub const HUNDRED_MILLION_BITS: u64 = 0x4197_d784_0000_0000;

/// The three bounds of the volume ranges are the doubles of one, ten and a
/// hundred million.
pub proof fn lemma_range_bounds()
    ensures
        (Float { bits: MILLION_BITS }).encodes_whole(1_000_000),
        (Float { bits: TEN_MILLION_BITS }).encodes_whole(10_000_000),
        (Float { bits: HUNDRED_MILLION_BITS }).encodes_whole(100_000_000),
{
    lemma2_to64();
    lemma2_to64_rest();
}

/// A pool that stands out: its place in the list, its value of the field,
/// its z-score, and the pool itself as it was.
#[derive(Debug, PartialEq)]
pub struct AnomalyResult {
    pub index: usize,
    pub value: Float,
    pub z_score: Float,
    pub item: Pool,
}

/// True when `x` is the pool's value of the field of the given name. The
/// number of transactions counts as the double that equals it; a name that
/// stands for no field gives zero.
pub open spec fn is_value_of(x: Float, p: PoolView, name: Seq<char>) -> bool {
    if name == "volume_usd"@ {
        x == p.volume_usd
    } else if name == "price_usd"@ {
        x == p.price_usd
    } else if name == "transactions"@ {
        x.encodes_whole(p.transactions as nat)
    } else if name == "last_price_change_usd_24h"@ {
        x == p.last_price_change_usd_24h
    } else {
        x.bits == 0
    }
}

/// The pool's value of the field of the given name.
pub fn field_value(pool: &Pool, field: &str) -> (r: Float)
    ensures
        is_value_of(r, pool@, field@),
{
    if same_text(field, "volume_usd") {
        pool.volume_usd
    } else if same_text(field, "price_usd") {
        pool.price_usd
    } else if same_text(field, "transactions") {
        Float::from_u32(pool.transactions)
    } else if same_text(field, "last_price_change_usd_24h") {
        pool.last_price_change_usd_24h
    } else {
        Float::zero()
    }
}

/// The values of the field of the given name, one for each pool, in the
/// order of the pools.
pub fn field_values(pools: &[Pool], field: &str) -> (r: Vec<Float>)
    ensures
        r.len() == pools.len(),
        forall|i: int| 0 <= i < pools.len() ==> is_value_of(#[trigger] r[i], pools[i]@, field@),
{
    let mut out: Vec<Float> = Vec::new();
    let mut i: usize = 0;
    while i < pools.len()
        invariant
            i <= pools.len(),
            out.len() == i,
            forall|k: int| 0 <= k < i ==> is_value_of(#[trigger] out[k], pools[k]@, field@),
        decreases pools.len() - i,
    {
        out.push(field_value(&pools[i], field));
        i += 1;
    }
    out
}

/// The places among the first `n` whose score is above the threshold, in
/// rising order. A place without a score is not among them.
pub open spec fn above(n: nat, scores: Seq<Float>, threshold: Float) -> Seq<int>
    decreases n,
{
    if n == 0 {
        Seq::empty()
    } else {
        let rest = above((n - 1) as nat, scores, threshold);
        if n - 1 < scores.len() && threshold.below(scores[n - 1]) {
            rest.push(n - 1)
        } else {
            rest
        }
    }
}

/// The places of the pools that stand out: none where there are fewer than
/// three pools, none where the standard deviation is not above zero, and
/// otherwise those whose z-score is above the threshold.
pub open spec fn anomalous(count: nat, std_dev: Float, scores: Seq<Float>, threshold: Float) -> Seq<
    int,
> {
    if count < 3 || !(Float { bits: 0 }).below(std_dev) {
        Seq::empty()
    } else {
        above(count, scores, threshold)
    }
}

/// The pools that stand out in the field of the given name. The standard
/// deviation and the z-scores, one for each pool, are handed in. Fewer than
/// three pools give no result whatever the threshold is.
pub fn detect_anomalies(
    pools: &[Pool],
    field: &str,
    std_dev: Float,
    z_scores: &[Float],
    threshold: Float,
) -> (r: Vec<AnomalyResult>)
    ensures
        pools.len() < 3 ==> r.len() == 0,
        r.len() == anomalous(pools.len() as nat, std_dev, z_scores@, threshold).len(),
        forall|k: int|
            0 <= k < r.len() ==> {
                let place = anomalous(pools.len() as nat, std_dev, z_scores@, threshold)[k];
                &&& 0 <= place < pools.len()
                &&& place < z_scores.len()
                &&& (#[trigger] r[k]).index == place
                &&& r[k].z_score == z_scores[place]
                &&& r[k].item@ == pools[place]@
                &&& is_value_of(r[k].value, pools[place]@, field@)
            },
{
    let mut out: Vec<AnomalyResult> = Vec::new();
    if pools.len() < 3 || !Float::zero().lt(std_dev) {
        return out;
    }
    let ghost places = above(pools.len() as nat, z_scores@, threshold);
    let mut i: usize = 0;
    while i < pools.len()
        invariant
            i <= pools.len(),
            out.len() == above(i as nat, z_scores@, threshold).len(),
            forall|k: int|
                0 <= k < out.len() ==> {
                    let place = above(i as nat, z_scores@, threshold)[k];
                    &&& 0 <= place < i
                    &&& place < z_scores.len()
                    &&& (#[trigger] out[k]).index == place
                    &&& out[k].z_score == z_scores[place]
                    &&& out[k].item@ == pools[place]@
                    &&& is_value_of(out[k].value, pools[place]@, field@)
                },
        decreases pools.len() - i,
    {
        if i < z_scores.len() && z_scores[i].gt(threshold) {
            out.push(
                AnomalyResult {
                    index: i,
                    value: field_value(&pools[i], field),
                    z_score: z_scores[i],
                    item: pools[i].clone(),
                },
            );
        }
        i += 1;
    }
    out
}

/// True when `a` must come before `b`: neither is NaN, and `a` is the
/// smaller one, or the larger one in a descending order.
pub open spec fn amount_before(a: Float, b: Float, descending: bool) -> bool {
    if descending {
        b.below(a)
    } else {
        a.below(b)
    }
}

/// True when no amount of the list must come before an earlier one.
pub open spec fn amounts_ordered(s: Seq<Float>, descending: bool) -> bool {
    forall|i: int, j: int|
        0 <= i < j < s.len() ==> !amount_before(#[trigger] s[j], #[trigger] s[i], descending)
}

/// True when an amount is a number.
pub open spec fn is_number(x: Float) -> bool {
    !x.nan()
}

/// True when no amount of the list is NaN.
pub open spec fn all_numbers(s: Seq<Float>) -> bool {
    forall|i: int| 0 <= i < s.len() ==> is_number(#[trigger] s[i])
}

/// True when `s` is `input` sorted: the same amounts, each as often as in
/// the input, and in order, provided that none of them is NaN.
pub open spec fn is_sorted_amounts(s: Seq<Float>, input: Seq<Float>, descending: bool) -> bool {
    &&& s.to_multiset() == input.to_multiset()
    &&& all_numbers(input) ==> amounts_ordered(s, descending) && all_numbers(s)
}

fn goes_before(a: Float, b: Float, descending: bool) -> (r: bool)
    ensures
        r == amount_before(a, b, descending),
{
    if descending {
        b.lt(a)
    } else {
        a.lt(b)
    }
}

/// The amounts sorted, ascending or descending.
pub fn sort_amounts(values: &[Float], descending: bool) -> (r: Vec<Float>)
    ensures
        is_sorted_amounts(r@, values@, descending),
        r.len() == values.len(),
{
    let ghost all = values@;
    let mut out: Vec<Float> = Vec::new();
    let mut i: usize = 0;
    proof {
        assert(all.take(0) =~= Seq::empty());
        assert(out@ =~= Seq::empty());
    }
    while i < values.len()
        invariant
            i <= values.len(),
            out.len() == i,
            all == values@,
            out@.to_multiset() == all.take(i as int).to_multiset(),
            all_numbers(all) ==> amounts_ordered(out@, descending) && all_numbers(out@),
        decreases values.len() - i,
    {
        let x = values[i];
        let mut pos: usize = out.len();
        while pos > 0 && goes_before(x, out[pos - 1], descending)
            invariant
                pos <= out.len(),
                forall|k: int|
                    pos <= k < out.len() ==> amount_before(x, #[trigger] out@[k], descending),
            decreases pos,
        {
            pos = pos - 1;
        }
        let ghost before = out@;
        let ghost item = x;
        out.insert(pos, x);
        proof {
            let after = out@;
            assert(after =~= before.insert(pos as int, item));
            to_multiset_insert(before, pos as int, item);
            assert(all.take(i as int + 1) =~= all.take(i as int).push(item));
            to_multiset_build(all.take(i as int), item);
            if all_numbers(all) {
                assert(is_number(all[i as int]));
                assert forall|k: int| 0 <= k < after.len() implies is_number(#[trigger] after[k]) by {
                    if k < pos {
                        assert(after[k] == before[k]);
                    } else if k > pos {
                        assert(after[k] == before[k - 1]);
                    }
                }
                assert forall|a: int, b: int| 0 <= a < b < after.len() implies !amount_before(
                    #[trigger] after[b],
                    #[trigger] after[a],
                    descending,
                ) by {
                    if b == pos {
                        assert(after[a] == before[a]);
                        if a < pos - 1 {
                            assert(!amount_before(before[pos - 1], before[a], descending));
                        }
                    } else if a == pos {
                        assert(after[b] == before[b - 1]);
                        assert(amount_before(item, before[b - 1], descending));
                    } else {
                        let a0 = if a < pos { a } else { a - 1 };
                        let b0 = if b < pos { b } else { b - 1 };
                        assert(after[a] == before[a0]);
                        assert(after[b] == before[b0]);
                    }
                }
            }
        }
        i += 1;
    }
    assert(all.take(i as int) =~= all);
    out
}

/// The volumes of the pools, in the order of the pools.
pub open spec fn volumes_of(pools: Seq<PoolView>) -> Seq<Float> {
    Seq::new(pools.len(), |i: int| pools[i].volume_usd)
}

/// The volumes of the pools, in the order of the pools.
pub fn volumes(pools: &[Pool]) -> (r: Vec<Float>)
    ensures
        r@ == volumes_of(views(pools@)),
{
    let mut out: Vec<Float> = Vec::new();
    let mut i: usize = 0;
    while i < pools.len()
        invariant
            i <= pools.len(),
            out.len() == i,
            forall|k: int| 0 <= k < i ==> out[k] == pools[k].volume_usd,
        decreases pools.len() - i,
    {
        out.push(pools[i].volume_usd);
        i += 1;
    }
    assert(out@ =~= volumes_of(views(pools@)));
    out
}

/// The volumes of the pools in ascending order.
pub fn sorted_volumes(pools: &[Pool]) -> (r: Vec<Float>)
    ensures
        is_sorted_amounts(r@, volumes_of(views(pools@)), false),
        r.len() == pools.len(),
{
    let all = volumes(pools);
    sort_amounts(all.as_slice(), false)
}

/// The places of the median in a sorted list of `len` values: the middle
/// place twice where `len` is odd, the two middle places where it is even,
/// and none for an empty list.
pub open spec fn median_at(len: nat) -> Option<(int, int)> {
    if len == 0 {
        None
    } else if len % 2 == 0 {
        Some((len / 2 - 1, len as int / 2))
    } else {
        Some((len as int / 2, len as int / 2))
    }
}

/// True when `places` are the places of the median in a sorted list of
/// `len` values.
pub open spec fn is_median(places: Option<(usize, usize)>, len: nat) -> bool {
    match places {
        Some((low, high)) => median_at(len) == Some((low as int, high as int)) && low <= high < len,
        None => median_at(len) is None,
    }
}

/// The places of the median in a sorted list of `len` values. The median is
/// the mean of the values at the two places.
pub fn median_places(len: usize) -> (r: Option<(usize, usize)>)
    ensures
        is_median(r, len as nat),
{
    if len == 0 {
        None
    } else if len % 2 == 0 {
        Some((len / 2 - 1, len / 2))
    } else {
        Some((len / 2, len / 2))
    }
}

/// How many pools count as the top tenth of `len` pools: a tenth, rounded
/// down, and at least one.
pub open spec fn tenth(len: nat) -> nat {
    if len / 10 >= 1 {
        len / 10
    } else {
        1
    }
}

/// How many pools count as the top tenth of `len` pools.
pub fn top_count(len: usize) -> (r: usize)
    ensures
        r == tenth(len as nat),
{
    if len / 10 >= 1 {
        len / 10
    } else {
        1
    }
}

/// How many volumes fall into each range.
#[derive(Clone, Copy, Debug, PartialEq, Eq, Structural)]
pub struct Buckets {
    /// From zero to below one million.
    pub under_1m: usize,
    /// From one million to below ten million.
    pub from_1m: usize,
    /// From ten million to below a hundred million.
    pub from_10m: usize,
    /// From a hundred million on, below infinity.
    pub from_100m: usize,
}

/// True when `x` is at least `low` and below `high`.
pub open spec fn within(x: Float, low: Float, high: Float) -> bool {
    low.at_most(x) && x.below(high)
}

/// How many of the values are at least `low` and below `high`.
pub open spec fn count_within(values: Seq<Float>, low: Float, high: Float) -> nat
    decreases values.len(),
{
    if values.len() == 0 {
        0
    } else {
        let rest = count_within(values.drop_last(), low, high);
        if within(values.last(), low, high) {
            rest + 1
        } else {
            rest
        }
    }
}

/// How many of the values are at least `low` and below `high`.
pub fn count_in_range(values: &[Float], low: Float, high: Float) -> (r: usize)
    ensures
        r == count_within(values@, low, high),
{
    let mut n: usize = 0;
    let mut i: usize = 0;
    proof {
        assert(values@.take(0) =~= Seq::empty());
    }
    while i < values.len()
        invariant
            i <= values.len(),
            n == count_within(values@.take(i as int), low, high),
            n <= i,
        decreases values.len() - i,
    {
        proof {
            assert(values@.take(i as int + 1).drop_last() =~= values@.take(i as int));
        }
        if low.le(values[i]) && values[i].lt(high) {
            n += 1;
        }
        i += 1;
    }
    assert(values@.take(i as int) =~= values@);
    n
}

/// True when the four counts are the numbers of values in the four ranges:
/// from zero to below one million, from there to below ten million, from
/// there to below a hundred million, and from there to below infinity.
pub open spec fn counts_ranges(b: Buckets, values: Seq<Float>) -> bool {
    &&& b.under_1m == count_within(values, Float { bits: 0 }, Float { bits: MILLION_BITS })
    &&& b.from_1m == count_within(
        values,
        Float { bits: MILLION_BITS },
        Float { bits: TEN_MILLION_BITS },
    )
    &&& b.from_10m == count_within(
        values,
        Float { bits: TEN_MILLION_BITS },
        Float { bits: HUNDRED_MILLION_BITS },
    )
    &&& b.from_100m == count_within(
        values,
        Float { bits: HUNDRED_MILLION_BITS },
        Float { bits: 0x7ff0_0000_0000_0000 },
    )
}

/// How many volumes fall into each of the four ranges. A negative volume
/// and a NaN fall into none.
pub fn volume_buckets(values: &[Float]) -> (r: Buckets)
    ensures
        counts_ranges(r, values@),
{
    let million = Float::from_bits(MILLION_BITS);
    let ten_million = Float::from_bits(TEN_MILLION_BITS);
    let hundred_million = Float::from_bits(HUNDRED_MILLION_BITS);
    Buckets {
        under_1m: count_in_range(values, Float::zero(), million),
        from_1m: count_in_range(values, million, ten_million),
        from_10m: count_in_range(values, ten_million, hundred_million),
        from_100m: count_in_range(values, hundred_million, Float::infinity()),
    }
}

/// The volumes by exchange after one more pool: the volume joins the list
/// of an exchange that is there, and a new exchange is added at the end.
pub open spec fn grouped_with(
    groups: Seq<(Seq<char>, Seq<Float>)>,
    name: Seq<char>,
    volume: Float,
) -> Seq<(Seq<char>, Seq<Float>)> {
    match position(firsts(groups), name) {
        Some(i) => groups.update(i, (name, groups[i].1.push(volume))),
        None => groups.push((name, seq![volume])),
    }
}

/// The volumes of the pools by the name of their exchange: the exchanges in
/// the order in which they first occur, each with the volumes of its pools
/// in the order of the pools.
pub open spec fn grouped(pools: Seq<PoolView>) -> Seq<(Seq<char>, Seq<Float>)>
    decreases pools.len(),
{
    if pools.len() == 0 {
        Seq::empty()
    } else {
        grouped_with(grouped(pools.drop_last()), pools.last().dex_name, pools.last().volume_usd)
    }
}

/// The names and volumes of a list of groups.
pub open spec fn groups_view(s: Seq<(String, Vec<Float>)>) -> Seq<(Seq<char>, Seq<Float>)> {
    Seq::new(s.len(), |i: int| (s[i].0@, s[i].1@))
}

/// The volumes of the pools by the name of their exchange.
pub fn group_volumes(pools: &[Pool]) -> (r: Vec<(String, Vec<Float>)>)
    ensures
        groups_view(r@) == grouped(views(pools@)),
{
    let ghost all = views(pools@);
    let mut out: Vec<(String, Vec<Float>)> = Vec::new();
    let mut i: usize = 0;
    proof {
        assert(all.take(0) =~= Seq::empty());
        assert(groups_view(out@) =~= grouped(all.take(0)));
    }
    while i < pools.len()
        invariant
            i <= pools.len(),
            all == views(pools@),
            groups_view(out@) == grouped(all.take(i as int)),
        decreases pools.len() - i,
    {
        let ghost before = groups_view(out@);
        proof {
            assert(all.take(i as int + 1).drop_last() =~= all.take(i as int));
            assert(all.take(i as int + 1).last() == pools[i as int]@);
            assert(keys(out@) =~= firsts(before));
        }
        match find_key(&out, pools[i].dex_name.as_str()) {
            Some(k) => {
                let mut list = out[k].1.clone();
                list.push(pools[i].volume_usd);
                out.set(k, (pools[i].dex_name.clone(), list));
            },
            None => {
                let mut list: Vec<Float> = Vec::new();
                list.push(pools[i].volume_usd);
                out.push((pools[i].dex_name.clone(), list));
            },
        }
        proof {
            assert(groups_view(out@) =~= grouped_with(
                before,
                pools[i as int]@.dex_name,
                pools[i as int]@.volume_usd,
            ));
        }
        i += 1;
    }
    assert(all.take(i as int) =~= all);
    out
}

/// True when the share `a` must come before the share `b`.
pub open spec fn share_before(a: (Seq<char>, Float), b: (Seq<char>, Float), descending: bool) -> bool {
    amount_before(a.1, b.1, descending)
}

/// True when no share of the list must come before an earlier one.
pub open spec fn shares_ordered(s: Seq<(Seq<char>, Float)>, descending: bool) -> bool {
    forall|i: int, j: int|
        0 <= i < j < s.len() ==> !share_before(#[trigger] s[j], #[trigger] s[i], descending)
}

/// True when the amount of a share is a number.
pub open spec fn share_is_number(x: (Seq<char>, Float)) -> bool {
    !x.1.nan()
}

/// True when no amount of the shares is NaN.
pub open spec fn all_share_numbers(s: Seq<(Seq<char>, Float)>) -> bool {
    forall|i: int| 0 <= i < s.len() ==> share_is_number(#[trigger] s[i])
}

/// True when `s` is `input` sorted by amount: the same named amounts, each
/// as often as in the input, and in order, provided that no amount is NaN.
pub open spec fn is_sorted_shares(
    s: Seq<(Seq<char>, Float)>,
    input: Seq<(Seq<char>, Float)>,
    descending: bool,
) -> bool {
    &&& s.to_multiset() == input.to_multiset()
    &&& all_share_numbers(input) ==> shares_ordered(s, descending) && all_share_numbers(s)
}

fn share_goes_before(a: &(String, Float), b: &(String, Float), descending: bool) -> (r: bool)
    ensures
        r == share_before((a.0@, a.1), (b.0@, b.1), descending),
{
    goes_before(a.1, b.1, descending)
}

/// Named amounts sorted by amount, ascending or descending. With the totals
/// by exchange and a descending order, the names come out as the ranking of
/// the exchanges.
pub fn sort_shares(totals: &Vec<(String, Float)>, descending: bool) -> (r: Vec<(String, Float)>)
    ensures
        is_sorted_shares(shares_view(r@), shares_view(totals@), descending),
        r.len() == totals.len(),
{
    let ghost all = shares_view(totals@);
    let mut out: Vec<(String, Float)> = Vec::new();
    let mut i: usize = 0;
    proof {
        assert(all.take(0) =~= Seq::empty());
        assert(shares_view(out@) =~= Seq::empty());
    }
    while i < totals.len()
        invariant
            i <= totals.len(),
            out.len() == i,
            all == shares_view(totals@),
            shares_view(out@).to_multiset() == all.take(i as int).to_multiset(),
            all_share_numbers(all) ==> shares_ordered(shares_view(out@), descending) && all_share_numbers(shares_view(out@)),
        decreases totals.len() - i,
    {
        let x = (totals[i].0.clone(), totals[i].1);
        let mut pos: usize = out.len();
        while pos > 0 && share_goes_before(&x, &out[pos - 1], descending)
            invariant
                pos <= out.len(),
                forall|k: int|
                    pos <= k < out.len() ==> share_before((x.0@, x.1), #[trigger] shares_view(out@)[k], descending),
            decreases pos,
        {
            pos = pos - 1;
        }
        let ghost before = shares_view(out@);
        let ghost item = (x.0@, x.1);
        out.insert(pos, x);
        proof {
            let after = shares_view(out@);
            assert(after =~= before.insert(pos as int, item));
            to_multiset_insert(before, pos as int, item);
            assert(all.take(i as int + 1) =~= all.take(i as int).push(item));
            to_multiset_build(all.take(i as int), item);
            if all_share_numbers(all) {
                assert(share_is_number(all[i as int]));
                assert forall|k: int| 0 <= k < after.len() implies share_is_number(#[trigger] after[k]) by {
                    if k < pos {
                        assert(after[k] == before[k]);
                    } else if k > pos {
                        assert(after[k] == before[k - 1]);
                    }
                }
                assert forall|a: int, b: int| 0 <= a < b < after.len() implies !share_before(
                    #[trigger] after[b],
                    #[trigger] after[a],
                    descending,
                ) by {
                    if b == pos {
                        assert(after[a] == before[a]);
                        if a < pos - 1 {
                            assert(!share_before(before[pos - 1], before[a], descending));
                        }
                    } else if a == pos {
                        assert(after[b] == before[b - 1]);
                        assert(share_before(item, before[b - 1], descending));
                    } else {
                        let a0 = if a < pos { a } else { a - 1 };
                        let b0 = if b < pos { b } else { b - 1 };
                        assert(after[a] == before[a0]);
                        assert(after[b] == before[b0]);
                    }
                }
            }
        }
        i += 1;
    }
    assert(all.take(i as int) =~= all);
    out
}

/// What a liquidity analysis works on: the volumes of the pools in ascending
/// order, the places of the median among them, how many of the largest count
/// as the top tenth, and how many fall into each range.
#[derive(Debug, PartialEq)]
pub struct LiquidityPlan {
    pub sorted: Vec<Float>,
    pub median: Option<(usize, usize)>,
    pub top: usize,
    pub buckets: Buckets,
}

/// What the liquidity analysis of a list of pools works on. The caller adds
/// the sorted volumes up, takes the mean of the two values at the median
/// places, adds the last `top` values up for the share of the top tenth, and
/// divides each count by the number of pools.
pub fn liquidity_plan(pools: &[Pool]) -> (r: LiquidityPlan)
    ensures
        is_sorted_amounts(r.sorted@, volumes_of(views(pools@)), false),
        r.sorted.len() == pools.len(),
        is_median(r.median, pools.len() as nat),
        r.top == tenth(pools.len() as nat),
        counts_ranges(r.buckets, r.sorted@),
{
    let sorted = sorted_volumes(pools);
    let median = median_places(pools.len());
    let top = top_count(pools.len());
    let buckets = volume_buckets(sorted.as_slice());
    LiquidityPlan { sorted, median, top, buckets }
}

/// The figures of a liquidity analysis that are worked out by the caller:
/// the sum, the mean and the median of the volumes, their Gini coefficient,
/// the share of the top tenth, and the share of the pools in each range.
#[derive(Clone, Copy, Debug, PartialEq)]
pub struct LiquidityFigures {
    pub total: Float,
    pub average: Float,
    pub median: Float,
    pub gini: Float,
    pub top_share: Float,
    pub under_1m: Float,
    pub from_1m: Float,
    pub from_10m: Float,
    pub from_100m: Float,
}

/// The liquidity analysis of a list of pools. Without pools every figure is
/// zero and no range is listed, whatever was handed in. With pools the
/// figures are the ones handed in, the count is the number of pools, and
/// the four ranges are listed from the lowest to the highest.
pub open spec fn liquidity_analysis(pools: Seq<PoolView>, f: LiquidityFigures) -> LiquidityAnalysisView {
    if pools.len() == 0 {
        LiquidityAnalysisView {
            total_liquidity: Float { bits: 0 },
            pool_count: 0,
            average_liquidity: Float { bits: 0 },
            median_liquidity: Float { bits: 0 },
            gini_coefficient: Float { bits: 0 },
            top_pools_share: Float { bits: 0 },
            distribution: Seq::empty(),
        }
    } else {
        LiquidityAnalysisView {
            total_liquidity: f.total,
            pool_count: pools.len() as usize,
            average_liquidity: f.average,
            median_liquidity: f.median,
            gini_coefficient: f.gini,
            top_pools_share: f.top_share,
            distribution: seq![
                ("< 1M"@, f.under_1m),
                ("1M-10M"@, f.from_1m),
                ("10M-100M"@, f.from_10m),
                ("> 100M"@, f.from_100m),
            ],
        }
    }
}

/// The liquidity analysis of a list of pools, with volume standing in for
/// liquidity. The figures are handed in.
pub fn analyze_liquidity_distribution(pools: &[Pool], figures: LiquidityFigures) -> (r:
    LiquidityAnalysis)
    ensures
        r@ == liquidity_analysis(views(pools@), figures),
{
    if pools.len() == 0 {
        let none: Vec<(String, Float)> = Vec::new();
        assert(shares_view(none@) =~= Seq::empty());
        return LiquidityAnalysis {
            total_liquidity: Float::zero(),
            pool_count: 0,
            average_liquidity: Float::zero(),
            median_liquidity: Float::zero(),
            gini_coefficient: Float::zero(),
            top_pools_share: Float::zero(),
            distribution: none,
        };
    }
    let mut distribution: Vec<(String, Float)> = Vec::new();
    distribution.push(("< 1M".to_owned(), figures.under_1m));
    distribution.push(("1M-10M".to_owned(), figures.from_1m));
    distribution.push(("10M-100M".to_owned(), figures.from_10m));
    distribution.push(("> 100M".to_owned(), figures.from_100m));
    assert(shares_view(distribution@) =~= seq![
        ("< 1M"@, figures.under_1m),
        ("1M-10M"@, figures.from_1m),
        ("10M-100M"@, figures.from_10m),
        ("> 100M"@, figures.from_100m),
    ]);
    LiquidityAnalysis {
        total_liquidity: figures.total,
        pool_count: pools.len(),
        average_liquidity: figures.average,
        median_liquidity: figures.median,
        gini_coefficient: figures.gini,
        top_pools_share: figures.top_share,
        distribution,
    }
}

/// The figures of an exchange distribution that are worked out by the
/// caller: the sum of all volumes; for each exchange, in the order in which
/// the exchanges first occur among the pools, the sum of its volumes and
/// its share of the whole; and the sum of the squared shares.
#[derive(Debug, PartialEq)]
pub struct DexFigures {
    pub total_volume: Float,
    pub totals: Vec<Float>,
    pub shares: Vec<Float>,
    pub concentration: Float,
}

/// The names with the values at their places; a name without a value, and a
/// value without a name, are left out.
pub open spec fn paired(names: Seq<Seq<char>>, values: Seq<Float>) -> Seq<(Seq<char>, Float)> {
    Seq::new(
        if names.len() <= values.len() {
            names.len()
        } else {
            values.len()
        },
        |i: int| (names[i], values[i]),
    )
}

/// The names of the exchanges of the pools, in the order in which they first
/// occur.
pub open spec fn exchanges(pools: Seq<PoolView>) -> Seq<Seq<char>> {
    firsts(grouped(pools))
}

/// True when `r` is the exchange distribution of the pools. Without pools
/// every figure is zero and nothing is listed. With pools the count is the
/// number of different exchange names; the shares, each under the name of its
/// exchange, and the concentration are reported where the sum of all volumes
/// is above zero; and the ranking holds the names of the exchanges in
/// descending order of their sums.
pub open spec fn is_dex_distribution(
    r: DexDistributionView,
    pools: Seq<PoolView>,
    total_volume: Float,
    totals: Seq<Float>,
    shares: Seq<Float>,
    concentration: Float,
) -> bool {
    if pools.len() == 0 {
        r == (DexDistributionView {
            total_volume: Float { bits: 0 },
            dex_count: 0,
            distribution: Seq::empty(),
            top_dexes: Seq::empty(),
            concentration: Float { bits: 0 },
        })
    } else {
        let positive = (Float { bits: 0 }).below(total_volume);
        &&& r.total_volume == total_volume
        &&& r.dex_count == exchanges(pools).len()
        &&& r.distribution == if positive {
            paired(exchanges(pools), shares)
        } else {
            Seq::empty()
        }
        &&& r.concentration == if positive {
            concentration
        } else {
            Float { bits: 0 }
        }
        &&& exists|ranked: Seq<(Seq<char>, Float)>| #[trigger]
            is_sorted_shares(ranked, paired(exchanges(pools), totals), true) && r.top_dexes
                == firsts(ranked)
    }
}

fn pair_up(groups: &Vec<(String, Vec<Float>)>, values: &Vec<Float>) -> (r: Vec<(String, Float)>)
    ensures
        shares_view(r@) == paired(firsts(groups_view(groups@)), values@),
{
    let mut out: Vec<(String, Float)> = Vec::new();
    let mut i: usize = 0;
    while i < groups.len() && i < values.len()
        invariant
            i <= groups.len(),
            i <= values.len(),
            out.len() == i,
            forall|k: int|
                0 <= k < i ==> (#[trigger] out[k]).0@ == groups[k].0@ && out[k].1 == values[k],
        decreases groups.len() - i,
    {
        out.push((groups[i].0.clone(), values[i]));
        i += 1;
    }
    assert(shares_view(out@) =~= paired(firsts(groups_view(groups@)), values@));
    out
}

/// The exchange distribution of a list of pools. The sums and shares are
/// handed in, one for each exchange in the order of `group_volumes`; the
/// names are taken from the pools.
pub fn analyze_dex_distribution(pools: &[Pool], figures: DexFigures) -> (r: DexDistribution)
    ensures
        is_dex_distribution(
            r@,
            views(pools@),
            figures.total_volume,
            figures.totals@,
            figures.shares@,
            figures.concentration,
        ),
{
    if pools.len() == 0 {
        let none: Vec<(String, Float)> = Vec::new();
        let nobody: Vec<String> = Vec::new();
        assert(shares_view(none@) =~= Seq::empty());
        assert(names_view(nobody@) =~= Seq::empty());
        return DexDistribution {
            total_volume: Float::zero(),
            dex_count: 0,
            distribution: none,
            top_dexes: nobody,
            concentration: Float::zero(),
        };
    }
    let groups = group_volumes(pools);
    let named_totals = pair_up(&groups, &figures.totals);
    let ranked = sort_shares(&named_totals, true);
    let mut top_dexes: Vec<String> = Vec::new();
    let mut i: usize = 0;
    while i < ranked.len()
        invariant
            i <= ranked.len(),
            top_dexes.len() == i,
            forall|k: int| 0 <= k < i ==> top_dexes[k]@ == ranked[k].0@,
        decreases ranked.len() - i,
    {
        top_dexes.push(ranked[i].0.clone());
        i += 1;
    }
    assert(names_view(top_dexes@) =~= firsts(shares_view(ranked@)));
    let positive = Float::zero().lt(figures.total_volume);
    let concentration = if positive {
        figures.concentration
    } else {
        Float::zero()
    };
    let distribution = if positive {
        pair_up(&groups, &figures.shares)
    } else {
        let none: Vec<(String, Float)> = Vec::new();
        assert(shares_view(none@) =~= Seq::empty());
        none
    };
    proof {
        let names = exchanges(views(pools@));
        assert(names == firsts(groups_view(groups@)));
        assert(groups.len() == names.len());
        assert(is_sorted_shares(shares_view(ranked@), paired(names, figures.totals@), true));
    }
    DexDistribution {
        total_volume: figures.total_volume,
        dex_count: groups.len(),
        distribution,
        top_dexes,
        concentration,
    }
}

/// The pairs of closing prices that a volatility is worked out from: each
/// closing price with the one before it, wherever the one before is above
/// zero. A pair whose earlier price is zero, negative or NaN is skipped.
pub open spec fn close_pairs(records: Seq<OHLCVRecordView>) -> Seq<(Float, Float)>
    decreases records.len(),
{
    if records.len() < 2 {
        Seq::empty()
    } else {
        let rest = close_pairs(records.drop_last());
        let earlier = records[records.len() - 2].close;
        if (Float { bits: 0 }).below(earlier) {
            rest.push((earlier, records.last().close))
        } else {
            rest
        }
    }
}

/// The pairs of closing prices that a volatility is worked out from.
pub fn return_pairs(records: &[OHLCVRecord]) -> (r: Vec<(Float, Float)>)
    ensures
        r@ == close_pairs(views(records@)),
{
    let ghost all = views(records@);
    let mut out: Vec<(Float, Float)> = Vec::new();
    if records.len() < 2 {
        return out;
    }
    let mut i: usize = 1;
    proof {
        assert(out@ =~= close_pairs(all.take(1)));
    }
    while i < records.len()
        invariant
            1 <= i <= records.len(),
            all == views(records@),
            out@ == close_pairs(all.take(i as int)),
        decreases records.len() - i,
    {
        proof {
            assert(all.take(i as int + 1).drop_last() =~= all.take(i as int));
            assert(all.take(i as int + 1)[i as int - 1] == records[i as int - 1]@);
            assert(all.take(i as int + 1).last() == records[i as int]@);
        }
        if Float::zero().lt(records[i - 1].close) {
            out.push((records[i - 1].close, records[i].close));
        }
        i += 1;
    }
    assert(all.take(i as int) =~= all);
    out
}

/// True when one of the networks has the identifier; upper and lower case
/// are not told apart.
pub open spec fn has_network(networks: Seq<NetworkView>, network: Seq<char>) -> bool {
    exists|k: int| 0 <= k < networks.len() && same_ignoring_case((#[trigger] networks[k]).id, network)
}

/// Whether a network is among the supported ones.
pub fn validate_network(networks: &[Network], network: &str) -> (r: bool)
    ensures
        r == has_network(views(networks@), network@),
{
    let mut k: usize = 0;
    while k < networks.len()
        invariant
            k <= networks.len(),
            forall|j: int|
                0 <= j < k ==> !same_ignoring_case(
                    (#[trigger] views(networks@)[j]).id,
                    network@,
                ),
        decreases networks.len() - k,
    {
        if eq_ignoring_case(networks[k].id.as_str(), network) {
            assert(same_ignoring_case(views(networks@)[k as int].id, network@));
            return true;
        }
        k += 1;
    }
    false
}

/// The requests behind a market overview: ten pools of each of the first
/// five networks.
pub fn overview_requests(networks: &[Network]) -> (r: Vec<Request>)
    ensures
        r.len() == if networks.len() < 5 { networks.len() as int } else { 5 },
        forall|i: int|
            0 <= i < r.len() ==> (#[trigger] r[i])@ == (RequestView {
                endpoint: network_pools_path(networks[i].id@),
                params: Some(ApiParamsView { limit: Some(10), ..no_params() }),
            }),
{
    let mut out: Vec<Request> = Vec::new();
    let mut i: usize = 0;
    while i < networks.len() && i < 5
        invariant
            i <= networks.len(),
            i <= 5,
            out.len() == i,
            forall|k: int|
                0 <= k < i ==> (#[trigger] out[k])@ == (RequestView {
                    endpoint: network_pools_path(networks[k].id@),
                    params: Some(ApiParamsView { limit: Some(10), ..no_params() }),
                }),
        decreases networks.len() - i,
    {
        let params = ApiParams::new().limit(10);
        out.push(get_network_pools(networks[i].id.as_str(), Some(params)));
        i += 1;
    }
    out
}

} // verus!
