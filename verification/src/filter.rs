//! Filters over lists of records.
//!
//! A filter returns a new list: the records of the input that pass, in the
//! order of the input. The input is never changed.

use vstd::prelude::*;
use crate::float::Float;
use crate::json::views;
use crate::records::{OHLCVRecord, OHLCVRecordView, Pool, PoolView, Token, TokenView, Transaction, TransactionView};
use crate::text::{contains_text, eq_ignoring_case, lowercase, occurs_in, same_ignoring_case, to_lower};
use crate::time::{now, parse_rfc3339, rfc3339_moment, Instant};

verus! {

/// The pools whose volume is at least `min_volume`, in their order.
pub open spec fn with_volume(pools: Seq<PoolView>, min_volume: Float) -> Seq<PoolView> {
    pools.filter(|p: PoolView| min_volume.at_most(p.volume_usd))
}

/// The pools whose price over 24 hours changed by at least `min_change`, up
/// or down, in their order.
pub open spec fn with_price_change(pools: Seq<PoolView>, min_change: Float) -> Seq<PoolView> {
    pools.filter(|p: PoolView| min_change.at_most(p.last_price_change_usd_24h.magnitude_only()))
}

/// The pools of a chain, in their order; upper and lower case are not told apart.
pub open spec fn on_network(pools: Seq<PoolView>, network: Seq<char>) -> Seq<PoolView> {
    pools.filter(|p: PoolView| same_ignoring_case(p.chain, network))
}

/// The pools whose exchange has `dex_name` in its name, in their order;
/// upper and lower case are not told apart.
pub open spec fn on_dex(pools: Seq<PoolView>, dex_name: Seq<char>) -> Seq<PoolView> {
    pools.filter(|p: PoolView| occurs_in(lowercase(dex_name), lowercase(p.dex_name)))
}

/// True when one of the tokens has the symbol; upper and lower case are not told apart.
pub open spec fn has_symbol(tokens: Seq<TokenView>, symbol: Seq<char>) -> bool {
    exists|k: int| 0 <= k < tokens.len() && same_ignoring_case((#[trigger] tokens[k]).symbol, symbol)
}

/// True when one of the tokens has the address as its identifier; upper and
/// lower case are not told apart.
pub open spec fn has_address(tokens: Seq<TokenView>, address: Seq<char>) -> bool {
    exists|k: int| 0 <= k < tokens.len() && same_ignoring_case((#[trigger] tokens[k]).id, address)
}

/// The pools that hold a token of the symbol, in their order.
pub open spec fn with_token_symbol(pools: Seq<PoolView>, symbol: Seq<char>) -> Seq<PoolView> {
    pools.filter(|p: PoolView| has_symbol(p.tokens, symbol))
}

/// The pools that hold the token of the address, in their order.
pub open spec fn with_token_address(pools: Seq<PoolView>, address: Seq<char>) -> Seq<PoolView> {
    pools.filter(|p: PoolView| has_address(p.tokens, address))
}

/// True when the text is a date and time that `chrono` reads, and that
/// instant comes after `cutoff`.
pub open spec fn is_after(text: Seq<char>, cutoff_secs: int, cutoff_nanos: int) -> bool {
    match rfc3339_moment(text) {
        Some(m) => m.instant.secs > cutoff_secs || (m.instant.secs == cutoff_secs
            && m.instant.nanos > cutoff_nanos),
        None => false,
    }
}

/// The transactions made after the instant that lies `hours` hours before
/// `now`, in their order. A transaction whose time cannot be read is left out.
pub open spec fn made_within(transactions: Seq<TransactionView>, hours: u32, now: Instant) -> Seq<
    TransactionView,
> {
    transactions.filter(
        |t: TransactionView| is_after(t.created_at, now.secs - hours * 3600, now.nanos as int),
    )
}

/// True when the text is a date and time that `chrono` reads, and that
/// instant lies strictly between `start` and `end`.
pub open spec fn is_between(text: Seq<char>, start: Instant, end: Instant) -> bool {
    match rfc3339_moment(text) {
        Some(m) => start.before(m.instant) && m.instant.before(end),
        None => false,
    }
}

/// The end of a time frame: the instant of the text where there is a text
/// that `chrono` reads, and `now` otherwise.
pub open spec fn frame_end(end_time: Option<Seq<char>>, now: Instant) -> Instant {
    match end_time {
        Some(text) => match rfc3339_moment(text) {
            Some(m) => m.instant,
            None => now,
        },
        None => now,
    }
}

/// The price buckets that open strictly between two instants, in their order.
pub open spec fn opened_between(records: Seq<OHLCVRecordView>, start: Instant, end: Instant) -> Seq<
    OHLCVRecordView,
> {
    records.filter(|r: OHLCVRecordView| is_between(r.time_open, start, end))
}

/// The price buckets that open strictly inside the time frame, in their
/// order. A bucket whose opening time cannot be read is left out. Where the
/// start of the frame cannot be read, all buckets are kept.
pub open spec fn in_timeframe(
    records: Seq<OHLCVRecordView>,
    start_time: Seq<char>,
    end_time: Option<Seq<char>>,
    now: Instant,
) -> Seq<OHLCVRecordView> {
    match rfc3339_moment(start_time) {
        Some(start) => opened_between(records, start.instant, frame_end(end_time, now)),
        None => records,
    }
}

/// The characters of a text that may be absent.
pub open spec fn opt_str(o: Option<&str>) -> Option<Seq<char>> {
    match o {
        Some(s) => Some(s@),
        None => None,
    }
}

/// The items whose value is at least `min`, in their order. The value of an
/// item is the one at its place in `values`; an item without a value is
/// left out.
pub open spec fn valued_at_least<T>(items: Seq<T>, values: Seq<Float>, min: Float) -> Seq<T>
    decreases items.len(),
{
    if items.len() == 0 {
        Seq::empty()
    } else {
        let i = items.len() - 1;
        let front = valued_at_least(items.drop_last(), values, min);
        if i < values.len() && min.at_most(values[i]) {
            front.push(items.last())
        } else {
            front
        }
    }
}

/// The pools with a volume of at least `min_volume`, in the order of the input.
pub fn filter_by_volume(pools: &[Pool], min_volume: Float) -> (r: Vec<Pool>)
    ensures
        views(r@) == with_volume(views(pools@), min_volume),

{
    let ghost all = views(pools@);
    let mut out: Vec<Pool> = Vec::new();
    let mut i: usize = 0;
    proof {
        assert(all.take(0) =~= Seq::empty());
        assert(views(out@) =~= Seq::empty());
        reveal(Seq::filter);
    }
    while i < pools.len()
        invariant
            i <= pools.len(),
            all == views(pools@),
            views(out@) == with_volume(all.take(i as int), min_volume),
        decreases pools.len() - i,
    {
        let ghost before = views(out@);
        proof {
            reveal(Seq::filter);
            assert(all.take(i as int + 1).drop_last() =~= all.take(i as int));
            assert(all.take(i as int + 1).last() == pools[i as int]@);
        }
        let keep = pools[i].volume_usd.ge(min_volume);
        if keep {
            out.push(pools[i].clone());
            assert(views(out@) =~= before.push(pools[i as int]@));
        }
        i += 1;
    }
    assert(all.take(i as int) =~= all);
    out
}


/// The pools whose price over 24 hours moved by at least `min_change`, up or
/// down, in the order of the input.
pub fn filter_by_price_change(pools: &[Pool], min_change: Float) -> (r: Vec<Pool>)
    ensures
        views(r@) == with_price_change(views(pools@), min_change),

{
    let ghost all = views(pools@);
    let mut out: Vec<Pool> = Vec::new();
    let mut i: usize = 0;
    proof {
        assert(all.take(0) =~= Seq::empty());
        assert(views(out@) =~= Seq::empty());
        reveal(Seq::filter);
    }
    while i < pools.len()
        invariant
            i <= pools.len(),
            all == views(pools@),
            views(out@) == with_price_change(all.take(i as int), min_change),
        decreases pools.len() - i,
    {
        let ghost before = views(out@);
        proof {
            reveal(Seq::filter);
            assert(all.take(i as int + 1).drop_last() =~= all.take(i as int));
            assert(all.take(i as int + 1).last() == pools[i as int]@);
        }
        let keep = pools[i].last_price_change_usd_24h.abs().ge(min_change);
        if keep {
            out.push(pools[i].clone());
            assert(views(out@) =~= before.push(pools[i as int]@));
        }
        i += 1;
    }
    assert(all.take(i as int) =~= all);
    out
}


/// The pools of a chain, in the order of the input.
pub fn filter_by_network(pools: &[Pool], network: &str) -> (r: Vec<Pool>)
    ensures
        views(r@) == on_network(views(pools@), network@),

{
    let ghost all = views(pools@);
    let mut out: Vec<Pool> = Vec::new();
    let mut i: usize = 0;
    proof {
        assert(all.take(0) =~= Seq::empty());
        assert(views(out@) =~= Seq::empty());
        reveal(Seq::filter);
    }
    while i < pools.len()
        invariant
            i <= pools.len(),
            all == views(pools@),
            views(out@) == on_network(all.take(i as int), network@),
        decreases pools.len() - i,
    {
        let ghost before = views(out@);
        proof {
            reveal(Seq::filter);
            assert(all.take(i as int + 1).drop_last() =~= all.take(i as int));
            assert(all.take(i as int + 1).last() == pools[i as int]@);
        }
        let keep = eq_ignoring_case(pools[i].chain.as_str(), network);
        if keep {
            out.push(pools[i].clone());
            assert(views(out@) =~= before.push(pools[i as int]@));
        }
        i += 1;
    }
    assert(all.take(i as int) =~= all);
    out
}


/// The pools whose exchange has `dex_name` in its name, in the order of the input.
pub fn filter_by_dex(pools: &[Pool], dex_name: &str) -> (r: Vec<Pool>)
    ensures
        views(r@) == on_dex(views(pools@), dex_name@),

{
    let ghost all = views(pools@);
    let mut out: Vec<Pool> = Vec::new();
    let mut i: usize = 0;
    proof {
        assert(all.take(0) =~= Seq::empty());
        assert(views(out@) =~= Seq::empty());
        reveal(Seq::filter);
    }
    while i < pools.len()
        invariant
            i <= pools.len(),
            all == views(pools@),
            views(out@) == on_dex(all.take(i as int), dex_name@),
        decreases pools.len() - i,
    {
        let ghost before = views(out@);
        proof {
            reveal(Seq::filter);
            assert(all.take(i as int + 1).drop_last() =~= all.take(i as int));
            assert(all.take(i as int + 1).last() == pools[i as int]@);
        }
        let hay = to_lower(pools[i].dex_name.as_str());
        let needle = to_lower(dex_name);
        let keep = contains_text(hay.as_str(), needle.as_str());
        if keep {
            out.push(pools[i].clone());
            assert(views(out@) =~= before.push(pools[i as int]@));
        }
        i += 1;
    }
    assert(all.take(i as int) =~= all);
    out
}


/// Whether one of the tokens has the symbol.
pub fn any_symbol(tokens: &Vec<Token>, symbol: &str) -> (r: bool)
    ensures
        r == has_symbol(views(tokens@), symbol@),
{
    let mut k: usize = 0;
    while k < tokens.len()
        invariant
            k <= tokens.len(),
            forall|j: int| 0 <= j < k ==> !same_ignoring_case((#[trigger] views(tokens@)[j]).symbol, symbol@),
        decreases tokens.len() - k,
    {
        if eq_ignoring_case(tokens[k].symbol.as_str(), symbol) {
            assert(same_ignoring_case(views(tokens@)[k as int].symbol, symbol@));
            return true;
        }
        k += 1;
    }
    false
}

/// Whether one of the tokens has the address as its identifier.
pub fn any_address(tokens: &Vec<Token>, address: &str) -> (r: bool)
    ensures
        r == has_address(views(tokens@), address@),
{
    let mut k: usize = 0;
    while k < tokens.len()
        invariant
            k <= tokens.len(),
            forall|j: int| 0 <= j < k ==> !same_ignoring_case((#[trigger] views(tokens@)[j]).id, address@),
        decreases tokens.len() - k,
    {
        if eq_ignoring_case(tokens[k].id.as_str(), address) {
            assert(same_ignoring_case(views(tokens@)[k as int].id, address@));
            return true;
        }
        k += 1;
    }
    false
}

/// The pools that hold a token of the symbol, in the order of the input.
pub fn filter_by_token_symbol(pools: &[Pool], symbol: &str) -> (r: Vec<Pool>)
    ensures
        views(r@) == with_token_symbol(views(pools@), symbol@),

{
    let ghost all = views(pools@);
    let mut out: Vec<Pool> = Vec::new();
    let mut i: usize = 0;
    proof {
        assert(all.take(0) =~= Seq::empty());
        assert(views(out@) =~= Seq::empty());
        reveal(Seq::filter);
    }
    while i < pools.len()
        invariant
            i <= pools.len(),
            all == views(pools@),
            views(out@) == with_token_symbol(all.take(i as int), symbol@),
        decreases pools.len() - i,
    {
        let ghost before = views(out@);
        proof {
            reveal(Seq::filter);
            assert(all.take(i as int + 1).drop_last() =~= all.take(i as int));
            assert(all.take(i as int + 1).last() == pools[i as int]@);
        }
        let keep = any_symbol(&pools[i].tokens, symbol);
        if keep {
            out.push(pools[i].clone());
            assert(views(out@) =~= before.push(pools[i as int]@));
        }
        i += 1;
    }
    assert(all.take(i as int) =~= all);
    out
}


/// The pools that hold the token of the address, in the order of the input.
pub fn filter_by_token_address(pools: &[Pool], address: &str) -> (r: Vec<Pool>)
    ensures
        views(r@) == with_token_address(views(pools@), address@),

{
    let ghost all = views(pools@);
    let mut out: Vec<Pool> = Vec::new();
    let mut i: usize = 0;
    proof {
        assert(all.take(0) =~= Seq::empty());
        assert(views(out@) =~= Seq::empty());
        reveal(Seq::filter);
    }
    while i < pools.len()
        invariant
            i <= pools.len(),
            all == views(pools@),
            views(out@) == with_token_address(all.take(i as int), address@),
        decreases pools.len() - i,
    {
        let ghost before = views(out@);
        proof {
            reveal(Seq::filter);
            assert(all.take(i as int + 1).drop_last() =~= all.take(i as int));
            assert(all.take(i as int + 1).last() == pools[i as int]@);
        }
        let keep = any_address(&pools[i].tokens, address);
        if keep {
            out.push(pools[i].clone());
            assert(views(out@) =~= before.push(pools[i as int]@));
        }
        i += 1;
    }
    assert(all.take(i as int) =~= all);
    out
}


/// Whether a text is a date and time after the instant that lies `hours`
/// hours before `now`.
fn after_cutoff(text: &str, hours: u32, now: Instant) -> (r: bool)
    ensures
        r == is_after(text@, now.secs - hours * 3600, now.nanos as int),
{
    match parse_rfc3339(text) {
        Some(m) => {
            let cutoff: i128 = (now.secs as i128) - (hours as i128) * 3600;
            let secs: i128 = m.instant.secs as i128;
            secs > cutoff || (secs == cutoff && m.instant.nanos > now.nanos)
        },
        None => false,
    }
}

/// The transactions of the last `hours` hours before `now`, in the order of
/// the input.
pub fn filter_transactions_since(transactions: &[Transaction], hours: u32, now: Instant) -> (r: Vec<
    Transaction,
>)
    ensures
        views(r@) == made_within(views(transactions@), hours, now),

{
    let ghost all = views(transactions@);
    let mut out: Vec<Transaction> = Vec::new();
    let mut i: usize = 0;
    proof {
        assert(all.take(0) =~= Seq::empty());
        assert(views(out@) =~= Seq::empty());
        reveal(Seq::filter);
    }
    while i < transactions.len()
        invariant
            i <= transactions.len(),
            all == views(transactions@),
            views(out@) == made_within(all.take(i as int), hours, now),
        decreases transactions.len() - i,
    {
        let ghost before = views(out@);
        proof {
            reveal(Seq::filter);
            assert(all.take(i as int + 1).drop_last() =~= all.take(i as int));
            assert(all.take(i as int + 1).last() == transactions[i as int]@);
        }
        let keep = after_cutoff(transactions[i].created_at.as_str(), hours, now);
        if keep {
            out.push(transactions[i].clone());
            assert(views(out@) =~= before.push(transactions[i as int]@));
        }
        i += 1;
    }
    assert(all.take(i as int) =~= all);
    out
}


/// The transactions of the last `hours` hours before the time the system
/// clock shows, in the order of the input. Whatever the clock shows, the
/// result is the one that `filter_transactions_since` gives for some time.
pub fn filter_recent_transactions(transactions: &[Transaction], hours: u32) -> (r: Vec<Transaction>)
    ensures
        exists|at: Instant|
            at.within_second() && views(r@) == #[trigger] made_within(
                views(transactions@),
                hours,
                at,
            ),
{
    let at = now();
    let r = filter_transactions_since(transactions, hours, at);
    assert(at.within_second() && views(r@) == made_within(views(transactions@), hours, at));
    r
}

/// The transactions whose value is at least `min_usd`, in the order of the
/// input. The value of a transaction is the one at its place in `totals`:
/// the sum of its two prices in dollars, which the caller adds up. A
/// transaction without a value is left out.
pub fn filter_large_transactions(transactions: &[Transaction], totals: &[Float], min_usd: Float) -> (r:
    Vec<Transaction>)
    ensures
        views(r@) == valued_at_least(views(transactions@), totals@, min_usd),
{
    let ghost all = views(transactions@);
    let mut out: Vec<Transaction> = Vec::new();
    let mut i: usize = 0;
    proof {
        assert(all.take(0) =~= Seq::empty());
        assert(views(out@) =~= Seq::empty());
    }
    while i < transactions.len()
        invariant
            i <= transactions.len(),
            all == views(transactions@),
            views(out@) == valued_at_least(all.take(i as int), totals@, min_usd),
        decreases transactions.len() - i,
    {
        let ghost before = views(out@);
        proof {
            assert(all.take(i as int + 1).drop_last() =~= all.take(i as int));
            assert(all.take(i as int + 1).last() == transactions[i as int]@);
        }
        if i < totals.len() && totals[i].ge(min_usd) {
            out.push(transactions[i].clone());
            assert(views(out@) =~= before.push(transactions[i as int]@));
        }
        i += 1;
    }
    assert(all.take(i as int) =~= all);
    out
}

/// A copy of a list of price buckets.
pub fn copy_ohlcv_records(list: &[OHLCVRecord]) -> (r: Vec<OHLCVRecord>)
    ensures
        views(r@) == views(list@),
{
    let mut out: Vec<OHLCVRecord> = Vec::new();
    let mut i: usize = 0;
    while i < list.len()
        invariant
            i <= list.len(),
            out.len() == i,
            forall|k: int| 0 <= k < i ==> out[k]@ == list[k]@,
        decreases list.len() - i,
    {
        out.push(list[i].clone());
        i += 1;
    }
    assert(views(out@) =~= views(list@));
    out
}

fn opens_between(text: &str, start: Instant, end: Instant) -> (r: bool)
    ensures
        r == is_between(text@, start, end),
{
    match parse_rfc3339(text) {
        Some(m) => start.is_before(m.instant) && m.instant.is_before(end),
        None => false,
    }
}

/// The price buckets that open strictly between two instants, in the order
/// of the input.
pub fn filter_between(records: &[OHLCVRecord], start: Instant, end: Instant) -> (r: Vec<OHLCVRecord>)
    ensures
        views(r@) == opened_between(views(records@), start, end),
{
    let ghost all = views(records@);
    let mut out: Vec<OHLCVRecord> = Vec::new();
    let mut i: usize = 0;
    proof {
        assert(all.take(0) =~= Seq::empty());
        assert(views(out@) =~= Seq::empty());
        reveal(Seq::filter);
    }
    while i < records.len()
        invariant
            i <= records.len(),
            all == views(records@),
            views(out@) == opened_between(all.take(i as int), start, end),
        decreases records.len() - i,
    {
        let ghost before = views(out@);
        proof {
            reveal(Seq::filter);
            assert(all.take(i as int + 1).drop_last() =~= all.take(i as int));
            assert(all.take(i as int + 1).last() == records[i as int]@);
        }
        let keep = opens_between(records[i].time_open.as_str(), start, end);
        if keep {
            out.push(records[i].clone());
            assert(views(out@) =~= before.push(records[i as int]@));
        }
        i += 1;
    }
    assert(all.take(i as int) =~= all);
    out
}

/// The price buckets that open strictly inside a time frame, in the order of
/// the input, where `now` stands in for an end that is absent or cannot be
/// read. Where the start cannot be read, every bucket is kept.
pub fn filter_by_timeframe_at(
    records: &[OHLCVRecord],
    start_time: &str,
    end_time: Option<&str>,
    now: Instant,
) -> (r: Vec<OHLCVRecord>)
    ensures
        views(r@) == in_timeframe(views(records@), start_time@, opt_str(end_time), now),
{
    match parse_rfc3339(start_time) {
        None => copy_ohlcv_records(records),
        Some(start) => {
            let end = match end_time {
                Some(text) => match parse_rfc3339(text) {
                    Some(m) => m.instant,
                    None => now,
                },
                None => now,
            };
            filter_between(records, start.instant, end)
        },
    }
}

/// The price buckets that open strictly inside a time frame, in the order of
/// the input, where the time the system clock shows stands in for an end
/// that is absent or cannot be read. Whatever the clock shows, the result is
/// the one that `filter_by_timeframe_at` gives for some time.
pub fn filter_by_timeframe(records: &[OHLCVRecord], start_time: &str, end_time: Option<&str>) -> (r:
    Vec<OHLCVRecord>)
    ensures
        exists|at: Instant|
            at.within_second() && views(r@) == #[trigger] in_timeframe(
                views(records@),
                start_time@,
                opt_str(end_time),
                at,
            ),
{
    let at = now();
    let r = filter_by_timeframe_at(records, start_time, end_time, at);
    assert(at.within_second() && views(r@) == in_timeframe(
        views(records@),
        start_time@,
        opt_str(end_time),
        at,
    ));
    r
}

} // verus!
