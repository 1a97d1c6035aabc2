//! Named figures read off records: what the extraction and analysis helpers
//! report.
//!
//! A report is a list of names, each with a figure, in a fixed order; no
//! name occurs twice. Figures that need floating-point arithmetic (ratios,
//! sums, scores) are worked out by the caller and handed in; the functions
//! here decide which figures a report holds and in which order.

use vstd::prelude::*;
use std::collections::HashMap;
use crate::decode::{
    decode_pool, decode_search_response, decode_system_stats, decode_token, decode_transaction,
    pool_of, search_response_of, system_stats_of, token_of, transaction_of,
};
use crate::extract::{extract_ohlcv, ohlcv_in};
use crate::float::Float;
use crate::json::{views, Json, JsonView};
use crate::records::{Dex, DexView, OHLCVRecord, OHLCVRecordView, Pool, PoolView, SearchResponseView, SystemStats, Token, TokenView, Transaction, TransactionView};
use crate::assoc::{find_key, keys, position};
use crate::sort::{largest_at, largest_pool};
use crate::text::{decimal, decimal_string, join3};
use crate::time::{parse_rfc3339, rfc3339_moment};

verus! {

/// How liquidity is spread over a list of pools. The figures are worked out
/// by the caller; the shares by volume range come as names with their shares.
#[derive(Debug, PartialEq)]
pub struct LiquidityAnalysis {
    pub total_liquidity: Float,
    pub pool_count: usize,
    pub average_liquidity: Float,
    pub median_liquidity: Float,
    pub gini_coefficient: Float,
    pub top_pools_share: Float,
    pub distribution: Vec<(String, Float)>,
}

/// The value of a liquidity analysis.
pub struct LiquidityAnalysisView {
    pub total_liquidity: Float,
    pub pool_count: usize,
    pub average_liquidity: Float,
    pub median_liquidity: Float,
    pub gini_coefficient: Float,
    pub top_pools_share: Float,
    pub distribution: Seq<(Seq<char>, Float)>,
}

/// The names and shares of a list of named shares.
pub open spec fn shares_view(s: Seq<(String, Float)>) -> Seq<(Seq<char>, Float)> {
    Seq::new(s.len(), |i: int| (s[i].0@, s[i].1))
}

/// The texts of a list of strings.
pub open spec fn names_view(s: Seq<String>) -> Seq<Seq<char>> {
    Seq::new(s.len(), |i: int| s[i]@)
}

impl View for LiquidityAnalysis {
    type V = LiquidityAnalysisView;

    open spec fn view(&self) -> LiquidityAnalysisView {
        LiquidityAnalysisView {
            total_liquidity: self.total_liquidity,
            pool_count: self.pool_count,
            average_liquidity: self.average_liquidity,
            median_liquidity: self.median_liquidity,
            gini_coefficient: self.gini_coefficient,
            top_pools_share: self.top_pools_share,
            distribution: shares_view(self.distribution@),
        }
    }
}

/// How volume is spread over exchanges. The figures are worked out by the
/// caller.
#[derive(Debug, PartialEq)]
pub struct DexDistribution {
    pub total_volume: Float,
    pub dex_count: usize,
    pub distribution: Vec<(String, Float)>,
    pub top_dexes: Vec<String>,
    pub concentration: Float,
}

/// The value of an exchange distribution.
pub struct DexDistributionView {
    pub total_volume: Float,
    pub dex_count: usize,
    pub distribution: Seq<(Seq<char>, Float)>,
    pub top_dexes: Seq<Seq<char>>,
    pub concentration: Float,
}

impl View for DexDistribution {
    type V = DexDistributionView;

    open spec fn view(&self) -> DexDistributionView {
        DexDistributionView {
            total_volume: self.total_volume,
            dex_count: self.dex_count,
            distribution: shares_view(self.distribution@),
            top_dexes: names_view(self.top_dexes@),
            concentration: self.concentration,
        }
    }
}

/// The figures of one network in a market overview.
#[derive(Debug, PartialEq)]
pub struct NetworkSummary {
    pub display_name: String,
    pub total_volume: Float,
    pub pool_count: usize,
}

/// A market overview: the system statistics, the figures of the leading
/// networks by identifier, and the time of the overview.
#[derive(Debug, PartialEq)]
pub struct MarketOverview {
    pub system_stats: SystemStats,
    pub network_overview: Vec<(String, NetworkSummary)>,
    pub timestamp: String,
}

/// A named figure with the time it was taken.
#[derive(Debug, PartialEq)]
pub struct AnalysisResult {
    pub field: String,
    pub value: Json,
    pub timestamp: String,
}

/// A figure of a report.
#[derive(Debug, PartialEq)]
pub enum Metric {
    /// A piece of text.
    Text(String),
    /// A count.
    Count(u64),
    /// A signed whole number.
    Whole(i128),
    /// An amount.
    Amount(Float),
    /// A token.
    Token(Token),
    /// A pool.
    Pool(Pool),
    /// An exchange.
    Dex(Dex),
    /// Counts by name.
    Tally(Vec<(String, u64)>),
    /// A liquidity analysis.
    Liquidity(LiquidityAnalysis),
    /// An exchange distribution.
    Dexes(DexDistribution),
}

/// The value of a figure.
pub enum MetricView {
    Text(Seq<char>),
    Count(u64),
    Whole(i128),
    Amount(Float),
    Token(TokenView),
    Pool(PoolView),
    Dex(DexView),
    Tally(Seq<(Seq<char>, nat)>),
    Liquidity(LiquidityAnalysisView),
    Dexes(DexDistributionView),
}

/// The names and counts of a list of counts by name.
pub open spec fn tally_view(s: Seq<(String, u64)>) -> Seq<(Seq<char>, nat)> {
    Seq::new(s.len(), |i: int| (s[i].0@, s[i].1 as nat))
}

impl View for Metric {
    type V = MetricView;

    open spec fn view(&self) -> MetricView {
        match self {
            Metric::Text(s) => MetricView::Text(s@),
            Metric::Count(n) => MetricView::Count(*n),
            Metric::Whole(n) => MetricView::Whole(*n),
            Metric::Amount(x) => MetricView::Amount(*x),
            Metric::Token(t) => MetricView::Token(t@),
            Metric::Pool(p) => MetricView::Pool(p@),
            Metric::Dex(d) => MetricView::Dex(d@),
            Metric::Tally(t) => MetricView::Tally(tally_view(t@)),
            Metric::Liquidity(l) => MetricView::Liquidity(l@),
            Metric::Dexes(d) => MetricView::Dexes(d@),
        }
    }
}

/// A report as names with the values of their figures.
pub type Report = Seq<(Seq<char>, MetricView)>;

/// The value of a report.
pub open spec fn report_view(r: Seq<(String, Metric)>) -> Report {
    Seq::new(r.len(), |i: int| (r[i].0@, r[i].1@))
}

/// A named text.
pub open spec fn text(name: Seq<char>, s: Seq<char>) -> (Seq<char>, MetricView) {
    (name, MetricView::Text(s))
}

/// A count as a 64-bit number; a count beyond 64 bits is kept at the largest
/// 64-bit number.
pub open spec fn capped(n: int) -> u64 {
    if n > u64::MAX {
        u64::MAX
    } else {
        n as u64
    }
}

/// A named count.
pub open spec fn count(name: Seq<char>, n: int) -> (Seq<char>, MetricView) {
    (name, MetricView::Count(capped(n)))
}

/// A named amount.
pub open spec fn amount(name: Seq<char>, x: Float) -> (Seq<char>, MetricView) {
    (name, MetricView::Amount(x))
}

fn put(out: &mut Vec<(String, Metric)>, name: &str, figure: Metric)
    ensures
        report_view(final(out)@) == report_view(old(out)@).push((name@, figure@)),
{
    out.push((name.to_owned(), figure));
    assert(report_view(out@) =~= report_view(old(out)@).push((name@, figure@)));
}

fn put_text(out: &mut Vec<(String, Metric)>, name: &str, s: &String)
    ensures
        report_view(final(out)@) == report_view(old(out)@).push(text(name@, s@)),
{
    put(out, name, Metric::Text(s.clone()));
}

fn put_count(out: &mut Vec<(String, Metric)>, name: &str, n: u64)
    ensures
        report_view(final(out)@) == report_view(old(out)@).push(count(name@, n as int)),
{
    put(out, name, Metric::Count(n));
}

fn put_amount(out: &mut Vec<(String, Metric)>, name: &str, x: Float)
    ensures
        report_view(final(out)@) == report_view(old(out)@).push(amount(name@, x)),
{
    put(out, name, Metric::Amount(x));
}

fn empty_report() -> (r: Vec<(String, Metric)>)
    ensures
        report_view(r@) == Seq::<(Seq<char>, MetricView)>::empty(),
{
    let out: Vec<(String, Metric)> = Vec::new();
    assert(report_view(out@) =~= Seq::<(Seq<char>, MetricView)>::empty());
    out
}

/// The figures of a pool.
pub open spec fn pool_metrics(p: PoolView) -> Report {
    seq![
        amount("volume_usd"@, p.volume_usd),
        amount("price_usd"@, p.price_usd),
        count("transactions"@, p.transactions as int),
        text("dex_name"@, p.dex_name),
        text("chain"@, p.chain),
        amount("last_price_change_24h"@, p.last_price_change_usd_24h),
        text("created_at"@, p.created_at),
        count("token_count"@, p.tokens.len() as int),
    ]
}

/// The figures of a document that is a pool; an empty report for any other
/// document.
pub open spec fn pool_metrics_in(j: JsonView) -> Report {
    match pool_of(j) {
        Some(p) => pool_metrics(p),
        None => Seq::empty(),
    }
}

/// The figures of a document that is a pool.
pub fn extract_pool_metrics(data: &Json) -> (r: Vec<(String, Metric)>)
    ensures
        report_view(r@) == pool_metrics_in(data@),
{
    let mut out = empty_report();
    if let Some(pool) = decode_pool(data) {
        put_amount(&mut out, "volume_usd", pool.volume_usd);
        put_amount(&mut out, "price_usd", pool.price_usd);
        put_count(&mut out, "transactions", pool.transactions as u64);
        put_text(&mut out, "dex_name", &pool.dex_name);
        put_text(&mut out, "chain", &pool.chain);
        put_amount(&mut out, "last_price_change_24h", pool.last_price_change_usd_24h);
        put_text(&mut out, "created_at", &pool.created_at);
        put_count(&mut out, "token_count", pool.tokens.len() as u64);
        assert(report_view(out@) =~= pool_metrics(pool@));
    }
    out
}

/// The basic facts of a token, with its price and liquidity where it has a
/// summary.
pub open spec fn token_info(t: TokenView) -> Report {
    let base = seq![
        text("id"@, t.id),
        text("name"@, t.name),
        text("symbol"@, t.symbol),
        text("chain"@, t.chain),
        count("decimals"@, t.decimals as int),
        amount("total_supply"@, t.total_supply),
        text("website"@, t.website),
        amount("fdv"@, t.fdv),
    ];
    match t.summary {
        Some(s) => base.push(amount("price_usd"@, s.price_usd)).push(
            amount("liquidity_usd"@, s.liquidity_usd),
        ),
        None => base,
    }
}

/// The basic facts of a document that is a token; an empty report for any
/// other document.
pub open spec fn token_info_in(j: JsonView) -> Report {
    match token_of(j) {
        Some(t) => token_info(t),
        None => Seq::empty(),
    }
}

/// The basic facts of a document that is a token.
pub fn extract_token_info(data: &Json) -> (r: Vec<(String, Metric)>)
    ensures
        report_view(r@) == token_info_in(data@),
{
    let mut out = empty_report();
    if let Some(token) = decode_token(data) {
        put_text(&mut out, "id", &token.id);
        put_text(&mut out, "name", &token.name);
        put_text(&mut out, "symbol", &token.symbol);
        put_text(&mut out, "chain", &token.chain);
        put_count(&mut out, "decimals", token.decimals as u64);
        put_amount(&mut out, "total_supply", token.total_supply);
        put_text(&mut out, "website", &token.website);
        put_amount(&mut out, "fdv", token.fdv);
        if let Some(summary) = token.summary {
            put_amount(&mut out, "price_usd", summary.price_usd);
            put_amount(&mut out, "liquidity_usd", summary.liquidity_usd);
        }
        assert(report_view(out@) =~= token_info(token@));
    }
    out
}

/// The facts of a transaction.
pub open spec fn transaction_info(t: TransactionView) -> Report {
    seq![
        text("id"@, t.id),
        text("pool_id"@, t.pool_id),
        text("sender"@, t.sender),
        text("token_0"@, t.token_0),
        text("token_1"@, t.token_1),
        text("token_0_symbol"@, t.token_0_symbol),
        text("token_1_symbol"@, t.token_1_symbol),
        text("amount_0"@, t.amount_0),
        text("amount_1"@, t.amount_1),
        amount("price_0_usd"@, t.price_0_usd),
        amount("price_1_usd"@, t.price_1_usd),
        text("created_at"@, t.created_at),
    ]
}

/// The facts of a document that is a transaction; an empty report for any
/// other document.
pub open spec fn transaction_info_in(j: JsonView) -> Report {
    match transaction_of(j) {
        Some(t) => transaction_info(t),
        None => Seq::empty(),
    }
}

/// The facts of a document that is a transaction.
pub fn extract_transaction_info(data: &Json) -> (r: Vec<(String, Metric)>)
    ensures
        report_view(r@) == transaction_info_in(data@),
{
    let mut out = empty_report();
    if let Some(tx) = decode_transaction(data) {
        put_text(&mut out, "id", &tx.id);
        put_text(&mut out, "pool_id", &tx.pool_id);
        put_text(&mut out, "sender", &tx.sender);
        put_text(&mut out, "token_0", &tx.token_0);
        put_text(&mut out, "token_1", &tx.token_1);
        put_text(&mut out, "token_0_symbol", &tx.token_0_symbol);
        put_text(&mut out, "token_1_symbol", &tx.token_1_symbol);
        put_text(&mut out, "amount_0", &tx.amount_0);
        put_text(&mut out, "amount_1", &tx.amount_1);
        put_amount(&mut out, "price_0_usd", tx.price_0_usd);
        put_amount(&mut out, "price_1_usd", tx.price_1_usd);
        put_text(&mut out, "created_at", &tx.created_at);
        assert(report_view(out@) =~= transaction_info(tx@));
    }
    out
}

/// The counts of the system statistics and their sum.
pub open spec fn system_stats_report(s: SystemStats) -> Report {
    seq![
        count("chains"@, s.chains as int),
        count("factories"@, s.factories as int),
        count("pools"@, s.pools as int),
        count("tokens"@, s.tokens as int),
        count("total_entities"@, s.chains + s.factories + s.pools + s.tokens),
    ]
}

/// The counts of a document that holds system statistics; an empty report
/// for any other document.
pub open spec fn system_stats_in(j: JsonView) -> Report {
    match system_stats_of(j) {
        Some(s) => system_stats_report(s),
        None => Seq::empty(),
    }
}

/// The counts of a document that holds system statistics.
pub fn extract_system_stats(data: &Json) -> (r: Vec<(String, Metric)>)
    ensures
        report_view(r@) == system_stats_in(data@),
{
    let mut out = empty_report();
    if let Some(stats) = decode_system_stats(data) {
        put_count(&mut out, "chains", stats.chains as u64);
        put_count(&mut out, "factories", stats.factories as u64);
        put_count(&mut out, "pools", stats.pools as u64);
        put_count(&mut out, "tokens", stats.tokens as u64);
        let total: u64 = stats.chains as u64 + stats.factories as u64 + stats.pools as u64
            + stats.tokens as u64;
        put_count(&mut out, "total_entities", total);
        assert(report_view(out@) =~= system_stats_report(stats));
    }
    out
}

/// How many of each kind a search found, and the first of each kind that
/// was found at all.
pub open spec fn search_report(found: SearchResponseView) -> Report {
    let counts = seq![
        count("tokens_count"@, found.tokens.len() as int),
        count("pools_count"@, found.pools.len() as int),
        count("dexes_count"@, found.dexes.len() as int),
        count(
            "total_results"@,
            (found.tokens.len() + found.pools.len() + found.dexes.len()) as int,
        ),
    ];
    let with_token = if found.tokens.len() > 0 {
        counts.push(("top_token"@, MetricView::Token(found.tokens[0])))
    } else {
        counts
    };
    let with_pool = if found.pools.len() > 0 {
        with_token.push(("top_pool"@, MetricView::Pool(found.pools[0])))
    } else {
        with_token
    };
    if found.dexes.len() > 0 {
        with_pool.push(("top_dex"@, MetricView::Dex(found.dexes[0])))
    } else {
        with_pool
    }
}

/// The search report of a document that is a search result; an empty report
/// for any other document.
pub open spec fn search_results_in(j: JsonView) -> Report {
    match search_response_of(j) {
        Some(found) => search_report(found),
        None => Seq::empty(),
    }
}

/// The search report of a document that is a search result.
pub fn extract_search_results(data: &Json) -> (r: Vec<(String, Metric)>)
    ensures
        report_view(r@) == search_results_in(data@),
{
    let mut out = empty_report();
    if let Some(found) = decode_search_response(data) {
        let tokens = found.tokens.len() as u64;
        let pools = found.pools.len() as u64;
        let dexes = found.dexes.len() as u64;
        put_count(&mut out, "tokens_count", tokens);
        put_count(&mut out, "pools_count", pools);
        put_count(&mut out, "dexes_count", dexes);
        put_count(&mut out, "total_results", tokens.saturating_add(pools).saturating_add(dexes));
        if found.tokens.len() > 0 {
            put(&mut out, "top_token", Metric::Token(found.tokens[0].clone()));
        }
        if found.pools.len() > 0 {
            put(&mut out, "top_pool", Metric::Pool(found.pools[0].clone()));
        }
        if found.dexes.len() > 0 {
            put(&mut out, "top_dex", Metric::Dex(found.dexes[0].clone()));
        }
        assert(report_view(out@) =~= search_report(found@));
    }
    out
}

/// The sum of the volumes of a list of price buckets.
pub open spec fn total_volume(records: Seq<OHLCVRecordView>) -> int
    decreases records.len(),
{
    if records.len() == 0 {
        0
    } else {
        total_volume(records.drop_last()) + records.last().volume
    }
}

/// The highest of the highs of a list of price buckets, starting from
/// negative infinity; a high that is NaN is passed over.
pub open spec fn highest(records: Seq<OHLCVRecordView>) -> Float
    decreases records.len(),
{
    if records.len() == 0 {
        Float { bits: 0xfff0_0000_0000_0000 }
    } else {
        highest(records.drop_last()).larger(records.last().high)
    }
}

/// The lowest of the lows of a list of price buckets, starting from positive
/// infinity; a low that is NaN is passed over.
pub open spec fn lowest(records: Seq<OHLCVRecordView>) -> Float
    decreases records.len(),
{
    if records.len() == 0 {
        Float { bits: 0x7ff0_0000_0000_0000 }
    } else {
        lowest(records.drop_last()).smaller(records.last().low)
    }
}

/// The figures of a list of price buckets. The change in percent and the
/// volatility are handed in; the change is reported where the first opening
/// price is above zero, the volatility where there is more than one bucket.
/// An empty list gives an empty report.
pub open spec fn ohlcv_report(
    records: Seq<OHLCVRecordView>,
    price_change_percent: Float,
    volatility: Float,
) -> Report {
    if records.len() == 0 {
        Seq::empty()
    } else {
        let base = seq![
            ("total_volume"@, MetricView::Whole(total_volume(records) as i128)),
            count("data_points"@, records.len() as int),
            amount("highest_price"@, highest(records)),
            amount("lowest_price"@, lowest(records)),
            amount("first_price"@, records[0].open),
            amount("last_price"@, records.last().close),
        ];
        let with_change = if (Float { bits: 0 }).below(records[0].open) {
            base.push(amount("price_change_percent"@, price_change_percent))
        } else {
            base
        };
        if records.len() > 1 {
            with_change.push(amount("volatility"@, volatility))
        } else {
            with_change
        }
    }
}

/// The sum of the volumes stays within 128 bits.
pub proof fn lemma_total_volume_bound(records: Seq<OHLCVRecordView>)
    ensures
        -records.len() * 0x8000_0000_0000_0000 <= total_volume(records) <= records.len()
            * 0x8000_0000_0000_0000,
    decreases records.len(),
{
    if records.len() > 0 {
        lemma_total_volume_bound(records.drop_last());
        assert((records.len() - 1) * 0x8000_0000_0000_0000 + 0x8000_0000_0000_0000
            == records.len() * 0x8000_0000_0000_0000) by (nonlinear_arith);
    }
}

/// The figures of a list of price buckets.
pub fn ohlcv_metrics(records: &[OHLCVRecord], price_change_percent: Float, volatility: Float) -> (r:
    Vec<(String, Metric)>)
    ensures
        report_view(r@) == ohlcv_report(views(records@), price_change_percent, volatility),
{
    let mut out = empty_report();
    if records.len() == 0 {
        return out;
    }
    let ghost all = views(records@);
    let mut total: i128 = 0;
    let mut high = Float::neg_infinity();
    let mut low = Float::infinity();
    let mut i: usize = 0;
    proof {
        assert(all.take(0) =~= Seq::empty());
    }
    while i < records.len()
        invariant
            i <= records.len(),
            all == views(records@),
            total == total_volume(all.take(i as int)),
            high == highest(all.take(i as int)),
            low == lowest(all.take(i as int)),
        decreases records.len() - i,
    {
        proof {
            assert(all.take(i as int + 1).drop_last() =~= all.take(i as int));
            assert(all.take(i as int + 1).last() == records[i as int]@);
            lemma_total_volume_bound(all.take(i as int));
            lemma_total_volume_bound(all.take(i as int + 1));
            assert(i * 0x8000_0000_0000_0000 <= 0xffff_ffff_ffff_ffff * 0x8000_0000_0000_0000)
                by (nonlinear_arith)
                requires
                    i <= 0xffff_ffff_ffff_ffff,
            ;
            assert((i + 1) * 0x8000_0000_0000_0000 <= 0xffff_ffff_ffff_ffff
                * 0x8000_0000_0000_0000) by (nonlinear_arith)
                requires
                    i + 1 <= 0xffff_ffff_ffff_ffff,
            ;
        }
        total = total + (records[i].volume as i128);
        high = high.max(records[i].high);
        low = low.min(records[i].low);
        i += 1;
    }
    assert(all.take(i as int) =~= all);
    put(&mut out, "total_volume", Metric::Whole(total));
    put_count(&mut out, "data_points", records.len() as u64);
    put_amount(&mut out, "highest_price", high);
    put_amount(&mut out, "lowest_price", low);
    put_amount(&mut out, "first_price", records[0].open);
    put_amount(&mut out, "last_price", records[records.len() - 1].close);
    if Float::zero().lt(records[0].open) {
        put_amount(&mut out, "price_change_percent", price_change_percent);
    }
    if records.len() > 1 {
        put_amount(&mut out, "volatility", volatility);
    }
    assert(report_view(out@) =~= ohlcv_report(all, price_change_percent, volatility));
    out
}

/// The figures of the price buckets of a document.
pub fn extract_ohlcv_metrics(data: &Json, price_change_percent: Float, volatility: Float) -> (r: Vec<
    (String, Metric),
>)
    ensures
        report_view(r@) == ohlcv_report(ohlcv_in(data@), price_change_percent, volatility),
{
    let records = extract_ohlcv(data);
    ohlcv_metrics(records.as_slice(), price_change_percent, volatility)
}

/// The activity figures of a pool. The volume per transaction and the
/// activity score are handed in; the volume per transaction is reported
/// where the pool has transactions, and the pair of the first two tokens'
/// symbols where the pool has two tokens.
pub open spec fn pool_activity(p: PoolView, volume_per_transaction: Float, activity_score: Float) -> Report {
    let head = seq![
        text("pool_id"@, p.id),
        text("dex_name"@, p.dex_name),
        text("chain"@, p.chain),
        amount("volume_usd"@, p.volume_usd),
        count("transactions"@, p.transactions as int),
        amount("price_usd"@, p.price_usd),
    ];
    let with_ratio = if p.transactions > 0 {
        head.push(amount("volume_per_transaction"@, volume_per_transaction))
    } else {
        head
    };
    let body = with_ratio.push(amount("price_change_24h"@, p.last_price_change_usd_24h)).push(
        amount("price_change_1h"@, p.last_price_change_usd_1h),
    ).push(amount("price_change_5m"@, p.last_price_change_usd_5m)).push(
        amount("activity_score"@, activity_score),
    );
    if p.tokens.len() >= 2 {
        body.push(text("token_pair"@, p.tokens[0].symbol + "/"@ + p.tokens[1].symbol))
    } else {
        body
    }
}

/// The activity figures of a pool.
pub fn analyze_pool_activity(pool: &Pool, volume_per_transaction: Float, activity_score: Float) -> (r:
    Vec<(String, Metric)>)
    ensures
        report_view(r@) == pool_activity(pool@, volume_per_transaction, activity_score),
{
    let mut out = empty_report();
    put_text(&mut out, "pool_id", &pool.id);
    put_text(&mut out, "dex_name", &pool.dex_name);
    put_text(&mut out, "chain", &pool.chain);
    put_amount(&mut out, "volume_usd", pool.volume_usd);
    put_count(&mut out, "transactions", pool.transactions as u64);
    put_amount(&mut out, "price_usd", pool.price_usd);
    if pool.transactions > 0 {
        put_amount(&mut out, "volume_per_transaction", volume_per_transaction);
    }
    put_amount(&mut out, "price_change_24h", pool.last_price_change_usd_24h);
    put_amount(&mut out, "price_change_1h", pool.last_price_change_usd_1h);
    put_amount(&mut out, "price_change_5m", pool.last_price_change_usd_5m);
    put_amount(&mut out, "activity_score", activity_score);
    if pool.tokens.len() >= 2 {
        let pair = join3(pool.tokens[0].symbol.as_str(), "/", pool.tokens[1].symbol.as_str());
        put_text(&mut out, "token_pair", &pair);
    }
    assert(report_view(out@) =~= pool_activity(pool@, volume_per_transaction, activity_score));
    out
}

/// The ratios of a token's performance, worked out by the caller.
#[derive(Clone, Copy, Debug, PartialEq)]
pub struct TokenRatios {
    /// Liquidity divided by the number of pools.
    pub avg_liquidity_per_pool: Float,
    /// Fully diluted valuation divided by liquidity.
    pub fdv_to_liquidity_ratio: Float,
    /// Volume over 24 hours divided by liquidity.
    pub volume_to_liquidity_ratio: Float,
}

/// The performance figures of a token. Without a summary only the token's
/// own facts are reported. A ratio is reported where its divisor is above
/// zero, and the figures over 24 hours where the summary has them.
pub open spec fn token_performance(t: TokenView, ratios: TokenRatios) -> Report {
    let head = seq![
        text("token_id"@, t.id),
        text("name"@, t.name),
        text("symbol"@, t.symbol),
        text("chain"@, t.chain),
        amount("fdv"@, t.fdv),
    ];
    match t.summary {
        None => head,
        Some(s) => {
            let liquid = (Float { bits: 0 }).below(s.liquidity_usd);
            let base = head.push(amount("price_usd"@, s.price_usd)).push(
                amount("liquidity_usd"@, s.liquidity_usd),
            ).push(count("pools_count"@, s.pools as int));
            let with_average = if s.pools > 0 {
                base.push(amount("avg_liquidity_per_pool"@, ratios.avg_liquidity_per_pool))
            } else {
                base
            };
            let with_valuation = if liquid {
                with_average.push(amount("fdv_to_liquidity_ratio"@, ratios.fdv_to_liquidity_ratio))
            } else {
                with_average
            };
            match s.h24 {
                None => with_valuation,
                Some(day) => {
                    let with_day = with_valuation.push(amount("volume_24h"@, day.volume_usd)).push(
                        amount("price_change_24h"@, day.last_price_usd_change),
                    ).push(count("transactions_24h"@, day.txns as int));
                    if liquid {
                        with_day.push(
                            amount("volume_to_liquidity_ratio"@, ratios.volume_to_liquidity_ratio),
                        )
                    } else {
                        with_day
                    }
                },
            }
        },
    }
}

/// The performance figures of a token.
pub fn analyze_token_performance(token: &Token, ratios: TokenRatios) -> (r: Vec<(String, Metric)>)
    ensures
        report_view(r@) == token_performance(token@, ratios),
{
    let mut out = empty_report();
    put_text(&mut out, "token_id", &token.id);
    put_text(&mut out, "name", &token.name);
    put_text(&mut out, "symbol", &token.symbol);
    put_text(&mut out, "chain", &token.chain);
    put_amount(&mut out, "fdv", token.fdv);
    if let Some(summary) = token.summary {
        let liquid = Float::zero().lt(summary.liquidity_usd);
        put_amount(&mut out, "price_usd", summary.price_usd);
        put_amount(&mut out, "liquidity_usd", summary.liquidity_usd);
        put_count(&mut out, "pools_count", summary.pools as u64);
        if summary.pools > 0 {
            put_amount(&mut out, "avg_liquidity_per_pool", ratios.avg_liquidity_per_pool);
        }
        if liquid {
            put_amount(&mut out, "fdv_to_liquidity_ratio", ratios.fdv_to_liquidity_ratio);
        }
        if let Some(day) = summary.h24 {
            put_amount(&mut out, "volume_24h", day.volume_usd);
            put_amount(&mut out, "price_change_24h", day.last_price_usd_change);
            put_count(&mut out, "transactions_24h", day.txns as u64);
            if liquid {
                put_amount(&mut out, "volume_to_liquidity_ratio", ratios.volume_to_liquidity_ratio);
            }
        }
    }
    assert(report_view(out@) =~= token_performance(token@, ratios));
    out
}

/// What a price watcher reports for a pool at a time.
pub open spec fn price_report(p: PoolView, timestamp: Seq<char>) -> Report {
    seq![
        amount("price_usd"@, p.price_usd),
        amount("last_price_change_usd_24h"@, p.last_price_change_usd_24h),
        amount("volume_usd"@, p.volume_usd),
        text("timestamp"@, timestamp),
    ]
}

/// What a price watcher reports for a pool at a time.
pub fn price_update(pool: &Pool, timestamp: &str) -> (r: Vec<(String, Metric)>)
    ensures
        report_view(r@) == price_report(pool@, timestamp@),
{
    let mut out = empty_report();
    put_amount(&mut out, "price_usd", pool.price_usd);
    put_amount(&mut out, "last_price_change_usd_24h", pool.last_price_change_usd_24h);
    put_amount(&mut out, "volume_usd", pool.volume_usd);
    put(&mut out, "timestamp", Metric::Text(timestamp.to_owned()));
    assert(report_view(out@) =~= price_report(pool@, timestamp@));
    out
}

/// The liquidity report of a token: the token and the number of its pools,
/// and, where it has pools, the liquidity analysis, the pool with the
/// largest volume and the exchange distribution.
pub open spec fn liquidity_report(
    t: TokenView,
    pools: Seq<PoolView>,
    liquidity: LiquidityAnalysisView,
    dexes: DexDistributionView,
) -> Report {
    let head = seq![("token"@, MetricView::Token(t)), count("pools_count"@, pools.len() as int)];
    match largest_at(pools) {
        None => head,
        Some(i) => head.push(("liquidity_analysis"@, MetricView::Liquidity(liquidity))).push(
            ("largest_pool"@, MetricView::Pool(pools[i])),
        ).push(("dex_distribution"@, MetricView::Dexes(dexes))),
    }
}

/// The liquidity report of a token. The liquidity analysis and the exchange
/// distribution are handed in.
pub fn token_liquidity_report(
    token: &Token,
    pools: &[Pool],
    liquidity: LiquidityAnalysis,
    dexes: DexDistribution,
) -> (r: Vec<(String, Metric)>)
    ensures
        report_view(r@) == liquidity_report(token@, views(pools@), liquidity@, dexes@),
{
    let mut out = empty_report();
    put(&mut out, "token", Metric::Token(token.clone()));
    put_count(&mut out, "pools_count", pools.len() as u64);
    if let Some(largest) = largest_pool(pools) {
        put(&mut out, "liquidity_analysis", Metric::Liquidity(liquidity));
        put(&mut out, "largest_pool", Metric::Pool(largest));
        put(&mut out, "dex_distribution", Metric::Dexes(dexes));
    }
    assert(report_view(out@) =~= liquidity_report(token@, views(pools@), liquidity@, dexes@));
    out
}

/// The counts by name after one more occurrence of a name: the count of a
/// name that is there grows by one, and a new name is added at the end with
/// a count of one.
pub open spec fn bumped(tally: Seq<(Seq<char>, nat)>, name: Seq<char>) -> Seq<(Seq<char>, nat)> {
    match position(crate::assoc::firsts(tally), name) {
        Some(i) => tally.update(i, (name, tally[i].1 + 1)),
        None => tally.push((name, 1)),
    }
}

/// How often each name occurs in a list, in the order in which the names
/// first occur.
pub open spec fn tally_of(names: Seq<Seq<char>>) -> Seq<(Seq<char>, nat)>
    decreases names.len(),
{
    if names.len() == 0 {
        Seq::empty()
    } else {
        bumped(tally_of(names.drop_last()), names.last())
    }
}

/// No count of a tally is more than the number of names that were counted.
pub proof fn lemma_tally_bound(names: Seq<Seq<char>>)
    ensures
        tally_of(names).len() <= names.len(),
        forall|k: int| 0 <= k < tally_of(names).len() ==> (#[trigger] tally_of(names)[k]).1 <= names.len(),
    decreases names.len(),
{
    if names.len() > 0 {
        lemma_tally_bound(names.drop_last());
        crate::assoc::lemma_position(crate::assoc::firsts(tally_of(names.drop_last())), names.last());
    }
}

/// How often each name occurs in a list, in the order in which the names
/// first occur.
pub fn tally_names(names: &Vec<String>) -> (r: Vec<(String, u64)>)
    ensures
        tally_view(r@) == tally_of(names_view(names@)),
{
    let ghost all = names_view(names@);
    let mut out: Vec<(String, u64)> = Vec::new();
    let mut i: usize = 0;
    proof {
        assert(all.take(0) =~= Seq::empty());
        assert(tally_view(out@) =~= tally_of(all.take(0)));
    }
    while i < names.len()
        invariant
            i <= names.len(),
            all == names_view(names@),
            tally_view(out@) == tally_of(all.take(i as int)),
        decreases names.len() - i,
    {
        let ghost before = tally_view(out@);
        proof {
            assert(all.take(i as int + 1).drop_last() =~= all.take(i as int));
            assert(all.take(i as int + 1).last() == names[i as int]@);
            assert(keys(out@) =~= crate::assoc::firsts(before));
            lemma_tally_bound(all.take(i as int));
        }
        match find_key(&out, names[i].as_str()) {
            Some(k) => {
                assert(before[k as int].1 <= i);
                let n = out[k].1 + 1;
                out.set(k, (names[i].clone(), n));
            },
            None => {
                out.push((names[i].clone(), 1));
            },
        }
        proof {
            assert(tally_view(out@) =~= bumped(before, names[i as int]@));
        }
        i += 1;
    }
    assert(all.take(i as int) =~= all);
    out
}

/// The hour of the day of a transaction, on the clock of the offset that
/// its time states; `None` where its time cannot be read.
pub open spec fn hour_of(t: TransactionView) -> Option<int> {
    match rfc3339_moment(t.created_at) {
        Some(m) => Some(m.hour as int),
        None => None,
    }
}

/// How many of the transactions were made in the given hour of the day.
pub open spec fn made_in_hour(transactions: Seq<TransactionView>, hour: int) -> nat
    decreases transactions.len(),
{
    if transactions.len() == 0 {
        0
    } else {
        let before = made_in_hour(transactions.drop_last(), hour);
        if hour_of(transactions.last()) == Some(hour) {
            before + 1
        } else {
            before
        }
    }
}

/// For each of the 24 hours of the day, how many transactions were made in it.
pub open spec fn hour_counts(transactions: Seq<TransactionView>) -> Seq<nat> {
    Seq::new(24, |h: int| made_in_hour(transactions, h))
}

/// The first place with the largest count, and that count; `(0, 0)` where
/// every count is zero.
pub open spec fn peak(counts: Seq<nat>) -> (int, nat)
    decreases counts.len(),
{
    if counts.len() == 0 {
        (0, 0)
    } else {
        let best = peak(counts.drop_last());
        if counts.last() > best.1 {
            (counts.len() - 1, counts.last())
        } else {
            best
        }
    }
}

/// The counts that are above zero, each under the decimal numeral of its
/// place, in the order of the places.
pub open spec fn nonzero(counts: Seq<nat>) -> Seq<(Seq<char>, nat)>
    decreases counts.len(),
{
    if counts.len() == 0 {
        Seq::empty()
    } else if counts.last() > 0 {
        nonzero(counts.drop_last()).push((decimal((counts.len() - 1) as nat), counts.last()))
    } else {
        nonzero(counts.drop_last())
    }
}

/// The pair of symbols of each transaction, as `first/second`.
pub open spec fn pair_names(transactions: Seq<TransactionView>) -> Seq<Seq<char>> {
    Seq::new(
        transactions.len(),
        |i: int| transactions[i].token_0_symbol + "/"@ + transactions[i].token_1_symbol,
    )
}

/// The patterns of a list of transactions: how many there are, their total
/// and average value (handed in), the hour of the day in which most were
/// made and how many were made in it, the count for each hour in which any
/// was made, and how often each pair of symbols was traded. A transaction
/// whose time cannot be read counts for no hour. An empty list gives an
/// empty report.
pub open spec fn transaction_patterns(
    transactions: Seq<TransactionView>,
    total_value_usd: Float,
    avg_value_per_tx: Float,
) -> Report {
    if transactions.len() == 0 {
        Seq::empty()
    } else {
        let hours = hour_counts(transactions);
        let pairs = tally_of(pair_names(transactions));
        seq![
            count("total_transactions"@, transactions.len() as int),
            amount("total_value_usd"@, total_value_usd),
            amount("avg_value_per_tx"@, avg_value_per_tx),
            count("peak_hour"@, peak(hours).0),
            count("peak_hour_count"@, peak(hours).1 as int),
            ("hourly_distribution"@, MetricView::Tally(nonzero(hours))),
            count("unique_pairs"@, pairs.len() as int),
            ("pair_distribution"@, MetricView::Tally(pairs)),
        ]
    }
}

/// The values of a list of counts.
pub open spec fn counts_view(counts: Seq<u64>) -> Seq<nat> {
    Seq::new(counts.len(), |i: int| counts[i] as nat)
}

/// True when the map holds, for each hour in which a transaction was made,
/// how many were made in it, and holds no other hour.
pub open spec fn is_hour_tally(map: Map<u32, u64>, transactions: Seq<TransactionView>) -> bool {
    forall|h: u32|
        if #[trigger] map.contains_key(h) {
            map[h] as nat == made_in_hour(transactions, h as int) && map[h] > 0
        } else {
            made_in_hour(transactions, h as int) == 0
        }
}

/// The number of transactions made in each hour of the day, by hour. An hour
/// in which none was made is not in the map.
pub fn tally_hours(transactions: &[Transaction]) -> (r: HashMap<u32, u64>)
    ensures
        is_hour_tally(r@, views(transactions@)),
{
    let ghost all = views(transactions@);
    let mut map: HashMap<u32, u64> = HashMap::new();
    let mut i: usize = 0;
    proof {
        assert(all.take(0) =~= Seq::empty());
    }
    while i < transactions.len()
        invariant
            i <= transactions.len(),
            all == views(transactions@),
            is_hour_tally(map@, all.take(i as int)),
            forall|h: u32| #[trigger] map@.contains_key(h) ==> map@[h] <= i,
        decreases transactions.len() - i,
    {
        proof {
            assert(all.take(i as int + 1).drop_last() =~= all.take(i as int));
            assert(all.take(i as int + 1).last() == transactions[i as int]@);
        }
        let ghost before = map@;
        match parse_rfc3339(transactions[i].created_at.as_str()) {
            Some(m) => {
                let n: u64 = match map.get(&m.hour) {
                    Some(c) => *c + 1,
                    None => 1,
                };
                map.insert(m.hour, n);
                proof {
                    assert forall|h: u32|
                        if #[trigger] map@.contains_key(h) {
                            map@[h] as nat == made_in_hour(all.take(i as int + 1), h as int)
                                && map@[h] > 0
                        } else {
                            made_in_hour(all.take(i as int + 1), h as int) == 0
                        } by {
                        assert(before.contains_key(h) || !before.contains_key(h));
                    }
                    assert forall|h: u32| #[trigger] map@.contains_key(h) implies map@[h] <= i
                        + 1 by {
                        assert(before.contains_key(h) || !before.contains_key(h));
                    }
                }
            },
            None => {
                proof {
                    assert forall|h: u32|
                        if #[trigger] map@.contains_key(h) {
                            map@[h] as nat == made_in_hour(all.take(i as int + 1), h as int)
                                && map@[h] > 0
                        } else {
                            made_in_hour(all.take(i as int + 1), h as int) == 0
                        } by {
                        assert(before.contains_key(h) || !before.contains_key(h));
                    }
                }
            },
        }
        i += 1;
    }
    assert(all.take(i as int) =~= all);
    map
}

/// For each of the 24 hours of the day, how many of the transactions were
/// made in it.
pub fn count_by_hour(transactions: &[Transaction]) -> (r: Vec<u64>)
    ensures
        counts_view(r@) == hour_counts(views(transactions@)),
{
    let ghost all = views(transactions@);
    let map = tally_hours(transactions);
    let mut counts: Vec<u64> = Vec::new();
    let mut h: u32 = 0;
    while h < 24
        invariant
            h <= 24,
            counts.len() == h,
            is_hour_tally(map@, all),
            forall|k: int| 0 <= k < h ==> counts[k] as nat == made_in_hour(all, k),
        decreases 24 - h,
    {
        let n: u64 = match map.get(&h) {
            Some(c) => *c,
            None => 0,
        };
        assert(n as nat == made_in_hour(all, h as int)) by {
            assert(map@.contains_key(h) || !map@.contains_key(h));
        }
        counts.push(n);
        h += 1;
    }
    assert(counts_view(counts@) =~= hour_counts(all));
    counts
}

/// The first place with the largest count, and that count.
pub fn find_peak(counts: &Vec<u64>) -> (r: (usize, u64))
    ensures
        r.0 as int == peak(counts_view(counts@)).0,
        r.1 as nat == peak(counts_view(counts@)).1,
{
    let ghost all = counts_view(counts@);
    let mut best: (usize, u64) = (0, 0);
    let mut i: usize = 0;
    proof {
        assert(all.take(0) =~= Seq::empty());
    }
    while i < counts.len()
        invariant
            i <= counts.len(),
            all == counts_view(counts@),
            best.0 as int == peak(all.take(i as int)).0,
            best.1 as nat == peak(all.take(i as int)).1,
        decreases counts.len() - i,
    {
        proof {
            assert(all.take(i as int + 1).drop_last() =~= all.take(i as int));
            assert(all.take(i as int + 1).last() == counts[i as int] as nat);
        }
        if counts[i] > best.1 {
            best = (i, counts[i]);
        }
        i += 1;
    }
    assert(all.take(i as int) =~= all);
    best
}

/// The counts that are above zero, each under the numeral of its place.
pub fn list_nonzero(counts: &Vec<u64>) -> (r: Vec<(String, u64)>)
    ensures
        tally_view(r@) == nonzero(counts_view(counts@)),
{
    let ghost all = counts_view(counts@);
    let mut out: Vec<(String, u64)> = Vec::new();
    let mut i: usize = 0;
    proof {
        assert(all.take(0) =~= Seq::empty());
        assert(tally_view(out@) =~= nonzero(all.take(0)));
    }
    while i < counts.len()
        invariant
            i <= counts.len(),
            all == counts_view(counts@),
            tally_view(out@) == nonzero(all.take(i as int)),
        decreases counts.len() - i,
    {
        let ghost before = tally_view(out@);
        proof {
            assert(all.take(i as int + 1).drop_last() =~= all.take(i as int));
            assert(all.take(i as int + 1).last() == counts[i as int] as nat);
        }
        if counts[i] > 0 {
            out.push((decimal_string(i as u64), counts[i]));
            assert(tally_view(out@) =~= before.push((decimal(i as nat), counts[i as int] as nat)));
        }
        i += 1;
    }
    assert(all.take(i as int) =~= all);
    out
}

/// The patterns of a list of transactions. The total and the average value
/// are handed in.
pub fn analyze_transaction_patterns(
    transactions: &[Transaction],
    total_value_usd: Float,
    avg_value_per_tx: Float,
) -> (r: Vec<(String, Metric)>)
    ensures
        report_view(r@) == transaction_patterns(
            views(transactions@),
            total_value_usd,
            avg_value_per_tx,
        ),
{
    let mut out = empty_report();
    if transactions.len() == 0 {
        return out;
    }
    let hours = count_by_hour(transactions);
    let best = find_peak(&hours);
    let hourly = list_nonzero(&hours);
    let mut names: Vec<String> = Vec::new();
    let mut i: usize = 0;
    while i < transactions.len()
        invariant
            i <= transactions.len(),
            names.len() == i,
            forall|k: int|
                0 <= k < i ==> (#[trigger] names[k])@ == transactions[k].token_0_symbol@ + "/"@
                    + transactions[k].token_1_symbol@,
        decreases transactions.len() - i,
    {
        names.push(
            join3(
                transactions[i].token_0_symbol.as_str(),
                "/",
                transactions[i].token_1_symbol.as_str(),
            ),
        );
        i += 1;
    }
    assert(names_view(names@) =~= pair_names(views(transactions@)));
    let pairs = tally_names(&names);
    put_count(&mut out, "total_transactions", transactions.len() as u64);
    put_amount(&mut out, "total_value_usd", total_value_usd);
    put_amount(&mut out, "avg_value_per_tx", avg_value_per_tx);
    put_count(&mut out, "peak_hour", best.0 as u64);
    put_count(&mut out, "peak_hour_count", best.1);
    put(&mut out, "hourly_distribution", Metric::Tally(hourly));
    put_count(&mut out, "unique_pairs", pairs.len() as u64);
    put(&mut out, "pair_distribution", Metric::Tally(pairs));
    assert(report_view(out@) =~= transaction_patterns(
        views(transactions@),
        total_value_usd,
        avg_value_per_tx,
    ));
    out
}

} // verus!
