//! Taking records out of documents whose shape is not known beforehand.
//!
//! A response may be a page with its paging block, or a bare array. Each
//! helper tries the shapes it knows in a fixed order and takes the first
//! that fits; where none fits the answer is empty, never an error.

use vstd::prelude::*;
use crate::decode::{decode_dexes, decode_dexes_response, decode_ohlcv_records, decode_pool, decode_pools, decode_pools_response, decode_search_response, decode_summary, decode_token, decode_token_pools_response, decode_tokens, decode_transactions, decode_transactions_response, dexes_of, dexes_response_of, ohlcv_records_of, pool_of, pools_of, pools_response_of, search_response_of, summary_of, token_of, token_pools_response_of, tokens_of, transactions_of, transactions_response_of};
use crate::json::{views, Json, JsonView};
use crate::records::{
    Dex, DexView, OHLCVRecord, OHLCVRecordView, PageInfo, Pool, PoolView, TimeIntervalMetrics,
    Token, TokenSummary, TokenView, Transaction, TransactionView,
};
use crate::text::same_text;

verus! {

/// The pools of a document: those of a page of pools, else those of a bare
/// array of pools, else none.
pub open spec fn pools_in(j: JsonView) -> Seq<PoolView> {
    match pools_response_of(j) {
        Some(page) => page.pools,
        None => match pools_of(j) {
            Some(list) => list,
            None => Seq::empty(),
        },
    }
}

/// The tokens of a document: those of a search result, else those of a bare
/// array of tokens, else none.
pub open spec fn tokens_in(j: JsonView) -> Seq<TokenView> {
    match search_response_of(j) {
        Some(found) => found.tokens,
        None => match tokens_of(j) {
            Some(list) => list,
            None => Seq::empty(),
        },
    }
}

/// The exchanges of a document: those of a page of exchanges, else those of
/// a search result, else those of a bare array of exchanges, else none.
pub open spec fn dexes_in(j: JsonView) -> Seq<DexView> {
    match dexes_response_of(j) {
        Some(page) => page.dexes,
        None => match search_response_of(j) {
            Some(found) => found.dexes,
            None => match dexes_of(j) {
                Some(list) => list,
                None => Seq::empty(),
            },
        },
    }
}

/// The transactions of a document: those of a page of transactions, else
/// those of a bare array of transactions, else none.
pub open spec fn transactions_in(j: JsonView) -> Seq<TransactionView> {
    match transactions_response_of(j) {
        Some(page) => page.transactions,
        None => match transactions_of(j) {
            Some(list) => list,
            None => Seq::empty(),
        },
    }
}

/// The price buckets of a document: those of a bare array of price buckets,
/// else none.
pub open spec fn ohlcv_in(j: JsonView) -> Seq<OHLCVRecordView> {
    match ohlcv_records_of(j) {
        Some(list) => list,
        None => Seq::empty(),
    }
}

/// The paging block of a document: that of a page of pools, else that of a
/// page of exchanges, else that of a page of a token's pools, else none.
pub open spec fn page_info_in(j: JsonView) -> Option<PageInfo> {
    match pools_response_of(j) {
        Some(page) => Some(page.page_info),
        None => match dexes_response_of(j) {
            Some(page) => Some(page.page_info),
            None => match token_pools_response_of(j) {
                Some(page) => Some(page.page_info),
                None => None,
            },
        },
    }
}

/// The summary of a document that is a token, if the token has one.
pub open spec fn token_summary_in(j: JsonView) -> Option<TokenSummary> {
    match token_of(j) {
        Some(token) => token.summary,
        None => None,
    }
}

/// The metrics of a pool for a time window named `24h`, `6h`, `1h`, `30m`,
/// `15m` or `5m`.
pub open spec fn pool_window(p: PoolView, timeframe: Seq<char>) -> Option<TimeIntervalMetrics> {
    if timeframe == "24h"@ {
        p.h24
    } else if timeframe == "6h"@ {
        p.h6
    } else if timeframe == "1h"@ {
        p.h1
    } else if timeframe == "30m"@ {
        p.m30
    } else if timeframe == "15m"@ {
        p.m15
    } else if timeframe == "5m"@ {
        p.m5
    } else {
        None
    }
}

/// The metrics of a token summary for a time window named `24h`, `6h`,
/// `1h`, `30m`, `15m`, `5m` or `1m`.
pub open spec fn summary_window(s: TokenSummary, timeframe: Seq<char>) -> Option<
    TimeIntervalMetrics,
> {
    if timeframe == "24h"@ {
        s.h24
    } else if timeframe == "6h"@ {
        s.h6
    } else if timeframe == "1h"@ {
        s.h1
    } else if timeframe == "30m"@ {
        s.m30
    } else if timeframe == "15m"@ {
        s.m15
    } else if timeframe == "5m"@ {
        s.m5
    } else if timeframe == "1m"@ {
        s.m1
    } else {
        None
    }
}

/// The metrics of a document for a time window: those of the pool where the
/// document is a pool, else those of the token summary where it is one,
/// else none. A document that is a pool is never read as a summary.
pub open spec fn time_metrics_in(j: JsonView, timeframe: Seq<char>) -> Option<TimeIntervalMetrics> {
    match pool_of(j) {
        Some(p) => pool_window(p, timeframe),
        None => match summary_of(j) {
            Some(s) => summary_window(s, timeframe),
            None => None,
        },
    }
}

/// The tokens of a document that is a pool, else none.
pub open spec fn pool_tokens_in(j: JsonView) -> Seq<TokenView> {
    match pool_of(j) {
        Some(p) => p.tokens,
        None => Seq::empty(),
    }
}

/// The pools of a document.
pub fn extract_pools(data: &Json) -> (r: Vec<Pool>)
    ensures
        views(r@) == pools_in(data@),
{
    if let Some(page) = decode_pools_response(data) {
        return page.pools;
    }
    if let Some(list) = decode_pools(data) {
        return list;
    }
    let none: Vec<Pool> = Vec::new();
    assert(views(none@) =~= Seq::<PoolView>::empty());
    none
}

/// The tokens of a document.
pub fn extract_tokens(data: &Json) -> (r: Vec<Token>)
    ensures
        views(r@) == tokens_in(data@),
{
    if let Some(found) = decode_search_response(data) {
        return found.tokens;
    }
    if let Some(list) = decode_tokens(data) {
        return list;
    }
    let none: Vec<Token> = Vec::new();
    assert(views(none@) =~= Seq::<TokenView>::empty());
    none
}

/// The exchanges of a document.
pub fn extract_dexes(data: &Json) -> (r: Vec<Dex>)
    ensures
        views(r@) == dexes_in(data@),
{
    if let Some(page) = decode_dexes_response(data) {
        return page.dexes;
    }
    if let Some(found) = decode_search_response(data) {
        return found.dexes;
    }
    if let Some(list) = decode_dexes(data) {
        return list;
    }
    let none: Vec<Dex> = Vec::new();
    assert(views(none@) =~= Seq::<DexView>::empty());
    none
}

/// The transactions of a document.
pub fn extract_transactions(data: &Json) -> (r: Vec<Transaction>)
    ensures
        views(r@) == transactions_in(data@),
{
    if let Some(page) = decode_transactions_response(data) {
        return page.transactions;
    }
    if let Some(list) = decode_transactions(data) {
        return list;
    }
    let none: Vec<Transaction> = Vec::new();
    assert(views(none@) =~= Seq::<TransactionView>::empty());
    none
}

/// The price buckets of a document.
pub fn extract_ohlcv(data: &Json) -> (r: Vec<OHLCVRecord>)
    ensures
        views(r@) == ohlcv_in(data@),
{
    if let Some(list) = decode_ohlcv_records(data) {
        return list;
    }
    let none: Vec<OHLCVRecord> = Vec::new();
    assert(views(none@) =~= Seq::<OHLCVRecordView>::empty());
    none
}

/// The paging block of a document.
pub fn extract_page_info(data: &Json) -> (r: Option<PageInfo>)
    ensures
        r == page_info_in(data@),
{
    if let Some(page) = decode_pools_response(data) {
        return Some(page.page_info);
    }
    if let Some(page) = decode_dexes_response(data) {
        return Some(page.page_info);
    }
    if let Some(page) = decode_token_pools_response(data) {
        return Some(page.page_info);
    }
    None
}

/// The summary of a document that is a token.
pub fn extract_token_summary(data: &Json) -> (r: Option<TokenSummary>)
    ensures
        r == token_summary_in(data@),
{
    if let Some(token) = decode_token(data) {
        return token.summary;
    }
    None
}

fn window_of_pool(p: &Pool, timeframe: &str) -> (r: Option<TimeIntervalMetrics>)
    ensures
        r == pool_window(p@, timeframe@),
{
    if same_text(timeframe, "24h") {
        p.h24
    } else if same_text(timeframe, "6h") {
        p.h6
    } else if same_text(timeframe, "1h") {
        p.h1
    } else if same_text(timeframe, "30m") {
        p.m30
    } else if same_text(timeframe, "15m") {
        p.m15
    } else if same_text(timeframe, "5m") {
        p.m5
    } else {
        None
    }
}

fn window_of_summary(s: &TokenSummary, timeframe: &str) -> (r: Option<TimeIntervalMetrics>)
    ensures
        r == summary_window(*s, timeframe@),
{
    if same_text(timeframe, "24h") {
        s.h24
    } else if same_text(timeframe, "6h") {
        s.h6
    } else if same_text(timeframe, "1h") {
        s.h1
    } else if same_text(timeframe, "30m") {
        s.m30
    } else if same_text(timeframe, "15m") {
        s.m15
    } else if same_text(timeframe, "5m") {
        s.m5
    } else if same_text(timeframe, "1m") {
        s.m1
    } else {
        None
    }
}

/// The metrics of a document for a time window.
pub fn extract_time_metrics(data: &Json, timeframe: &str) -> (r: Option<TimeIntervalMetrics>)
    ensures
        r == time_metrics_in(data@, timeframe@),
{
    if let Some(pool) = decode_pool(data) {
        return window_of_pool(&pool, timeframe);
    }
    if let Some(summary) = decode_summary(data) {
        return window_of_summary(&summary, timeframe);
    }
    None
}

/// The tokens of a document that is a pool.
pub fn extract_pool_tokens(data: &Json) -> (r: Vec<Token>)
    ensures
        views(r@) == pool_tokens_in(data@),
{
    if let Some(pool) = decode_pool(data) {
        return pool.tokens;
    }
    let none: Vec<Token> = Vec::new();
    assert(views(none@) =~= Seq::<TokenView>::empty());
    none
}

} // verus!
