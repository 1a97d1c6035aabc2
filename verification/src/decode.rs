//! Decoding JSON documents into records.
//!
//! Each record has a specification, `..._of`, that says which record a
//! document encodes, if any, and a decoder that computes it. A record is a
//! JSON object; members that the record does not name are ignored. An amount
//! that the service may send as null (a total supply, a fully diluted
//! valuation, a volume, a price, a price change, the figures of a time
//! window) reads as zero where its member is missing or null; every other
//! member of the wrong kind makes the whole document fail to decode.

use vstd::prelude::*;
use crate::float::Float;
use crate::json::{absent, defaulted_count, defaulted_text, defaulted_whole, find, items_view, lemma_items_view, lenient_amount, member, members_view, opt_view, optional_amount, optional_count, optional_text, read_amount, read_count, read_count_or_zero, read_lenient_amount, read_optional_amount, read_optional_count, read_optional_text, read_text, read_text_or_empty, read_whole, read_whole_or_zero, required_amount, required_count, required_text, required_whole, views, Json, JsonView, Members};
use crate::records::{
    APIError, APIErrorView, Dex, DexView, DexesResponse, DexesResponseView, Network, NetworkView,
    OHLCVRecord, OHLCVRecordView, PageInfo, Pool, PoolView, PoolsResponse, PoolsResponseView,
    SearchResponse, SearchResponseView, SystemStats, TimeIntervalMetrics, Token,
    TokenPoolsResponse, TokenPoolsResponseView, TokenSummary, TokenView, Transaction,
    TransactionView, TransactionsResponse, TransactionsResponseView,
};

verus! {

/// The values of an optional list.
pub open spec fn opt_views<T: View>(o: Option<Vec<T>>) -> Option<Seq<T::V>> {
    match o {
        Some(list) => Some(views(list@)),
        None => None,
    }
}

/// Reads a member that must be there, whatever kind of document it is.
pub fn read_document(m: &Vec<(String, Json)>, name: &str) -> (r: Option<Json>)
    ensures
        opt_view(r) == member(members_view(m@), name@),
{
    match find(m, name) {
        Some(j) => Some(j.clone()),
        None => None,
    }
}

/// The record that a document encodes as window metrics, if it encodes one.
pub open spec fn metrics_of(j: JsonView) -> Option<TimeIntervalMetrics> {
    match j {
        JsonView::Object(m) => {
            let volume = lenient_amount(m, "volume"@);
            let volume_usd = lenient_amount(m, "volume_usd"@);
            let buy_usd = lenient_amount(m, "buy_usd"@);
            let sell_usd = lenient_amount(m, "sell_usd"@);
            let sells = defaulted_count(m, "sells"@);
            let buys = defaulted_count(m, "buys"@);
            let txns = defaulted_count(m, "txns"@);
            let last_price_usd_change = lenient_amount(m, "last_price_usd_change"@);
            if volume is Some && volume_usd is Some && buy_usd is Some && sell_usd is Some && sells is Some && buys is Some && txns is Some && last_price_usd_change is Some {
                Some(
                    TimeIntervalMetrics {
                        volume: volume->0,
                        volume_usd: volume_usd->0,
                        buy_usd: buy_usd->0,
                        sell_usd: sell_usd->0,
                        sells: sells->0,
                        buys: buys->0,
                        txns: txns->0,
                        last_price_usd_change: last_price_usd_change->0,
                    },
                )
            } else {
                None
            }
        },
        _ => None,
    }
}

/// Decodes window metrics.
pub fn decode_metrics(j: &Json) -> (r: Option<TimeIntervalMetrics>)
    ensures
        r == metrics_of(j@),
{
    let m = j.members()?;
    let volume = read_lenient_amount(m, "volume")?;
    let volume_usd = read_lenient_amount(m, "volume_usd")?;
    let buy_usd = read_lenient_amount(m, "buy_usd")?;
    let sell_usd = read_lenient_amount(m, "sell_usd")?;
    let sells = read_count_or_zero(m, "sells")?;
    let buys = read_count_or_zero(m, "buys")?;
    let txns = read_count_or_zero(m, "txns")?;
    let last_price_usd_change = read_lenient_amount(m, "last_price_usd_change")?;
    Some(TimeIntervalMetrics { volume, volume_usd, buy_usd, sell_usd, sells, buys, txns, last_price_usd_change })
}

/// A member that may be missing or null and otherwise must encode window metrics.
pub open spec fn optional_metrics(m: Members, name: Seq<char>) -> Option<Option<TimeIntervalMetrics>> {
    match member(m, name) {
        None => Some(None),
        Some(JsonView::Null) => Some(None),
        Some(j) => match metrics_of(j) {
            Some(x) => Some(Some(x)),
            None => None,
        },
    }
}

/// Reads a member that may be missing or null and otherwise must encode window metrics.
pub fn read_optional_metrics(m: &Vec<(String, Json)>, name: &str) -> (r: Option<Option<TimeIntervalMetrics>>)
    ensures
        r == optional_metrics(members_view(m@), name@),
{
    match find(m, name) {
        None => Some(None),
        Some(j) => if j.is_null() {
            Some(None)
        } else {
            match decode_metrics(j) {
                Some(x) => Some(Some(x)),
                None => None,
            }
        },
    }
}

/// The record that a document encodes as a token summary, if it encodes one.
pub open spec fn summary_of(j: JsonView) -> Option<TokenSummary> {
    match j {
        JsonView::Object(m) => {
            let price_usd = required_amount(m, "price_usd"@);
            let fdv = lenient_amount(m, "fdv"@);
            let liquidity_usd = required_amount(m, "liquidity_usd"@);
            let pools = required_count(m, "pools"@);
            let h24 = optional_metrics(m, "24h"@);
            let h6 = optional_metrics(m, "6h"@);
            let h1 = optional_metrics(m, "1h"@);
            let m30 = optional_metrics(m, "30m"@);
            let m15 = optional_metrics(m, "15m"@);
            let m5 = optional_metrics(m, "5m"@);
            let m1 = optional_metrics(m, "1m"@);
            if price_usd is Some && fdv is Some && liquidity_usd is Some && pools is Some && h24 is Some && h6 is Some && h1 is Some && m30 is Some && m15 is Some && m5 is Some && m1 is Some {
                Some(
                    TokenSummary {
                        price_usd: price_usd->0,
                        fdv: fdv->0,
                        liquidity_usd: liquidity_usd->0,
                        pools: pools->0,
                        h24: h24->0,
                        h6: h6->0,
                        h1: h1->0,
                        m30: m30->0,
                        m15: m15->0,
                        m5: m5->0,
                        m1: m1->0,
                    },
                )
            } else {
                None
            }
        },
        _ => None,
    }
}

/// Decodes a token summary.
pub fn decode_summary(j: &Json) -> (r: Option<TokenSummary>)
    ensures
        r == summary_of(j@),
{
    let m = j.members()?;
    let price_usd = read_amount(m, "price_usd")?;
    let fdv = read_lenient_amount(m, "fdv")?;
    let liquidity_usd = read_amount(m, "liquidity_usd")?;
    let pools = read_count(m, "pools")?;
    let h24 = read_optional_metrics(m, "24h")?;
    let h6 = read_optional_metrics(m, "6h")?;
    let h1 = read_optional_metrics(m, "1h")?;
    let m30 = read_optional_metrics(m, "30m")?;
    let m15 = read_optional_metrics(m, "15m")?;
    let m5 = read_optional_metrics(m, "5m")?;
    let m1 = read_optional_metrics(m, "1m")?;
    Some(TokenSummary { price_usd, fdv, liquidity_usd, pools, h24, h6, h1, m30, m15, m5, m1 })
}

/// A member that may be missing or null and otherwise must encode a token summary.
pub open spec fn optional_summary(m: Members, name: Seq<char>) -> Option<Option<TokenSummary>> {
    match member(m, name) {
        None => Some(None),
        Some(JsonView::Null) => Some(None),
        Some(j) => match summary_of(j) {
            Some(x) => Some(Some(x)),
            None => None,
        },
    }
}

/// Reads a member that may be missing or null and otherwise must encode a token summary.
pub fn read_optional_summary(m: &Vec<(String, Json)>, name: &str) -> (r: Option<Option<TokenSummary>>)
    ensures
        r == optional_summary(members_view(m@), name@),
{
    match find(m, name) {
        None => Some(None),
        Some(j) => if j.is_null() {
            Some(None)
        } else {
            match decode_summary(j) {
                Some(x) => Some(Some(x)),
                None => None,
            }
        },
    }
}

/// The record that a document encodes as a paging block, if it encodes one.
pub open spec fn page_info_of(j: JsonView) -> Option<PageInfo> {
    match j {
        JsonView::Object(m) => {
            let limit = required_count(m, "limit"@);
            let page = required_count(m, "page"@);
            let total_items = required_count(m, "total_items"@);
            let total_pages = required_count(m, "total_pages"@);
            if limit is Some && page is Some && total_items is Some && total_pages is Some {
                Some(
                    PageInfo {
                        limit: limit->0,
                        page: page->0,
                        total_items: total_items->0,
                        total_pages: total_pages->0,
                    },
                )
            } else {
                None
            }
        },
        _ => None,
    }
}

/// Decodes a paging block.
pub fn decode_page_info(j: &Json) -> (r: Option<PageInfo>)
    ensures
        r == page_info_of(j@),
{
    let m = j.members()?;
    let limit = read_count(m, "limit")?;
    let page = read_count(m, "page")?;
    let total_items = read_count(m, "total_items")?;
    let total_pages = read_count(m, "total_pages")?;
    Some(PageInfo { limit, page, total_items, total_pages })
}

/// A member that must be there and encode a paging block.
pub open spec fn required_page_info(m: Members, name: Seq<char>) -> Option<PageInfo> {
    match member(m, name) {
        Some(j) => page_info_of(j),
        None => None,
    }
}

/// Reads a member that must be there and encode a paging block.
pub fn read_page_info(m: &Vec<(String, Json)>, name: &str) -> (r: Option<PageInfo>)
    ensures
        r == required_page_info(members_view(m@), name@),
{
    match find(m, name) {
        Some(j) => decode_page_info(j),
        None => None,
    }
}

/// The record that a document encodes as system statistics, if it encodes one.
pub open spec fn system_stats_of(j: JsonView) -> Option<SystemStats> {
    match j {
        JsonView::Object(m) => {
            let chains = required_count(m, "chains"@);
            let factories = required_count(m, "factories"@);
            let pools = required_count(m, "pools"@);
            let tokens = required_count(m, "tokens"@);
            if chains is Some && factories is Some && pools is Some && tokens is Some {
                Some(
                    SystemStats {
                        chains: chains->0,
                        factories: factories->0,
                        pools: pools->0,
                        tokens: tokens->0,
                    },
                )
            } else {
                None
            }
        },
        _ => None,
    }
}

/// Decodes system statistics.
pub fn decode_system_stats(j: &Json) -> (r: Option<SystemStats>)
    ensures
        r == system_stats_of(j@),
{
    let m = j.members()?;
    let chains = read_count(m, "chains")?;
    let factories = read_count(m, "factories")?;
    let pools = read_count(m, "pools")?;
    let tokens = read_count(m, "tokens")?;
    Some(SystemStats { chains, factories, pools, tokens })
}

/// The record that a document encodes as a network, if it encodes one.
pub open spec fn network_of(j: JsonView) -> Option<NetworkView> {
    match j {
        JsonView::Object(m) => {
            let id = required_text(m, "id"@);
            let display_name = required_text(m, "display_name"@);
            if id is Some && display_name is Some {
                Some(
                    NetworkView {
                        id: id->0,
                        display_name: display_name->0,
                    },
                )
            } else {
                None
            }
        },
        _ => None,
    }
}

/// Decodes a network.
pub fn decode_network(j: &Json) -> (r: Option<Network>)
    ensures
        opt_view(r) == network_of(j@),
{
    let m = j.members()?;
    let id = read_text(m, "id")?;
    let display_name = read_text(m, "display_name")?;
    Some(Network { id, display_name })
}

/// The list that a document encodes as an array of networks, if every item is one.
pub open spec fn networks_of(j: JsonView) -> Option<Seq<NetworkView>> {
    match j {
        JsonView::Array(items) => if forall|i: int|
            0 <= i < items.len() ==> (#[trigger] network_of(items[i])) is Some {
            Some(Seq::new(items.len(), |i: int| network_of(items[i])->0))
        } else {
            None
        },
        _ => None,
    }
}

/// Decodes an array of networks.
pub fn decode_networks(j: &Json) -> (r: Option<Vec<Network>>)
    ensures
        opt_views(r) == networks_of(j@),
{
    let items = j.items()?;
    let mut out: Vec<Network> = Vec::new();
    let mut i: usize = 0;
    proof {
        lemma_items_view(items@);
    }
    while i < items.len()
        invariant
            i <= items.len(),
            out.len() == i,
            j@ == JsonView::Array(items_view(items@)),
            items_view(items@).len() == items.len(),
            forall|k: int| 0 <= k < items.len() ==> #[trigger] items_view(items@)[k] == items[k]@,
            forall|k: int| 0 <= k < i ==> network_of(items[k]@) == Some(#[trigger] out[k]@),
        decreases items.len() - i,
    {
        match decode_network(&items[i]) {
            Some(x) => {
                out.push(x);
            },
            None => {
                assert(network_of(items_view(items@)[i as int]) is None);
                return None;
            },
        }
        i += 1;
    }
    assert forall|k: int| 0 <= k < items.len() implies (#[trigger] network_of(
        items_view(items@)[k],
    )) is Some by {
        assert(network_of(items[k]@) == Some(out[k]@));
    }
    assert(networks_of(j@)->0 =~= views(out@));
    Some(out)
}

/// The record that a document encodes as a token, if it encodes one.
pub open spec fn token_of(j: JsonView) -> Option<TokenView> {
    match j {
        JsonView::Object(m) => {
            let id = required_text(m, "id"@);
            let name = required_text(m, "name"@);
            let symbol = required_text(m, "symbol"@);
            let chain = required_text(m, "chain"@);
            let token_type = defaulted_text(m, "type"@);
            let status = defaulted_text(m, "status"@);
            let decimals = defaulted_count(m, "decimals"@);
            let total_supply = lenient_amount(m, "total_supply"@);
            let description = defaulted_text(m, "description"@);
            let website = defaulted_text(m, "website"@);
            let explorer = defaulted_text(m, "explorer"@);
            let added_at = defaulted_text(m, "added_at"@);
            let fdv = lenient_amount(m, "fdv"@);
            let last_updated = defaulted_text(m, "last_updated"@);
            let summary = optional_summary(m, "summary"@);
            if id is Some && name is Some && symbol is Some && chain is Some && token_type is Some && status is Some && decimals is Some && total_supply is Some && description is Some && website is Some && explorer is Some && added_at is Some && fdv is Some && last_updated is Some && summary is Some {
                Some(
                    TokenView {
                        id: id->0,
                        name: name->0,
                        symbol: symbol->0,
                        chain: chain->0,
                        token_type: token_type->0,
                        status: status->0,
                        decimals: decimals->0,
                        total_supply: total_supply->0,
                        description: description->0,
                        website: website->0,
                        explorer: explorer->0,
                        added_at: added_at->0,
                        fdv: fdv->0,
                        last_updated: last_updated->0,
                        summary: summary->0,
                    },
                )
            } else {
                None
            }
        },
        _ => None,
    }
}

/// Decodes a token.
pub fn decode_token(j: &Json) -> (r: Option<Token>)
    ensures
        opt_view(r) == token_of(j@),
{
    let m = j.members()?;
    let id = read_text(m, "id")?;
    let name = read_text(m, "name")?;
    let symbol = read_text(m, "symbol")?;
    let chain = read_text(m, "chain")?;
    let token_type = read_text_or_empty(m, "type")?;
    let status = read_text_or_empty(m, "status")?;
    let decimals = read_count_or_zero(m, "decimals")?;
    let total_supply = read_lenient_amount(m, "total_supply")?;
    let description = read_text_or_empty(m, "description")?;
    let website = read_text_or_empty(m, "website")?;
    let explorer = read_text_or_empty(m, "explorer")?;
    let added_at = read_text_or_empty(m, "added_at")?;
    let fdv = read_lenient_amount(m, "fdv")?;
    let last_updated = read_text_or_empty(m, "last_updated")?;
    let summary = read_optional_summary(m, "summary")?;
    Some(Token { id, name, symbol, chain, token_type, status, decimals, total_supply, description, website, explorer, added_at, fdv, last_updated, summary })
}

/// The list that a document encodes as an array of tokens, if every item is one.
pub open spec fn tokens_of(j: JsonView) -> Option<Seq<TokenView>> {
    match j {
        JsonView::Array(items) => if forall|i: int|
            0 <= i < items.len() ==> (#[trigger] token_of(items[i])) is Some {
            Some(Seq::new(items.len(), |i: int| token_of(items[i])->0))
        } else {
            None
        },
        _ => None,
    }
}

/// Decodes an array of tokens.
pub fn decode_tokens(j: &Json) -> (r: Option<Vec<Token>>)
    ensures
        opt_views(r) == tokens_of(j@),
{
    let items = j.items()?;
    let mut out: Vec<Token> = Vec::new();
    let mut i: usize = 0;
    proof {
        lemma_items_view(items@);
    }
    while i < items.len()
        invariant
            i <= items.len(),
            out.len() == i,
            j@ == JsonView::Array(items_view(items@)),
            items_view(items@).len() == items.len(),
            forall|k: int| 0 <= k < items.len() ==> #[trigger] items_view(items@)[k] == items[k]@,
            forall|k: int| 0 <= k < i ==> token_of(items[k]@) == Some(#[trigger] out[k]@),
        decreases items.len() - i,
    {
        match decode_token(&items[i]) {
            Some(x) => {
                out.push(x);
            },
            None => {
                assert(token_of(items_view(items@)[i as int]) is None);
                return None;
            },
        }
        i += 1;
    }
    assert forall|k: int| 0 <= k < items.len() implies (#[trigger] token_of(
        items_view(items@)[k],
    )) is Some by {
        assert(token_of(items[k]@) == Some(out[k]@));
    }
    assert(tokens_of(j@)->0 =~= views(out@));
    Some(out)
}

/// A member that must be there and be an array of tokens.
pub open spec fn required_tokens(m: Members, name: Seq<char>) -> Option<Seq<TokenView>> {
    match member(m, name) {
        Some(j) => tokens_of(j),
        None => None,
    }
}

/// Reads a member that must be there and be an array of tokens.
pub fn read_tokens(m: &Vec<(String, Json)>, name: &str) -> (r: Option<Vec<Token>>)
    ensures
        opt_views(r) == required_tokens(members_view(m@), name@),
{
    match find(m, name) {
        Some(j) => decode_tokens(j),
        None => None,
    }
}

/// A member that is an array of tokens, or is missing and stands for the empty list.
pub open spec fn defaulted_tokens(m: Members, name: Seq<char>) -> Option<Seq<TokenView>> {
    match member(m, name) {
        Some(j) => tokens_of(j),
        None => Some(Seq::empty()),
    }
}

/// Reads a member that is an array of tokens, or is missing and stands for the empty list.
pub fn read_tokens_or_empty(m: &Vec<(String, Json)>, name: &str) -> (r: Option<Vec<Token>>)
    ensures
        opt_views(r) == defaulted_tokens(members_view(m@), name@),
{
    match find(m, name) {
        Some(j) => decode_tokens(j),
        None => {
            let empty: Vec<Token> = Vec::new();
            assert(views(empty@) =~= Seq::<TokenView>::empty());
            Some(empty)
        },
    }
}

/// The record that a document encodes as a pool, if it encodes one.
pub open spec fn pool_of(j: JsonView) -> Option<PoolView> {
    match j {
        JsonView::Object(m) => {
            let id = required_text(m, "id"@);
            let dex_id = required_text(m, "dex_id"@);
            let dex_name = required_text(m, "dex_name"@);
            let chain = required_text(m, "chain"@);
            let volume_usd = lenient_amount(m, "volume_usd"@);
            let created_at = defaulted_text(m, "created_at"@);
            let created_at_block_number = defaulted_whole(m, "created_at_block_number"@);
            let transactions = defaulted_count(m, "transactions"@);
            let price_usd = lenient_amount(m, "price_usd"@);
            let last_price_change_usd_5m = lenient_amount(m, "last_price_change_usd_5m"@);
            let last_price_change_usd_1h = lenient_amount(m, "last_price_change_usd_1h"@);
            let last_price_change_usd_24h = lenient_amount(m, "last_price_change_usd_24h"@);
            let fee = optional_amount(m, "fee"@);
            let tokens = defaulted_tokens(m, "tokens"@);
            let last_price = optional_amount(m, "last_price"@);
            let last_price_usd = optional_amount(m, "last_price_usd"@);
            let price_time = optional_text(m, "price_time"@);
            let h24 = optional_metrics(m, "24h"@);
            let h6 = optional_metrics(m, "6h"@);
            let h1 = optional_metrics(m, "1h"@);
            let m30 = optional_metrics(m, "30m"@);
            let m15 = optional_metrics(m, "15m"@);
            let m5 = optional_metrics(m, "5m"@);
            if id is Some && dex_id is Some && dex_name is Some && chain is Some && volume_usd is Some && created_at is Some && created_at_block_number is Some && transactions is Some && price_usd is Some && last_price_change_usd_5m is Some && last_price_change_usd_1h is Some && last_price_change_usd_24h is Some && fee is Some && tokens is Some && last_price is Some && last_price_usd is Some && price_time is Some && h24 is Some && h6 is Some && h1 is Some && m30 is Some && m15 is Some && m5 is Some {
                Some(
                    PoolView {
                        id: id->0,
                        dex_id: dex_id->0,
                        dex_name: dex_name->0,
                        chain: chain->0,
                        volume_usd: volume_usd->0,
                        created_at: created_at->0,
                        created_at_block_number: created_at_block_number->0,
                        transactions: transactions->0,
                        price_usd: price_usd->0,
                        last_price_change_usd_5m: last_price_change_usd_5m->0,
                        last_price_change_usd_1h: last_price_change_usd_1h->0,
                        last_price_change_usd_24h: last_price_change_usd_24h->0,
                        fee: fee->0,
                        tokens: tokens->0,
                        last_price: last_price->0,
                        last_price_usd: last_price_usd->0,
                        price_time: price_time->0,
                        h24: h24->0,
                        h6: h6->0,
                        h1: h1->0,
                        m30: m30->0,
                        m15: m15->0,
                        m5: m5->0,
                    },
                )
            } else {
                None
            }
        },
        _ => None,
    }
}

/// Decodes a pool.
pub fn decode_pool(j: &Json) -> (r: Option<Pool>)
    ensures
        opt_view(r) == pool_of(j@),
{
    let m = j.members()?;
    let id = read_text(m, "id")?;
    let dex_id = read_text(m, "dex_id")?;
    let dex_name = read_text(m, "dex_name")?;
    let chain = read_text(m, "chain")?;
    let volume_usd = read_lenient_amount(m, "volume_usd")?;
    let created_at = read_text_or_empty(m, "created_at")?;
    let created_at_block_number = read_whole_or_zero(m, "created_at_block_number")?;
    let transactions = read_count_or_zero(m, "transactions")?;
    let price_usd = read_lenient_amount(m, "price_usd")?;
    let last_price_change_usd_5m = read_lenient_amount(m, "last_price_change_usd_5m")?;
    let last_price_change_usd_1h = read_lenient_amount(m, "last_price_change_usd_1h")?;
    let last_price_change_usd_24h = read_lenient_amount(m, "last_price_change_usd_24h")?;
    let fee = read_optional_amount(m, "fee")?;
    let tokens = read_tokens_or_empty(m, "tokens")?;
    let last_price = read_optional_amount(m, "last_price")?;
    let last_price_usd = read_optional_amount(m, "last_price_usd")?;
    let price_time = read_optional_text(m, "price_time")?;
    let h24 = read_optional_metrics(m, "24h")?;
    let h6 = read_optional_metrics(m, "6h")?;
    let h1 = read_optional_metrics(m, "1h")?;
    let m30 = read_optional_metrics(m, "30m")?;
    let m15 = read_optional_metrics(m, "15m")?;
    let m5 = read_optional_metrics(m, "5m")?;
    Some(Pool { id, dex_id, dex_name, chain, volume_usd, created_at, created_at_block_number, transactions, price_usd, last_price_change_usd_5m, last_price_change_usd_1h, last_price_change_usd_24h, fee, tokens, last_price, last_price_usd, price_time, h24, h6, h1, m30, m15, m5 })
}

/// The list that a document encodes as an array of pools, if every item is one.
pub open spec fn pools_of(j: JsonView) -> Option<Seq<PoolView>> {
    match j {
        JsonView::Array(items) => if forall|i: int|
            0 <= i < items.len() ==> (#[trigger] pool_of(items[i])) is Some {
            Some(Seq::new(items.len(), |i: int| pool_of(items[i])->0))
        } else {
            None
        },
        _ => None,
    }
}

/// Decodes an array of pools.
pub fn decode_pools(j: &Json) -> (r: Option<Vec<Pool>>)
    ensures
        opt_views(r) == pools_of(j@),
{
    let items = j.items()?;
    let mut out: Vec<Pool> = Vec::new();
    let mut i: usize = 0;
    proof {
        lemma_items_view(items@);
    }
    while i < items.len()
        invariant
            i <= items.len(),
            out.len() == i,
            j@ == JsonView::Array(items_view(items@)),
            items_view(items@).len() == items.len(),
            forall|k: int| 0 <= k < items.len() ==> #[trigger] items_view(items@)[k] == items[k]@,
            forall|k: int| 0 <= k < i ==> pool_of(items[k]@) == Some(#[trigger] out[k]@),
        decreases items.len() - i,
    {
        match decode_pool(&items[i]) {
            Some(x) => {
                out.push(x);
            },
            None => {
                assert(pool_of(items_view(items@)[i as int]) is None);
                return None;
            },
        }
        i += 1;
    }
    assert forall|k: int| 0 <= k < items.len() implies (#[trigger] pool_of(
        items_view(items@)[k],
    )) is Some by {
        assert(pool_of(items[k]@) == Some(out[k]@));
    }
    assert(pools_of(j@)->0 =~= views(out@));
    Some(out)
}

/// A member that must be there and be an array of pools.
pub open spec fn required_pools(m: Members, name: Seq<char>) -> Option<Seq<PoolView>> {
    match member(m, name) {
        Some(j) => pools_of(j),
        None => None,
    }
}

/// Reads a member that must be there and be an array of pools.
pub fn read_pools(m: &Vec<(String, Json)>, name: &str) -> (r: Option<Vec<Pool>>)
    ensures
        opt_views(r) == required_pools(members_view(m@), name@),
{
    match find(m, name) {
        Some(j) => decode_pools(j),
        None => None,
    }
}

/// The record that a document encodes as an exchange, if it encodes one.
pub open spec fn dex_of(j: JsonView) -> Option<DexView> {
    match j {
        JsonView::Object(m) => {
            let id = required_text(m, "id"@);
            let dex_id = required_text(m, "dex_id"@);
            let dex_name = required_text(m, "dex_name"@);
            let chain = required_text(m, "chain"@);
            let protocol = required_text(m, "protocol"@);
            let volume_usd_24h = optional_amount(m, "volume_usd_24h"@);
            let txns_24h = optional_count(m, "txns_24h"@);
            let pools_count = optional_count(m, "pools_count"@);
            let created_at = optional_text(m, "created_at"@);
            if id is Some && dex_id is Some && dex_name is Some && chain is Some && protocol is Some && volume_usd_24h is Some && txns_24h is Some && pools_count is Some && created_at is Some {
                Some(
                    DexView {
                        id: id->0,
                        dex_id: dex_id->0,
                        dex_name: dex_name->0,
                        chain: chain->0,
                        protocol: protocol->0,
                        volume_usd_24h: volume_usd_24h->0,
                        txns_24h: txns_24h->0,
                        pools_count: pools_count->0,
                        created_at: created_at->0,
                    },
                )
            } else {
                None
            }
        },
        _ => None,
    }
}

/// Decodes an exchange.
pub fn decode_dex(j: &Json) -> (r: Option<Dex>)
    ensures
        opt_view(r) == dex_of(j@),
{
    let m = j.members()?;
    let id = read_text(m, "id")?;
    let dex_id = read_text(m, "dex_id")?;
    let dex_name = read_text(m, "dex_name")?;
    let chain = read_text(m, "chain")?;
    let protocol = read_text(m, "protocol")?;
    let volume_usd_24h = read_optional_amount(m, "volume_usd_24h")?;
    let txns_24h = read_optional_count(m, "txns_24h")?;
    let pools_count = read_optional_count(m, "pools_count")?;
    let created_at = read_optional_text(m, "created_at")?;
    Some(Dex { id, dex_id, dex_name, chain, protocol, volume_usd_24h, txns_24h, pools_count, created_at })
}

/// The list that a document encodes as an array of exchanges, if every item is one.
pub open spec fn dexes_of(j: JsonView) -> Option<Seq<DexView>> {
    match j {
        JsonView::Array(items) => if forall|i: int|
            0 <= i < items.len() ==> (#[trigger] dex_of(items[i])) is Some {
            Some(Seq::new(items.len(), |i: int| dex_of(items[i])->0))
        } else {
            None
        },
        _ => None,
    }
}

/// Decodes an array of exchanges.
pub fn decode_dexes(j: &Json) -> (r: Option<Vec<Dex>>)
    ensures
        opt_views(r) == dexes_of(j@),
{
    let items = j.items()?;
    let mut out: Vec<Dex> = Vec::new();
    let mut i: usize = 0;
    proof {
        lemma_items_view(items@);
    }
    while i < items.len()
        invariant
            i <= items.len(),
            out.len() == i,
            j@ == JsonView::Array(items_view(items@)),
            items_view(items@).len() == items.len(),
            forall|k: int| 0 <= k < items.len() ==> #[trigger] items_view(items@)[k] == items[k]@,
            forall|k: int| 0 <= k < i ==> dex_of(items[k]@) == Some(#[trigger] out[k]@),
        decreases items.len() - i,
    {
        match decode_dex(&items[i]) {
            Some(x) => {
                out.push(x);
            },
            None => {
                assert(dex_of(items_view(items@)[i as int]) is None);
                return None;
            },
        }
        i += 1;
    }
    assert forall|k: int| 0 <= k < items.len() implies (#[trigger] dex_of(
        items_view(items@)[k],
    )) is Some by {
        assert(dex_of(items[k]@) == Some(out[k]@));
    }
    assert(dexes_of(j@)->0 =~= views(out@));
    Some(out)
}

/// A member that must be there and be an array of exchanges.
pub open spec fn required_dexes(m: Members, name: Seq<char>) -> Option<Seq<DexView>> {
    match member(m, name) {
        Some(j) => dexes_of(j),
        None => None,
    }
}

/// Reads a member that must be there and be an array of exchanges.
pub fn read_dexes(m: &Vec<(String, Json)>, name: &str) -> (r: Option<Vec<Dex>>)
    ensures
        opt_views(r) == required_dexes(members_view(m@), name@),
{
    match find(m, name) {
        Some(j) => decode_dexes(j),
        None => None,
    }
}

/// The record that a document encodes as a price bucket, if it encodes one.
pub open spec fn ohlcv_record_of(j: JsonView) -> Option<OHLCVRecordView> {
    match j {
        JsonView::Object(m) => {
            let time_open = required_text(m, "time_open"@);
            let time_close = required_text(m, "time_close"@);
            let open = required_amount(m, "open"@);
            let high = required_amount(m, "high"@);
            let low = required_amount(m, "low"@);
            let close = required_amount(m, "close"@);
            let volume = required_whole(m, "volume"@);
            if time_open is Some && time_close is Some && open is Some && high is Some && low is Some && close is Some && volume is Some {
                Some(
                    OHLCVRecordView {
                        time_open: time_open->0,
                        time_close: time_close->0,
                        open: open->0,
                        high: high->0,
                        low: low->0,
                        close: close->0,
                        volume: volume->0,
                    },
                )
            } else {
                None
            }
        },
        _ => None,
    }
}

/// Decodes a price bucket.
pub fn decode_ohlcv_record(j: &Json) -> (r: Option<OHLCVRecord>)
    ensures
        opt_view(r) == ohlcv_record_of(j@),
{
    let m = j.members()?;
    let time_open = read_text(m, "time_open")?;
    let time_close = read_text(m, "time_close")?;
    let open = read_amount(m, "open")?;
    let high = read_amount(m, "high")?;
    let low = read_amount(m, "low")?;
    let close = read_amount(m, "close")?;
    let volume = read_whole(m, "volume")?;
    Some(OHLCVRecord { time_open, time_close, open, high, low, close, volume })
}

/// The list that a document encodes as an array of price buckets, if every item is one.
pub open spec fn ohlcv_records_of(j: JsonView) -> Option<Seq<OHLCVRecordView>> {
    match j {
        JsonView::Array(items) => if forall|i: int|
            0 <= i < items.len() ==> (#[trigger] ohlcv_record_of(items[i])) is Some {
            Some(Seq::new(items.len(), |i: int| ohlcv_record_of(items[i])->0))
        } else {
            None
        },
        _ => None,
    }
}

/// Decodes an array of price buckets.
pub fn decode_ohlcv_records(j: &Json) -> (r: Option<Vec<OHLCVRecord>>)
    ensures
        opt_views(r) == ohlcv_records_of(j@),
{
    let items = j.items()?;
    let mut out: Vec<OHLCVRecord> = Vec::new();
    let mut i: usize = 0;
    proof {
        lemma_items_view(items@);
    }
    while i < items.len()
        invariant
            i <= items.len(),
            out.len() == i,
            j@ == JsonView::Array(items_view(items@)),
            items_view(items@).len() == items.len(),
            forall|k: int| 0 <= k < items.len() ==> #[trigger] items_view(items@)[k] == items[k]@,
            forall|k: int| 0 <= k < i ==> ohlcv_record_of(items[k]@) == Some(#[trigger] out[k]@),
        decreases items.len() - i,
    {
        match decode_ohlcv_record(&items[i]) {
            Some(x) => {
                out.push(x);
            },
            None => {
                assert(ohlcv_record_of(items_view(items@)[i as int]) is None);
                return None;
            },
        }
        i += 1;
    }
    assert forall|k: int| 0 <= k < items.len() implies (#[trigger] ohlcv_record_of(
        items_view(items@)[k],
    )) is Some by {
        assert(ohlcv_record_of(items[k]@) == Some(out[k]@));
    }
    assert(ohlcv_records_of(j@)->0 =~= views(out@));
    Some(out)
}

/// The record that a document encodes as a transaction, if it encodes one.
pub open spec fn transaction_of(j: JsonView) -> Option<TransactionView> {
    match j {
        JsonView::Object(m) => {
            let id = required_text(m, "id"@);
            let log_index = optional_amount(m, "log_index"@);
            let transaction_index = optional_amount(m, "transaction_index"@);
            let pool_id = required_text(m, "pool_id"@);
            let sender = required_text(m, "sender"@);
            let recipient = optional_amount(m, "recipient"@);
            let token_0 = required_text(m, "token_0"@);
            let token_0_symbol = required_text(m, "token_0_symbol"@);
            let token_1 = required_text(m, "token_1"@);
            let token_1_symbol = required_text(m, "token_1_symbol"@);
            let amount_0 = required_text(m, "amount_0"@);
            let amount_1 = required_text(m, "amount_1"@);
            let price_0 = required_amount(m, "price_0"@);
            let price_1 = required_amount(m, "price_1"@);
            let price_0_usd = required_amount(m, "price_0_usd"@);
            let price_1_usd = required_amount(m, "price_1_usd"@);
            let created_at_block_number = required_amount(m, "created_at_block_number"@);
            let created_at = required_text(m, "created_at"@);
            if id is Some && log_index is Some && transaction_index is Some && pool_id is Some && sender is Some && recipient is Some && token_0 is Some && token_0_symbol is Some && token_1 is Some && token_1_symbol is Some && amount_0 is Some && amount_1 is Some && price_0 is Some && price_1 is Some && price_0_usd is Some && price_1_usd is Some && created_at_block_number is Some && created_at is Some {
                Some(
                    TransactionView {
                        id: id->0,
                        log_index: log_index->0,
                        transaction_index: transaction_index->0,
                        pool_id: pool_id->0,
                        sender: sender->0,
                        recipient: recipient->0,
                        token_0: token_0->0,
                        token_0_symbol: token_0_symbol->0,
                        token_1: token_1->0,
                        token_1_symbol: token_1_symbol->0,
                        amount_0: amount_0->0,
                        amount_1: amount_1->0,
                        price_0: price_0->0,
                        price_1: price_1->0,
                        price_0_usd: price_0_usd->0,
                        price_1_usd: price_1_usd->0,
                        created_at_block_number: created_at_block_number->0,
                        created_at: created_at->0,
                    },
                )
            } else {
                None
            }
        },
        _ => None,
    }
}

/// Decodes a transaction.
pub fn decode_transaction(j: &Json) -> (r: Option<Transaction>)
    ensures
        opt_view(r) == transaction_of(j@),
{
    let m = j.members()?;
    let id = read_text(m, "id")?;
    let log_index = read_optional_amount(m, "log_index")?;
    let transaction_index = read_optional_amount(m, "transaction_index")?;
    let pool_id = read_text(m, "pool_id")?;
    let sender = read_text(m, "sender")?;
    let recipient = read_optional_amount(m, "recipient")?;
    let token_0 = read_text(m, "token_0")?;
    let token_0_symbol = read_text(m, "token_0_symbol")?;
    let token_1 = read_text(m, "token_1")?;
    let token_1_symbol = read_text(m, "token_1_symbol")?;
    let amount_0 = read_text(m, "amount_0")?;
    let amount_1 = read_text(m, "amount_1")?;
    let price_0 = read_amount(m, "price_0")?;
    let price_1 = read_amount(m, "price_1")?;
    let price_0_usd = read_amount(m, "price_0_usd")?;
    let price_1_usd = read_amount(m, "price_1_usd")?;
    let created_at_block_number = read_amount(m, "created_at_block_number")?;
    let created_at = read_text(m, "created_at")?;
    Some(Transaction { id, log_index, transaction_index, pool_id, sender, recipient, token_0, token_0_symbol, token_1, token_1_symbol, amount_0, amount_1, price_0, price_1, price_0_usd, price_1_usd, created_at_block_number, created_at })
}

/// The list that a document encodes as an array of transactions, if every item is one.
pub open spec fn transactions_of(j: JsonView) -> Option<Seq<TransactionView>> {
    match j {
        JsonView::Array(items) => if forall|i: int|
            0 <= i < items.len() ==> (#[trigger] transaction_of(items[i])) is Some {
            Some(Seq::new(items.len(), |i: int| transaction_of(items[i])->0))
        } else {
            None
        },
        _ => None,
    }
}

/// Decodes an array of transactions.
pub fn decode_transactions(j: &Json) -> (r: Option<Vec<Transaction>>)
    ensures
        opt_views(r) == transactions_of(j@),
{
    let items = j.items()?;
    let mut out: Vec<Transaction> = Vec::new();
    let mut i: usize = 0;
    proof {
        lemma_items_view(items@);
    }
    while i < items.len()
        invariant
            i <= items.len(),
            out.len() == i,
            j@ == JsonView::Array(items_view(items@)),
            items_view(items@).len() == items.len(),
            forall|k: int| 0 <= k < items.len() ==> #[trigger] items_view(items@)[k] == items[k]@,
            forall|k: int| 0 <= k < i ==> transaction_of(items[k]@) == Some(#[trigger] out[k]@),
        decreases items.len() - i,
    {
        match decode_transaction(&items[i]) {
            Some(x) => {
                out.push(x);
            },
            None => {
                assert(transaction_of(items_view(items@)[i as int]) is None);
                return None;
            },
        }
        i += 1;
    }
    assert forall|k: int| 0 <= k < items.len() implies (#[trigger] transaction_of(
        items_view(items@)[k],
    )) is Some by {
        assert(transaction_of(items[k]@) == Some(out[k]@));
    }
    assert(transactions_of(j@)->0 =~= views(out@));
    Some(out)
}

/// A member that must be there and be an array of transactions.
pub open spec fn required_transactions(m: Members, name: Seq<char>) -> Option<Seq<TransactionView>> {
    match member(m, name) {
        Some(j) => transactions_of(j),
        None => None,
    }
}

/// Reads a member that must be there and be an array of transactions.
pub fn read_transactions(m: &Vec<(String, Json)>, name: &str) -> (r: Option<Vec<Transaction>>)
    ensures
        opt_views(r) == required_transactions(members_view(m@), name@),
{
    match find(m, name) {
        Some(j) => decode_transactions(j),
        None => None,
    }
}

/// The record that a document encodes as an error payload, if it encodes one.
pub open spec fn api_error_of(j: JsonView) -> Option<APIErrorView> {
    match j {
        JsonView::Object(m) => {
            let error = required_text(m, "error"@);
            let message = optional_text(m, "message"@);
            if error is Some && message is Some {
                Some(
                    APIErrorView {
                        error: error->0,
                        message: message->0,
                    },
                )
            } else {
                None
            }
        },
        _ => None,
    }
}

/// Decodes an error payload.
pub fn decode_api_error(j: &Json) -> (r: Option<APIError>)
    ensures
        opt_view(r) == api_error_of(j@),
{
    let m = j.members()?;
    let error = read_text(m, "error")?;
    let message = read_optional_text(m, "message")?;
    Some(APIError { error, message })
}

/// The record that a document encodes as a page of pools, if it encodes one.
pub open spec fn pools_response_of(j: JsonView) -> Option<PoolsResponseView> {
    match j {
        JsonView::Object(m) => {
            let pools = required_pools(m, "pools"@);
            let page_info = required_page_info(m, "page_info"@);
            if pools is Some && page_info is Some {
                Some(
                    PoolsResponseView {
                        pools: pools->0,
                        page_info: page_info->0,
                    },
                )
            } else {
                None
            }
        },
        _ => None,
    }
}

/// Decodes a page of pools.
pub fn decode_pools_response(j: &Json) -> (r: Option<PoolsResponse>)
    ensures
        opt_view(r) == pools_response_of(j@),
{
    let m = j.members()?;
    let pools = read_pools(m, "pools")?;
    let page_info = read_page_info(m, "page_info")?;
    Some(PoolsResponse { pools, page_info })
}

/// The record that a document encodes as a page of exchanges, if it encodes one.
pub open spec fn dexes_response_of(j: JsonView) -> Option<DexesResponseView> {
    match j {
        JsonView::Object(m) => {
            let dexes = required_dexes(m, "dexes"@);
            let page_info = required_page_info(m, "page_info"@);
            if dexes is Some && page_info is Some {
                Some(
                    DexesResponseView {
                        dexes: dexes->0,
                        page_info: page_info->0,
                    },
                )
            } else {
                None
            }
        },
        _ => None,
    }
}

/// Decodes a page of exchanges.
pub fn decode_dexes_response(j: &Json) -> (r: Option<DexesResponse>)
    ensures
        opt_view(r) == dexes_response_of(j@),
{
    let m = j.members()?;
    let dexes = read_dexes(m, "dexes")?;
    let page_info = read_page_info(m, "page_info")?;
    Some(DexesResponse { dexes, page_info })
}

/// The record that a document encodes as a page of transactions, if it encodes one.
pub open spec fn transactions_response_of(j: JsonView) -> Option<TransactionsResponseView> {
    match j {
        JsonView::Object(m) => {
            let transactions = required_transactions(m, "transactions"@);
            let page_info = member(m, "page_info"@);
            if transactions is Some && page_info is Some {
                Some(
                    TransactionsResponseView {
                        transactions: transactions->0,
                        page_info: page_info->0,
                    },
                )
            } else {
                None
            }
        },
        _ => None,
    }
}

/// Decodes a page of transactions.
pub fn decode_transactions_response(j: &Json) -> (r: Option<TransactionsResponse>)
    ensures
        opt_view(r) == transactions_response_of(j@),
{
    let m = j.members()?;
    let transactions = read_transactions(m, "transactions")?;
    let page_info = read_document(m, "page_info")?;
    Some(TransactionsResponse { transactions, page_info })
}

/// The record that a document encodes as a page of a token's pools, if it encodes one.
pub open spec fn token_pools_response_of(j: JsonView) -> Option<TokenPoolsResponseView> {
    match j {
        JsonView::Object(m) => {
            let pools = required_pools(m, "pools"@);
            let page_info = required_page_info(m, "page_info"@);
            if pools is Some && page_info is Some {
                Some(
                    TokenPoolsResponseView {
                        pools: pools->0,
                        page_info: page_info->0,
                    },
                )
            } else {
                None
            }
        },
        _ => None,
    }
}

/// Decodes a page of a token's pools.
pub fn decode_token_pools_response(j: &Json) -> (r: Option<TokenPoolsResponse>)
    ensures
        opt_view(r) == token_pools_response_of(j@),
{
    let m = j.members()?;
    let pools = read_pools(m, "pools")?;
    let page_info = read_page_info(m, "page_info")?;
    Some(TokenPoolsResponse { pools, page_info })
}

/// The record that a document encodes as a search result, if it encodes one.
pub open spec fn search_response_of(j: JsonView) -> Option<SearchResponseView> {
    match j {
        JsonView::Object(m) => {
            let tokens = required_tokens(m, "tokens"@);
            let pools = required_pools(m, "pools"@);
            let dexes = required_dexes(m, "dexes"@);
            if tokens is Some && pools is Some && dexes is Some {
                Some(
                    SearchResponseView {
                        tokens: tokens->0,
                        pools: pools->0,
                        dexes: dexes->0,
                    },
                )
            } else {
                None
            }
        },
        _ => None,
    }
}

/// Decodes a search result.
pub fn decode_search_response(j: &Json) -> (r: Option<SearchResponse>)
    ensures
        opt_view(r) == search_response_of(j@),
{
    let m = j.members()?;
    let tokens = read_tokens(m, "tokens")?;
    let pools = read_pools(m, "pools")?;
    let dexes = read_dexes(m, "dexes")?;
    Some(SearchResponse { tokens, pools, dexes })
}

/// An amount that tolerates null never fails on a member that is missing or
/// null: it reads as positive zero, and as nothing else.
pub proof fn lemma_null_amount_is_zero(m: Members, name: Seq<char>)
    requires
        absent(m, name),
    ensures
        lenient_amount(m, name) == Some(Float { bits: 0 }),
{
}

/// In window metrics that decode, every amount whose member is missing or
/// null is zero.
pub proof fn lemma_metrics_null_amounts(m: Members)
    requires
        metrics_of(JsonView::Object(m)) is Some,
    ensures
        ({
            let r = metrics_of(JsonView::Object(m))->0;
            &&& absent(m, "volume"@) ==> r.volume.bits == 0
            &&& absent(m, "volume_usd"@) ==> r.volume_usd.bits == 0
            &&& absent(m, "buy_usd"@) ==> r.buy_usd.bits == 0
            &&& absent(m, "sell_usd"@) ==> r.sell_usd.bits == 0
            &&& absent(m, "last_price_usd_change"@) ==> r.last_price_usd_change.bits == 0
        }),
{
}

/// In a token summary that decodes, the fully diluted valuation is zero
/// where its member is missing or null.
pub proof fn lemma_summary_null_amounts(m: Members)
    requires
        summary_of(JsonView::Object(m)) is Some,
    ensures
        absent(m, "fdv"@) ==> summary_of(JsonView::Object(m))->0.fdv.bits == 0,
{
}

/// In a token that decodes, the total supply and the fully diluted valuation
/// are zero where their member is missing or null.
pub proof fn lemma_token_null_amounts(m: Members)
    requires
        token_of(JsonView::Object(m)) is Some,
    ensures
        ({
            let t = token_of(JsonView::Object(m))->0;
            &&& absent(m, "total_supply"@) ==> t.total_supply.bits == 0
            &&& absent(m, "fdv"@) ==> t.fdv.bits == 0
        }),
{
}

/// In a pool that decodes, the volume, the price and the three price changes
/// are zero where their member is missing or null.
pub proof fn lemma_pool_null_amounts(m: Members)
    requires
        pool_of(JsonView::Object(m)) is Some,
    ensures
        ({
            let p = pool_of(JsonView::Object(m))->0;
            &&& absent(m, "volume_usd"@) ==> p.volume_usd.bits == 0
            &&& absent(m, "price_usd"@) ==> p.price_usd.bits == 0
            &&& absent(m, "last_price_change_usd_5m"@) ==> p.last_price_change_usd_5m.bits == 0
            &&& absent(m, "last_price_change_usd_1h"@) ==> p.last_price_change_usd_1h.bits == 0
            &&& absent(m, "last_price_change_usd_24h"@) ==> p.last_price_change_usd_24h.bits == 0
        }),
{
}

} // verus!
