//! The records of the API: networks, tokens, pools, exchanges, price
//! buckets, transactions, and the pages they arrive in.
//!
//! Amounts are `Float` bit patterns. A record that owns text or a list has a
//! view that holds the same data as sequences; a record of numbers alone is
//! its own view.

use vstd::prelude::*;
use crate::float::Float;
use crate::json::{views, Json, JsonView};
use crate::text::{copy_text, opt_chars};

verus! {

/// Trade counts and volumes over one time window.
#[derive(Clone, Copy, Debug, PartialEq)]
pub struct TimeIntervalMetrics {
    pub volume: Float,
    pub volume_usd: Float,
    pub buy_usd: Float,
    pub sell_usd: Float,
    pub sells: u32,
    pub buys: u32,
    pub txns: u32,
    pub last_price_usd_change: Float,
}

impl View for TimeIntervalMetrics {
    type V = TimeIntervalMetrics;

    open spec fn view(&self) -> TimeIntervalMetrics {
        *self
    }
}

/// Price and liquidity figures of a token, with its figures per time window.
#[derive(Clone, Copy, Debug, PartialEq)]
pub struct TokenSummary {
    pub price_usd: Float,
    pub fdv: Float,
    pub liquidity_usd: Float,
    pub pools: u32,
    pub h24: Option<TimeIntervalMetrics>,
    pub h6: Option<TimeIntervalMetrics>,
    pub h1: Option<TimeIntervalMetrics>,
    pub m30: Option<TimeIntervalMetrics>,
    pub m15: Option<TimeIntervalMetrics>,
    pub m5: Option<TimeIntervalMetrics>,
    pub m1: Option<TimeIntervalMetrics>,
}

impl View for TokenSummary {
    type V = TokenSummary;

    open spec fn view(&self) -> TokenSummary {
        *self
    }
}

/// Where a page stands in a paginated listing.
#[derive(Clone, Copy, Debug, PartialEq)]
pub struct PageInfo {
    pub limit: u32,
    pub page: u32,
    pub total_items: u32,
    pub total_pages: u32,
}

impl View for PageInfo {
    type V = PageInfo;

    open spec fn view(&self) -> PageInfo {
        *self
    }
}

/// How many chains, factories, pools and tokens the service tracks.
#[derive(Clone, Copy, Debug, PartialEq)]
pub struct SystemStats {
    pub chains: u32,
    pub factories: u32,
    pub pools: u32,
    pub tokens: u32,
}

impl View for SystemStats {
    type V = SystemStats;

    open spec fn view(&self) -> SystemStats {
        *self
    }
}

/// A blockchain network.
#[derive(Debug, PartialEq)]
pub struct Network {
    pub id: String,
    pub display_name: String,
}

/// The value of a network.
pub struct NetworkView {
    pub id: Seq<char>,
    pub display_name: Seq<char>,
}

impl View for Network {
    type V = NetworkView;

    open spec fn view(&self) -> NetworkView {
        NetworkView {
            id: self.id@,
            display_name: self.display_name@,
        }
    }
}

impl Clone for Network {
    fn clone(&self) -> (r: Network)
        ensures
            r@ == self@,
    {
        Network {
            id: self.id.clone(),
            display_name: self.display_name.clone(),
        }
    }
}

/// A token with its metadata.
#[derive(Debug, PartialEq)]
pub struct Token {
    pub id: String,
    pub name: String,
    pub symbol: String,
    pub chain: String,
    pub token_type: String,
    pub status: String,
    pub decimals: u32,
    pub total_supply: Float,
    pub description: String,
    pub website: String,
    pub explorer: String,
    pub added_at: String,
    pub fdv: Float,
    pub last_updated: String,
    pub summary: Option<TokenSummary>,
}

/// The value of a token.
pub struct TokenView {
    pub id: Seq<char>,
    pub name: Seq<char>,
    pub symbol: Seq<char>,
    pub chain: Seq<char>,
    pub token_type: Seq<char>,
    pub status: Seq<char>,
    pub decimals: u32,
    pub total_supply: Float,
    pub description: Seq<char>,
    pub website: Seq<char>,
    pub explorer: Seq<char>,
    pub added_at: Seq<char>,
    pub fdv: Float,
    pub last_updated: Seq<char>,
    pub summary: Option<TokenSummary>,
}

impl View for Token {
    type V = TokenView;

    open spec fn view(&self) -> TokenView {
        TokenView {
            id: self.id@,
            name: self.name@,
            symbol: self.symbol@,
            chain: self.chain@,
            token_type: self.token_type@,
            status: self.status@,
            decimals: self.decimals,
            total_supply: self.total_supply,
            description: self.description@,
            website: self.website@,
            explorer: self.explorer@,
            added_at: self.added_at@,
            fdv: self.fdv,
            last_updated: self.last_updated@,
            summary: self.summary,
        }
    }
}

impl Clone for Token {
    fn clone(&self) -> (r: Token)
        ensures
            r@ == self@,
    {
        Token {
            id: self.id.clone(),
            name: self.name.clone(),
            symbol: self.symbol.clone(),
            chain: self.chain.clone(),
            token_type: self.token_type.clone(),
            status: self.status.clone(),
            decimals: self.decimals,
            total_supply: self.total_supply,
            description: self.description.clone(),
            website: self.website.clone(),
            explorer: self.explorer.clone(),
            added_at: self.added_at.clone(),
            fdv: self.fdv,
            last_updated: self.last_updated.clone(),
            summary: self.summary,
        }
    }
}

/// A copy of a list of tokens.
pub fn copy_tokens(list: &Vec<Token>) -> (r: Vec<Token>)
    ensures
        views(r@) == views(list@),
{
    let mut out: Vec<Token> = Vec::new();
    let mut i: usize = 0;
    while i < list.len()
        invariant
            i <= list.len(),
            out.len() == i,
            forall|k: int| 0 <= k < i ==> out[k]@ == list[k]@,
        decreases list.len() - i,
    {
        out.push(list[i].clone());
        i += 1;
    }
    assert(views(out@) =~= views(list@));
    out
}

/// A liquidity pool with its prices, volumes and tokens.
#[derive(Debug, PartialEq)]
pub struct Pool {
    pub id: String,
    pub dex_id: String,
    pub dex_name: String,
    pub chain: String,
    pub volume_usd: Float,
    pub created_at: String,
    pub created_at_block_number: i64,
    pub transactions: u32,
    pub price_usd: Float,
    pub last_price_change_usd_5m: Float,
    pub last_price_change_usd_1h: Float,
    pub last_price_change_usd_24h: Float,
    pub fee: Option<Float>,
    pub tokens: Vec<Token>,
    pub last_price: Option<Float>,
    pub last_price_usd: Option<Float>,
    pub price_time: Option<String>,
    pub h24: Option<TimeIntervalMetrics>,
    pub h6: Option<TimeIntervalMetrics>,
    pub h1: Option<TimeIntervalMetrics>,
    pub m30: Option<TimeIntervalMetrics>,
    pub m15: Option<TimeIntervalMetrics>,
    pub m5: Option<TimeIntervalMetrics>,
}

/// The value of a pool.
pub struct PoolView {
    pub id: Seq<char>,
    pub dex_id: Seq<char>,
    pub dex_name: Seq<char>,
    pub chain: Seq<char>,
    pub volume_usd: Float,
    pub created_at: Seq<char>,
    pub created_at_block_number: i64,
    pub transactions: u32,
    pub price_usd: Float,
    pub last_price_change_usd_5m: Float,
    pub last_price_change_usd_1h: Float,
    pub last_price_change_usd_24h: Float,
    pub fee: Option<Float>,
    pub tokens: Seq<TokenView>,
    pub last_price: Option<Float>,
    pub last_price_usd: Option<Float>,
    pub price_time: Option<Seq<char>>,
    pub h24: Option<TimeIntervalMetrics>,
    pub h6: Option<TimeIntervalMetrics>,
    pub h1: Option<TimeIntervalMetrics>,
    pub m30: Option<TimeIntervalMetrics>,
    pub m15: Option<TimeIntervalMetrics>,
    pub m5: Option<TimeIntervalMetrics>,
}

impl View for Pool {
    type V = PoolView;

    open spec fn view(&self) -> PoolView {
        PoolView {
            id: self.id@,
            dex_id: self.dex_id@,
            dex_name: self.dex_name@,
            chain: self.chain@,
            volume_usd: self.volume_usd,
            created_at: self.created_at@,
            created_at_block_number: self.created_at_block_number,
            transactions: self.transactions,
            price_usd: self.price_usd,
            last_price_change_usd_5m: self.last_price_change_usd_5m,
            last_price_change_usd_1h: self.last_price_change_usd_1h,
            last_price_change_usd_24h: self.last_price_change_usd_24h,
            fee: self.fee,
            tokens: views(self.tokens@),
            last_price: self.last_price,
            last_price_usd: self.last_price_usd,
            price_time: opt_chars(self.price_time),
            h24: self.h24,
            h6: self.h6,
            h1: self.h1,
            m30: self.m30,
            m15: self.m15,
            m5: self.m5,
        }
    }
}

impl Clone for Pool {
    fn clone(&self) -> (r: Pool)
        ensures
            r@ == self@,
    {
        Pool {
            id: self.id.clone(),
            dex_id: self.dex_id.clone(),
            dex_name: self.dex_name.clone(),
            chain: self.chain.clone(),
            volume_usd: self.volume_usd,
            created_at: self.created_at.clone(),
            created_at_block_number: self.created_at_block_number,
            transactions: self.transactions,
            price_usd: self.price_usd,
            last_price_change_usd_5m: self.last_price_change_usd_5m,
            last_price_change_usd_1h: self.last_price_change_usd_1h,
            last_price_change_usd_24h: self.last_price_change_usd_24h,
            fee: self.fee,
            tokens: copy_tokens(&self.tokens),
            last_price: self.last_price,
            last_price_usd: self.last_price_usd,
            price_time: copy_text(&self.price_time),
            h24: self.h24,
            h6: self.h6,
            h1: self.h1,
            m30: self.m30,
            m15: self.m15,
            m5: self.m5,
        }
    }
}

/// A copy of a list of pools.
pub fn copy_pools(list: &Vec<Pool>) -> (r: Vec<Pool>)
    ensures
        views(r@) == views(list@),
{
    let mut out: Vec<Pool> = Vec::new();
    let mut i: usize = 0;
    while i < list.len()
        invariant
            i <= list.len(),
            out.len() == i,
            forall|k: int| 0 <= k < i ==> out[k]@ == list[k]@,
        decreases list.len() - i,
    {
        out.push(list[i].clone());
        i += 1;
    }
    assert(views(out@) =~= views(list@));
    out
}

/// A decentralized exchange on one chain.
#[derive(Debug, PartialEq)]
pub struct Dex {
    pub id: String,
    pub dex_id: String,
    pub dex_name: String,
    pub chain: String,
    pub protocol: String,
    pub volume_usd_24h: Option<Float>,
    pub txns_24h: Option<u32>,
    pub pools_count: Option<u32>,
    pub created_at: Option<String>,
}

/// The value of an exchange.
pub struct DexView {
    pub id: Seq<char>,
    pub dex_id: Seq<char>,
    pub dex_name: Seq<char>,
    pub chain: Seq<char>,
    pub protocol: Seq<char>,
    pub volume_usd_24h: Option<Float>,
    pub txns_24h: Option<u32>,
    pub pools_count: Option<u32>,
    pub created_at: Option<Seq<char>>,
}

impl View for Dex {
    type V = DexView;

    open spec fn view(&self) -> DexView {
        DexView {
            id: self.id@,
            dex_id: self.dex_id@,
            dex_name: self.dex_name@,
            chain: self.chain@,
            protocol: self.protocol@,
            volume_usd_24h: self.volume_usd_24h,
            txns_24h: self.txns_24h,
            pools_count: self.pools_count,
            created_at: opt_chars(self.created_at),
        }
    }
}

impl Clone for Dex {
    fn clone(&self) -> (r: Dex)
        ensures
            r@ == self@,
    {
        Dex {
            id: self.id.clone(),
            dex_id: self.dex_id.clone(),
            dex_name: self.dex_name.clone(),
            chain: self.chain.clone(),
            protocol: self.protocol.clone(),
            volume_usd_24h: self.volume_usd_24h,
            txns_24h: self.txns_24h,
            pools_count: self.pools_count,
            created_at: copy_text(&self.created_at),
        }
    }
}

/// A copy of a list of exchanges.
pub fn copy_dexes(list: &Vec<Dex>) -> (r: Vec<Dex>)
    ensures
        views(r@) == views(list@),
{
    let mut out: Vec<Dex> = Vec::new();
    let mut i: usize = 0;
    while i < list.len()
        invariant
            i <= list.len(),
            out.len() == i,
            forall|k: int| 0 <= k < i ==> out[k]@ == list[k]@,
        decreases list.len() - i,
    {
        out.push(list[i].clone());
        i += 1;
    }
    assert(views(out@) =~= views(list@));
    out
}

/// Open, high, low, close and volume of one time bucket.
#[derive(Debug, PartialEq)]
pub struct OHLCVRecord {
    pub time_open: String,
    pub time_close: String,
    pub open: Float,
    pub high: Float,
    pub low: Float,
    pub close: Float,
    pub volume: i64,
}

/// The value of a price bucket.
pub struct OHLCVRecordView {
    pub time_open: Seq<char>,
    pub time_close: Seq<char>,
    pub open: Float,
    pub high: Float,
    pub low: Float,
    pub close: Float,
    pub volume: i64,
}

impl View for OHLCVRecord {
    type V = OHLCVRecordView;

    open spec fn view(&self) -> OHLCVRecordView {
        OHLCVRecordView {
            time_open: self.time_open@,
            time_close: self.time_close@,
            open: self.open,
            high: self.high,
            low: self.low,
            close: self.close,
            volume: self.volume,
        }
    }
}

impl Clone for OHLCVRecord {
    fn clone(&self) -> (r: OHLCVRecord)
        ensures
            r@ == self@,
    {
        OHLCVRecord {
            time_open: self.time_open.clone(),
            time_close: self.time_close.clone(),
            open: self.open,
            high: self.high,
            low: self.low,
            close: self.close,
            volume: self.volume,
        }
    }
}

/// A swap in a pool.
#[derive(Debug, PartialEq)]
pub struct Transaction {
    pub id: String,
    pub log_index: Option<Float>,
    pub transaction_index: Option<Float>,
    pub pool_id: String,
    pub sender: String,
    pub recipient: Option<Float>,
    pub token_0: String,
    pub token_0_symbol: String,
    pub token_1: String,
    pub token_1_symbol: String,
    pub amount_0: String,
    pub amount_1: String,
    pub price_0: Float,
    pub price_1: Float,
    pub price_0_usd: Float,
    pub price_1_usd: Float,
    pub created_at_block_number: Float,
    pub created_at: String,
}

/// The value of a transaction.
pub struct TransactionView {
    pub id: Seq<char>,
    pub log_index: Option<Float>,
    pub transaction_index: Option<Float>,
    pub pool_id: Seq<char>,
    pub sender: Seq<char>,
    pub recipient: Option<Float>,
    pub token_0: Seq<char>,
    pub token_0_symbol: Seq<char>,
    pub token_1: Seq<char>,
    pub token_1_symbol: Seq<char>,
    pub amount_0: Seq<char>,
    pub amount_1: Seq<char>,
    pub price_0: Float,
    pub price_1: Float,
    pub price_0_usd: Float,
    pub price_1_usd: Float,
    pub created_at_block_number: Float,
    pub created_at: Seq<char>,
}

impl View for Transaction {
    type V = TransactionView;

    open spec fn view(&self) -> TransactionView {
        TransactionView {
            id: self.id@,
            log_index: self.log_index,
            transaction_index: self.transaction_index,
            pool_id: self.pool_id@,
            sender: self.sender@,
            recipient: self.recipient,
            token_0: self.token_0@,
            token_0_symbol: self.token_0_symbol@,
            token_1: self.token_1@,
            token_1_symbol: self.token_1_symbol@,
            amount_0: self.amount_0@,
            amount_1: self.amount_1@,
            price_0: self.price_0,
            price_1: self.price_1,
            price_0_usd: self.price_0_usd,
            price_1_usd: self.price_1_usd,
            created_at_block_number: self.created_at_block_number,
            created_at: self.created_at@,
        }
    }
}

impl Clone for Transaction {
    fn clone(&self) -> (r: Transaction)
        ensures
            r@ == self@,
    {
        Transaction {
            id: self.id.clone(),
            log_index: self.log_index,
            transaction_index: self.transaction_index,
            pool_id: self.pool_id.clone(),
            sender: self.sender.clone(),
            recipient: self.recipient,
            token_0: self.token_0.clone(),
            token_0_symbol: self.token_0_symbol.clone(),
            token_1: self.token_1.clone(),
            token_1_symbol: self.token_1_symbol.clone(),
            amount_0: self.amount_0.clone(),
            amount_1: self.amount_1.clone(),
            price_0: self.price_0,
            price_1: self.price_1,
            price_0_usd: self.price_0_usd,
            price_1_usd: self.price_1_usd,
            created_at_block_number: self.created_at_block_number,
            created_at: self.created_at.clone(),
        }
    }
}

/// A copy of a list of transactions.
pub fn copy_transactions(list: &Vec<Transaction>) -> (r: Vec<Transaction>)
    ensures
        views(r@) == views(list@),
{
    let mut out: Vec<Transaction> = Vec::new();
    let mut i: usize = 0;
    while i < list.len()
        invariant
            i <= list.len(),
            out.len() == i,
            forall|k: int| 0 <= k < i ==> out[k]@ == list[k]@,
        decreases list.len() - i,
    {
        out.push(list[i].clone());
        i += 1;
    }
    assert(views(out@) =~= views(list@));
    out
}

/// The error payload that the service sends with a failure status.
#[derive(Debug, PartialEq)]
pub struct APIError {
    pub error: String,
    pub message: Option<String>,
}

/// The value of an error payload.
pub struct APIErrorView {
    pub error: Seq<char>,
    pub message: Option<Seq<char>>,
}

impl View for APIError {
    type V = APIErrorView;

    open spec fn view(&self) -> APIErrorView {
        APIErrorView {
            error: self.error@,
            message: opt_chars(self.message),
        }
    }
}

impl Clone for APIError {
    fn clone(&self) -> (r: APIError)
        ensures
            r@ == self@,
    {
        APIError {
            error: self.error.clone(),
            message: copy_text(&self.message),
        }
    }
}

/// A page of pools.
#[derive(Debug, PartialEq)]
pub struct PoolsResponse {
    pub pools: Vec<Pool>,
    pub page_info: PageInfo,
}

/// The value of a page of pools.
pub struct PoolsResponseView {
    pub pools: Seq<PoolView>,
    pub page_info: PageInfo,
}

impl View for PoolsResponse {
    type V = PoolsResponseView;

    open spec fn view(&self) -> PoolsResponseView {
        PoolsResponseView {
            pools: views(self.pools@),
            page_info: self.page_info,
        }
    }
}

impl Clone for PoolsResponse {
    fn clone(&self) -> (r: PoolsResponse)
        ensures
            r@ == self@,
    {
        PoolsResponse {
            pools: copy_pools(&self.pools),
            page_info: self.page_info,
        }
    }
}

/// A page of exchanges.
#[derive(Debug, PartialEq)]
pub struct DexesResponse {
    pub dexes: Vec<Dex>,
    pub page_info: PageInfo,
}

/// The value of a page of exchanges.
pub struct DexesResponseView {
    pub dexes: Seq<DexView>,
    pub page_info: PageInfo,
}

impl View for DexesResponse {
    type V = DexesResponseView;

    open spec fn view(&self) -> DexesResponseView {
        DexesResponseView {
            dexes: views(self.dexes@),
            page_info: self.page_info,
        }
    }
}

impl Clone for DexesResponse {
    fn clone(&self) -> (r: DexesResponse)
        ensures
            r@ == self@,
    {
        DexesResponse {
            dexes: copy_dexes(&self.dexes),
            page_info: self.page_info,
        }
    }
}

/// A page of transactions; its paging block is kept as the document it came as.
#[derive(Debug, PartialEq)]
pub struct TransactionsResponse {
    pub transactions: Vec<Transaction>,
    pub page_info: Json,
}

/// The value of a page of transactions.
pub struct TransactionsResponseView {
    pub transactions: Seq<TransactionView>,
    pub page_info: JsonView,
}

impl View for TransactionsResponse {
    type V = TransactionsResponseView;

    open spec fn view(&self) -> TransactionsResponseView {
        TransactionsResponseView {
            transactions: views(self.transactions@),
            page_info: self.page_info@,
        }
    }
}

impl Clone for TransactionsResponse {
    fn clone(&self) -> (r: TransactionsResponse)
        ensures
            r@ == self@,
    {
        TransactionsResponse {
            transactions: copy_transactions(&self.transactions),
            page_info: self.page_info.clone(),
        }
    }
}

/// A page of the pools that hold one token.
#[derive(Debug, PartialEq)]
pub struct TokenPoolsResponse {
    pub pools: Vec<Pool>,
    pub page_info: PageInfo,
}

/// The value of a page of a token's pools.
pub struct TokenPoolsResponseView {
    pub pools: Seq<PoolView>,
    pub page_info: PageInfo,
}

impl View for TokenPoolsResponse {
    type V = TokenPoolsResponseView;

    open spec fn view(&self) -> TokenPoolsResponseView {
        TokenPoolsResponseView {
            pools: views(self.pools@),
            page_info: self.page_info,
        }
    }
}

impl Clone for TokenPoolsResponse {
    fn clone(&self) -> (r: TokenPoolsResponse)
        ensures
            r@ == self@,
    {
        TokenPoolsResponse {
            pools: copy_pools(&self.pools),
            page_info: self.page_info,
        }
    }
}

/// What a search found, by kind.
#[derive(Debug, PartialEq)]
pub struct SearchResponse {
    pub tokens: Vec<Token>,
    pub pools: Vec<Pool>,
    pub dexes: Vec<Dex>,
}

/// The value of a search result.
pub struct SearchResponseView {
    pub tokens: Seq<TokenView>,
    pub pools: Seq<PoolView>,
    pub dexes: Seq<DexView>,
}

impl View for SearchResponse {
    type V = SearchResponseView;

    open spec fn view(&self) -> SearchResponseView {
        SearchResponseView {
            tokens: views(self.tokens@),
            pools: views(self.pools@),
            dexes: views(self.dexes@),
        }
    }
}

impl Clone for SearchResponse {
    fn clone(&self) -> (r: SearchResponse)
        ensures
            r@ == self@,
    {
        SearchResponse {
            tokens: copy_tokens(&self.tokens),
            pools: copy_pools(&self.pools),
            dexes: copy_dexes(&self.dexes),
        }
    }
}

} // verus!
