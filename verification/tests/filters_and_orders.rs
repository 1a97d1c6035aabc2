use paprika_helpers::extract::{
    extract_dexes, extract_ohlcv, extract_page_info, extract_pool_tokens, extract_time_metrics,
    extract_token_summary, extract_tokens, extract_transactions,
};
use paprika_helpers::filter::{
    filter_by_dex, filter_by_network, filter_by_price_change, filter_by_timeframe,
    filter_by_timeframe_at, filter_by_token_address, filter_by_token_symbol, filter_by_volume,
    filter_large_transactions, filter_recent_transactions, filter_transactions_since,
};
use paprika_helpers::float::Float;
use paprika_helpers::json::parse;
use paprika_helpers::records::{OHLCVRecord, Pool, Token, Transaction};
use paprika_helpers::sort::{bottom_n, largest_pool, sort_by_field, sort_pools, top_movers, top_n, OrderField};
use paprika_helpers::time::Instant;

fn amount(x: f64) -> Float {
    Float::from_bits(x.to_bits())
}

fn token(id: &str, symbol: &str) -> Token {
    Token {
        id: id.to_string(),
        name: symbol.to_string(),
        symbol: symbol.to_string(),
        chain: "ethereum".to_string(),
        token_type: String::new(),
        status: String::new(),
        decimals: 18,
        total_supply: amount(0.0),
        description: String::new(),
        website: String::new(),
        explorer: String::new(),
        added_at: String::new(),
        fdv: amount(0.0),
        last_updated: String::new(),
        summary: None,
    }
}

fn pool(id: &str, dex_name: &str, chain: &str, volume: f64, price: f64, transactions: u32, change: f64) -> Pool {
    Pool {
        id: id.to_string(),
        dex_id: dex_name.to_lowercase(),
        dex_name: dex_name.to_string(),
        chain: chain.to_string(),
        volume_usd: amount(volume),
        created_at: String::new(),
        created_at_block_number: 0,
        transactions,
        price_usd: amount(price),
        last_price_change_usd_5m: amount(0.0),
        last_price_change_usd_1h: amount(0.0),
        last_price_change_usd_24h: amount(change),
        fee: None,
        tokens: vec![],
        last_price: None,
        last_price_usd: None,
        price_time: None,
        h24: None,
        h6: None,
        h1: None,
        m30: None,
        m15: None,
        m5: None,
    }
}

fn pools() -> Vec<Pool> {
    let mut with_tokens = pool("c", "SushiSwap", "Polygon", 250.0, 0.5, 30, -9.0);
    with_tokens.tokens = vec![token("0xAAA", "WETH"), token("0xbbb", "usdc")];
    vec![
        pool("a", "Uniswap V3", "ethereum", 1000.0, 2.0, 10, 1.5),
        pool("b", "Uniswap V2", "Ethereum", 500.0, 9.0, 20, -4.0),
        with_tokens,
        pool("d", "Curve", "solana", 750.0, 1.0, 5, 0.0),
    ]
}

fn ids(list: &[Pool]) -> Vec<String> {
    list.iter().map(|p| p.id.clone()).collect()
}

fn tx(id: &str, created_at: &str) -> Transaction {
    Transaction {
        id: id.to_string(),
        log_index: None,
        transaction_index: None,
        pool_id: "p".to_string(),
        sender: "s".to_string(),
        recipient: None,
        token_0: "a".to_string(),
        token_0_symbol: "A".to_string(),
        token_1: "b".to_string(),
        token_1_symbol: "B".to_string(),
        amount_0: "1".to_string(),
        amount_1: "2".to_string(),
        price_0: amount(1.0),
        price_1: amount(1.0),
        price_0_usd: amount(1.0),
        price_1_usd: amount(1.0),
        created_at_block_number: amount(1.0),
        created_at: created_at.to_string(),
    }
}

fn bucket(time_open: &str) -> OHLCVRecord {
    OHLCVRecord {
        time_open: time_open.to_string(),
        time_close: time_open.to_string(),
        open: amount(1.0),
        high: amount(2.0),
        low: amount(0.5),
        close: amount(1.5),
        volume: 10,
    }
}

#[test]
fn volume_filter_keeps_order_and_the_boundary() {
    let all = pools();
    assert_eq!(ids(&filter_by_volume(&all, amount(500.0))), vec!["a", "b", "d"]);
    assert_eq!(ids(&filter_by_volume(&all, amount(500.0000001))), vec!["a", "d"]);
    assert_eq!(ids(&filter_by_volume(&all, amount(0.0))), vec!["a", "b", "c", "d"]);
    assert!(filter_by_volume(&all, amount(1e9)).is_empty());
    assert!(filter_by_volume(&all, amount(f64::NAN)).is_empty());
    assert!(filter_by_volume(&[], amount(0.0)).is_empty());
    let mut odd = pools();
    odd[0].volume_usd = amount(f64::NAN);
    assert_eq!(ids(&filter_by_volume(&odd, amount(0.0))), vec!["b", "c", "d"]);
    assert_eq!(filter_by_volume(&all, amount(500.0))[1], all[1]);
}

#[test]
fn the_other_pool_filters() {
    let all = pools();
    assert_eq!(ids(&filter_by_price_change(&all, amount(4.0))), vec!["b", "c"]);
    assert_eq!(ids(&filter_by_price_change(&all, amount(0.0))), vec!["a", "b", "c", "d"]);
    assert_eq!(ids(&filter_by_network(&all, "ETHEREUM")), vec!["a", "b"]);
    assert_eq!(ids(&filter_by_network(&all, "polygon")), vec!["c"]);
    assert!(filter_by_network(&all, "eth").is_empty());
    assert_eq!(ids(&filter_by_dex(&all, "uniswap")), vec!["a", "b"]);
    assert_eq!(ids(&filter_by_dex(&all, "SWAP")), vec!["a", "b", "c"]);
    assert_eq!(ids(&filter_by_dex(&all, "")), vec!["a", "b", "c", "d"]);
    assert!(filter_by_dex(&all, "uniswap v4").is_empty());
    assert_eq!(ids(&filter_by_token_symbol(&all, "weth")), vec!["c"]);
    assert_eq!(ids(&filter_by_token_symbol(&all, "USDC")), vec!["c"]);
    assert!(filter_by_token_symbol(&all, "dai").is_empty());
    assert_eq!(ids(&filter_by_token_address(&all, "0xaaa")), vec!["c"]);
    assert_eq!(ids(&filter_by_token_address(&all, "0xBBB")), vec!["c"]);
    assert!(filter_by_token_address(&all, "0xccc").is_empty());
}

#[test]
fn sorting_orders_by_the_named_field() {
    let all = pools();
    assert_eq!(ids(&sort_by_field(&all, "volume_usd", true)), vec!["a", "d", "b", "c"]);
    assert_eq!(ids(&sort_by_field(&all, "volume_usd", false)), vec!["c", "b", "d", "a"]);
    assert_eq!(ids(&sort_by_field(&all, "price_usd", true)), vec!["b", "a", "d", "c"]);
    assert_eq!(ids(&sort_by_field(&all, "transactions", false)), vec!["d", "a", "b", "c"]);
    assert_eq!(ids(&sort_by_field(&all, "last_price_change_usd_24h", false)), vec!["c", "b", "d", "a"]);
    assert_eq!(ids(&sort_pools(&all, OrderField::Movement, true)), vec!["c", "b", "a", "d"]);
    assert_eq!(ids(&all), vec!["a", "b", "c", "d"]);
}

#[test]
fn an_unknown_field_orders_nothing() {
    let all = pools();
    assert_eq!(ids(&sort_by_field(&all, "liquidity", true)), vec!["a", "b", "c", "d"]);
    assert_eq!(ids(&sort_by_field(&all, "", false)), vec!["a", "b", "c", "d"]);
    assert_eq!(ids(&top_n(&all, "no_such_field", 2)), vec!["a", "b"]);
    assert_eq!(ids(&bottom_n(&all, "Volume_USD", 3)), vec!["a", "b", "c"]);
}

#[test]
fn top_and_bottom_take_the_first_of_the_order() {
    let all = pools();
    assert_eq!(ids(&top_n(&all, "volume_usd", 2)), vec!["a", "d"]);
    assert_eq!(ids(&bottom_n(&all, "volume_usd", 2)), vec!["c", "b"]);
    assert_eq!(top_n(&all, "volume_usd", 0).len(), 0);
    assert_eq!(top_n(&all, "volume_usd", 4).len(), 4);
    assert_eq!(top_n(&all, "volume_usd", 9).len(), 4);
    assert_eq!(bottom_n(&all, "volume_usd", usize::MAX).len(), 4);
    assert!(top_n(&[], "volume_usd", 3).is_empty());
}

#[test]
fn top_is_bottom_read_backwards_for_distinct_values() {
    let all = pools();
    for field in ["volume_usd", "price_usd", "transactions", "last_price_change_usd_24h"] {
        let top = ids(&top_n(&all, field, all.len()));
        let mut bottom = ids(&bottom_n(&all, field, all.len()));
        bottom.reverse();
        assert_eq!(top, bottom, "{}", field);
        let best = ids(&top_n(&all, field, 1));
        assert_eq!(best[0], bottom[0]);
    }
}

#[test]
fn sorting_survives_nan_and_keeps_every_pool() {
    let mut odd = pools();
    odd[1].volume_usd = amount(f64::NAN);
    odd.push(pool("e", "Curve", "solana", 750.0, 1.0, 5, 0.0));
    let sorted = sort_by_field(&odd, "volume_usd", false);
    let mut got = ids(&sorted);
    got.sort();
    assert_eq!(got, vec!["a", "b", "c", "d", "e"]);
}

#[test]
fn top_movers_filter_then_rank_by_size_of_change() {
    let all = pools();
    assert_eq!(ids(&top_movers(&all, 2, amount(300.0))), vec!["b", "a"]);
    assert_eq!(ids(&top_movers(&all, 10, amount(0.0))), vec!["c", "b", "a", "d"]);
    assert!(top_movers(&all, 0, amount(0.0)).is_empty());
    assert!(top_movers(&all, 3, amount(1e12)).is_empty());
}

#[test]
fn the_largest_pool_is_the_last_of_the_largest() {
    let mut all = pools();
    assert_eq!(largest_pool(&all).unwrap().id, "a");
    all.push(pool("z", "Curve", "solana", 1000.0, 1.0, 5, 0.0));
    assert_eq!(largest_pool(&all).unwrap().id, "z");
    assert!(largest_pool(&[]).is_none());
}

#[test]
fn large_transactions_are_chosen_by_the_handed_totals() {
    let txs = vec![tx("1", ""), tx("2", ""), tx("3", "")];
    let totals = vec![amount(10.0), amount(99.9), amount(100.0)];
    let kept = filter_large_transactions(&txs, &totals, amount(99.9));
    assert_eq!(kept.iter().map(|t| t.id.clone()).collect::<Vec<_>>(), vec!["2", "3"]);
    let short = filter_large_transactions(&txs, &totals[..1], amount(1.0));
    assert_eq!(short.len(), 1);
    assert_eq!(short[0].id, "1");
    assert!(filter_large_transactions(&txs, &[], amount(0.0)).is_empty());
}

#[test]
fn recent_transactions_are_those_after_the_cutoff() {
    let txs = vec![
        tx("old", "2023-01-01T00:00:00Z"),
        tx("edge", "2023-01-01T10:00:00Z"),
        tx("just", "2023-01-01T10:00:00.000000001Z"),
        tx("offset", "2023-01-01T13:30:00+02:00"),
        tx("bad", "yesterday"),
        tx("new", "2023-01-01T11:59:59Z"),
    ];
    // 2023-01-01T12:00:00Z
    let now = Instant { secs: 1_672_574_400, nanos: 0 };
    let kept = filter_transactions_since(&txs, 2, now);
    assert_eq!(kept.iter().map(|t| t.id.clone()).collect::<Vec<_>>(), vec!["just", "offset", "new"]);
    assert_eq!(filter_transactions_since(&txs, 0, now).len(), 0);
    assert_eq!(filter_transactions_since(&txs, u32::MAX, now).len(), 5);
}

#[test]
fn recent_transactions_by_the_clock() {
    let txs = vec![tx("past", "2000-01-01T00:00:00Z"), tx("future", "2200-01-01T00:00:00Z"), tx("bad", "")];
    let kept = filter_recent_transactions(&txs, 24);
    assert_eq!(kept.len(), 1);
    assert_eq!(kept[0].id, "future");
}

#[test]
fn timeframe_is_open_at_both_ends() {
    let records = vec![
        bucket("2023-01-01T00:00:00Z"),
        bucket("2023-01-01T01:00:00Z"),
        bucket("2023-01-01T02:00:00Z"),
        bucket("not a time"),
        bucket("2023-01-01T03:00:00Z"),
    ];
    let now = Instant { secs: 1_672_574_400, nanos: 0 };
    let inside = filter_by_timeframe_at(&records, "2023-01-01T00:00:00Z", Some("2023-01-01T03:00:00Z"), now);
    assert_eq!(inside.len(), 2);
    assert_eq!(inside[0].time_open, "2023-01-01T01:00:00Z");
    assert_eq!(inside[1].time_open, "2023-01-01T02:00:00Z");
    let to_now = filter_by_timeframe_at(&records, "2023-01-01T00:30:00Z", None, now);
    assert_eq!(to_now.len(), 3);
    let bad_end = filter_by_timeframe_at(&records, "2023-01-01T01:30:00Z", Some("later"), now);
    assert_eq!(bad_end.len(), 2);
    let bad_start = filter_by_timeframe_at(&records, "whenever", Some("2023-01-01T03:00:00Z"), now);
    assert_eq!(bad_start, records);
    let by_clock = filter_by_timeframe(&records, "2023-01-01T01:30:00Z", None);
    assert_eq!(by_clock.len(), 2);
}

#[test]
fn extraction_tries_the_shapes_in_order() {
    let token_text = r#"{"id": "t", "name": "N", "symbol": "S", "chain": "c", "summary": {"price_usd": 1, "fdv": 2, "liquidity_usd": 3, "pools": 4, "1m": {"txns": 9}}}"#;
    let dex_text = r#"{"id": "i", "dex_id": "d", "dex_name": "n", "chain": "c", "protocol": "p"}"#;
    let page_info = r#"{"limit": 10, "page": 1, "total_items": 100, "total_pages": 10}"#;
    let search = parse(&format!(r#"{{"tokens": [{}], "pools": [], "dexes": [{}]}}"#, token_text, dex_text)).unwrap();

    assert_eq!(extract_tokens(&search).len(), 1);
    assert_eq!(extract_tokens(&parse(&format!("[{}, {}]", token_text, token_text)).unwrap()).len(), 2);
    assert!(extract_tokens(&parse("{}").unwrap()).is_empty());

    assert_eq!(extract_dexes(&search).len(), 1);
    assert_eq!(extract_dexes(&parse(&format!(r#"{{"dexes": [{}, {}], "page_info": {}}}"#, dex_text, dex_text, page_info)).unwrap()).len(), 2);
    assert_eq!(extract_dexes(&parse(&format!("[{}]", dex_text)).unwrap()).len(), 1);
    assert!(extract_dexes(&parse("7").unwrap()).is_empty());

    assert_eq!(extract_transactions(&parse(r#"{"transactions": [], "page_info": null}"#).unwrap()).len(), 0);
    assert!(extract_transactions(&parse(r#""x""#).unwrap()).is_empty());
    assert!(extract_ohlcv(&parse(r#"{"records": []}"#).unwrap()).is_empty());

    let dexes_page = parse(&format!(r#"{{"dexes": [], "page_info": {}}}"#, page_info)).unwrap();
    assert_eq!(extract_page_info(&dexes_page).unwrap().total_pages, 10);
    let pools_page = parse(&format!(r#"{{"pools": [], "page_info": {}}}"#, page_info)).unwrap();
    assert_eq!(extract_page_info(&pools_page).unwrap().limit, 10);
    assert_eq!(extract_page_info(&search), None);

    let token_doc = parse(token_text).unwrap();
    assert_eq!(extract_token_summary(&token_doc).unwrap().pools, 4);
    assert_eq!(extract_token_summary(&search), None);

    let summary_doc = parse(r#"{"price_usd": 1, "fdv": 2, "liquidity_usd": 3, "pools": 4, "1m": {"txns": 9}, "24h": {"txns": 3}}"#).unwrap();
    assert_eq!(extract_time_metrics(&summary_doc, "1m").unwrap().txns, 9);
    assert_eq!(extract_time_metrics(&summary_doc, "24h").unwrap().txns, 3);
    assert_eq!(extract_time_metrics(&summary_doc, "6h"), None);
    assert_eq!(extract_time_metrics(&summary_doc, "2h"), None);
    let pool_doc = parse(&format!(r#"{{"id": "p", "dex_id": "d", "dex_name": "D", "chain": "c", "5m": {{"txns": 2}}, "tokens": [{}]}}"#, token_text)).unwrap();
    assert_eq!(extract_time_metrics(&pool_doc, "5m").unwrap().txns, 2);
    assert_eq!(extract_time_metrics(&pool_doc, "1m"), None);
    assert_eq!(extract_pool_tokens(&pool_doc).len(), 1);
    assert!(extract_pool_tokens(&token_doc).is_empty());
}
