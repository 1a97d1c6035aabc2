use paprika_helpers::float::Float;
use paprika_helpers::json::parse;
use paprika_helpers::metrics::{
    analyze_pool_activity, analyze_token_performance, analyze_transaction_patterns, count_by_hour,
    extract_ohlcv_metrics, extract_pool_metrics, extract_search_results, extract_system_stats,
    extract_token_info, extract_transaction_info, find_peak, list_nonzero, ohlcv_metrics,
    price_update, tally_hours, tally_names, token_liquidity_report, DexDistribution, LiquidityAnalysis, Metric,
    TokenRatios,
};
use paprika_helpers::records::{OHLCVRecord, Pool, TimeIntervalMetrics, Token, TokenSummary, Transaction};

fn amount(x: f64) -> Float {
    Float::from_bits(x.to_bits())
}

fn names(report: &[(String, Metric)]) -> Vec<String> {
    report.iter().map(|(n, _)| n.clone()).collect()
}

fn get<'a>(report: &'a [(String, Metric)], name: &str) -> &'a Metric {
    &report.iter().find(|(n, _)| n == name).unwrap().1
}

fn token(symbol: &str, summary: Option<TokenSummary>) -> Token {
    Token {
        id: format!("0x{}", symbol),
        name: symbol.to_string(),
        symbol: symbol.to_string(),
        chain: "ethereum".to_string(),
        token_type: String::new(),
        status: String::new(),
        decimals: 18,
        total_supply: amount(1e9),
        description: String::new(),
        website: "https://example.org".to_string(),
        explorer: String::new(),
        added_at: String::new(),
        fdv: amount(5e6),
        last_updated: String::new(),
        summary,
    }
}

fn pool(id: &str, volume: f64, transactions: u32, tokens: Vec<Token>) -> Pool {
    Pool {
        id: id.to_string(),
        dex_id: "uni".to_string(),
        dex_name: "Uniswap".to_string(),
        chain: "ethereum".to_string(),
        volume_usd: amount(volume),
        created_at: "2023-01-01T00:00:00Z".to_string(),
        created_at_block_number: 1,
        transactions,
        price_usd: amount(2.0),
        last_price_change_usd_5m: amount(0.1),
        last_price_change_usd_1h: amount(0.5),
        last_price_change_usd_24h: amount(2.5),
        fee: None,
        tokens,
        last_price: None,
        last_price_usd: None,
        price_time: None,
        h24: None,
        h6: None,
        h1: None,
        m30: None,
        m15: None,
        m5: None,
    }
}

fn bucket(open: f64, high: f64, low: f64, close: f64, volume: i64) -> OHLCVRecord {
    OHLCVRecord {
        time_open: String::new(),
        time_close: String::new(),
        open: amount(open),
        high: amount(high),
        low: amount(low),
        close: amount(close),
        volume,
    }
}

fn tx(created_at: &str, first: &str, second: &str) -> Transaction {
    Transaction {
        id: "t".to_string(),
        log_index: None,
        transaction_index: None,
        pool_id: "p".to_string(),
        sender: "s".to_string(),
        recipient: None,
        token_0: "a".to_string(),
        token_0_symbol: first.to_string(),
        token_1: "b".to_string(),
        token_1_symbol: second.to_string(),
        amount_0: "1".to_string(),
        amount_1: "2".to_string(),
        price_0: amount(1.0),
        price_1: amount(1.0),
        price_0_usd: amount(1.0),
        price_1_usd: amount(1.0),
        created_at_block_number: amount(1.0),
        created_at: created_at.to_string(),
    }
}

#[test]
fn pool_metrics_of_a_document() {
    let doc = parse(
        r#"{"id": "p", "dex_id": "d", "dex_name": "Uniswap", "chain": "ethereum", "volume_usd": 10.5,
            "price_usd": 2, "transactions": 7, "last_price_change_usd_24h": null,
            "created_at": "2023-01-01T00:00:00Z",
            "tokens": [{"id": "t", "name": "N", "symbol": "S", "chain": "c"}]}"#,
    )
    .unwrap();
    let report = extract_pool_metrics(&doc);
    assert_eq!(
        report,
        vec![
            ("volume_usd".to_string(), Metric::Amount(amount(10.5))),
            ("price_usd".to_string(), Metric::Amount(amount(2.0))),
            ("transactions".to_string(), Metric::Count(7)),
            ("dex_name".to_string(), Metric::Text("Uniswap".to_string())),
            ("chain".to_string(), Metric::Text("ethereum".to_string())),
            ("last_price_change_24h".to_string(), Metric::Amount(amount(0.0))),
            ("created_at".to_string(), Metric::Text("2023-01-01T00:00:00Z".to_string())),
            ("token_count".to_string(), Metric::Count(1)),
        ]
    );
    assert!(extract_pool_metrics(&parse("[]").unwrap()).is_empty());
}

#[test]
fn token_info_with_and_without_summary() {
    let bare = parse(r#"{"id": "t", "name": "N", "symbol": "S", "chain": "c", "decimals": 6, "website": "w"}"#).unwrap();
    assert_eq!(names(&extract_token_info(&bare)), vec!["id", "name", "symbol", "chain", "decimals", "total_supply", "website", "fdv"]);
    assert_eq!(get(&extract_token_info(&bare), "decimals"), &Metric::Count(6));
    let full = parse(r#"{"id": "t", "name": "N", "symbol": "S", "chain": "c", "summary": {"price_usd": 1.5, "fdv": 2, "liquidity_usd": 3, "pools": 4}}"#).unwrap();
    let report = extract_token_info(&full);
    assert_eq!(report.len(), 10);
    assert_eq!(report[8], ("price_usd".to_string(), Metric::Amount(amount(1.5))));
    assert_eq!(report[9], ("liquidity_usd".to_string(), Metric::Amount(amount(3.0))));
    assert!(extract_token_info(&parse("null").unwrap()).is_empty());
}

#[test]
fn transaction_info_and_system_stats() {
    let doc = parse(
        r#"{"id": "tx", "pool_id": "p", "sender": "s", "token_0": "a", "token_0_symbol": "A",
            "token_1": "b", "token_1_symbol": "B", "amount_0": "1", "amount_1": "2", "price_0": 1.0,
            "price_1": 2.0, "price_0_usd": 3.0, "price_1_usd": 4.0, "created_at_block_number": 17,
            "created_at": "2023-01-01T00:00:00Z"}"#,
    )
    .unwrap();
    let report = extract_transaction_info(&doc);
    assert_eq!(
        names(&report),
        vec!["id", "pool_id", "sender", "token_0", "token_1", "token_0_symbol", "token_1_symbol", "amount_0", "amount_1", "price_0_usd", "price_1_usd", "created_at"]
    );
    assert_eq!(get(&report, "price_1_usd"), &Metric::Amount(amount(4.0)));
    assert_eq!(get(&report, "token_1_symbol"), &Metric::Text("B".to_string()));

    let stats = extract_system_stats(&parse(r#"{"chains": 4294967295, "factories": 4294967295, "pools": 3, "tokens": 4}"#).unwrap());
    assert_eq!(names(&stats), vec!["chains", "factories", "pools", "tokens", "total_entities"]);
    assert_eq!(get(&stats, "total_entities"), &Metric::Count(8589934597));
    assert!(extract_system_stats(&parse(r#"{"chains": 1}"#).unwrap()).is_empty());
}

#[test]
fn search_results_count_and_show_the_first() {
    let token_text = r#"{"id": "t1", "name": "N", "symbol": "S", "chain": "c"}"#;
    let doc = parse(&format!(r#"{{"tokens": [{}, {}], "pools": [], "dexes": []}}"#, token_text, token_text.replace("t1", "t2"))).unwrap();
    let report = extract_search_results(&doc);
    assert_eq!(names(&report), vec!["tokens_count", "pools_count", "dexes_count", "total_results", "top_token"]);
    assert_eq!(get(&report, "tokens_count"), &Metric::Count(2));
    assert_eq!(get(&report, "total_results"), &Metric::Count(2));
    match get(&report, "top_token") {
        Metric::Token(t) => assert_eq!(t.id, "t1"),
        other => panic!("unexpected {:?}", other),
    }
    assert!(extract_search_results(&parse("{}").unwrap()).is_empty());
}

#[test]
fn price_bucket_figures() {
    let records = vec![
        bucket(100.0, 105.0, 95.0, 102.0, 1000),
        bucket(102.0, 108.0, 98.0, 105.0, 1200),
        bucket(105.0, 110.0, 100.0, 103.0, 900),
    ];
    let report = ohlcv_metrics(&records, amount(3.0), amount(0.02));
    assert_eq!(
        report,
        vec![
            ("total_volume".to_string(), Metric::Whole(3100)),
            ("data_points".to_string(), Metric::Count(3)),
            ("highest_price".to_string(), Metric::Amount(amount(110.0))),
            ("lowest_price".to_string(), Metric::Amount(amount(95.0))),
            ("first_price".to_string(), Metric::Amount(amount(100.0))),
            ("last_price".to_string(), Metric::Amount(amount(103.0))),
            ("price_change_percent".to_string(), Metric::Amount(amount(3.0))),
            ("volatility".to_string(), Metric::Amount(amount(0.02))),
        ]
    );
    let single = ohlcv_metrics(&[bucket(0.0, f64::NAN, f64::NAN, 1.0, i64::MIN)], amount(3.0), amount(0.02));
    assert_eq!(names(&single), vec!["total_volume", "data_points", "highest_price", "lowest_price", "first_price", "last_price"]);
    assert_eq!(get(&single, "total_volume"), &Metric::Whole(i64::MIN as i128));
    assert_eq!(get(&single, "highest_price"), &Metric::Amount(amount(f64::NEG_INFINITY)));
    assert_eq!(get(&single, "lowest_price"), &Metric::Amount(amount(f64::INFINITY)));
    let big = ohlcv_metrics(&[bucket(1.0, 1.0, 1.0, 1.0, i64::MAX), bucket(1.0, 1.0, 1.0, 1.0, i64::MAX)], amount(0.0), amount(0.0));
    assert_eq!(get(&big, "total_volume"), &Metric::Whole(2 * (i64::MAX as i128)));
    assert!(ohlcv_metrics(&[], amount(3.0), amount(0.02)).is_empty());

    let doc = parse(r#"[{"time_open": "a", "time_close": "b", "open": 1, "high": 2, "low": 0.5, "close": 1.5, "volume": 7}]"#).unwrap();
    let from_doc = extract_ohlcv_metrics(&doc, amount(50.0), amount(0.0));
    assert_eq!(get(&from_doc, "total_volume"), &Metric::Whole(7));
    assert_eq!(get(&from_doc, "price_change_percent"), &Metric::Amount(amount(50.0)));
    assert!(extract_ohlcv_metrics(&parse("{}").unwrap(), amount(0.0), amount(0.0)).is_empty());
}

#[test]
fn pool_activity_reports_what_applies() {
    let idle = pool("p", 100.0, 0, vec![token("WETH", None)]);
    let report = analyze_pool_activity(&idle, amount(9.0), amount(1.5));
    assert_eq!(
        names(&report),
        vec!["pool_id", "dex_name", "chain", "volume_usd", "transactions", "price_usd", "price_change_24h", "price_change_1h", "price_change_5m", "activity_score"]
    );
    assert_eq!(get(&report, "activity_score"), &Metric::Amount(amount(1.5)));
    let busy = pool("p", 100.0, 4, vec![token("WETH", None), token("USDC", None), token("DAI", None)]);
    let report = analyze_pool_activity(&busy, amount(25.0), amount(1.5));
    assert_eq!(report.len(), 12);
    assert_eq!(report[6], ("volume_per_transaction".to_string(), Metric::Amount(amount(25.0))));
    assert_eq!(report[11], ("token_pair".to_string(), Metric::Text("WETH/USDC".to_string())));
}

#[test]
fn token_performance_reports_what_applies() {
    let ratios = TokenRatios {
        avg_liquidity_per_pool: amount(1.0),
        fdv_to_liquidity_ratio: amount(2.0),
        volume_to_liquidity_ratio: amount(3.0),
    };
    assert_eq!(names(&analyze_token_performance(&token("A", None), ratios)), vec!["token_id", "name", "symbol", "chain", "fdv"]);
    let day = TimeIntervalMetrics {
        volume: amount(0.0),
        volume_usd: amount(77.0),
        buy_usd: amount(0.0),
        sell_usd: amount(0.0),
        sells: 0,
        buys: 0,
        txns: 12,
        last_price_usd_change: amount(-0.5),
    };
    let summary = |liquidity: f64, pools: u32, h24: Option<TimeIntervalMetrics>| TokenSummary {
        price_usd: amount(1.0),
        fdv: amount(2.0),
        liquidity_usd: amount(liquidity),
        pools,
        h24,
        h6: None,
        h1: None,
        m30: None,
        m15: None,
        m5: None,
        m1: None,
    };
    let full = analyze_token_performance(&token("A", Some(summary(10.0, 2, Some(day)))), ratios);
    assert_eq!(
        names(&full),
        vec![
            "token_id", "name", "symbol", "chain", "fdv", "price_usd", "liquidity_usd", "pools_count",
            "avg_liquidity_per_pool", "fdv_to_liquidity_ratio", "volume_24h", "price_change_24h",
            "transactions_24h", "volume_to_liquidity_ratio"
        ]
    );
    assert_eq!(get(&full, "volume_24h"), &Metric::Amount(amount(77.0)));
    assert_eq!(get(&full, "transactions_24h"), &Metric::Count(12));
    assert_eq!(get(&full, "volume_to_liquidity_ratio"), &Metric::Amount(amount(3.0)));
    let dry = analyze_token_performance(&token("A", Some(summary(0.0, 0, Some(day)))), ratios);
    assert_eq!(
        names(&dry),
        vec!["token_id", "name", "symbol", "chain", "fdv", "price_usd", "liquidity_usd", "pools_count", "volume_24h", "price_change_24h", "transactions_24h"]
    );
    let no_day = analyze_token_performance(&token("A", Some(summary(-1.0, 3, None))), ratios);
    assert_eq!(
        names(&no_day),
        vec!["token_id", "name", "symbol", "chain", "fdv", "price_usd", "liquidity_usd", "pools_count", "avg_liquidity_per_pool"]
    );
}

#[test]
fn transaction_patterns() {
    let txs = vec![
        tx("2023-01-01T13:05:00Z", "WETH", "USDC"),
        tx("2023-01-01T13:59:59+02:00", "WETH", "USDC"),
        tx("2023-01-02T07:00:00Z", "DAI", "USDC"),
        tx("2023-01-02T07:30:00-05:00", "WETH", "USDC"),
        tx("garbage", "DAI", "USDC"),
        tx("2023-01-03T23:00:00Z", "WETH", "DAI"),
    ];
    let report = analyze_transaction_patterns(&txs, amount(12.0), amount(2.0));
    assert_eq!(
        report,
        vec![
            ("total_transactions".to_string(), Metric::Count(6)),
            ("total_value_usd".to_string(), Metric::Amount(amount(12.0))),
            ("avg_value_per_tx".to_string(), Metric::Amount(amount(2.0))),
            ("peak_hour".to_string(), Metric::Count(7)),
            ("peak_hour_count".to_string(), Metric::Count(2)),
            (
                "hourly_distribution".to_string(),
                Metric::Tally(vec![("7".to_string(), 2), ("13".to_string(), 2), ("23".to_string(), 1)])
            ),
            ("unique_pairs".to_string(), Metric::Count(3)),
            (
                "pair_distribution".to_string(),
                Metric::Tally(vec![
                    ("WETH/USDC".to_string(), 3),
                    ("DAI/USDC".to_string(), 2),
                    ("WETH/DAI".to_string(), 1),
                ])
            ),
        ]
    );
    assert!(analyze_transaction_patterns(&[], amount(0.0), amount(0.0)).is_empty());
    let unreadable = analyze_transaction_patterns(&[tx("", "A", "B")], amount(0.0), amount(0.0));
    assert_eq!(get(&unreadable, "peak_hour"), &Metric::Count(0));
    assert_eq!(get(&unreadable, "peak_hour_count"), &Metric::Count(0));
    assert_eq!(get(&unreadable, "hourly_distribution"), &Metric::Tally(vec![]));
}

#[test]
fn tallies_and_peaks() {
    let counts = count_by_hour(&[tx("2023-01-01T00:00:00Z", "A", "B"), tx("2023-01-01T23:59:59Z", "A", "B")]);
    assert_eq!(counts.len(), 24);
    assert_eq!(counts[0], 1);
    assert_eq!(counts[23], 1);
    assert_eq!(counts.iter().sum::<u64>(), 2);
    let by_hour = tally_hours(&[
        tx("2023-01-01T05:00:00Z", "A", "B"),
        tx("2023-01-02T05:30:00+01:00", "A", "B"),
        tx("never", "A", "B"),
        tx("2023-01-01T17:00:00Z", "A", "B"),
    ]);
    assert_eq!(by_hour.len(), 2);
    assert_eq!(by_hour.get(&5), Some(&2));
    assert_eq!(by_hour.get(&17), Some(&1));
    assert_eq!(by_hour.get(&0), None);
    assert!(tally_hours(&[]).is_empty());
    assert_eq!(find_peak(&vec![0, 3, 1, 3]), (1, 3));
    assert_eq!(find_peak(&vec![0, 0]), (0, 0));
    assert_eq!(find_peak(&vec![]), (0, 0));
    assert_eq!(list_nonzero(&vec![0, 5, 0, 1]), vec![("1".to_string(), 5), ("3".to_string(), 1)]);
    let names: Vec<String> = ["b", "a", "b", "c", "a", "b"].iter().map(|s| s.to_string()).collect();
    assert_eq!(tally_names(&names), vec![("b".to_string(), 3), ("a".to_string(), 2), ("c".to_string(), 1)]);
}

#[test]
fn price_updates_and_liquidity_reports() {
    let p = pool("p", 100.0, 4, vec![]);
    assert_eq!(
        price_update(&p, "2023-01-01T00:00:00+00:00"),
        vec![
            ("price_usd".to_string(), Metric::Amount(amount(2.0))),
            ("last_price_change_usd_24h".to_string(), Metric::Amount(amount(2.5))),
            ("volume_usd".to_string(), Metric::Amount(amount(100.0))),
            ("timestamp".to_string(), Metric::Text("2023-01-01T00:00:00+00:00".to_string())),
        ]
    );
    let liquidity = || LiquidityAnalysis {
        total_liquidity: amount(400.0),
        pool_count: 2,
        average_liquidity: amount(200.0),
        median_liquidity: amount(200.0),
        gini_coefficient: amount(0.25),
        top_pools_share: amount(0.75),
        distribution: vec![("< 1M".to_string(), amount(1.0))],
    };
    let dexes = || DexDistribution {
        total_volume: amount(400.0),
        dex_count: 1,
        distribution: vec![("Uniswap".to_string(), amount(1.0))],
        top_dexes: vec!["Uniswap".to_string()],
        concentration: amount(1.0),
    };
    let t = token("WETH", None);
    let pools = vec![pool("small", 100.0, 1, vec![]), pool("large", 300.0, 1, vec![])];
    let report = token_liquidity_report(&t, &pools, liquidity(), dexes());
    assert_eq!(names(&report), vec!["token", "pools_count", "liquidity_analysis", "largest_pool", "dex_distribution"]);
    assert_eq!(get(&report, "pools_count"), &Metric::Count(2));
    match get(&report, "largest_pool") {
        Metric::Pool(p) => assert_eq!(p.id, "large"),
        other => panic!("unexpected {:?}", other),
    }
    assert_eq!(get(&report, "liquidity_analysis"), &Metric::Liquidity(liquidity()));
    let empty = token_liquidity_report(&t, &[], liquidity(), dexes());
    assert_eq!(names(&empty), vec!["token", "pools_count"]);
    assert_eq!(get(&empty, "pools_count"), &Metric::Count(0));
}
