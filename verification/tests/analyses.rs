use paprika_helpers::address::validate_token_address;
use paprika_helpers::analysis::{
    analyze_dex_distribution, analyze_liquidity_distribution, liquidity_plan, DexFigures,
    LiquidityFigures,
    detect_anomalies, field_values, group_volumes, median_places, overview_requests, return_pairs,
    sort_amounts, sort_shares, sorted_volumes, top_count, validate_network, volume_buckets, volumes,
};
use paprika_helpers::float::Float;
use paprika_helpers::format::{csv_row, format_number, format_percentage, table_row, Cell};
use paprika_helpers::records::{Network, OHLCVRecord, Pool};
use paprika_helpers::time::{create_timestamp, timestamp_days_before, Instant};

fn amount(x: f64) -> Float {
    Float::from_bits(x.to_bits())
}

fn amounts(xs: &[f64]) -> Vec<Float> {
    xs.iter().map(|x| amount(*x)).collect()
}

fn pool(id: &str, dex_name: &str, volume: f64, transactions: u32) -> Pool {
    Pool {
        id: id.to_string(),
        dex_id: String::new(),
        dex_name: dex_name.to_string(),
        chain: "ethereum".to_string(),
        volume_usd: amount(volume),
        created_at: "2023-01-01T00:00:00Z".to_string(),
        created_at_block_number: 0,
        transactions,
        price_usd: amount(0.25),
        last_price_change_usd_5m: amount(0.0),
        last_price_change_usd_1h: amount(0.0),
        last_price_change_usd_24h: amount(-1.5),
        fee: None,
        tokens: vec![],
        last_price: None,
        last_price_usd: None,
        price_time: None,
        h24: None,
        h6: None,
        h1: None,
        m30: None,
        m15: None,
        m5: None,
    }
}

fn bucket(close: f64) -> OHLCVRecord {
    OHLCVRecord {
        time_open: String::new(),
        time_close: String::new(),
        open: amount(close),
        high: amount(close),
        low: amount(close),
        close: amount(close),
        volume: 1,
    }
}

#[test]
fn fewer_than_three_pools_have_no_anomalies() {
    let two = vec![pool("a", "x", 1.0, 1), pool("b", "x", 1e12, 1)];
    let scores = amounts(&[50.0, 60.0]);
    for threshold in [-1e300, -1.0, 0.0, 1.0, f64::NEG_INFINITY] {
        assert!(detect_anomalies(&two, "volume_usd", amount(5.0), &scores, amount(threshold)).is_empty());
        assert!(detect_anomalies(&two[..1], "volume_usd", amount(5.0), &scores, amount(threshold)).is_empty());
        assert!(detect_anomalies(&[], "volume_usd", amount(5.0), &scores, amount(threshold)).is_empty());
    }
}

#[test]
fn anomalies_are_the_pools_above_the_threshold() {
    let pools = vec![pool("a", "x", 10.0, 3), pool("b", "x", 11.0, 4), pool("c", "x", 500.0, 5), pool("d", "x", 9.0, 6)];
    let scores = amounts(&[0.5, 0.4, 2.5, 2.0]);
    let found = detect_anomalies(&pools, "volume_usd", amount(200.0), &scores, amount(2.0));
    assert_eq!(found.len(), 1);
    assert_eq!(found[0].index, 2);
    assert_eq!(found[0].value, amount(500.0));
    assert_eq!(found[0].z_score, amount(2.5));
    assert_eq!(found[0].item, pools[2]);

    let by_count = detect_anomalies(&pools, "transactions", amount(1.0), &scores, amount(0.45));
    assert_eq!(by_count.iter().map(|a| a.index).collect::<Vec<_>>(), vec![0, 2, 3]);
    assert_eq!(by_count[2].value, amount(6.0));

    assert!(detect_anomalies(&pools, "volume_usd", amount(0.0), &scores, amount(-1.0)).is_empty());
    assert!(detect_anomalies(&pools, "volume_usd", amount(f64::NAN), &scores, amount(0.0)).is_empty());
    assert!(detect_anomalies(&pools, "volume_usd", amount(1.0), &scores, amount(f64::NAN)).is_empty());
    let short = detect_anomalies(&pools, "volume_usd", amount(1.0), &scores[..1], amount(0.0));
    assert_eq!(short.iter().map(|a| a.index).collect::<Vec<_>>(), vec![0]);
    let unknown = detect_anomalies(&pools, "nothing", amount(1.0), &scores, amount(2.2));
    assert_eq!(unknown.len(), 1);
    assert_eq!(unknown[0].value, amount(0.0));
}

#[test]
fn field_values_follow_the_name() {
    let pools = vec![pool("a", "x", 10.0, 3), pool("b", "x", 11.0, 400)];
    assert_eq!(field_values(&pools, "volume_usd"), amounts(&[10.0, 11.0]));
    assert_eq!(field_values(&pools, "price_usd"), amounts(&[0.25, 0.25]));
    assert_eq!(field_values(&pools, "transactions"), amounts(&[3.0, 400.0]));
    assert_eq!(field_values(&pools, "last_price_change_usd_24h"), amounts(&[-1.5, -1.5]));
    assert_eq!(field_values(&pools, "other"), amounts(&[0.0, 0.0]));
    assert_eq!(volumes(&pools), amounts(&[10.0, 11.0]));
}

#[test]
fn amounts_sort_both_ways() {
    let values = amounts(&[3.0, -1.0, 2.5, 0.0, -0.0, 1e9, -1e9]);
    let up: Vec<f64> = sort_amounts(&values, false).iter().map(|x| f64::from_bits(x.to_bits())).collect();
    assert_eq!(up, vec![-1e9, -1.0, 0.0, 0.0, 2.5, 3.0, 1e9]);
    let down: Vec<f64> = sort_amounts(&values, true).iter().map(|x| f64::from_bits(x.to_bits())).collect();
    assert_eq!(down, vec![1e9, 3.0, 2.5, 0.0, 0.0, -1.0, -1e9]);
    assert!(sort_amounts(&[], false).is_empty());
    let pools = vec![pool("a", "x", 10.0, 3), pool("b", "x", 1.0, 4), pool("c", "x", 5.0, 4)];
    assert_eq!(sorted_volumes(&pools), amounts(&[1.0, 5.0, 10.0]));
    assert_eq!(sort_amounts(&amounts(&[1.0, f64::NAN, 0.5]), false).len(), 3);
}

#[test]
fn median_places_and_top_tenth() {
    assert_eq!(median_places(0), None);
    assert_eq!(median_places(1), Some((0, 0)));
    assert_eq!(median_places(2), Some((0, 1)));
    assert_eq!(median_places(3), Some((1, 1)));
    assert_eq!(median_places(10), Some((4, 5)));
    assert_eq!(median_places(11), Some((5, 5)));
    assert_eq!(top_count(0), 1);
    assert_eq!(top_count(9), 1);
    assert_eq!(top_count(10), 1);
    assert_eq!(top_count(19), 1);
    assert_eq!(top_count(20), 2);
    assert_eq!(top_count(105), 10);
}

#[test]
fn volumes_fall_into_their_ranges() {
    let values = amounts(&[
        0.0, -0.0, 999_999.99, 1_000_000.0, 9_999_999.0, 10_000_000.0, 99_999_999.9, 100_000_000.0,
        1e15, f64::INFINITY, -5.0, f64::NAN,
    ]);
    let b = volume_buckets(&values);
    assert_eq!((b.under_1m, b.from_1m, b.from_10m, b.from_100m), (3, 2, 2, 2));
    let none = volume_buckets(&[]);
    assert_eq!((none.under_1m, none.from_1m, none.from_10m, none.from_100m), (0, 0, 0, 0));
}

#[test]
fn volumes_group_by_exchange_in_order_of_appearance() {
    let pools = vec![
        pool("a", "Uniswap", 1.0, 0),
        pool("b", "Curve", 2.0, 0),
        pool("c", "Uniswap", 3.0, 0),
        pool("d", "uniswap", 4.0, 0),
        pool("e", "Curve", 5.0, 0),
    ];
    let groups = group_volumes(&pools);
    assert_eq!(
        groups,
        vec![
            ("Uniswap".to_string(), amounts(&[1.0, 3.0])),
            ("Curve".to_string(), amounts(&[2.0, 5.0])),
            ("uniswap".to_string(), amounts(&[4.0])),
        ]
    );
    assert!(group_volumes(&[]).is_empty());
}

#[test]
fn shares_rank_by_amount() {
    let totals = vec![
        ("Curve".to_string(), amount(7.0)),
        ("Uniswap".to_string(), amount(40.0)),
        ("Sushi".to_string(), amount(0.5)),
    ];
    let ranked: Vec<String> = sort_shares(&totals, true).into_iter().map(|(n, _)| n).collect();
    assert_eq!(ranked, vec!["Uniswap", "Curve", "Sushi"]);
    let rising: Vec<String> = sort_shares(&totals, false).into_iter().map(|(n, _)| n).collect();
    assert_eq!(rising, vec!["Sushi", "Curve", "Uniswap"]);
}

#[test]
fn return_pairs_skip_a_prior_close_that_is_not_above_zero() {
    let records = vec![bucket(102.0), bucket(105.0), bucket(0.0), bucket(103.0), bucket(-1.0), bucket(4.0), bucket(5.0)];
    assert_eq!(
        return_pairs(&records),
        vec![
            (amount(102.0), amount(105.0)),
            (amount(105.0), amount(0.0)),
            (amount(103.0), amount(-1.0)),
            (amount(4.0), amount(5.0)),
        ]
    );
    assert!(return_pairs(&records[..1]).is_empty());
    assert!(return_pairs(&[]).is_empty());
}

#[test]
fn networks_are_matched_without_regard_to_case() {
    let networks = vec![
        Network { id: "ethereum".to_string(), display_name: "Ethereum".to_string() },
        Network { id: "Solana".to_string(), display_name: "Solana".to_string() },
    ];
    assert!(validate_network(&networks, "ETHEREUM"));
    assert!(validate_network(&networks, "solana"));
    assert!(!validate_network(&networks, "Ethereum "));
    assert!(!validate_network(&networks, "polygon"));
    assert!(!validate_network(&[], "ethereum"));
}

#[test]
fn an_overview_asks_for_the_first_five_networks() {
    let networks: Vec<Network> = (0..7).map(|i| Network { id: format!("n{}", i), display_name: String::new() }).collect();
    let requests = overview_requests(&networks);
    assert_eq!(requests.len(), 5);
    assert_eq!(requests[4].endpoint, "/networks/n4/pools");
    assert_eq!(requests[0].params.as_ref().unwrap().to_query_params(), vec![("limit", "10".to_string())]);
    assert_eq!(overview_requests(&networks[..2]).len(), 2);
    assert!(overview_requests(&[]).is_empty());
}

#[test]
fn addresses_of_both_formats_and_nothing_else() {
    assert!(validate_token_address("0xA0B86991C6218B36C1D19D4A2E9EB0CE3606EB48"));
    assert!(validate_token_address("0x0000000000000000000000000000000000000000"));
    assert!(!validate_token_address("0xa0b86991c6218b36c1d19d4a2e9eb0ce3606eb4"));
    assert!(!validate_token_address("0xa0b86991c6218b36c1d19d4a2e9eb0ce3606eb488"));
    assert!(!validate_token_address("0Xa0b86991c6218b36c1d19d4a2e9eb0ce3606eb48"));
    assert!(!validate_token_address("0xg0b86991c6218b36c1d19d4a2e9eb0ce3606eb48"));
    assert!(!validate_token_address("0xa0b86991c6218b36c1d19d4a2e9eb0ce3606eb48\n"));
    assert!(!validate_token_address(" 0xa0b86991c6218b36c1d19d4a2e9eb0ce3606eb48"));
    assert!(validate_token_address("EPjFWdd5AufqSSqeM2qN1xzybapC8G4wEGGkZwyTDt1v"));
    assert!(validate_token_address(&"1".repeat(32)));
    assert!(validate_token_address(&"z".repeat(44)));
    assert!(!validate_token_address(&"1".repeat(31)));
    assert!(!validate_token_address(&"1".repeat(45)));
    assert!(!validate_token_address(&format!("{}0", "1".repeat(32))));
    assert!(!validate_token_address(&format!("{}O", "1".repeat(32))));
    assert!(!validate_token_address(&format!("{}I", "1".repeat(32))));
    assert!(!validate_token_address(&format!("{}l", "1".repeat(32))));
    assert!(!validate_token_address(&format!("{}\n", "1".repeat(32))));
    assert!(!validate_token_address(""));
    assert!(!validate_token_address("hello world"));
}

#[test]
fn thousands_separators() {
    assert_eq!(format_number("0"), "0");
    assert_eq!(format_number("12"), "12");
    assert_eq!(format_number("123"), "123");
    assert_eq!(format_number("1234"), "1,234");
    assert_eq!(format_number("123456"), "123,456");
    assert_eq!(format_number("1234567"), "1,234,567");
    assert_eq!(format_number("1234567.000000"), "1,234,567.000000");
    assert_eq!(format_number("-1234.5"), "-1,234.5");
    assert_eq!(format_number("-123.5"), "-,123.5");
    assert_eq!(format_number(".5"), ".5");
    assert_eq!(format_number("5."), "5.");
    assert_eq!(format_number("1.2.3"), "1.2");
    assert_eq!(format_number(""), "");
    assert_eq!(format_number("inf"), "inf");
    assert_eq!(format_number("NaN"), "NaN");
    assert_eq!(format_percentage("-2.50"), "-2.50%");
    assert_eq!(format_percentage(""), "%");
}

#[test]
fn cells_follow_the_column_names() {
    let p = pool("pool-1", "Uniswap", 1234.5, 42);
    let table = table_row(&p, &["dex_name", "volume_usd", "price_usd", "transactions", "chain", "last_price_change_usd_24h", "id"]);
    assert_eq!(
        table,
        vec![
            Cell::Text("Uniswap".to_string()),
            Cell::Number { amount: amount(1234.5), decimals: 0 },
            Cell::Number { amount: amount(0.25), decimals: 6 },
            Cell::Text("42".to_string()),
            Cell::Text("ethereum".to_string()),
            Cell::Percent { amount: amount(-1.5), decimals: 2 },
            Cell::Text(String::new()),
        ]
    );
    let csv = csv_row(&p, &["id", "dex_name", "volume_usd", "price_usd", "transactions", "chain", "last_price_change_usd_24h", "created_at", "fee"]);
    assert_eq!(
        csv,
        vec![
            Cell::Text("pool-1".to_string()),
            Cell::Text("Uniswap".to_string()),
            Cell::Plain(amount(1234.5)),
            Cell::Plain(amount(0.25)),
            Cell::Text("42".to_string()),
            Cell::Text("ethereum".to_string()),
            Cell::Plain(amount(-1.5)),
            Cell::Text("2023-01-01T00:00:00Z".to_string()),
            Cell::Text(String::new()),
        ]
    );
    assert!(table_row(&p, &[]).is_empty());
}

#[test]
fn timestamps_some_days_back() {
    let start = Instant { secs: 0, nanos: 0 };
    assert_eq!(timestamp_days_before(start, 0), Some("1970-01-01T00:00:00+00:00".to_string()));
    assert_eq!(timestamp_days_before(Instant { secs: 86_400, nanos: 0 }, 1), Some("1970-01-01T00:00:00+00:00".to_string()));
    assert_eq!(
        timestamp_days_before(Instant { secs: 1_672_574_400, nanos: 500_000_000 }, 7),
        Some("2022-12-25T12:00:00.500+00:00".to_string())
    );
    assert_eq!(timestamp_days_before(start, -1), Some("1970-01-02T00:00:00+00:00".to_string()));
    assert_eq!(timestamp_days_before(start, i64::MAX), None);
    assert_eq!(timestamp_days_before(start, i64::MIN), None);
    assert_eq!(timestamp_days_before(start, 300_000 * 366), None);
    let now = create_timestamp(0).unwrap();
    let earlier = create_timestamp(30).unwrap();
    assert!(now.ends_with("+00:00"));
    assert!(earlier < now);
}

#[test]
fn liquidity_analysis_takes_the_handed_figures() {
    let figures = LiquidityFigures {
        total: amount(16.0),
        average: amount(8.0),
        median: amount(8.0),
        gini: amount(0.25),
        top_share: amount(0.9),
        under_1m: amount(1.0),
        from_1m: amount(0.0),
        from_10m: amount(0.0),
        from_100m: amount(0.0),
    };
    let pools = vec![pool("a", "x", 1.0, 1), pool("b", "y", 15.0, 1)];
    let r = analyze_liquidity_distribution(&pools, figures);
    assert_eq!(r.total_liquidity, amount(16.0));
    assert_eq!(r.pool_count, 2);
    assert_eq!(r.average_liquidity, amount(8.0));
    assert_eq!(r.median_liquidity, amount(8.0));
    assert_eq!(r.gini_coefficient, amount(0.25));
    assert_eq!(r.top_pools_share, amount(0.9));
    assert_eq!(
        r.distribution,
        vec![
            ("< 1M".to_string(), amount(1.0)),
            ("1M-10M".to_string(), amount(0.0)),
            ("10M-100M".to_string(), amount(0.0)),
            ("> 100M".to_string(), amount(0.0)),
        ]
    );
    let empty = analyze_liquidity_distribution(&[], figures);
    assert_eq!(empty.total_liquidity, amount(0.0));
    assert_eq!(empty.pool_count, 0);
    assert_eq!(empty.gini_coefficient, amount(0.0));
    assert_eq!(empty.top_pools_share, amount(0.0));
    assert!(empty.distribution.is_empty());
}

#[test]
fn exchange_distribution_counts_and_ranks() {
    let figures = |total: f64| DexFigures {
        total_volume: amount(total),
        totals: amounts(&[4.0, 12.0]),
        shares: amounts(&[0.25, 0.75]),
        concentration: amount(0.625),
    };
    let pools = vec![pool("a", "Uniswap", 1.0, 1), pool("b", "Curve", 12.0, 1), pool("c", "Uniswap", 3.0, 1)];
    let r = analyze_dex_distribution(&pools, figures(16.0));
    assert_eq!(r.total_volume, amount(16.0));
    assert_eq!(r.dex_count, 2);
    assert_eq!(r.distribution, vec![("Uniswap".to_string(), amount(0.25)), ("Curve".to_string(), amount(0.75))]);
    assert_eq!(r.top_dexes, vec!["Curve".to_string(), "Uniswap".to_string()]);
    assert_eq!(r.concentration, amount(0.625));
    let flat = analyze_dex_distribution(&pools, figures(0.0));
    assert_eq!(flat.dex_count, 2);
    assert!(flat.distribution.is_empty());
    assert_eq!(flat.concentration, amount(0.0));
    assert_eq!(flat.top_dexes.len(), 2);
    let short = analyze_dex_distribution(
        &pools,
        DexFigures { total_volume: amount(1.0), totals: amounts(&[4.0]), shares: vec![], concentration: amount(0.0) },
    );
    assert_eq!(short.dex_count, 2);
    assert_eq!(short.top_dexes, vec!["Uniswap".to_string()]);
    assert!(short.distribution.is_empty());
    let empty = analyze_dex_distribution(&[], figures(16.0));
    assert_eq!(empty.total_volume, amount(0.0));
    assert_eq!(empty.dex_count, 0);
    assert!(empty.distribution.is_empty());
    assert!(empty.top_dexes.is_empty());
    assert_eq!(empty.concentration, amount(0.0));
}

#[test]
fn the_liquidity_plan_orders_places_and_counts() {
    let mut pools: Vec<Pool> = Vec::new();
    for (i, volume) in [5e6, 10.0, 2e8, 3e7, 999_999.0, 1e6, 0.0, 7e7, 1e12, 5.0, 20.0, 30.0]
        .iter()
        .enumerate()
    {
        pools.push(pool(&format!("p{}", i), "x", *volume, 1));
    }
    let plan = liquidity_plan(&pools);
    assert_eq!(
        plan.sorted,
        amounts(&[0.0, 5.0, 10.0, 20.0, 30.0, 999_999.0, 1e6, 5e6, 3e7, 7e7, 2e8, 1e12])
    );
    assert_eq!(plan.median, Some((5, 6)));
    assert_eq!(plan.top, 1);
    assert_eq!(
        (plan.buckets.under_1m, plan.buckets.from_1m, plan.buckets.from_10m, plan.buckets.from_100m),
        (6, 2, 2, 2)
    );
    let none = liquidity_plan(&[]);
    assert!(none.sorted.is_empty());
    assert_eq!(none.median, None);
    assert_eq!(none.top, 1);
    assert_eq!(none.buckets.under_1m, 0);
    let odd = liquidity_plan(&pools[..3]);
    assert_eq!(odd.median, Some((1, 1)));
    assert_eq!(odd.sorted, amounts(&[10.0, 5e6, 2e8]));
}
