use paprika_helpers::address::validate_token_address;
use paprika_helpers::extract::extract_pools;
use paprika_helpers::filter::filter_by_volume;
use paprika_helpers::float::Float;
use paprika_helpers::format::{format_number, format_percentage};
use paprika_helpers::json::parse;
use paprika_helpers::records::Pool;
use paprika_helpers::sort::top_n;

fn amount(x: f64) -> Float {
    Float::from_bits(x.to_bits())
}

fn mock_pool(id: &str, dex_id: &str, dex_name: &str, volume_usd: f64, transactions: u32, price_usd: f64, change_5m: f64, change_1h: f64, change_24h: f64) -> Pool {
    Pool {
        id: id.to_string(),
        dex_id: dex_id.to_string(),
        dex_name: dex_name.to_string(),
        chain: "ethereum".to_string(),
        volume_usd: amount(volume_usd),
        created_at: "2023-01-01T00:00:00Z".to_string(),
        created_at_block_number: 123456,
        transactions,
        price_usd: amount(price_usd),
        last_price_change_usd_5m: amount(change_5m),
        last_price_change_usd_1h: amount(change_1h),
        last_price_change_usd_24h: amount(change_24h),
        fee: None,
        tokens: vec![],
        last_price: None,
        last_price_usd: None,
        price_time: None,
        h24: None,
        h6: None,
        h1: None,
        m30: None,
        m15: None,
        m5: None,
    }
}

#[test]
fn test_extract_pools() {
    let mock_response = parse(
        r#"{
        "pools": [
            {
                "id": "test-pool",
                "dex_id": "test-dex",
                "dex_name": "Test DEX",
                "chain": "ethereum",
                "volume_usd": 1000000.0,
                "created_at": "2023-01-01T00:00:00Z",
                "created_at_block_number": 123456,
                "transactions": 100,
                "price_usd": 1.5,
                "last_price_change_usd_5m": 0.1,
                "last_price_change_usd_1h": 0.5,
                "last_price_change_usd_24h": 2.5,
                "tokens": []
            }
        ],
        "page_info": {
            "limit": 10,
            "page": 1,
            "total_items": 100,
            "total_pages": 10
        }
    }"#,
    )
    .unwrap();

    let pools = extract_pools(&mock_response);
    assert_eq!(pools.len(), 1);
    assert_eq!(pools[0].id, "test-pool");

    println!("Extracted {} pools", pools.len());
}

#[test]
fn test_filter_by_volume() {
    let mock_pools = vec![
        mock_pool("pool1", "dex1", "DEX 1", 2000000.0, 100, 1.5, 0.1, 0.5, 2.5),
        mock_pool("pool2", "dex2", "DEX 2", 500000.0, 50, 1.0, 0.0, 0.0, 1.0),
    ];

    let filtered = filter_by_volume(&mock_pools, amount(1000000.0));
    assert_eq!(filtered.len(), 1);
    assert_eq!(filtered[0].id, "pool1");

    println!("Filtered {} pools with volume >= $1M (from {} total)", filtered.len(), mock_pools.len());
}

#[test]
fn test_top_n() {
    let mock_pools = vec![
        mock_pool("pool1", "dex1", "DEX 1", 3000000.0, 100, 1.5, 0.1, 0.5, 2.5),
        mock_pool("pool2", "dex2", "DEX 2", 2000000.0, 100, 1.5, 0.1, 0.5, 2.5),
        mock_pool("pool3", "dex3", "DEX 3", 1000000.0, 100, 1.5, 0.1, 0.5, 2.5),
    ];

    let top_2 = top_n(&mock_pools, "volume_usd", 2);
    assert_eq!(top_2.len(), 2);
    assert_eq!(top_2[0].id, "pool1");
    assert_eq!(top_2[1].id, "pool2");

    println!("Top 2 pools by volume:");
    for (i, pool) in top_2.iter().enumerate() {
        println!("  {}. {}: ${:.2}", i + 1, pool.dex_name, f64::from_bits(pool.volume_usd.to_bits()));
    }
}

#[test]
fn test_format_number() {
    assert_eq!(format_number(&format!("{:.prec$}", 1234567.89, prec = 2)), "1,234,567.89");
    assert_eq!(format_number(&format!("{:.prec$}", 1000.0, prec = 0)), "1,000");
    assert_eq!(format_number(&format!("{:.prec$}", 999.5, prec = 1)), "999.5");

    println!("Number formatting tests passed");
}

#[test]
fn test_format_percentage() {
    assert_eq!(format_percentage(&format!("{:.prec$}", 15.5678, prec = 2)), "15.57%");
    assert_eq!(format_percentage(&format!("{:.prec$}", 0.1234, prec = 3)), "0.123%");

    println!("Percentage formatting tests passed");
}

#[test]
fn test_validate_token_address() {
    assert!(validate_token_address("0xa0b86991c6218b36c1d19d4a2e9eb0ce3606eb48"));
    assert!(!validate_token_address("0xInvalidAddress"));

    assert!(validate_token_address("So11111111111111111111111111111111111111112"));
    assert!(!validate_token_address("InvalidSolanaAddress"));

    println!("Token address validation tests passed");
}
