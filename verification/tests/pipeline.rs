use paprika_helpers::cache::{is_fresh, Cache};
use paprika_helpers::error::PaprikaError;
use paprika_helpers::json::{parse, Json};
use paprika_helpers::params::ApiParams;
use paprika_helpers::request::{build_url, create_cache_key, interpret, is_success, Client, FetchOutcome, Step};
use paprika_helpers::time::Instant;

fn at(secs: i64, nanos: u32) -> Instant {
    Instant { secs, nanos }
}

fn ok_response(body: &str) -> FetchOutcome {
    FetchOutcome::Response { status: 200, status_text: "200 OK".to_string(), body: body.to_string() }
}

#[test]
fn cache_key_is_endpoint_and_digest() {
    assert_eq!(create_cache_key("/networks", &ApiParams::new()), "/networks-d751713988987e9331980363e24189ce");
    assert_eq!(
        create_cache_key("/networks/ethereum/pools", &ApiParams::new().limit(10).page(2)),
        "/networks/ethereum/pools-9be01b2ef75ef963b4f52fa91b3039a2"
    );
    assert_eq!(
        create_cache_key("/x", &ApiParams::new().page(2).limit(10)),
        create_cache_key("/x", &ApiParams::new().limit(10).page(2))
    );
    assert_ne!(
        create_cache_key("/x", &ApiParams::new().page(2)),
        create_cache_key("/x", &ApiParams::new().page(3))
    );
}

#[test]
fn request_address_holds_the_pairs_in_order() {
    let pairs = ApiParams::new().limit(10).page(1).to_query_params();
    assert_eq!(
        build_url("/networks/ethereum/pools", &pairs),
        Ok("https://api.dexpaprika.com/networks/ethereum/pools?page=1&limit=10".to_string())
    );
    assert_eq!(build_url("/networks", &vec![]), Ok("https://api.dexpaprika.com/networks".to_string()));
    assert_eq!(
        build_url("/search?query=uniswap%20v3", &vec![]),
        Ok("https://api.dexpaprika.com/search?query=uniswap%20v3".to_string())
    );
    let odd = ApiParams::new().sort("a b&c=d").to_query_params();
    assert_eq!(build_url("/x", &odd), Ok("https://api.dexpaprika.com/x?sort=a+b%26c%3Dd".to_string()));
    let more = ApiParams::new().limit(3).to_query_params();
    assert_eq!(
        build_url("/search?query=eth#top", &more),
        Ok("https://api.dexpaprika.com/search?query=eth&limit=3#top".to_string())
    );
}

#[test]
fn an_address_that_cannot_be_parsed_is_a_url_error() {
    let r = build_url(":notaport/x", &vec![]);
    assert!(matches!(r, Err(PaprikaError::UrlError(_))));
    if let Err(e) = r {
        assert!(e.message().starts_with("URL parsing error: "));
        assert!(e.message().len() > "URL parsing error: ".len());
    }
}

#[test]
fn freshness_lasts_three_hundred_seconds() {
    assert!(is_fresh(at(1000, 0), at(1000, 0)));
    assert!(is_fresh(at(1000, 0), at(1299, 999_999_999)));
    assert!(!is_fresh(at(1000, 0), at(1300, 0)));
    assert!(is_fresh(at(1000, 900_000_000), at(1300, 899_999_999)));
    assert!(!is_fresh(at(1000, 900_000_000), at(1300, 900_000_000)));
    assert!(is_fresh(at(1000, 0), at(500, 0)));
    assert!(!is_fresh(at(i64::MIN, 0), at(i64::MAX, 0)));
}

#[test]
fn cache_answers_only_while_fresh_and_keeps_stale_entries() {
    let mut cache = Cache::new();
    assert_eq!(cache.get("k", at(0, 0)), None);
    cache.put("k".to_string(), Json::Bool(true), at(100, 0));
    assert_eq!(cache.get("k", at(100, 0)), Some(Json::Bool(true)));
    assert_eq!(cache.get("k", at(399, 999_999_999)), Some(Json::Bool(true)));
    assert_eq!(cache.get("k", at(400, 0)), None);
    assert_eq!(cache.get("k", at(200, 0)), Some(Json::Bool(true)));
    assert_eq!(cache.get("other", at(100, 0)), None);
    cache.put("k".to_string(), Json::Null, at(400, 0));
    assert_eq!(cache.get("k", at(500, 0)), Some(Json::Null));
    cache.put("other".to_string(), Json::Bool(false), at(400, 0));
    assert_eq!(cache.get("k", at(500, 0)), Some(Json::Null));
    assert_eq!(cache.get("other", at(500, 0)), Some(Json::Bool(false)));
}

#[test]
fn cache_round_trip() {
    let mut client = Client::new();
    let params = ApiParams::new().limit(5);
    let first = client.begin_at("/networks/ethereum/pools", Some(params.clone()), at(1_000, 0)).unwrap();
    let (url, key) = match first {
        Step::Fetch { url, key } => (url, key),
        Step::Cached(_) => panic!("nothing was cached yet"),
    };
    assert_eq!(url, "https://api.dexpaprika.com/networks/ethereum/pools?limit=5");
    assert_eq!(key, create_cache_key("/networks/ethereum/pools", &params));

    let body = r#"{"pools": [], "page_info": {"limit": 5, "page": 0, "total_items": 0, "total_pages": 0}}"#;
    let data = client.finish_at(key, ok_response(body), at(1_002, 0)).unwrap();
    assert_eq!(data, parse(body).unwrap());

    let again = client.begin_at("/networks/ethereum/pools", Some(params.clone()), at(1_301, 999_999_999)).unwrap();
    assert_eq!(again, Step::Cached(parse(body).unwrap()));

    let other = client.begin_at("/networks/ethereum/pools", Some(ApiParams::new().limit(6)), at(1_003, 0)).unwrap();
    assert!(matches!(other, Step::Fetch { .. }));
    let none = client.begin_at("/networks/ethereum/pools", None, at(1_003, 0)).unwrap();
    assert!(matches!(none, Step::Fetch { .. }));

    let later = client.begin_at("/networks/ethereum/pools", Some(params), at(1_302, 0)).unwrap();
    assert!(matches!(later, Step::Fetch { .. }));
}

#[test]
fn a_failed_request_stores_nothing() {
    let mut client = Client::new();
    let key = create_cache_key("/stats", &ApiParams::new());
    let r = client.finish_at(key.clone(), FetchOutcome::TimedOut, at(10, 0));
    assert_eq!(r, Err(PaprikaError::TimeoutError));
    assert!(matches!(client.begin_at("/stats", None, at(11, 0)), Ok(Step::Fetch { .. })));
    let r = client.finish_at(
        key,
        FetchOutcome::Response { status: 500, status_text: "500 Internal Server Error".to_string(), body: "{}".to_string() },
        at(12, 0),
    );
    assert!(r.is_err());
    assert!(matches!(client.begin_at("/stats", None, at(13, 0)), Ok(Step::Fetch { .. })));
}

#[test]
fn the_clock_versions_follow_the_same_rules() {
    let mut client = Client::new();
    let step = client.begin("/stats", None).unwrap();
    let key = match step {
        Step::Fetch { url, key } => {
            assert_eq!(url, "https://api.dexpaprika.com/stats");
            key
        }
        Step::Cached(_) => panic!("nothing was cached yet"),
    };
    let body = r#"{"chains": 1, "factories": 2, "pools": 3, "tokens": 4}"#;
    assert_eq!(client.finish(key, ok_response(body)), Ok(parse(body).unwrap()));
    assert_eq!(client.begin("/stats", None), Ok(Step::Cached(parse(body).unwrap())));
    assert!(matches!(client.begin(":bad", None), Err(PaprikaError::UrlError(_))));
}

#[test]
fn outcomes_are_told_apart() {
    assert_eq!(interpret(FetchOutcome::TimedOut), Err(PaprikaError::TimeoutError));
    assert_eq!(
        interpret(FetchOutcome::Failed("connection refused".to_string())),
        Err(PaprikaError::NetworkError("connection refused".to_string()))
    );
    assert_eq!(interpret(ok_response("[1]")), Ok(parse("[1]").unwrap()));
    assert!(matches!(interpret(ok_response("not json")), Err(PaprikaError::NetworkError(_))));
    let failure = |body: &str| FetchOutcome::Response {
        status: 404,
        status_text: "404 Not Found".to_string(),
        body: body.to_string(),
    };
    assert_eq!(
        interpret(failure(r#"{"error": "pool not found", "message": "try another"}"#)),
        Err(PaprikaError::ApiError("pool not found".to_string()))
    );
    assert_eq!(interpret(failure(r#"{"error": "gone"}"#)), Err(PaprikaError::ApiError("gone".to_string())));
    assert_eq!(interpret(failure(r#"{"message": "x"}"#)), Err(PaprikaError::HttpError("404 Not Found".to_string())));
    assert_eq!(interpret(failure("<html>")), Err(PaprikaError::HttpError("404 Not Found".to_string())));
    assert_eq!(interpret(failure(r#"[1, 2]"#)), Err(PaprikaError::HttpError("404 Not Found".to_string())));
}

#[test]
fn success_is_two_hundred_to_two_ninety_nine() {
    assert!(!is_success(199));
    assert!(is_success(200));
    assert!(is_success(204));
    assert!(is_success(299));
    assert!(!is_success(300));
    assert!(!is_success(404));
    assert!(!is_success(0));
}

#[test]
fn every_error_has_its_line() {
    assert_eq!(PaprikaError::HttpError("404 Not Found".to_string()).message(), "HTTP request failed: 404 Not Found");
    assert_eq!(PaprikaError::ApiError("e".to_string()).message(), "API error: e");
    assert_eq!(PaprikaError::JsonError("e".to_string()).message(), "JSON parsing error: e");
    assert_eq!(PaprikaError::UrlError("e".to_string()).message(), "URL parsing error: e");
    assert_eq!(PaprikaError::NetworkError("e".to_string()).message(), "Network error: e");
    assert_eq!(PaprikaError::TimeoutError.message(), "Request timeout");
    assert_eq!(PaprikaError::IoError("e".to_string()).message(), "IO error: e");
    assert_eq!(PaprikaError::CsvError("e".to_string()).message(), "CSV error: e");
    assert_eq!(PaprikaError::GenericError("e".to_string()).message(), "Generic error: e");
    assert_eq!(PaprikaError::ValidationError("e".to_string()).message(), "Validation error: e");
    assert_eq!(PaprikaError::from("boom".to_string()), PaprikaError::GenericError("boom".to_string()));
    assert_eq!(PaprikaError::generic("boom"), PaprikaError::GenericError("boom".to_string()));
    let e = PaprikaError::ApiError("e".to_string());
    assert_eq!(e.clone(), e);
}
