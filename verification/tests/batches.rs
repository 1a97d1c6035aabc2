use paprika_helpers::batch::{
    collect_pools, collect_searches, collect_tokens, multiple_pools_requests, search_batch_requests,
    token_batch_requests, AsyncResult,
};
use paprika_helpers::error::PaprikaError;
use paprika_helpers::json::{parse, Json};

fn token_doc(id: &str) -> Json {
    parse(&format!(r#"{{"id": "{}", "name": "N", "symbol": "S", "chain": "ethereum"}}"#, id)).unwrap()
}

#[test]
fn one_failure_does_not_fail_the_batch() {
    let outcomes = vec![
        ("ethereum".to_string(), Ok(parse(r#"{"pools": []}"#).unwrap())),
        ("no-such-network".to_string(), Err(PaprikaError::ApiError("network not found".to_string()))),
        ("solana".to_string(), Ok(parse(r#"[1, 2]"#).unwrap())),
    ];
    let entries = collect_pools(&outcomes);
    assert_eq!(entries.len(), 3);
    assert_eq!(entries[0], ("ethereum".to_string(), parse(r#"{"pools": []}"#).unwrap()));
    assert_eq!(
        entries[1],
        (
            "no-such-network".to_string(),
            Json::Object(vec![("error".to_string(), Json::Text("API error: network not found".to_string()))])
        )
    );
    assert_eq!(entries[2], ("solana".to_string(), parse("[1, 2]").unwrap()));
    let marked = entries.iter().filter(|(_, j)| matches!(j, Json::Object(m) if m.len() == 1 && m[0].0 == "error")).count();
    assert_eq!(marked, 1);
}

#[test]
fn a_later_outcome_replaces_an_earlier_one_of_the_same_name() {
    let outcomes = vec![
        ("a".to_string(), Ok(Json::Bool(true))),
        ("b".to_string(), Ok(Json::Null)),
        ("a".to_string(), Err(PaprikaError::TimeoutError)),
    ];
    let entries = collect_pools(&outcomes);
    assert_eq!(entries.len(), 2);
    assert_eq!(entries[0].0, "a");
    assert_eq!(entries[0].1, Json::Object(vec![("error".to_string(), Json::Text("Request timeout".to_string()))]));
    assert_eq!(entries[1], ("b".to_string(), Json::Null));
    assert!(collect_pools(&vec![]).is_empty());
}

#[test]
fn batch_requests_are_one_for_each_member() {
    let networks = vec!["ethereum".to_string(), "polygon".to_string()];
    let requests = multiple_pools_requests(&networks, 2);
    assert_eq!(requests.len(), 2);
    assert_eq!(requests[0].endpoint, "/networks/ethereum/pools");
    assert_eq!(requests[1].endpoint, "/networks/polygon/pools");
    assert_eq!(requests[1].params.as_ref().unwrap().to_query_params(), vec![("limit", "2".to_string())]);

    let tokens = token_batch_requests(&vec!["0xa".to_string(), "0xb".to_string()], "ethereum");
    assert_eq!(tokens.len(), 2);
    assert_eq!(tokens[1].endpoint, "/networks/ethereum/tokens/0xb");
    assert!(tokens[1].params.is_none());

    let searches = search_batch_requests(&vec!["uni swap".to_string()]);
    assert_eq!(searches.len(), 1);
    assert_eq!(searches[0].endpoint, "/search?query=uni%20swap");
}

#[test]
fn token_results_stand_at_their_places() {
    let outcomes = vec![
        (2usize, Ok(token_doc("third"))),
        (0usize, Err(PaprikaError::NetworkError("down".to_string()))),
        (1usize, Ok(parse("[]").unwrap())),
        (7usize, Ok(token_doc("beyond"))),
    ];
    let results = collect_tokens(4, "ethereum", &outcomes);
    assert_eq!(results.len(), 4);
    assert_eq!(results[0].network, Some("ethereum".to_string()));
    assert_eq!(results[0].data, None);
    assert_eq!(results[0].error, Some("Network error: down".to_string()));
    assert_eq!(
        results[1],
        AsyncResult {
            network: Some("ethereum".to_string()),
            query: None,
            data: None,
            error: Some("JSON parsing error: the document does not have the expected shape".to_string()),
        }
    );
    assert_eq!(results[2].data.as_ref().unwrap().id, "third");
    assert_eq!(results[2].network, Some("ethereum".to_string()));
    assert_eq!(results[2].error, None);
    assert_eq!(results[3], AsyncResult { network: None, query: None, data: None, error: None });
    assert!(collect_tokens(0, "ethereum", &outcomes).is_empty());
}

#[test]
fn search_results_carry_their_queries() {
    let queries = vec!["uniswap".to_string(), "curve".to_string(), "balancer".to_string()];
    let outcomes = vec![
        (1usize, Ok(parse(r#"{"tokens": [], "pools": [], "dexes": []}"#).unwrap())),
        (0usize, Err(PaprikaError::TimeoutError)),
        (2usize, Ok(parse(r#"{"tokens": []}"#).unwrap())),
        (3usize, Err(PaprikaError::TimeoutError)),
    ];
    let results = collect_searches(&queries, &outcomes);
    assert_eq!(results.len(), 3);
    assert_eq!(results[0].query, Some("uniswap".to_string()));
    assert_eq!(results[0].error, Some("Request timeout".to_string()));
    assert!(results[0].data.is_none());
    assert_eq!(results[1].query, Some("curve".to_string()));
    assert!(results[1].data.is_some());
    assert_eq!(results[1].network, None);
    assert_eq!(
        results[2],
        AsyncResult {
            network: None,
            query: Some("balancer".to_string()),
            data: None,
            error: Some("JSON parsing error: the document does not have the expected shape".to_string()),
        }
    );
}

#[test]
fn a_document_that_is_no_token_is_marked_not_swallowed() {
    let outcomes = vec![(0usize, Ok(parse(r#"{"x": 1}"#).unwrap()))];
    let results = collect_tokens(2, "ethereum", &outcomes);
    assert_eq!(results[0].data, None);
    assert!(results[0].error.is_some());
    assert_eq!(results[0].network, Some("ethereum".to_string()));
    assert_eq!(results[1], AsyncResult { network: None, query: None, data: None, error: None });
}
