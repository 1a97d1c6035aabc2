//! The requests of the API, one function for each endpoint.
//!
//! A function here forms the request: the endpoint's path with the caller's
//! identifiers put in as they are, and the parameters. The document that
//! comes back is decoded by the decoder of the endpoint's record, and
//! `or_json_error` turns a document of the wrong shape into an error.

use vstd::prelude::*;
use crate::error::{ErrorView, PaprikaError};
use crate::params::{no_params, ApiParams, ApiParamsView};
use crate::text::{encode_spaces, join2, join3, join4, join5, spaces_encoded};

verus! {

/// A request: the path below the base address, and the parameters.
#[derive(Debug)]
pub struct Request {
    pub endpoint: String,
    pub params: Option<ApiParams>,
}

/// The value of a request.
pub struct RequestView {
    pub endpoint: Seq<char>,
    pub params: Option<ApiParamsView>,
}

/// The value of parameters that may be absent.
pub open spec fn params_view(params: Option<ApiParams>) -> Option<ApiParamsView> {
    match params {
        Some(p) => Some(p@),
        None => None,
    }
}

/// The parameters, or the empty set where there are none.
pub open spec fn params_or_empty(params: Option<ApiParams>) -> ApiParamsView {
    match params {
        Some(p) => p@,
        None => no_params(),
    }
}

impl View for Request {
    type V = RequestView;

    open spec fn view(&self) -> RequestView {
        RequestView { endpoint: self.endpoint@, params: params_view(self.params) }
    }
}

/// The path of a network's pools.
pub open spec fn network_pools_path(network: Seq<char>) -> Seq<char> {
    "/networks/"@ + network + "/pools"@
}

/// The path of one pool.
pub open spec fn pool_path(network: Seq<char>, pool: Seq<char>) -> Seq<char> {
    "/networks/"@ + network + "/pools/"@ + pool
}

/// The path of one token.
pub open spec fn token_path(network: Seq<char>, token: Seq<char>) -> Seq<char> {
    "/networks/"@ + network + "/tokens/"@ + token
}

/// The path of a search for a free text.
pub open spec fn search_path(query: Seq<char>) -> Seq<char> {
    "/search?query="@ + spaces_encoded(query)
}

/// The request for all supported networks.
pub fn get_networks() -> (r: Request)
    ensures
        r@ == (RequestView { endpoint: "/networks"@, params: None }),
{
    Request { endpoint: "/networks".to_owned(), params: None }
}

/// The request for the pools of a network.
pub fn get_network_pools(network: &str, params: Option<ApiParams>) -> (r: Request)
    ensures
        r@ == (RequestView { endpoint: network_pools_path(network@), params: params_view(params) }),
{
    Request { endpoint: join3("/networks/", network, "/pools"), params }
}

/// The request for the pools of one exchange on a network.
pub fn get_dex_pools(network: &str, dex: &str, params: Option<ApiParams>) -> (r: Request)
    ensures
        r@ == (RequestView {
            endpoint: "/networks/"@ + network@ + "/dexes/"@ + dex@ + "/pools"@,
            params: params_view(params),
        }),
{
    Request { endpoint: join5("/networks/", network, "/dexes/", dex, "/pools"), params }
}

/// The request for the exchanges of a network.
pub fn get_network_dexes(network: &str, params: Option<ApiParams>) -> (r: Request)
    ensures
        r@ == (RequestView {
            endpoint: "/networks/"@ + network@ + "/dexes"@,
            params: params_view(params),
        }),
{
    Request { endpoint: join3("/networks/", network, "/dexes"), params }
}

/// The request for one pool. The price ratio is inverted where `inversed`
/// says so; where it says nothing, no parameter is sent.
pub fn get_pool_details(network: &str, pool_address: &str, inversed: Option<bool>) -> (r: Request)
    ensures
        r@ == (RequestView {
            endpoint: pool_path(network@, pool_address@),
            params: Some(ApiParamsView { inversed, ..no_params() }),
        }),
{
    let mut params = ApiParams::new();
    params.inversed = inversed;
    Request { endpoint: join4("/networks/", network, "/pools/", pool_address), params: Some(params) }
}

/// The request for the price buckets of a pool from `start` on. The start
/// replaces one that the parameters hold.
pub fn get_pool_ohlcv(
    network: &str,
    pool_address: &str,
    start: &str,
    params: Option<ApiParams>,
) -> (r: Request)
    ensures
        r@ == (RequestView {
            endpoint: pool_path(network@, pool_address@) + "/ohlcv"@,
            params: Some(ApiParamsView { start: Some(start@), ..params_or_empty(params) }),
        }),
{
    let base = match params {
        Some(p) => p,
        None => ApiParams::new(),
    };
    let with_start = base.start(start);
    Request {
        endpoint: join5("/networks/", network, "/pools/", pool_address, "/ohlcv"),
        params: Some(with_start),
    }
}

/// The request for the transactions of a pool.
pub fn get_pool_transactions(network: &str, pool_address: &str, params: Option<ApiParams>) -> (r:
    Request)
    ensures
        r@ == (RequestView {
            endpoint: pool_path(network@, pool_address@) + "/transactions"@,
            params: params_view(params),
        }),
{
    Request {
        endpoint: join5("/networks/", network, "/pools/", pool_address, "/transactions"),
        params,
    }
}

/// The request for one token.
pub fn get_token_details(network: &str, token_address: &str) -> (r: Request)
    ensures
        r@ == (RequestView { endpoint: token_path(network@, token_address@), params: None }),
{
    Request { endpoint: join4("/networks/", network, "/tokens/", token_address), params: None }
}

/// The request for the pools that hold a token.
pub fn get_token_pools(network: &str, token_address: &str, params: Option<ApiParams>) -> (r:
    Request)
    ensures
        r@ == (RequestView {
            endpoint: token_path(network@, token_address@) + "/pools"@,
            params: params_view(params),
        }),
{
    Request {
        endpoint: join5("/networks/", network, "/tokens/", token_address, "/pools"),
        params,
    }
}

/// The request for a search. The query stands in the path itself, with its
/// spaces written as `%20`.
pub fn search_entities(query: &str) -> (r: Request)
    ensures
        r@ == (RequestView { endpoint: search_path(query@), params: None }),
{
    let encoded = encode_spaces(query);
    Request { endpoint: join2("/search?query=", encoded.as_str()), params: None }
}

/// The request for the system statistics.
pub fn get_system_stats() -> (r: Request)
    ensures
        r@ == (RequestView { endpoint: "/stats"@, params: None }),
{
    Request { endpoint: "/stats".to_owned(), params: None }
}

/// The request for the pools of a network with the highest volume: at most
/// `limit` pools, ordered by volume, largest first.
pub fn get_high_volume_pools(network: &str, limit: u32) -> (r: Request)
    ensures
        r@ == (RequestView {
            endpoint: network_pools_path(network@),
            params: Some(
                ApiParamsView {
                    limit: Some(limit),
                    order_by: Some("volume_usd"@),
                    sort: Some("desc"@),
                    ..no_params()
                },
            ),
        }),
{
    let params = ApiParams::new().limit(limit).order_by("volume_usd").sort("desc");
    get_network_pools(network, Some(params))
}

/// The request behind the top movers of a network: three times as many
/// pools as are wanted, so that enough are left after filtering.
pub fn get_top_movers(network: &str, limit: u32) -> (r: Request)
    requires
        limit * 3 <= u32::MAX,
    ensures
        r@ == (RequestView {
            endpoint: network_pools_path(network@),
            params: Some(ApiParamsView { limit: Some((limit * 3) as u32), ..no_params() }),
        }),
{
    let params = ApiParams::new().limit(limit * 3);
    get_network_pools(network, Some(params))
}

/// The error of a document that does not have the shape of the record that
/// was asked for.
pub open spec fn shape_error() -> ErrorView {
    ErrorView::JsonError("the document does not have the expected shape"@)
}

/// The error of a document that does not have the shape of the record that
/// was asked for.
pub fn shape_mismatch() -> (r: PaprikaError)
    ensures
        r@ == shape_error(),
{
    PaprikaError::JsonError("the document does not have the expected shape".to_owned())
}

/// The document's record, or the error of a document of the wrong shape
/// where it did not decode.
pub fn or_json_error<T>(decoded: Option<T>) -> (r: Result<T, PaprikaError>)
    ensures
        match r {
            Ok(t) => decoded == Some(t),
            Err(e) => decoded is None && e@ == shape_error(),
        },
{
    match decoded {
        Some(t) => Ok(t),
        None => Err(shape_mismatch()),
    }
}

} // verus!
