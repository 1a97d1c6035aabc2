//! The request pipeline: cache key, request address, and the two decisions
//! that surround the network call.
//!
//! The transport is not part of the library. A caller asks `begin` what to
//! do; the answer is a cached document or an address to fetch. It performs
//! the fetch, bounded by `DEFAULT_TIMEOUT_SECS`, and hands what came back to
//! `finish`, which tells success from failure and stores a success in the
//! cache before it returns it.

use vstd::prelude::*;
use vstd::string::StringSliceAdditionalSpecFns;
use vstd::utf8::encode_utf8;
use url::Url;
use crate::cache::{lookup, Cache, CacheEntryView};
use crate::decode::{api_error_of, decode_api_error};
use crate::error::{ErrorView, PaprikaError};
use crate::json::{parse, parsed_json, Json, JsonView};
use crate::params::{no_params, pairs_view, query_pairs, ApiParams, ApiParamsView, QueryPair};
use crate::text::join2;
use crate::time::{now, Instant};

verus! {

/// The address that every endpoint is appended to.
pub const BASE_URL: &'static str = "https://api.dexpaprika.com";

/// The deadline of one network call, in seconds.
pub const DEFAULT_TIMEOUT_SECS: u64 = 10;

/// The longest address, in bytes, that `url` can hold.
pub const MAX_URL_BYTES: u128 = 0xffff_ffff;

/// `url::Url`, a parsed address.
#[verifier::external_type_specification]
#[verifier::external_body]
pub struct ExUrl(Url);

/// `url::ParseError`, the error of a text that is no address.
#[verifier::external_type_specification]
#[verifier::external_body]
pub struct ExParseError(url::ParseError);

/// The JSON text that `serde_json` writes for a list of pairs of strings;
/// `None` where it reports an error.
pub uninterp spec fn pairs_json_text(pairs: Seq<QueryPair>) -> Option<Seq<char>>;

/// The MD5 digest of a sequence of bytes, as lower-case hexadecimal digits.
pub uninterp spec fn md5_hex_digest(data: Seq<u8>) -> Seq<char>;

/// The serialization of a parsed address.
pub uninterp spec fn url_text(u: Url) -> Seq<char>;

/// The serialization of the address that `url` parses out of a text; `None`
/// where it rejects the text.
pub uninterp spec fn parsed_url(text: Seq<char>) -> Option<Seq<char>>;

/// The serialization of an address after one more name and value have been
/// appended to its query.
pub uninterp spec fn url_with_pair(text: Seq<char>, name: Seq<char>, value: Seq<char>) -> Seq<char>;

/// `serde_json::to_string` on a list of pairs of strings. The outcome
/// depends on the names and values alone.
#[verifier::external_body]
fn pairs_to_json(pairs: &Vec<(&'static str, String)>) -> (r: Result<String, serde_json::Error>)
    ensures
        match r {
            Ok(s) => pairs_json_text(pairs_view(pairs@)) == Some(s@),
            Err(_) => pairs_json_text(pairs_view(pairs@)) is None,
        },
{
    serde_json::to_string(pairs)
}

/// `md5::compute`, with the digest written as lower-case hexadecimal digits.
#[verifier::external_body]
fn md5_hex(data: &[u8]) -> (r: String)
    ensures
        r@ == md5_hex_digest(data@),
{
    format!("{:x}", md5::compute(data))
}

/// `Url::parse`. Whether the text is accepted, and the address it gives,
/// depends on the text alone.
#[verifier::external_body]
fn url_parse(text: &str) -> (r: Result<Url, url::ParseError>)
    ensures
        match r {
            Ok(u) => parsed_url(text@) == Some(url_text(u)),
            Err(_) => parsed_url(text@) is None,
        },
{
    Url::parse(text)
}

/// `Url::query_pairs_mut` and `append_pair` on what it returns. The new
/// serialization depends on the old one, the name and the value alone. A
/// separator, the encoded name, `=` and the encoded value are appended, each
/// byte as at most three characters. `url` keeps positions in 32 bits, so
/// the address must stay within them.
#[verifier::external_body]
fn url_append_pair(u: &mut Url, name: &str, value: &str)
    requires
        pair_fits(url_text(*old(u)), (name@, value@)),
    ensures
        url_text(*final(u)) == url_with_pair(url_text(*old(u)), name@, value@),
{
    u.query_pairs_mut().append_pair(name, value);
}

/// The length in bytes of `Url::as_str`.
#[verifier::external_body]
fn url_byte_len(u: &Url) -> (r: usize)
    ensures
        r == encode_utf8(url_text(*u)).len(),
{
    u.as_str().len()
}

/// The serialization of an address, by `String::from`.
#[verifier::external_body]
fn url_into_text(u: Url) -> (r: String)
    ensures
        r@ == url_text(u),
{
    String::from(u)
}

/// The words of a `url::ParseError`, by its `Display`.
#[verifier::external_body]
fn url_error_words(e: &url::ParseError) -> (r: String) {
    e.to_string()
}

/// The text that the key's digest is taken of: the JSON text of the query
/// pairs, or nothing where there is no such text.
pub open spec fn params_text(pairs: Seq<QueryPair>) -> Seq<char> {
    match pairs_json_text(pairs) {
        Some(text) => text,
        None => Seq::empty(),
    }
}

/// The cache key of a request: the endpoint, a hyphen, and the MD5 digest of
/// the query pairs' JSON text. It is a function of the endpoint and of the
/// query pairs, so two requests with the same endpoint and the same
/// parameters have the same key, in whatever order the parameters were set.
pub open spec fn cache_key(endpoint: Seq<char>, pairs: Seq<QueryPair>) -> Seq<char> {
    endpoint + "-"@ + md5_hex_digest(encode_utf8(params_text(pairs)))
}

/// True when one more pair can be appended to an address of this
/// serialization without leaving the 32 bits that `url` keeps positions in.
pub open spec fn pair_fits(text: Seq<char>, pair: QueryPair) -> bool {
    encode_utf8(text).len() + 3 * (encode_utf8(pair.0).len() + encode_utf8(pair.1).len()) + 3
        <= MAX_URL_BYTES
}

/// The address after all pairs have been appended, in order; `None` where
/// one of them no longer fits.
pub open spec fn with_pairs(text: Seq<char>, pairs: Seq<QueryPair>) -> Option<Seq<char>>
    decreases pairs.len(),
{
    if pairs.len() == 0 {
        Some(text)
    } else if !pair_fits(text, pairs[0]) {
        None
    } else {
        with_pairs(url_with_pair(text, pairs[0].0, pairs[0].1), pairs.drop_first())
    }
}

/// The address of a request: the base address and the endpoint, parsed, with
/// the query pairs appended in their order.
pub open spec fn request_url(endpoint: Seq<char>, pairs: Seq<QueryPair>) -> Option<Seq<char>> {
    match parsed_url(BASE_URL@ + endpoint) {
        Some(text) => with_pairs(text, pairs),
        None => None,
    }
}

/// The query pairs of parameters that may be absent; absent parameters are
/// the empty set.
pub open spec fn pairs_of(params: Option<ApiParams>) -> Seq<QueryPair> {
    match params {
        Some(p) => query_pairs(p@),
        None => query_pairs(no_params()),
    }
}

/// The cache key of a request.
pub fn create_cache_key(endpoint: &str, params: &ApiParams) -> (r: String)
    ensures
        r@ == cache_key(endpoint@, query_pairs(params@)),
{
    let pairs = params.to_query_params();
    let text = match pairs_to_json(&pairs) {
        Ok(s) => s,
        Err(_) => String::new(),
    };
    let digest = md5_hex(text.as_str().as_bytes());
    let mut key = endpoint.to_owned();
    key.append("-");
    key.append(digest.as_str());
    key
}

/// The address of a request, or `UrlError` where `url` rejects the base
/// address with the endpoint or the address grows past what `url` can hold.
pub fn build_url(endpoint: &str, pairs: &Vec<(&'static str, String)>) -> (r: Result<
    String,
    PaprikaError,
>)
    ensures
        match r {
            Ok(u) => request_url(endpoint@, pairs_view(pairs@)) == Some(u@),
            Err(e) => request_url(endpoint@, pairs_view(pairs@)) is None && e is UrlError,
        },
{
    let full = join2(BASE_URL, endpoint);
    let mut url = match url_parse(full.as_str()) {
        Ok(u) => u,
        Err(e) => {
            return Err(PaprikaError::UrlError(url_error_words(&e)));
        },
    };
    let ghost all = pairs_view(pairs@);
    let ghost start = url_text(url);
    let mut i: usize = 0;
    assert(all.skip(0) =~= all);
    while i < pairs.len()
        invariant
            i <= pairs.len(),
            all == pairs_view(pairs@),
            parsed_url(BASE_URL@ + endpoint@) == Some(start),
            with_pairs(start, all) == with_pairs(url_text(url), all.skip(i as int)),
        decreases pairs.len() - i,
    {
        let name: &str = pairs[i].0;
        let value: &str = pairs[i].1.as_str();
        proof {
            assert(all.skip(i as int).drop_first() =~= all.skip(i as int + 1));
            assert(all.skip(i as int)[0] == (name@, value@));
            assert(name.spec_bytes() == encode_utf8(name@));
            assert(value.spec_bytes() == encode_utf8(value@));
        }
        let name_len = name.as_bytes().len();
        let value_len = value.as_bytes().len();
        let needed: u128 = (url_byte_len(&url) as u128) + 3 * ((name_len as u128) + (
        value_len as u128)) + 3;
        if needed > MAX_URL_BYTES {
            return Err(
                PaprikaError::UrlError("URLs more than 4 GB are not supported".to_owned()),
            );
        }
        url_append_pair(&mut url, name, value);
        i += 1;
    }
    assert(all.skip(i as int).len() == 0);
    Ok(url_into_text(url))
}

/// What the caller is to do for a request.
#[derive(Debug, PartialEq)]
pub enum Step {
    /// The answer is in the cache and fresh: no network call is to be made.
    Cached(Json),
    /// The address is to be fetched, and the outcome handed to `finish`
    /// together with the key.
    Fetch { url: String, key: String },
}

/// The value of a step.
pub enum StepView {
    Cached(JsonView),
    Fetch { url: Seq<char>, key: Seq<char> },
}

impl View for Step {
    type V = StepView;

    open spec fn view(&self) -> StepView {
        match self {
            Step::Cached(j) => StepView::Cached(j@),
            Step::Fetch { url, key } => StepView::Fetch { url: url@, key: key@ },
        }
    }
}

/// What came back from the transport.
#[derive(Debug, PartialEq)]
pub enum FetchOutcome {
    /// The deadline passed.
    TimedOut,
    /// The transport failed, or the body could not be read; holds its words.
    Failed(String),
    /// A response came: its status code, its status as text (such as
    /// `404 Not Found`) and its body.
    Response { status: u16, status_text: String, body: String },
}

/// The value of an outcome.
pub enum OutcomeView {
    TimedOut,
    Failed(Seq<char>),
    Response { status: u16, status_text: Seq<char>, body: Seq<char> },
}

impl View for FetchOutcome {
    type V = OutcomeView;

    open spec fn view(&self) -> OutcomeView {
        match self {
            FetchOutcome::TimedOut => OutcomeView::TimedOut,
            FetchOutcome::Failed(s) => OutcomeView::Failed(s@),
            FetchOutcome::Response { status, status_text, body } => OutcomeView::Response {
                status: *status,
                status_text: status_text@,
                body: body@,
            },
        }
    }
}

/// The step for a request, given what the cache holds: a fresh entry under
/// the request's key is the answer; otherwise the request's address is to
/// be fetched. `None` where there is no fresh entry and no address.
pub open spec fn plan(
    entries: Map<Seq<char>, CacheEntryView>,
    endpoint: Seq<char>,
    pairs: Seq<QueryPair>,
    now: Instant,
) -> Option<StepView> {
    let key = cache_key(endpoint, pairs);
    match lookup(entries, key, now) {
        Some(data) => Some(StepView::Cached(data)),
        None => match request_url(endpoint, pairs) {
            Some(url) => Some(StepView::Fetch { url, key }),
            None => None,
        },
    }
}

/// True for the status codes that mean success: 200 to 299.
pub open spec fn success_status(status: u16) -> bool {
    200 <= status < 300
}

/// The service's own words in the body of a failure response, where the
/// body is JSON and encodes an error payload.
pub open spec fn api_error_words(body: Seq<char>) -> Option<Seq<char>> {
    match parsed_json(body) {
        Some(j) => match api_error_of(j) {
            Some(e) => Some(e.error),
            None => None,
        },
        None => None,
    }
}

/// The document that an outcome carries, if it carries one: the body of a
/// response with a success status, where the body is JSON.
pub open spec fn outcome_document(outcome: OutcomeView) -> Option<JsonView> {
    match outcome {
        OutcomeView::Response { status, status_text, body } => if success_status(status) {
            parsed_json(body)
        } else {
            None
        },
        _ => None,
    }
}

/// True when `e` is the error that an outcome without a document stands
/// for: a timeout for a deadline that passed; a network error with the
/// transport's words for a failed transport; a network error for a success
/// status whose body is no JSON; for a failure status, the service's own
/// words as an API error where the body holds them, and otherwise the status
/// as an HTTP error.
pub open spec fn outcome_error(outcome: OutcomeView, e: ErrorView) -> bool {
    match outcome {
        OutcomeView::TimedOut => e == ErrorView::TimeoutError,
        OutcomeView::Failed(words) => e == ErrorView::NetworkError(words),
        OutcomeView::Response { status, status_text, body } => if success_status(status) {
            e is NetworkError
        } else {
            match api_error_words(body) {
                Some(words) => e == ErrorView::ApiError(words),
                None => e == ErrorView::HttpError(status_text),
            }
        },
    }
}

/// What the cache holds after an outcome has been handled: a document is
/// stored under the key with the time of handling; without a document
/// nothing changes.
pub open spec fn stored_after(
    entries: Map<Seq<char>, CacheEntryView>,
    key: Seq<char>,
    outcome: OutcomeView,
    now: Instant,
) -> Map<Seq<char>, CacheEntryView> {
    match outcome_document(outcome) {
        Some(data) => entries.insert(key, CacheEntryView { data, timestamp: now }),
        None => entries,
    }
}

/// Whether a status code means success.
pub fn is_success(status: u16) -> (r: bool)
    ensures
        r == success_status(status),
{
    200 <= status && status < 300
}

/// Tells what an outcome means: the document of a successful response, or
/// the error that the outcome stands for.
pub fn interpret(outcome: FetchOutcome) -> (r: Result<Json, PaprikaError>)
    ensures
        match r {
            Ok(j) => outcome_document(outcome@) == Some(j@),
            Err(e) => outcome_document(outcome@) is None && outcome_error(outcome@, e@),
        },
{
    match outcome {
        FetchOutcome::TimedOut => Err(PaprikaError::TimeoutError),
        FetchOutcome::Failed(words) => Err(PaprikaError::NetworkError(words)),
        FetchOutcome::Response { status, status_text, body } => {
            if is_success(status) {
                match parse(body.as_str()) {
                    Ok(j) => Ok(j),
                    Err(words) => Err(PaprikaError::NetworkError(words)),
                }
            } else {
                match parse(body.as_str()) {
                    Ok(j) => match decode_api_error(&j) {
                        Some(e) => Err(PaprikaError::ApiError(e.error)),
                        None => Err(PaprikaError::HttpError(status_text)),
                    },
                    Err(_) => Err(PaprikaError::HttpError(status_text)),
                }
            }
        },
    }
}

/// A client: the owner of one cache.
pub struct Client {
    pub cache: Cache,
}

impl Client {
    /// A client with an empty cache.
    pub fn new() -> (r: Client)
        ensures
            r.cache@ == crate::cache::nothing_stored(),
    {
        Client { cache: Cache::new() }
    }

    /// The step for a request at the time `now`. Absent parameters count as
    /// the empty set. A fresh cache entry under the request's key is
    /// returned and no address is formed; otherwise the address is formed,
    /// and `UrlError` says that it could not be. The cache is not changed.
    pub fn begin_at(&self, endpoint: &str, params: Option<ApiParams>, now: Instant) -> (r: Result<
        Step,
        PaprikaError,
    >)
        ensures
            match r {
                Ok(step) => plan(self.cache@, endpoint@, pairs_of(params), now) == Some(step@),
                Err(e) => plan(self.cache@, endpoint@, pairs_of(params), now) is None
                    && e is UrlError,
            },
    {
        let params = match params {
            Some(p) => p,
            None => ApiParams::new(),
        };
        let key = create_cache_key(endpoint, &params);
        match self.cache.get(key.as_str(), now) {
            Some(data) => Ok(Step::Cached(data)),
            None => {
                let pairs = params.to_query_params();
                match build_url(endpoint, &pairs) {
                    Ok(url) => Ok(Step::Fetch { url, key }),
                    Err(e) => Err(e),
                }
            },
        }
    }

    /// The step for a request at the time the system clock shows. Whatever
    /// the clock shows, the step is the one that `begin_at` gives for some
    /// time.
    pub fn begin(&self, endpoint: &str, params: Option<ApiParams>) -> (r: Result<
        Step,
        PaprikaError,
    >)
        ensures
            exists|at: Instant|
                at.within_second() && match r {
                    Ok(step) => #[trigger] plan(self.cache@, endpoint@, pairs_of(params), at)
                        == Some(step@),
                    Err(e) => #[trigger] plan(self.cache@, endpoint@, pairs_of(params), at)
                        is None && e is UrlError,
                },
    {
        let at = now();
        let r = self.begin_at(endpoint, params, at);
        proof {
            let found = plan(self.cache@, endpoint@, pairs_of(params), at);
            assert(at.within_second() && match r {
                Ok(step) => found == Some(step@),
                Err(e) => found is None && e is UrlError,
            });
        }
        r
    }

    /// Handles what came back for the request with the given key at the
    /// time `now`. A document is stored in the cache under the key before it
    /// is returned; an error leaves the cache as it was.
    pub fn finish_at(&mut self, key: String, outcome: FetchOutcome, now: Instant) -> (r: Result<
        Json,
        PaprikaError,
    >)
        ensures
            match r {
                Ok(j) => outcome_document(outcome@) == Some(j@),
                Err(e) => outcome_document(outcome@) is None && outcome_error(outcome@, e@),
            },
            final(self).cache@ == stored_after(old(self).cache@, key@, outcome@, now),
    {
        match interpret(outcome) {
            Ok(j) => {
                self.cache.put(key, j.clone(), now);
                Ok(j)
            },
            Err(e) => Err(e),
        }
    }

    /// Handles what came back for the request with the given key, at the
    /// time the system clock shows.
    pub fn finish(&mut self, key: String, outcome: FetchOutcome) -> (r: Result<Json, PaprikaError>)
        ensures
            match r {
                Ok(j) => outcome_document(outcome@) == Some(j@),
                Err(e) => outcome_document(outcome@) is None && outcome_error(outcome@, e@),
            },
            exists|at: Instant|
                at.within_second() && final(self).cache@ == #[trigger] stored_after(
                    old(self).cache@,
                    key@,
                    outcome@,
                    at,
                ),
    {
        let at = now();
        let r = self.finish_at(key, outcome, at);
        assert(at.within_second() && self.cache@ == stored_after(
            old(self).cache@,
            key@,
            outcome@,
            at,
        ));
        r
    }
}

/// The cache key and the address of a request do not depend on the order in
/// which its parameters were set: the page set before the limit gives the
/// same key and the same address as the limit set before the page.
pub proof fn lemma_key_ignores_setter_order(
    endpoint: Seq<char>,
    params: ApiParamsView,
    page: u32,
    limit: u32,
)
    ensures
        ({
            let page_first = ApiParamsView {
                limit: Some(limit),
                ..(ApiParamsView { page: Some(page), ..params })
            };
            let limit_first = ApiParamsView {
                page: Some(page),
                ..(ApiParamsView { limit: Some(limit), ..params })
            };
            &&& cache_key(endpoint, query_pairs(page_first)) == cache_key(
                endpoint,
                query_pairs(limit_first),
            )
            &&& request_url(endpoint, query_pairs(page_first)) == request_url(
                endpoint,
                query_pairs(limit_first),
            )
        }),
{
}

/// A request that was answered with a document at `stored_at` is answered
/// from the cache, without a network call, whenever it is made again with
/// the same endpoint and parameters while fewer than 300 seconds have
/// passed; once 300 seconds have passed, the address is to be fetched again.
pub proof fn lemma_cache_round_trip(
    entries: Map<Seq<char>, CacheEntryView>,
    endpoint: Seq<char>,
    pairs: Seq<QueryPair>,
    outcome: OutcomeView,
    stored_at: Instant,
    again_at: Instant,
)
    requires
        outcome_document(outcome) is Some,
    ensures
        ({
            let key = cache_key(endpoint, pairs);
            let after = stored_after(entries, key, outcome, stored_at);
            let again = plan(after, endpoint, pairs, again_at);
            if again_at.total_nanos() - stored_at.total_nanos() < 300_000_000_000 {
                again == Some(StepView::Cached(outcome_document(outcome)->0))
            } else {
                again matches Some(step) ==> step is Fetch
            }
        }),
{
}

} // verus!
