//! Batches: many requests made side by side, and their outcomes put
//! together.
//!
//! One request's failure never fails the batch. Each member of a batch ends
//! as a document or record of its own, or as a marker that holds the words
//! of its error. The outcomes may be handed in in any order.

use vstd::prelude::*;
use crate::assoc::{find_key, firsts, keys, lemma_position, position};
use crate::decode::{decode_search_response, decode_token, search_response_of, token_of};
use crate::endpoints::{
    get_network_pools, get_token_details, network_pools_path, search_entities, search_path,
    shape_error, shape_mismatch, token_path, Request, RequestView,
};
use crate::error::{error_text, ErrorView, PaprikaError};
use crate::json::{lemma_members_view, members_view, views, Json, JsonView};
use crate::params::{no_params, ApiParams, ApiParamsView};
use crate::records::{SearchResponse, SearchResponseView, Token, TokenView};
use crate::text::opt_chars;

verus! {

/// The result of one member of a batch.
#[derive(Debug, PartialEq)]
pub struct AsyncResult<T> {
    pub network: Option<String>,
    pub query: Option<String>,
    pub data: Option<T>,
    pub error: Option<String>,
}

/// The value of a batch member's result.
pub struct AsyncResultView<V> {
    pub network: Option<Seq<char>>,
    pub query: Option<Seq<char>>,
    pub data: Option<V>,
    pub error: Option<Seq<char>>,
}

impl<T: View> View for AsyncResult<T> {
    type V = AsyncResultView<T::V>;

    open spec fn view(&self) -> AsyncResultView<T::V> {
        AsyncResultView {
            network: opt_chars(self.network),
            query: opt_chars(self.query),
            data: match self.data {
                Some(t) => Some(t@),
                None => None,
            },
            error: opt_chars(self.error),
        }
    }
}

/// The outcome of one request: its document, or its error.
pub type Outcome = Result<JsonView, ErrorView>;

/// The value of an outcome.
pub open spec fn outcome_view(o: Result<Json, PaprikaError>) -> Outcome {
    match o {
        Ok(j) => Ok(j@),
        Err(e) => Err(e@),
    }
}

/// The values of outcomes that are keyed by name.
pub open spec fn named_outcomes(s: Seq<(String, Result<Json, PaprikaError>)>) -> Seq<
    (Seq<char>, Outcome),
> {
    Seq::new(s.len(), |i: int| (s[i].0@, outcome_view(s[i].1)))
}

/// The values of outcomes that are keyed by position.
pub open spec fn indexed_outcomes(s: Seq<(usize, Result<Json, PaprikaError>)>) -> Seq<
    (int, Outcome),
> {
    Seq::new(s.len(), |i: int| (s[i].0 as int, outcome_view(s[i].1)))
}

/// The result in which nothing is set.
pub open spec fn blank<V>() -> AsyncResultView<V> {
    AsyncResultView { network: None, query: None, data: None, error: None }
}

/// The marker that stands for a failed member: an object whose one member,
/// `error`, holds the words of the error.
pub open spec fn error_marker(e: ErrorView) -> JsonView {
    JsonView::Object(seq![("error"@, JsonView::Text(error_text(e)))])
}

/// What a member of a batch of documents ends as: its document, or the
/// marker of its error.
pub open spec fn entry_of(o: Outcome) -> JsonView {
    match o {
        Ok(j) => j,
        Err(e) => error_marker(e),
    }
}

/// The list with the name set to the value: an entry of that name is
/// replaced where it stands, and a new name is added at the end.
pub open spec fn upsert(list: Seq<(Seq<char>, JsonView)>, name: Seq<char>, value: JsonView) -> Seq<
    (Seq<char>, JsonView),
> {
    match position(firsts(list), name) {
        Some(i) => list.update(i, (name, value)),
        None => list.push((name, value)),
    }
}

/// The entries of a batch of documents: every outcome in turn sets the entry
/// of its name, so of two outcomes of one name the later one stays.
pub open spec fn collected(outcomes: Seq<(Seq<char>, Outcome)>) -> Seq<(Seq<char>, JsonView)>
    decreases outcomes.len(),
{
    if outcomes.len() == 0 {
        Seq::empty()
    } else {
        upsert(collected(outcomes.drop_last()), outcomes.last().0, entry_of(outcomes.last().1))
    }
}

/// Where no two outcomes have the same name, the batch has one entry for
/// each outcome, in the order of the outcomes: the document of a request
/// that succeeded, and the error marker of one that failed. So a batch of N
/// names of which one fails has N entries, N-1 documents and one marker.
pub proof fn lemma_batch_keeps_every_member(outcomes: Seq<(Seq<char>, Outcome)>)
    requires
        forall|i: int, j: int|
            0 <= i < j < outcomes.len() ==> outcomes[i].0 != outcomes[j].0,
    ensures
        collected(outcomes).len() == outcomes.len(),
        forall|i: int|
            0 <= i < outcomes.len() ==> #[trigger] collected(outcomes)[i] == (
                outcomes[i].0,
                entry_of(outcomes[i].1),
            ),
    decreases outcomes.len(),
{
    if outcomes.len() > 0 {
        let before = outcomes.drop_last();
        let last = outcomes.last();
        lemma_batch_keeps_every_member(before);
        let names = firsts(collected(before));
        lemma_position(names, last.0);
        if position(names, last.0) is Some {
            let k = position(names, last.0)->0;
            assert(names[k] == collected(before)[k].0);
            assert(collected(before)[k] == (before[k].0, entry_of(before[k].1)));
            assert(outcomes[k].0 == outcomes[outcomes.len() - 1].0);
            assert(false);
        }
    }
}

/// The requests for the pools of several networks, `limit` pools each.
pub fn multiple_pools_requests(networks: &Vec<String>, limit: u32) -> (r: Vec<Request>)
    ensures
        r.len() == networks.len(),
        forall|i: int|
            0 <= i < networks.len() ==> (#[trigger] r[i])@ == (RequestView {
                endpoint: network_pools_path(networks[i]@),
                params: Some(ApiParamsView { limit: Some(limit), ..no_params() }),
            }),
{
    let mut out: Vec<Request> = Vec::new();
    let mut i: usize = 0;
    while i < networks.len()
        invariant
            i <= networks.len(),
            out.len() == i,
            forall|k: int|
                0 <= k < i ==> (#[trigger] out[k])@ == (RequestView {
                    endpoint: network_pools_path(networks[k]@),
                    params: Some(ApiParamsView { limit: Some(limit), ..no_params() }),
                }),
        decreases networks.len() - i,
    {
        let params = ApiParams::new().limit(limit);
        out.push(get_network_pools(networks[i].as_str(), Some(params)));
        i += 1;
    }
    out
}

/// The requests for several tokens of one network.
pub fn token_batch_requests(token_addresses: &Vec<String>, network: &str) -> (r: Vec<Request>)
    ensures
        r.len() == token_addresses.len(),
        forall|i: int|
            0 <= i < token_addresses.len() ==> (#[trigger] r[i])@ == (RequestView {
                endpoint: token_path(network@, token_addresses[i]@),
                params: None,
            }),
{
    let mut out: Vec<Request> = Vec::new();
    let mut i: usize = 0;
    while i < token_addresses.len()
        invariant
            i <= token_addresses.len(),
            out.len() == i,
            forall|k: int|
                0 <= k < i ==> (#[trigger] out[k])@ == (RequestView {
                    endpoint: token_path(network@, token_addresses[k]@),
                    params: None,
                }),
        decreases token_addresses.len() - i,
    {
        out.push(get_token_details(network, token_addresses[i].as_str()));
        i += 1;
    }
    out
}

/// The requests for several searches.
pub fn search_batch_requests(queries: &Vec<String>) -> (r: Vec<Request>)
    ensures
        r.len() == queries.len(),
        forall|i: int|
            0 <= i < queries.len() ==> (#[trigger] r[i])@ == (RequestView {
                endpoint: search_path(queries[i]@),
                params: None,
            }),
{
    let mut out: Vec<Request> = Vec::new();
    let mut i: usize = 0;
    while i < queries.len()
        invariant
            i <= queries.len(),
            out.len() == i,
            forall|k: int|
                0 <= k < i ==> (#[trigger] out[k])@ == (RequestView {
                    endpoint: search_path(queries[k]@),
                    params: None,
                }),
        decreases queries.len() - i,
    {
        out.push(search_entities(queries[i].as_str()));
        i += 1;
    }
    out
}

/// The entries of a batch of documents, by name: a request that succeeded
/// gives its document, one that failed gives the marker of its error.
pub fn collect_pools(outcomes: &Vec<(String, Result<Json, PaprikaError>)>) -> (r: Vec<
    (String, Json),
>)
    ensures
        members_view(r@) == collected(named_outcomes(outcomes@)),
{
    let ghost all = named_outcomes(outcomes@);
    let mut out: Vec<(String, Json)> = Vec::new();
    let mut i: usize = 0;
    proof {
        lemma_members_view(out@);
        assert(all.take(0) =~= Seq::empty());
        assert(members_view(out@) =~= collected(all.take(0)));
    }
    while i < outcomes.len()
        invariant
            i <= outcomes.len(),
            all == named_outcomes(outcomes@),
            members_view(out@) == collected(all.take(i as int)),
        decreases outcomes.len() - i,
    {
        let name = &outcomes[i].0;
        let value = match &outcomes[i].1 {
            Ok(j) => j.clone(),
            Err(e) => {
                let marker = Json::Object(vec![("error".to_owned(), Json::Text(e.message()))]);
                proof {
                    lemma_members_view(marker->Object_0@);
                    assert(marker@->Object_0 =~= seq![("error"@, JsonView::Text(error_text(e@)))]);
                }
                marker
            },
        };
        proof {
            assert(all.take(i as int + 1).drop_last() =~= all.take(i as int));
            assert(all.take(i as int + 1).last() == (name@, outcome_view(outcomes[i as int].1)));
            assert(value@ == entry_of(outcome_view(outcomes[i as int].1)));
            lemma_members_view(out@);
        }
        let ghost before = out@;
        proof {
            assert(keys(out@) =~= firsts(members_view(out@)));
        }
        match find_key(&out, name.as_str()) {
            Some(k) => {
                out.set(k, (name.clone(), value));
            },
            None => {
                out.push((name.clone(), value));
            },
        }
        proof {
            lemma_members_view(out@);
            assert(members_view(out@) =~= upsert(members_view(before), name@, value@));
        }
        i += 1;
    }
    assert(all.take(i as int) =~= all);
    out
}

/// One step of putting a batch of tokens together: the outcome at `index`
/// sets the result at `index`. A document that decodes as a token gives the
/// token; an error gives its words; a document that is no token gives the
/// words of the error of a document of the wrong shape. Nothing is swallowed:
/// every outcome within the batch leaves data or an error at its place. An
/// index beyond the batch changes nothing.
pub open spec fn token_step(
    results: Seq<AsyncResultView<TokenView>>,
    network: Seq<char>,
    index: int,
    outcome: Outcome,
) -> Seq<AsyncResultView<TokenView>> {
    if 0 <= index < results.len() {
        match outcome {
            Ok(j) => match token_of(j) {
                Some(t) => results.update(
                    index,
                    AsyncResultView { network: Some(network), query: None, data: Some(t), error: None },
                ),
                None => results.update(
                    index,
                    AsyncResultView {
                        network: Some(network),
                        query: None,
                        data: None,
                        error: Some(error_text(shape_error())),
                    },
                ),
            },
            Err(e) => results.update(
                index,
                AsyncResultView {
                    network: Some(network),
                    query: None,
                    data: None,
                    error: Some(error_text(e)),
                },
            ),
        }
    } else {
        results
    }
}

/// An outcome within the batch is never swallowed: after its step the
/// result at its place carries the network and holds data or an error.
pub proof fn lemma_token_step_marks(
    results: Seq<AsyncResultView<TokenView>>,
    network: Seq<char>,
    index: int,
    outcome: Outcome,
)
    requires
        0 <= index < results.len(),
    ensures
        ({
            let after = token_step(results, network, index, outcome);
            &&& after.len() == results.len()
            &&& after[index].network == Some(network)
            &&& after[index].data is Some || after[index].error is Some
            &&& outcome is Err ==> after[index].data is None && after[index].error is Some
        }),
{
}

/// The results of a batch of `count` tokens: blank results, changed by each
/// outcome in turn.
pub open spec fn token_results(count: nat, network: Seq<char>, outcomes: Seq<(int, Outcome)>) -> Seq<
    AsyncResultView<TokenView>,
>
    decreases outcomes.len(),
{
    if outcomes.len() == 0 {
        Seq::new(count, |i: int| blank())
    } else {
        token_step(
            token_results(count, network, outcomes.drop_last()),
            network,
            outcomes.last().0,
            outcomes.last().1,
        )
    }
}

/// The results of a batch never grow or shrink: there is one for each
/// member, whatever the outcomes are.
pub proof fn lemma_token_results_len(count: nat, network: Seq<char>, outcomes: Seq<(int, Outcome)>)
    ensures
        token_results(count, network, outcomes).len() == count,
    decreases outcomes.len(),
{
    if outcomes.len() > 0 {
        lemma_token_results_len(count, network, outcomes.drop_last());
    }
}

/// Puts the results of a batch of `count` tokens together.
pub fn collect_tokens(
    count: usize,
    network: &str,
    outcomes: &Vec<(usize, Result<Json, PaprikaError>)>,
) -> (r: Vec<AsyncResult<Token>>)
    ensures
        r.len() == count,
        views(r@) == token_results(count as nat, network@, indexed_outcomes(outcomes@)),
{
    let ghost all = indexed_outcomes(outcomes@);
    let mut results: Vec<AsyncResult<Token>> = Vec::new();
    let mut n: usize = 0;
    while n < count
        invariant
            n <= count,
            results.len() == n,
            forall|k: int| 0 <= k < n ==> (#[trigger] results[k])@ == blank::<TokenView>(),
        decreases count - n,
    {
        results.push(AsyncResult { network: None, query: None, data: None, error: None });
        n += 1;
    }
    let mut i: usize = 0;
    proof {
        assert(all.take(0) =~= Seq::empty());
        assert(views(results@) =~= token_results(count as nat, network@, all.take(0)));
    }
    while i < outcomes.len()
        invariant
            i <= outcomes.len(),
            results.len() == count,
            all == indexed_outcomes(outcomes@),
            views(results@) == token_results(count as nat, network@, all.take(i as int)),
        decreases outcomes.len() - i,
    {
        let index = outcomes[i].0;
        let ghost before = views(results@);
        proof {
            assert(all.take(i as int + 1).drop_last() =~= all.take(i as int));
            assert(all.take(i as int + 1).last() == (index as int, outcome_view(outcomes[i as int].1)));
        }
        if index < count {
            match &outcomes[i].1 {
                Ok(j) => {
                    match decode_token(j) {
                        Some(token) => {
                            results.set(
                                index,
                                AsyncResult {
                                    network: Some(network.to_owned()),
                                    query: None,
                                    data: Some(token),
                                    error: None,
                                },
                            );
                        },
                        None => {
                            results.set(
                                index,
                                AsyncResult {
                                    network: Some(network.to_owned()),
                                    query: None,
                                    data: None,
                                    error: Some(shape_mismatch().message()),
                                },
                            );
                        },
                    }
                },
                Err(e) => {
                    results.set(
                        index,
                        AsyncResult {
                            network: Some(network.to_owned()),
                            query: None,
                            data: None,
                            error: Some(e.message()),
                        },
                    );
                },
            }
        }
        proof {
            assert(views(results@) =~= token_step(
                before,
                network@,
                index as int,
                outcome_view(outcomes[i as int].1),
            ));
        }
        i += 1;
    }
    assert(all.take(i as int) =~= all);
    results
}

/// One step of putting a batch of searches together: the outcome at `index`
/// sets the result at `index`, which carries the query of that place. A
/// document that decodes as a search result gives it; an error gives its
/// words; a document of another shape gives the words of the error of a
/// document of the wrong shape. An index beyond the batch changes nothing.
pub open spec fn search_step(
    results: Seq<AsyncResultView<SearchResponseView>>,
    queries: Seq<Seq<char>>,
    index: int,
    outcome: Outcome,
) -> Seq<AsyncResultView<SearchResponseView>> {
    if 0 <= index < results.len() && index < queries.len() {
        match outcome {
            Ok(j) => match search_response_of(j) {
                Some(found) => results.update(
                    index,
                    AsyncResultView {
                        network: None,
                        query: Some(queries[index]),
                        data: Some(found),
                        error: None,
                    },
                ),
                None => results.update(
                    index,
                    AsyncResultView {
                        network: None,
                        query: Some(queries[index]),
                        data: None,
                        error: Some(error_text(shape_error())),
                    },
                ),
            },
            Err(e) => results.update(
                index,
                AsyncResultView {
                    network: None,
                    query: Some(queries[index]),
                    data: None,
                    error: Some(error_text(e)),
                },
            ),
        }
    } else {
        results
    }
}

/// An outcome within the batch is never swallowed: after its step the
/// result at its place carries its query and holds data or an error.
pub proof fn lemma_search_step_marks(
    results: Seq<AsyncResultView<SearchResponseView>>,
    queries: Seq<Seq<char>>,
    index: int,
    outcome: Outcome,
)
    requires
        0 <= index < results.len(),
        index < queries.len(),
    ensures
        ({
            let after = search_step(results, queries, index, outcome);
            &&& after.len() == results.len()
            &&& after[index].query == Some(queries[index])
            &&& after[index].data is Some || after[index].error is Some
            &&& outcome is Err ==> after[index].data is None && after[index].error is Some
        }),
{
}

/// The results of a batch of searches: one blank result for each query,
/// changed by each outcome in turn.
pub open spec fn search_results(queries: Seq<Seq<char>>, outcomes: Seq<(int, Outcome)>) -> Seq<
    AsyncResultView<SearchResponseView>,
>
    decreases outcomes.len(),
{
    if outcomes.len() == 0 {
        Seq::new(queries.len(), |i: int| blank())
    } else {
        search_step(
            search_results(queries, outcomes.drop_last()),
            queries,
            outcomes.last().0,
            outcomes.last().1,
        )
    }
}

/// The texts of a list of strings.
pub open spec fn texts(list: Seq<String>) -> Seq<Seq<char>> {
    Seq::new(list.len(), |i: int| list[i]@)
}

/// Puts the results of a batch of searches together.
pub fn collect_searches(queries: &Vec<String>, outcomes: &Vec<(usize, Result<Json, PaprikaError>)>) -> (r:
    Vec<AsyncResult<SearchResponse>>)
    ensures
        r.len() == queries.len(),
        views(r@) == search_results(texts(queries@), indexed_outcomes(outcomes@)),
{
    let ghost all = indexed_outcomes(outcomes@);
    let ghost asked = texts(queries@);
    let count = queries.len();
    let mut results: Vec<AsyncResult<SearchResponse>> = Vec::new();
    let mut n: usize = 0;
    while n < count
        invariant
            n <= count,
            results.len() == n,
            forall|k: int| 0 <= k < n ==> (#[trigger] results[k])@ == blank::<SearchResponseView>(),
        decreases count - n,
    {
        results.push(AsyncResult { network: None, query: None, data: None, error: None });
        n += 1;
    }
    let mut i: usize = 0;
    proof {
        assert(all.take(0) =~= Seq::empty());
        assert(views(results@) =~= search_results(asked, all.take(0)));
    }
    while i < outcomes.len()
        invariant
            i <= outcomes.len(),
            count == queries.len(),
            results.len() == count,
            all == indexed_outcomes(outcomes@),
            asked == texts(queries@),
            views(results@) == search_results(asked, all.take(i as int)),
        decreases outcomes.len() - i,
    {
        let index = outcomes[i].0;
        let ghost before = views(results@);
        proof {
            assert(all.take(i as int + 1).drop_last() =~= all.take(i as int));
            assert(all.take(i as int + 1).last() == (index as int, outcome_view(outcomes[i as int].1)));
        }
        if index < count {
            match &outcomes[i].1 {
                Ok(j) => {
                    match decode_search_response(j) {
                        Some(found) => {
                            results.set(
                                index,
                                AsyncResult {
                                    network: None,
                                    query: Some(queries[index].clone()),
                                    data: Some(found),
                                    error: None,
                                },
                            );
                        },
                        None => {
                            results.set(
                                index,
                                AsyncResult {
                                    network: None,
                                    query: Some(queries[index].clone()),
                                    data: None,
                                    error: Some(shape_mismatch().message()),
                                },
                            );
                        },
                    }
                },
                Err(e) => {
                    results.set(
                        index,
                        AsyncResult {
                            network: None,
                            query: Some(queries[index].clone()),
                            data: None,
                            error: Some(e.message()),
                        },
                    );
                },
            }
        }
        proof {
            assert(views(results@) =~= search_step(
                before,
                asked,
                index as int,
                outcome_view(outcomes[i as int].1),
            ));
        }
        i += 1;
    }
    assert(all.take(i as int) =~= all);
    results
}

} // verus!
