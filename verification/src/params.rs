//! The optional query parameters of a request.

use vstd::prelude::*;
use crate::text::{bool_string, bool_text, copy_text, decimal, decimal_string, opt_chars};

verus! {

/// Optional query parameters, each set independently of the others.
#[derive(Debug)]
pub struct ApiParams {
    pub page: Option<u32>,
    pub limit: Option<u32>,
    pub sort: Option<String>,
    pub order_by: Option<String>,
    pub start: Option<String>,
    pub end: Option<String>,
    pub interval: Option<String>,
    pub inversed: Option<bool>,
    pub cursor: Option<String>,
    pub reorder: Option<bool>,
    pub address: Option<String>,
}

/// What an `ApiParams` holds, with text as sequences of characters.
pub struct ApiParamsView {
    pub page: Option<u32>,
    pub limit: Option<u32>,
    pub sort: Option<Seq<char>>,
    pub order_by: Option<Seq<char>>,
    pub start: Option<Seq<char>>,
    pub end: Option<Seq<char>>,
    pub interval: Option<Seq<char>>,
    pub inversed: Option<bool>,
    pub cursor: Option<Seq<char>>,
    pub reorder: Option<bool>,
    pub address: Option<Seq<char>>,
}

/// A query parameter: its name and its value.
pub type QueryPair = (Seq<char>, Seq<char>);

/// The pair of a numeric parameter, if it is set.
pub open spec fn number_pair(name: Seq<char>, value: Option<u32>) -> Seq<QueryPair> {
    match value {
        Some(n) => seq![(name, decimal(n as nat))],
        None => seq![],
    }
}

/// The pair of a textual parameter, if it is set.
pub open spec fn text_pair(name: Seq<char>, value: Option<Seq<char>>) -> Seq<QueryPair> {
    match value {
        Some(s) => seq![(name, s)],
        None => seq![],
    }
}

/// The pair of a yes-or-no parameter, if it is set.
pub open spec fn flag_pair(name: Seq<char>, value: Option<bool>) -> Seq<QueryPair> {
    match value {
        Some(b) => seq![(name, bool_text(b))],
        None => seq![],
    }
}

/// The query pairs of a parameter set: one pair for each parameter that is
/// set, in the order page, limit, sort, order_by, start, end, interval,
/// inversed, cursor, reorder, address.
pub open spec fn query_pairs(p: ApiParamsView) -> Seq<QueryPair> {
    number_pair("page"@, p.page) + number_pair("limit"@, p.limit) + text_pair("sort"@, p.sort)
        + text_pair("order_by"@, p.order_by) + text_pair("start"@, p.start) + text_pair(
        "end"@,
        p.end,
    ) + text_pair("interval"@, p.interval) + flag_pair("inversed"@, p.inversed) + text_pair(
        "cursor"@,
        p.cursor,
    ) + flag_pair("reorder"@, p.reorder) + text_pair("address"@, p.address)
}

/// The names and values of a list of pairs, as sequences of characters.
pub open spec fn pairs_view(pairs: Seq<(&'static str, String)>) -> Seq<QueryPair> {
    pairs.map_values(|p: (&'static str, String)| (p.0@, p.1@))
}

/// The parameter set in which nothing is set.
pub open spec fn no_params() -> ApiParamsView {
    ApiParamsView {
        page: None,
        limit: None,
        sort: None,
        order_by: None,
        start: None,
        end: None,
        interval: None,
        inversed: None,
        cursor: None,
        reorder: None,
        address: None,
    }
}

impl View for ApiParams {
    type V = ApiParamsView;

    open spec fn view(&self) -> ApiParamsView {
        ApiParamsView {
            page: self.page,
            limit: self.limit,
            sort: opt_chars(self.sort),
            order_by: opt_chars(self.order_by),
            start: opt_chars(self.start),
            end: opt_chars(self.end),
            interval: opt_chars(self.interval),
            inversed: self.inversed,
            cursor: opt_chars(self.cursor),
            reorder: self.reorder,
            address: opt_chars(self.address),
        }
    }
}

fn push_pair(out: &mut Vec<(&'static str, String)>, name: &'static str, value: String)
    ensures
        pairs_view(final(out)@) == pairs_view(old(out)@).push((name@, value@)),
{
    out.push((name, value));
    assert(pairs_view(out@) =~= pairs_view(old(out)@).push((name@, value@)));
}

fn push_number(out: &mut Vec<(&'static str, String)>, name: &'static str, value: Option<u32>)
    ensures
        pairs_view(final(out)@) == pairs_view(old(out)@) + number_pair(name@, value),
{
    if let Some(n) = value {
        push_pair(out, name, decimal_string(n as u64));
    }
    assert(pairs_view(out@) =~= pairs_view(old(out)@) + number_pair(name@, value));
}

fn push_text(out: &mut Vec<(&'static str, String)>, name: &'static str, value: &Option<String>)
    ensures
        pairs_view(final(out)@) == pairs_view(old(out)@) + text_pair(name@, opt_chars(*value)),
{
    if let Some(s) = value {
        push_pair(out, name, s.clone());
    }
    assert(pairs_view(out@) =~= pairs_view(old(out)@) + text_pair(name@, opt_chars(*value)));
}

fn push_flag(out: &mut Vec<(&'static str, String)>, name: &'static str, value: Option<bool>)
    ensures
        pairs_view(final(out)@) == pairs_view(old(out)@) + flag_pair(name@, value),
{
    if let Some(b) = value {
        push_pair(out, name, bool_string(b));
    }
    assert(pairs_view(out@) =~= pairs_view(old(out)@) + flag_pair(name@, value));
}

impl Default for ApiParams {
    fn default() -> (r: ApiParams)
        ensures
            r@ == no_params(),
    {
        ApiParams {
            page: None,
            limit: None,
            sort: None,
            order_by: None,
            start: None,
            end: None,
            interval: None,
            inversed: None,
            cursor: None,
            reorder: None,
            address: None,
        }
    }
}

impl Clone for ApiParams {
    fn clone(&self) -> (r: ApiParams)
        ensures
            r@ == self@,
    {
        ApiParams {
            page: self.page,
            limit: self.limit,
            sort: copy_text(&self.sort),
            order_by: copy_text(&self.order_by),
            start: copy_text(&self.start),
            end: copy_text(&self.end),
            interval: copy_text(&self.interval),
            inversed: self.inversed,
            cursor: copy_text(&self.cursor),
            reorder: self.reorder,
            address: copy_text(&self.address),
        }
    }
}

impl ApiParams {
    /// A parameter set in which nothing is set.
    pub fn new() -> (r: ApiParams)
        ensures
            r@ == no_params(),
    {
        ApiParams::default()
    }

    /// Sets the page size; an earlier value is replaced.
    pub fn limit(self, limit: u32) -> (r: ApiParams)
        ensures
            r@ == (ApiParamsView { limit: Some(limit), ..self@ }),
    {
        let mut p = self;
        p.limit = Some(limit);
        p
    }

    /// Sets the page number; an earlier value is replaced.
    pub fn page(self, page: u32) -> (r: ApiParams)
        ensures
            r@ == (ApiParamsView { page: Some(page), ..self@ }),
    {
        let mut p = self;
        p.page = Some(page);
        p
    }

    /// Sets the sort direction; an earlier value is replaced.
    pub fn sort(self, sort: &str) -> (r: ApiParams)
        ensures
            r@ == (ApiParamsView { sort: Some(sort@), ..self@ }),
    {
        let mut p = self;
        p.sort = Some(sort.to_owned());
        p
    }

    /// Sets the field to order by; an earlier value is replaced.
    pub fn order_by(self, order_by: &str) -> (r: ApiParams)
        ensures
            r@ == (ApiParamsView { order_by: Some(order_by@), ..self@ }),
    {
        let mut p = self;
        p.order_by = Some(order_by.to_owned());
        p
    }

    /// Sets the start of the time range; an earlier value is replaced.
    pub fn start(self, start: &str) -> (r: ApiParams)
        ensures
            r@ == (ApiParamsView { start: Some(start@), ..self@ }),
    {
        let mut p = self;
        p.start = Some(start.to_owned());
        p
    }

    /// Sets the sampling interval; an earlier value is replaced.
    pub fn interval(self, interval: &str) -> (r: ApiParams)
        ensures
            r@ == (ApiParamsView { interval: Some(interval@), ..self@ }),
    {
        let mut p = self;
        p.interval = Some(interval.to_owned());
        p
    }

    /// Sets whether the price ratio is inverted; an earlier value is replaced.
    pub fn inversed(self, inversed: bool) -> (r: ApiParams)
        ensures
            r@ == (ApiParamsView { inversed: Some(inversed), ..self@ }),
    {
        let mut p = self;
        p.inversed = Some(inversed);
        p
    }

    /// The query pairs of the parameters that are set, in the fixed order
    /// that `query_pairs` gives. Parameters that are not set give no pair.
    pub fn to_query_params(&self) -> (r: Vec<(&'static str, String)>)
        ensures
            pairs_view(r@) == query_pairs(self@),
    {
        let mut params: Vec<(&'static str, String)> = Vec::new();
        assert(pairs_view(params@) =~= Seq::<QueryPair>::empty());
        push_number(&mut params, "page", self.page);
        push_number(&mut params, "limit", self.limit);
        push_text(&mut params, "sort", &self.sort);
        push_text(&mut params, "order_by", &self.order_by);
        push_text(&mut params, "start", &self.start);
        push_text(&mut params, "end", &self.end);
        push_text(&mut params, "interval", &self.interval);
        push_flag(&mut params, "inversed", self.inversed);
        push_text(&mut params, "cursor", &self.cursor);
        push_flag(&mut params, "reorder", self.reorder);
        push_text(&mut params, "address", &self.address);
        assert(pairs_view(params@) =~= query_pairs(self@));
        params
    }
}

/// Setting one parameter and then another gives the same parameter set as
/// setting them the other way round, so the query pairs do not depend on the
/// order of the calls.
pub proof fn lemma_setters_commute(p: ApiParamsView, page: u32, limit: u32)
    ensures
        (ApiParamsView { page: Some(page), ..(ApiParamsView { limit: Some(limit), ..p }) })
            == (ApiParamsView { limit: Some(limit), ..(ApiParamsView { page: Some(page), ..p }) }),
        query_pairs(ApiParamsView { page: Some(page), ..(ApiParamsView { limit: Some(limit), ..p }) })
            == query_pairs(
            ApiParamsView { limit: Some(limit), ..(ApiParamsView { page: Some(page), ..p }) },
        ),
{
}

/// A second call of a setter replaces what the first one set.
pub proof fn lemma_last_set_wins(p: ApiParamsView, first: u32, second: u32)
    ensures
        (ApiParamsView { limit: Some(second), ..(ApiParamsView { limit: Some(first), ..p }) })
            == (ApiParamsView { limit: Some(second), ..p }),
{
}

} // verus!
