//! Provider part of the Market API: which REST call each operation makes.
use vstd::prelude::*;
use std::sync::Arc;
use crate::text::{push_char, push_str};
use crate::web::{share, with_query, ApiRequest, HttpMethod, QueryParamsBuilder, WebClient, query_put};

verus! {

/// `offers/{subscription_id}/`
pub open spec fn offer_path(subscription_id: Seq<char>) -> Seq<char> {
    "offers/"@ + subscription_id + seq!['/']
}

/// `offers/{subscription_id}/proposals/{proposal_id}`
pub open spec fn proposal_path(subscription_id: Seq<char>, proposal_id: Seq<char>) -> Seq<char> {
    "offers/"@ + subscription_id + "/proposals/"@ + proposal_id
}

/// `agreements/{agreement_id}/{action}/`
pub open spec fn agreement_path(agreement_id: Seq<char>, action: Seq<char>) -> Seq<char> {
    "agreements/"@ + agreement_id + seq!['/'] + action + seq!['/']
}

/// The query of `collectDemands`: `timeout`, then `maxEvents`, each when given.
pub open spec fn collect_query(timeout: Option<i32>, max_events: Option<i32>) -> Seq<char> {
    query_put(query_put(Seq::<char>::empty(), "timeout"@, timeout), "maxEvents"@, max_events)
}

/// `offers/{subscription_id}/events`, with the collect query when it is not empty.
pub open spec fn collect_path(subscription_id: Seq<char>, timeout: Option<i32>, max_events: Option<i32>) -> Seq<char> {
    with_query("offers/"@ + subscription_id + "/events"@, collect_query(timeout, max_events))
}

/// Bindings for the Provider part of the Market API.
pub struct ProviderApi {
    client: Arc<WebClient>,
}

fn request(method: HttpMethod, path: String, json_body: bool) -> (r: ApiRequest)
    ensures
        r.method == method,
        r.path@ == path@,
        r.json_body == json_body,
{
    ApiRequest { method, path, json_body }
}

fn literal(s: &str) -> (r: String)
    ensures
        r@ == s@,
{
    let mut r = String::new();
    push_str(&mut r, s);
    proof {
        assert(r@ =~= s@);
    }
    r
}

impl ProviderApi {
    /// The client that the bindings' requests go through.
    pub closed spec fn client_spec(&self) -> WebClient {
        *self.client
    }

    /// Bindings sharing the given client.
    pub fn new(client: &Arc<WebClient>) -> (api: Self)
        ensures
            api.client_spec() == **client,
    {
        Self { client: share(client) }
    }

    /// The client that the bindings' requests go through.
    pub fn client(&self) -> (c: &WebClient)
        ensures
            *c == self.client_spec(),
    {
        &self.client
    }

    /// Publishes the Provider's Offer: `POST offers/` with the Offer as JSON.
    #[allow(non_snake_case)]
    pub fn subscribeOffer(&self) -> (r: ApiRequest)
        ensures
            r.method == HttpMethod::Post,
            r.path@ == "offers/"@,
            r.json_body,
    {
        request(HttpMethod::Post, literal("offers/"), true)
    }

    /// Stops a subscription: `DELETE offers/{subscription_id}/`.
    /// This ends all pending `collectDemands` calls on that subscription.
    #[allow(non_snake_case)]
    pub fn unsubscribeOffer(&self, subscription_id: &str) -> (r: ApiRequest)
        ensures
            r.method == HttpMethod::Delete,
            r.path@ == offer_path(subscription_id@),
            !r.json_body,
    {
        let mut p = literal("offers/");
        push_str(&mut p, subscription_id);
        push_char(&mut p, '/');
        request(HttpMethod::Delete, p, false)
    }

    /// Fetches the events that arrived for an Offer subscription:
    /// `GET offers/{subscription_id}/events`, with `timeout` and `maxEvents`
    /// as query parameters when given.
    #[allow(non_snake_case)]
    pub fn collectDemands(&self, subscription_id: &str, timeout: Option<i32>, maxEvents: Option<i32>) -> (r: ApiRequest)
        ensures
            r.method == HttpMethod::Get,
            r.path@ == collect_path(subscription_id@, timeout, maxEvents),
            !r.json_body,
    {
        let mut p = literal("offers/");
        push_str(&mut p, subscription_id);
        push_str(&mut p, "/events");
        let query = QueryParamsBuilder::new().put("timeout", timeout).put("maxEvents", maxEvents).build();
        if !query.as_str().is_empty() {
            push_char(&mut p, '?');
            push_str(&mut p, query.as_str());
        }
        request(HttpMethod::Get, p, false)
    }

    /// Fetches a Proposal (Demand): `GET offers/{subscription_id}/proposals/{proposal_id}`.
    #[allow(non_snake_case)]
    pub fn getProposalDemand(&self, subscription_id: &str, proposal_id: &str) -> (r: ApiRequest)
        ensures
            r.method == HttpMethod::Get,
            r.path@ == proposal_path(subscription_id@, proposal_id@),
            !r.json_body,
    {
        request(HttpMethod::Get, Self::proposal(subscription_id, proposal_id), false)
    }

    /// Rejects a Proposal (Demand), ending the negotiation chain:
    /// `DELETE offers/{subscription_id}/proposals/{proposal_id}`.
    #[allow(non_snake_case)]
    pub fn rejectProposalDemand(&self, subscription_id: &str, proposal_id: &str) -> (r: ApiRequest)
        ensures
            r.method == HttpMethod::Delete,
            r.path@ == proposal_path(subscription_id@, proposal_id@),
            !r.json_body,
    {
        request(HttpMethod::Delete, Self::proposal(subscription_id, proposal_id), false)
    }

    /// Answers a Demand with a counter-Offer:
    /// `POST offers/{subscription_id}/proposals/{proposal_id}/offer/` with the Proposal as JSON.
    #[allow(non_snake_case)]
    pub fn createProposalOffer(&self, subscription_id: &str, proposal_id: &str) -> (r: ApiRequest)
        ensures
            r.method == HttpMethod::Post,
            r.path@ == proposal_path(subscription_id@, proposal_id@) + "/offer/"@,
            r.json_body,
    {
        let mut p = Self::proposal(subscription_id, proposal_id);
        push_str(&mut p, "/offer/");
        request(HttpMethod::Post, p, true)
    }

    /// Approves an Agreement proposed by the Requestor:
    /// `POST agreements/{agreement_id}/approve/`.
    #[allow(non_snake_case)]
    pub fn approveAgreement(&self, agreement_id: &str) -> (r: ApiRequest)
        ensures
            r.method == HttpMethod::Post,
            r.path@ == agreement_path(agreement_id@, "approve"@),
            !r.json_body,
    {
        request(HttpMethod::Post, Self::agreement(agreement_id, "approve"), false)
    }

    /// Rejects an Agreement proposed by the Requestor:
    /// `POST agreements/{agreement_id}/reject/`.
    #[allow(non_snake_case)]
    pub fn rejectAgreement(&self, agreement_id: &str) -> (r: ApiRequest)
        ensures
            r.method == HttpMethod::Post,
            r.path@ == agreement_path(agreement_id@, "reject"@),
            !r.json_body,
    {
        request(HttpMethod::Post, Self::agreement(agreement_id, "reject"), false)
    }

    /// Terminates an approved Agreement:
    /// `POST agreements/{agreement_id}/terminate/`.
    #[allow(non_snake_case)]
    pub fn terminateAgreement(&self, agreement_id: &str) -> (r: ApiRequest)
        ensures
            r.method == HttpMethod::Post,
            r.path@ == agreement_path(agreement_id@, "terminate"@),
            !r.json_body,
    {
        request(HttpMethod::Post, Self::agreement(agreement_id, "terminate"), false)
    }

    fn proposal(subscription_id: &str, proposal_id: &str) -> (p: String)
        ensures
            p@ == proposal_path(subscription_id@, proposal_id@),
    {
        let mut p = literal("offers/");
        push_str(&mut p, subscription_id);
        push_str(&mut p, "/proposals/");
        push_str(&mut p, proposal_id);
        p
    }

    fn agreement(agreement_id: &str, action: &str) -> (p: String)
        ensures
            p@ == agreement_path(agreement_id@, action@),
    {
        let mut p = literal("agreements/");
        push_str(&mut p, agreement_id);
        push_char(&mut p, '/');
        push_str(&mut p, action);
        push_char(&mut p, '/');
        p
    }
}

/// Parameters that are not given leave no trace in the path: collecting with
/// neither a timeout nor an event limit asks for the bare events path, and
/// each given parameter appears as `name=value`.
pub proof fn law_collect_query(subscription_id: Seq<char>, timeout: i32, max_events: i32)
    ensures
        collect_path(subscription_id, None, None) == "offers/"@ + subscription_id + "/events"@,
        collect_query(Some(timeout), None) == crate::web::query_pair("timeout"@, timeout as int),
        collect_query(None, Some(max_events)) == crate::web::query_pair("maxEvents"@, max_events as int),
        collect_query(Some(timeout), Some(max_events)) == crate::web::query_pair("timeout"@, timeout as int)
            + seq!['&'] + crate::web::query_pair("maxEvents"@, max_events as int),
{
    let q = crate::web::query_pair("timeout"@, timeout as int);
    assert(q.len() > 0) by {
        reveal_strlit("timeout");
        assert(q.len() >= "timeout"@.len() + 1);
    }
}

} // verus!
