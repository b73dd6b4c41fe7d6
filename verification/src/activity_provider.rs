//! Provider part of the Activity API: which REST call each operation makes.
use vstd::prelude::*;
use crate::text::{push_str};
use crate::web::{ApiRequest, HttpMethod, QueryParamsBuilder, WebClient, query_put};

verus! {

/// `{endpoint}/events?{query}`, where the query holds `timeout` when given.
pub open spec fn events_url(endpoint: Seq<char>, timeout: Option<i32>) -> Seq<char> {
    endpoint + "/events?"@ + query_put(Seq::<char>::empty(), "timeout"@, timeout)
}

/// `{endpoint}/activity/{activity_id}/{what}`
pub open spec fn activity_url(endpoint: Seq<char>, activity_id: Seq<char>, what: Seq<char>) -> Seq<char> {
    endpoint + "/activity/"@ + activity_id + "/"@ + what
}

/// Provider-side bindings of the Activity API, over the local service bus
/// (no operation of it is implemented yet).
pub struct GsbProviderApi;

/// Provider-side bindings of the Activity API, over REST.
pub struct ProviderApiClient {
    client: WebClient,
}

impl ProviderApiClient {
    /// The client the requests go through.
    pub closed spec fn client_spec(&self) -> WebClient {
        self.client
    }

    /// Bindings over the given client.
    pub fn new(client: WebClient) -> (api: Self)
        ensures
            api.client_spec() == client,
    {
        Self { client }
    }

    /// Swaps in another client; later requests go through it.
    pub fn replace_client(&mut self, client: WebClient)
        ensures
            final(self).client_spec() == client,
    {
        self.client = client;
    }

    /// The client the requests go through.
    pub fn client(&self) -> (c: &WebClient)
        ensures
            *c == self.client_spec(),
    {
        &self.client
    }

    /// Fetches pending activity events: `GET {endpoint}/events?timeout=..`.
    pub fn get_activity_events(&self, timeout: Option<i32>) -> (r: ApiRequest)
        ensures
            r.method == HttpMethod::Get,
            r.path@ == events_url(self.client_spec().endpoint@, timeout),
            !r.json_body,
    {
        let params = QueryParamsBuilder::new().put("timeout", timeout).build();
        let mut url = self.client.endpoint.clone();
        push_str(&mut url, "/events?");
        push_str(&mut url, params.as_str());
        ApiRequest { method: HttpMethod::Get, path: url, json_body: false }
    }

    /// Reports an activity's state: `PUT {endpoint}/activity/{activity_id}/state`
    /// with the state as JSON.
    pub fn set_activity_state(&self, activity_id: &str) -> (r: ApiRequest)
        ensures
            r.method == HttpMethod::Put,
            r.path@ == activity_url(self.client_spec().endpoint@, activity_id@, "state"@),
            r.json_body,
    {
        ApiRequest { method: HttpMethod::Put, path: self.activity(activity_id, "state"), json_body: true }
    }

    /// Reports an activity's usage: `PUT {endpoint}/activity/{activity_id}/usage`
    /// with the usage vector as JSON.
    pub fn set_activity_usage(&self, activity_id: &str) -> (r: ApiRequest)
        ensures
            r.method == HttpMethod::Put,
            r.path@ == activity_url(self.client_spec().endpoint@, activity_id@, "usage"@),
            r.json_body,
    {
        ApiRequest { method: HttpMethod::Put, path: self.activity(activity_id, "usage"), json_body: true }
    }

    fn activity(&self, activity_id: &str, what: &str) -> (u: String)
        ensures
            u@ == activity_url(self.client_spec().endpoint@, activity_id@, what@),
    {
        let mut url = self.client.endpoint.clone();
        push_str(&mut url, "/activity/");
        push_str(&mut url, activity_id);
        push_str(&mut url, "/");
        push_str(&mut url, what);
        url
    }
}

} // verus!
