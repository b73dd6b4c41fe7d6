use std::sync::Arc;
use yagna::market_provider::ProviderApi;
use yagna::web::{HttpMethod, QueryParamsBuilder, WebClient};

fn api() -> ProviderApi {
    let client = Arc::new(WebClient { endpoint: "http://127.0.0.1:7465/market-api/v1/".to_string() });
    ProviderApi::new(&client)
}

#[test]
fn provider_api_shares_client() {
    let client = Arc::new(WebClient { endpoint: "http://market/".to_string() });
    let a = ProviderApi::new(&client);
    assert_eq!(a.client().endpoint, "http://market/");
}

#[test]
fn subscribe_offer_posts_offer() {
    let r = api().subscribeOffer();
    assert_eq!(r.method, HttpMethod::Post);
    assert_eq!(r.path, "offers/");
    assert!(r.json_body);
}

#[test]
fn unsubscribe_offer_deletes_subscription() {
    let r = api().unsubscribeOffer("sub-1");
    assert_eq!(r.method, HttpMethod::Delete);
    assert_eq!(r.path, "offers/sub-1/");
    assert!(!r.json_body);
}

#[test]
fn collect_demands_with_both_parameters() {
    let r = api().collectDemands("s7", Some(120), Some(5));
    assert_eq!(r.method, HttpMethod::Get);
    assert_eq!(r.path, "offers/s7/events?timeout=120&maxEvents=5");
}

#[test]
fn collect_demands_without_parameters() {
    let r = api().collectDemands("s7", None, None);
    assert_eq!(r.path, "offers/s7/events");
}

#[test]
fn collect_demands_with_one_parameter() {
    assert_eq!(api().collectDemands("x", None, Some(10)).path, "offers/x/events?maxEvents=10");
    assert_eq!(api().collectDemands("x", Some(0), None).path, "offers/x/events?timeout=0");
}

#[test]
fn collect_demands_negative_and_extreme_values() {
    assert_eq!(api().collectDemands("x", Some(-3), None).path, "offers/x/events?timeout=-3");
    assert_eq!(
        api().collectDemands("x", Some(i32::MIN), Some(i32::MAX)).path,
        "offers/x/events?timeout=-2147483648&maxEvents=2147483647"
    );
}

#[test]
fn proposal_calls() {
    let a = api();
    let g = a.getProposalDemand("s", "p");
    assert_eq!(g.method, HttpMethod::Get);
    assert_eq!(g.path, "offers/s/proposals/p");
    let r = a.rejectProposalDemand("s", "p");
    assert_eq!(r.method, HttpMethod::Delete);
    assert_eq!(r.path, "offers/s/proposals/p");
    let c = a.createProposalOffer("s", "p");
    assert_eq!(c.method, HttpMethod::Post);
    assert_eq!(c.path, "offers/s/proposals/p/offer/");
    assert!(c.json_body);
}

#[test]
fn agreement_calls() {
    let a = api();
    let ap = a.approveAgreement("ag");
    assert_eq!(ap.method, HttpMethod::Post);
    assert_eq!(ap.path, "agreements/ag/approve/");
    assert_eq!(a.rejectAgreement("ag").path, "agreements/ag/reject/");
    assert_eq!(a.terminateAgreement("ag").path, "agreements/ag/terminate/");
    assert!(!a.terminateAgreement("ag").json_body);
}

#[test]
fn query_builder_joins_present_pairs() {
    let q = QueryParamsBuilder::new().put("a", Some(1)).put("b", None).put("c", Some(30)).build();
    assert_eq!(q, "a=1&c=30");
    assert_eq!(QueryParamsBuilder::new().put("a", None).build(), "");
}
