use yagna::activity_provider::ProviderApiClient;
use yagna::web::{HttpMethod, WebClient};

fn client(endpoint: &str) -> ProviderApiClient {
    ProviderApiClient::new(WebClient { endpoint: endpoint.to_string() })
}

#[test]
fn activity_events_url() {
    let c = client("http://h/activity-api/v1");
    let r = c.get_activity_events(Some(5));
    assert_eq!(r.method, HttpMethod::Get);
    assert_eq!(r.path, "http://h/activity-api/v1/events?timeout=5");
    assert_eq!(c.get_activity_events(None).path, "http://h/activity-api/v1/events?");
}

#[test]
fn activity_state_and_usage_urls() {
    let c = client("http://h");
    let s = c.set_activity_state("act1");
    assert_eq!(s.method, HttpMethod::Put);
    assert_eq!(s.path, "http://h/activity/act1/state");
    assert!(s.json_body);
    let u = c.set_activity_usage("act1");
    assert_eq!(u.method, HttpMethod::Put);
    assert_eq!(u.path, "http://h/activity/act1/usage");
}

#[test]
fn replaced_client_is_used() {
    let mut c = client("http://old");
    c.replace_client(WebClient { endpoint: "http://new".to_string() });
    assert_eq!(c.client().endpoint, "http://new");
    assert_eq!(c.set_activity_state("a").path, "http://new/activity/a/state");
}
