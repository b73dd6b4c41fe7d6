use yagna::version_db::{pending_release, release_from_published, NaiveTimestamp, Release, ReleaseError};

fn stored(version: &str) -> Release {
    Release {
        version: version.to_string(),
        name: "node".to_string(),
        seen: false,
        release_ts: NaiveTimestamp { secs: 0, nanos: 0 },
        insertion_ts: None,
        update_ts: None,
    }
}

#[test]
fn published_release_is_stored_unseen() {
    let r = release_from_published("0.3.0".to_string(), "Yagna".to_string(), "2020-05-01 10:20:30").unwrap();
    assert_eq!(r.version, "0.3.0");
    assert_eq!(r.name, "Yagna");
    assert!(!r.seen);
    assert_eq!(r.release_ts, NaiveTimestamp { secs: 1588328430, nanos: 0 });
    assert_eq!(r.insertion_ts, None);
    assert_eq!(r.update_ts, None);
}

#[test]
fn badly_dated_release_is_refused() {
    let r = release_from_published("0.3.0".to_string(), "Yagna".to_string(), "2020-05-01T10:20:30Z");
    assert!(matches!(r, Err(ReleaseError::Date(_))));
    assert!(release_from_published("1".to_string(), "n".to_string(), "").is_err());
}

#[test]
fn newer_release_is_pending() {
    let r = pending_release("0.2.0", Some(stored("0.3.0")));
    assert_eq!(r.map(|r| r.version), Some("0.3.0".to_string()));
}

#[test]
fn older_or_equal_release_is_not_pending() {
    assert!(pending_release("0.3.0", Some(stored("0.3.0"))).is_none());
    assert!(pending_release("0.3.1", Some(stored("0.3.0"))).is_none());
}

#[test]
fn unparseable_versions_are_not_pending() {
    assert!(pending_release("0.2.0", Some(stored("latest"))).is_none());
    assert!(pending_release("dev", Some(stored("0.3.0"))).is_none());
}

#[test]
fn no_stored_release_is_not_pending() {
    assert!(pending_release("0.2.0", None).is_none());
}

#[test]
fn release_text() {
    let r = release_from_published("0.3.0".to_string(), "Yagna".to_string(), "2020-05-01 10:20:30").unwrap();
    assert_eq!(r.text(), Some("0.3.0 Yagna released 2020-05-01 10:20:30".to_string()));
    let mut far = stored("1.0.0");
    far.release_ts = NaiveTimestamp { secs: i64::MAX, nanos: 0 };
    assert_eq!(far.text(), None);
}
