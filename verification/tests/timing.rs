use yagna::task_manager::{expiration_plan, BreakReason, ExpirationPlan, ScheduleError, TaskInfo, TaskManager};
use yagna::time::{span_until, TimeSpan, UtcTime};

fn t(secs: i64, nanos: u32) -> UtcTime {
    UtcTime { secs, nanos }
}

#[test]
fn span_between_instants() {
    assert_eq!(span_until(&t(10, 500), &t(12, 100)), Some(TimeSpan { secs: 1, nanos: 999_999_600 }));
    assert_eq!(span_until(&t(10, 0), &t(10, 0)), Some(TimeSpan { secs: 0, nanos: 0 }));
    assert_eq!(span_until(&t(10, 1), &t(10, 0)), None);
    assert_eq!(
        span_until(&t(i64::MIN, 0), &t(i64::MAX, 999_999_999)),
        Some(TimeSpan { secs: u64::MAX, nanos: 999_999_999 })
    );
}

#[test]
fn plan_for_future_expiration() {
    let p = expiration_plan(&t(1000, 0), &t(900, 0), &t(901, 250)).unwrap();
    assert_eq!(
        p,
        ExpirationPlan {
            expire_after: TimeSpan { secs: 98, nanos: 999_999_750 },
            no_activity_after: TimeSpan { secs: 90, nanos: 0 },
        }
    );
}

#[test]
fn plan_for_expired_agreement() {
    assert_eq!(
        expiration_plan(&t(1000, 0), &t(1000, 1), &t(1000, 1)),
        Err(ScheduleError::ExpiredBeforeStart { expiration: t(1000, 0) })
    );
}

#[test]
fn plan_when_clock_passes_expiration_between_reads() {
    assert_eq!(expiration_plan(&t(1000, 0), &t(1000, 0), &t(1000, 5)), Err(ScheduleError::DelayOutOfRange));
    assert!(expiration_plan(&t(1000, 0), &t(1000, 0), &t(1000, 0)).is_ok());
}

#[test]
fn schedule_against_clock() {
    let m = TaskManager::new();
    let future = TaskInfo { agreement_id: "a".to_string(), expiration: t(i64::MAX / 2, 0), multi_activity: false };
    let p = m.schedule_expiration(&future).unwrap();
    assert_eq!(p.no_activity_after, TimeSpan { secs: 90, nanos: 0 });
    let past = TaskInfo { agreement_id: "a".to_string(), expiration: t(1000, 0), multi_activity: false };
    assert_eq!(m.schedule_expiration(&past), Err(ScheduleError::ExpiredBeforeStart { expiration: t(1000, 0) }));
    let soon = TaskInfo { agreement_id: "a".to_string(), expiration: t(4_000_000_000, 0), multi_activity: false };
    let left = m.schedule_expiration(&soon).unwrap().expire_after;
    assert!(left.secs > 4_000_000_000 - 3_000_000_000 && left.secs < 4_000_000_000 - 1_500_000_000);
}

#[test]
fn expiration_timer_breaks_unfinalized_agreement() {
    let b = TaskManager::expiration_elapsed("a".to_string(), t(5, 0), false).unwrap();
    assert_eq!(b.agreement_id, "a");
    assert!(matches!(b.reason, BreakReason::Expired(e) if e == t(5, 0)));
    assert!(TaskManager::expiration_elapsed("a".to_string(), t(5, 0), true).is_none());
}

#[test]
fn no_activity_timer_breaks_inactive_agreement() {
    let b = TaskManager::no_activity_elapsed("a".to_string(), TimeSpan { secs: 90, nanos: 0 }, true).unwrap();
    assert!(matches!(b.reason, BreakReason::NoActivity(s) if s == TimeSpan { secs: 90, nanos: 0 }));
    assert!(TaskManager::no_activity_elapsed("a".to_string(), TimeSpan { secs: 90, nanos: 0 }, false).is_none());
}

#[test]
fn schedule_error_messages() {
    let e = ScheduleError::ExpiredBeforeStart { expiration: t(1584267630, 0) };
    assert_eq!(e.message(), "Agreement expired before start. Expiration 2020-03-15T10:20:30Z");
    let frac = ScheduleError::ExpiredBeforeStart { expiration: t(1584267630, 500_000_000) };
    assert_eq!(frac.message(), "Agreement expired before start. Expiration 2020-03-15T10:20:30.500Z");
    let huge = ScheduleError::ExpiredBeforeStart { expiration: t(i64::MAX, 0) };
    assert_eq!(huge.message(), format!("Agreement expired before start. Expiration {}s 0ns after the Unix epoch", i64::MAX));
    assert_eq!(
        ScheduleError::DelayOutOfRange.message(),
        "Source duration value is out of range for the target type"
    );
}
