use yagna::batch_requestor::{
    progress_step, ProgressAction, Command, CommandList, ImageSpec, MarketSession, SessionAction, SessionEvent, TaskSession, WasmDemand, WasmRuntime,
};
use yagna::command_helpers;
use yagna::time::TimeSpan;

#[test]
fn image_from_github_runs_wasi_1() {
    let i = ImageSpec::from_github("golemfactory/example");
    assert_eq!(i, ImageSpec::from_github("other").runtime(WasmRuntime::Wasi(1)));
    assert_ne!(i.runtime(WasmRuntime::Wasi(2)), ImageSpec::from_github("x"));
}

#[test]
fn run_helper_copies_arguments() {
    match command_helpers::run(&["echo", "hello"]) {
        Command::Run(args) => assert_eq!(args, vec!["echo".to_string(), "hello".to_string()]),
        _ => panic!("expected Run"),
    }
    assert!(matches!(command_helpers::deploy, Command::Deploy));
    assert!(matches!(command_helpers::start, Command::Start));
    assert!(matches!(command_helpers::stop, Command::Stop));
}

#[test]
fn demand_builders() {
    let d = WasmDemand::with_image(ImageSpec::from_github("r"));
    let d2 = d.min_ram_gib(0.5f64.to_bits()).min_storage_gib(2.0f64.to_bits());
    assert_ne!(d, d2);
    assert_eq!(d2, WasmDemand::with_image(ImageSpec::from_github("r")).min_storage_gib(2.0f64.to_bits()).min_ram_gib(0.5f64.to_bits()));
    assert_eq!(d, WasmDemand::with_image(ImageSpec::from_github("r")).min_ram_gib(0.0f64.to_bits()).min_storage_gib(0.0f64.to_bits()));
}

#[test]
fn session_builders() {
    let s = TaskSession::new("batch");
    assert_eq!(s.name(), "batch");
    assert_eq!(s.timeout(), TimeSpan { secs: 60, nanos: 0 });
    let s = s
        .with_timeout(TimeSpan { secs: 5, nanos: 1 })
        .demand(WasmDemand::with_image(ImageSpec::from_github("r")))
        .tasks(vec![CommandList::new(vec![Command::Deploy, Command::Start])]);
    assert_eq!(s.name(), "batch");
    assert_eq!(s.timeout(), TimeSpan { secs: 5, nanos: 1 });
}

#[test]
fn market_session_polls_until_failure() {
    let (mut s, first) = MarketSession::start();
    assert!(matches!(first, SessionAction::Subscribe));
    let a = s.step(SessionEvent::Subscribed("sub-9".to_string()));
    assert!(matches!(a, SessionAction::Collect { ref subscription_id, timeout_secs: 120, max_events: 5 } if subscription_id == "sub-9"));
    for _ in 0..3 {
        assert!(matches!(s.step(SessionEvent::Collected(Ok(()))), SessionAction::Pause { millis: 1000 }));
        assert!(matches!(s.step(SessionEvent::Paused), SessionAction::Collect { ref subscription_id, .. } if subscription_id == "sub-9"));
    }
    let end = s.step(SessionEvent::Collected(Err("timeout".to_string())));
    assert!(matches!(end, SessionAction::Finish(Err(ref e)) if e == "timeout"));
}

#[test]
fn progress_ticks_hundred_times() {
    assert_eq!(progress_step(0), ProgressAction::Pause { millis: 50 });
    assert_eq!(progress_step(99), ProgressAction::Pause { millis: 50 });
    assert_eq!(progress_step(100), ProgressAction::Finish);
    let mut n = 0;
    while let ProgressAction::Pause { .. } = progress_step(n) {
        n += 1;
    }
    assert_eq!(n, 100);
}
