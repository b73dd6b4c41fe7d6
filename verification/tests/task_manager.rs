use yagna::task_flow::{task_info_failure, Delivery, Flow, FlowAction, FlowEnd, FlowKind, Notice, Step, Target, Topic};
use yagna::task_manager::{
    AddAgreementError, AgreementBroken, AgreementState, BreakAgreement, BreakReason, CloseAgreement, TaskInfo,
    TaskManager,
};
use yagna::time::UtcTime;

fn info(id: &str, multi: bool) -> TaskInfo {
    TaskInfo { agreement_id: id.to_string(), expiration: UtcTime { secs: 100, nanos: 0 }, multi_activity: multi }
}

fn step_of(a: FlowAction) -> Step {
    match a {
        FlowAction::Perform(s) => s,
        other => panic!("expected a step, got {:?}", other),
    }
}

/// Runs a flow where every step succeeds, returning its steps.
fn run_ok(kind: FlowKind) -> Vec<Step> {
    let (mut flow, first) = Flow::start(kind);
    let mut steps = vec![step_of(first)];
    loop {
        match flow.advance(Ok(())) {
            FlowAction::Perform(s) => steps.push(s),
            FlowAction::Finish(FlowEnd::Completed) => return steps,
            other => panic!("unexpected {:?}", other),
        }
    }
}

fn approved(id: &str) -> FlowKind {
    FlowKind::AgreementApproved { agreement_id: id.to_string(), info: Ok(info(id, false)) }
}

#[test]
fn props_are_recorded_and_found() {
    let mut m = TaskManager::new();
    assert!(m.task_props(&"a".to_string()).is_none());
    let r = m.add_new_agreement(info("a", true)).unwrap();
    assert_eq!(r.agreement_id, "a");
    assert!(m.add_new_agreement(info("b", false)).is_ok());
    assert!(matches!(m.add_new_agreement(info("a", false)), Err(AddAgreementError::AlreadyKnown)));
    assert!(m.task_props(&"a".to_string()).unwrap().multi_activity);
    assert_eq!(m.task_props(&"b".to_string()).unwrap().agreement_id, "b");
}

#[test]
fn closing_after_activity_only_for_single_activity() {
    let mut m = TaskManager::new();
    m.add_new_agreement(info("single", false)).unwrap();
    m.add_new_agreement(info("multi", true)).unwrap();
    assert!(m.closes_after_activity(&"single".to_string(), true));
    assert!(!m.closes_after_activity(&"single".to_string(), false));
    assert!(!m.closes_after_activity(&"multi".to_string(), true));
    assert!(!m.closes_after_activity(&"unknown".to_string(), true));
}

#[test]
fn broken_notice_keeps_request() {
    let msg = BreakAgreement { agreement_id: "x".to_string(), reason: BreakReason::InitializationError { error: "e".to_string() } };
    let b = AgreementBroken::from(msg);
    assert_eq!(b.agreement_id, "x");
    assert!(matches!(b.reason, BreakReason::InitializationError { ref error } if error == "e"));
}

#[test]
fn initialize_subscribes_in_order() {
    let steps = run_ok(FlowKind::Initialize);
    let got: Vec<(Target, Topic)> = steps
        .iter()
        .map(|s| match s.notice {
            Notice::Subscribe(t) => (s.target, t),
            _ => panic!("not a subscription"),
        })
        .collect();
    assert_eq!(
        got,
        vec![
            (Target::Market, Topic::AgreementApproved),
            (Target::Market, Topic::CloseAgreement),
            (Target::Runner, Topic::ActivityCreated),
            (Target::Runner, Topic::ActivityDestroyed),
        ]
    );
}

#[test]
fn initialize_failure_is_returned() {
    let (mut flow, _) = Flow::start(FlowKind::Initialize);
    let a = flow.advance(Err("mailbox closed".to_string()));
    assert!(matches!(a, FlowAction::Finish(FlowEnd::Failed(ref e)) if e == "mailbox closed"));
}

#[test]
fn approval_registers_sets_up_then_finishes_initialization() {
    let steps = run_ok(approved("a"));
    assert_eq!(steps.len(), 7);
    assert!(matches!(steps[0].notice, Notice::NewAgreement { ref agreement_id } if agreement_id == "a"));
    assert_eq!(steps[0].target, Target::States);
    assert!(matches!(steps[1].notice, Notice::RecordTaskInfo(ref i) if i.agreement_id == "a"));
    assert_eq!(steps[1].target, Target::Props);
    assert!(matches!(steps[2].notice, Notice::StartTransition { state: AgreementState::Initialized, .. }));
    assert!(matches!(steps[3].notice, Notice::ScheduleExpiration(ref i) if i.agreement_id == "a"));
    assert_eq!((steps[4].target, steps[5].target), (Target::Runner, Target::Payments));
    assert!(matches!(steps[6].notice,
        Notice::FinishTransition { ref agreement_id, state: AgreementState::Initialized } if agreement_id == "a"));
}

#[test]
fn failed_registration_is_answered_at_once() {
    for failing in 1..=3 {
        let (mut flow, _) = Flow::start(approved("a"));
        for _ in 1..failing {
            step_of(flow.advance(Ok(())));
        }
        let a = flow.advance(Err("Agreement [a] already exists".to_string()));
        assert!(matches!(a, FlowAction::Finish(FlowEnd::Failed(ref e)) if e == "Agreement [a] already exists"));
    }
}

#[test]
fn unreadable_agreement_is_registered_then_refused() {
    let reason = task_info_failure("missing expiration");
    assert_eq!(reason, "Failed to create TaskInfo from Agreement. missing expiration");
    let (mut flow, first) = Flow::start(FlowKind::AgreementApproved { agreement_id: "a".to_string(), info: Err(reason) });
    assert!(matches!(step_of(first).notice, Notice::NewAgreement { .. }));
    assert!(matches!(flow.advance(Ok(())),
        FlowAction::Finish(FlowEnd::Failed(ref e)) if e == "Failed to create TaskInfo from Agreement. missing expiration"));
}

#[test]
fn failed_setup_breaks_agreement() {
    let (mut flow, _) = Flow::start(approved("a"));
    for _ in 0..4 {
        step_of(flow.advance(Ok(())));
    }
    let s = step_of(flow.advance(Err("runner down".to_string())));
    assert_eq!((s.target, s.delivery), (Target::Myself, Delivery::Post));
    match s.notice {
        Notice::BreakAgreement(b) => {
            assert_eq!(b.agreement_id, "a");
            assert!(matches!(b.reason, BreakReason::InitializationError { ref error } if error == "runner down"));
        }
        _ => panic!("expected a break"),
    }
    assert!(matches!(flow.advance(Ok(())), FlowAction::Finish(FlowEnd::Completed)));
}

#[test]
fn activity_created_moves_to_computing() {
    let steps = run_ok(FlowKind::ActivityCreated { agreement_id: "a".to_string() });
    assert!(matches!(steps[0].notice, Notice::WaitTransitionFinished { .. }));
    assert!(matches!(steps[1].notice, Notice::StartTransition { state: AgreementState::Computing, .. }));
    assert_eq!((steps[2].target, steps[2].delivery), (Target::Payments, Delivery::Post));
    assert!(matches!(steps[3].notice, Notice::FinishTransition { state: AgreementState::Computing, .. }));
}

#[test]
fn activity_created_failure_is_logged() {
    let (mut flow, _) = Flow::start(FlowKind::ActivityCreated { agreement_id: "a".to_string() });
    assert!(matches!(flow.advance(Err("dropped".to_string())), FlowAction::Finish(FlowEnd::Abandoned(_))));
}

#[test]
fn activity_destroyed_closes_single_activity_agreement() {
    let steps = run_ok(FlowKind::ActivityDestroyed { agreement_id: "a".to_string(), close: true });
    assert_eq!(steps.len(), 2);
    assert_eq!(steps[0].target, Target::Payments);
    assert!(matches!(steps[1].notice, Notice::CloseAgreement(ref c) if c.agreement_id == "a" && !c.is_terminated));
    assert_eq!(run_ok(FlowKind::ActivityDestroyed { agreement_id: "a".to_string(), close: false }).len(), 1);
}

#[test]
fn break_flow_notifies_all_modules() {
    let msg = BreakAgreement { agreement_id: "a".to_string(), reason: BreakReason::Expired(UtcTime { secs: 7, nanos: 0 }) };
    let steps = run_ok(FlowKind::Break { broken: msg });
    let targets: Vec<Target> = steps.iter().map(|s| s.target).collect();
    assert_eq!(targets, vec![Target::Myself, Target::Runner, Target::Market, Target::Payments, Target::Myself]);
    assert_eq!(steps[2].delivery, Delivery::Post);
    assert!(matches!(steps[0].notice, Notice::StartTransition { state: AgreementState::Broken { .. }, .. }));
    assert!(matches!(steps[1].notice, Notice::AgreementBroken(ref b) if b.agreement_id == "a"));
    assert!(matches!(steps[4].notice, Notice::FinishTransition { state: AgreementState::Broken { .. }, .. }));
}

#[test]
fn break_notifies_market_and_payments_when_runner_fails() {
    let msg = BreakAgreement { agreement_id: "a".to_string(), reason: BreakReason::Expired(UtcTime { secs: 7, nanos: 0 }) };
    let (mut flow, _) = Flow::start(FlowKind::Break { broken: msg });
    let runner = step_of(flow.advance(Ok(())));
    assert_eq!((runner.target, runner.delivery), (Target::Runner, Delivery::Notify));
    let market = step_of(flow.advance(Err("runner gone".to_string())));
    assert_eq!(market.target, Target::Market);
    let payments = step_of(flow.advance(Ok(())));
    assert!(matches!(payments.notice, Notice::AgreementBroken(ref b) if b.agreement_id == "a"));
    let finish = step_of(flow.advance(Ok(())));
    assert!(matches!(finish.notice, Notice::FinishTransition { state: AgreementState::Broken { .. }, .. }));
    assert!(matches!(flow.advance(Ok(())), FlowAction::Finish(FlowEnd::Completed)));
}

#[test]
fn break_failure_is_logged() {
    let msg = BreakAgreement { agreement_id: "a".to_string(), reason: BreakReason::Expired(UtcTime { secs: 7, nanos: 0 }) };
    let (mut flow, _) = Flow::start(FlowKind::Break { broken: msg });
    assert!(matches!(flow.advance(Err("x".to_string())), FlowAction::Finish(FlowEnd::Abandoned(ref e)) if e == "x"));
    let msg = BreakAgreement { agreement_id: "a".to_string(), reason: BreakReason::Expired(UtcTime { secs: 7, nanos: 0 }) };
    let (mut flow, _) = Flow::start(FlowKind::Break { broken: msg });
    for _ in 0..3 {
        step_of(flow.advance(Ok(())));
    }
    assert!(matches!(flow.advance(Err("payments".to_string())), FlowAction::Finish(FlowEnd::Abandoned(ref e)) if e == "payments"));
}

#[test]
fn close_flow_sends_termination_unless_terminated() {
    for terminated in [false, true] {
        let steps = run_ok(FlowKind::Close { closing: CloseAgreement { agreement_id: "a".to_string(), is_terminated: terminated } });
        assert_eq!(steps.len(), 5);
        for s in &steps[1..4] {
            assert!(matches!(s.notice, Notice::AgreementClosed(ref c) if c.send_terminate == !terminated));
        }
        assert!(matches!(steps[4].notice, Notice::FinishTransition { state: AgreementState::Closed, .. }));
    }
}
