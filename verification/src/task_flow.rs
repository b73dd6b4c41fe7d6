//! The task manager's message handlers as step machines. Each handler sends
//! a fixed sequence of messages, waits for the answers it needs, and decides
//! what to do when one of them fails. The actor asks `Flow` for the next
//! step, performs it, and reports how it went.
use vstd::prelude::*;
use crate::task_manager::{
    AgreementBroken, AgreementClosed, AgreementState, BreakAgreement, BreakReason, CloseAgreement,
    TaskInfo, broken_notice, closed_notice,
};

verus! {

/// Who a step addresses.
#[derive(Debug, Clone, Copy, PartialEq, Eq, Structural)]
pub enum Target {
    /// The provider market actor.
    Market,
    /// The task runner actor.
    Runner,
    /// The payments actor.
    Payments,
    /// The task manager itself, through its own mailbox.
    Myself,
    /// The task manager's table of agreement states, used in place.
    States,
    /// The task manager's table of agreement properties
    /// (`TaskManager::add_new_agreement`), used in place.
    Props,
}

/// How a step is delivered.
#[derive(Debug, Clone, Copy, PartialEq, Eq, Structural)]
pub enum Delivery {
    /// The answer is awaited; a failure decides the rest of the handler.
    Await,
    /// The answer is awaited, but a failure does not stop the handler: the
    /// receiver handles its own errors and the next step follows anyway.
    Notify,
    /// The message is only posted.
    Post,
}

/// The events the task manager subscribes to.
#[derive(Debug, Clone, Copy, PartialEq, Eq, Structural)]
pub enum Topic {
    AgreementApproved,
    CloseAgreement,
    ActivityCreated,
    ActivityDestroyed,
}

/// What a step sends.
#[derive(Debug)]
pub enum Notice {
    /// A subscription of the task manager to the topic.
    Subscribe(Topic),
    /// Register a new agreement in the state table; this fails for an
    /// agreement the table already knows.
    NewAgreement { agreement_id: String },
    /// Record the agreement's properties.
    RecordTaskInfo(TaskInfo),
    /// Set the expiration timers of the agreement.
    ScheduleExpiration(TaskInfo),
    /// The event the handler received, passed on unchanged.
    Forward,
    /// Begin the agreement's move to the state.
    StartTransition { agreement_id: String, state: AgreementState },
    /// Complete the agreement's move to the state.
    FinishTransition { agreement_id: String, state: AgreementState },
    /// Wait until the agreement's pending state change is complete.
    WaitTransitionFinished { agreement_id: String },
    AgreementBroken(AgreementBroken),
    AgreementClosed(AgreementClosed),
    BreakAgreement(BreakAgreement),
    CloseAgreement(CloseAgreement),
}

/// One step of a handler.
#[derive(Debug)]
pub struct Step {
    pub target: Target,
    pub delivery: Delivery,
    pub notice: Notice,
}

/// How a handler ends.
#[derive(Debug)]
pub enum FlowEnd {
    /// Every step succeeded.
    Completed,
    /// The handler answers with this error.
    Failed(String),
    /// A step failed; the error is logged and the handler answers success.
    Abandoned(String),
}

/// What the actor does next.
#[derive(Debug)]
pub enum FlowAction {
    Perform(Step),
    Finish(FlowEnd),
}

/// The handlers of the task manager, with what each one works on.
#[derive(Debug)]
pub enum FlowKind {
    /// Subscribe to the events the task manager reacts to.
    Initialize,
    /// An agreement was approved; `info` is what was read of it, or why it
    /// could not be read (see `task_info_failure`).
    AgreementApproved { agreement_id: String, info: Result<TaskInfo, String> },
    /// An activity was created under the agreement.
    ActivityCreated { agreement_id: String },
    /// An activity of the agreement ended; `close` tells whether the provider
    /// closes the agreement now.
    ActivityDestroyed { agreement_id: String, close: bool },
    /// Break the agreement.
    Break { broken: BreakAgreement },
    /// Close the agreement.
    Close { closing: CloseAgreement },
}

/// Where a flow stands.
#[derive(Debug, Clone, Copy, PartialEq, Eq, Structural)]
pub enum FlowPhase {
    /// Performing the handler's steps.
    Running,
    /// A step failed and the one recovery step was handed out.
    Recovering,
    /// The handler is done.
    Finished,
}

pub open spec fn step(target: Target, delivery: Delivery, notice: Notice) -> Step {
    Step { target, delivery, notice }
}

/// The steps a handler takes when each of them succeeds.
pub open spec fn plan(kind: FlowKind) -> Seq<Step> {
    match kind {
        FlowKind::Initialize => seq![
            step(Target::Market, Delivery::Await, Notice::Subscribe(Topic::AgreementApproved)),
            step(Target::Market, Delivery::Await, Notice::Subscribe(Topic::CloseAgreement)),
            step(Target::Runner, Delivery::Await, Notice::Subscribe(Topic::ActivityCreated)),
            step(Target::Runner, Delivery::Await, Notice::Subscribe(Topic::ActivityDestroyed)),
        ],
        FlowKind::AgreementApproved { agreement_id, info } => {
            let register = step(Target::States, Delivery::Await, Notice::NewAgreement { agreement_id });
            match info {
                Ok(i) => seq![
                    register,
                    step(Target::Props, Delivery::Await, Notice::RecordTaskInfo(i)),
                    step(Target::States, Delivery::Await,
                        Notice::StartTransition { agreement_id, state: AgreementState::Initialized }),
                    step(Target::Myself, Delivery::Await, Notice::ScheduleExpiration(i)),
                    step(Target::Runner, Delivery::Await, Notice::Forward),
                    step(Target::Payments, Delivery::Await, Notice::Forward),
                    step(Target::Myself, Delivery::Await,
                        Notice::FinishTransition { agreement_id, state: AgreementState::Initialized }),
                ],
                Err(_) => seq![register],
            }
        },
        FlowKind::ActivityCreated { agreement_id } => seq![
            step(Target::States, Delivery::Await, Notice::WaitTransitionFinished { agreement_id }),
            step(Target::States, Delivery::Await,
                Notice::StartTransition { agreement_id, state: AgreementState::Computing }),
            step(Target::Payments, Delivery::Post, Notice::Forward),
            step(Target::States, Delivery::Await,
                Notice::FinishTransition { agreement_id, state: AgreementState::Computing }),
        ],
        FlowKind::ActivityDestroyed { agreement_id, close } => {
            let forward = step(Target::Payments, Delivery::Await, Notice::Forward);
            if close {
                seq![
                    forward,
                    step(Target::Myself, Delivery::Post,
                        Notice::CloseAgreement(CloseAgreement { agreement_id, is_terminated: false })),
                ]
            } else {
                seq![forward]
            }
        },
        FlowKind::Break { broken: msg } => {
            let state = AgreementState::Broken { reason: msg.reason };
            let notice = broken_notice(msg);
            seq![
                step(Target::Myself, Delivery::Await,
                    Notice::StartTransition { agreement_id: msg.agreement_id, state }),
                step(Target::Runner, Delivery::Notify, Notice::AgreementBroken(notice)),
                step(Target::Market, Delivery::Post, Notice::AgreementBroken(notice)),
                step(Target::Payments, Delivery::Await, Notice::AgreementBroken(notice)),
                step(Target::Myself, Delivery::Await,
                    Notice::FinishTransition { agreement_id: msg.agreement_id, state }),
            ]
        },
        FlowKind::Close { closing: msg } => {
            let notice = closed_notice(msg);
            seq![
                step(Target::Myself, Delivery::Await,
                    Notice::StartTransition { agreement_id: msg.agreement_id, state: AgreementState::Closed }),
                step(Target::Runner, Delivery::Post, Notice::AgreementClosed(notice)),
                step(Target::Market, Delivery::Post, Notice::AgreementClosed(notice)),
                step(Target::Payments, Delivery::Await, Notice::AgreementClosed(notice)),
                step(Target::Myself, Delivery::Await,
                    Notice::FinishTransition { agreement_id: msg.agreement_id, state: AgreementState::Closed }),
            ]
        },
    }
}

/// How many leading steps of an approval register the agreement (in the
/// state table and the properties table, and the start of its move to the
/// initialized state); a failure among them is answered at once.
pub open spec fn registration_len(kind: FlowKind) -> nat {
    match kind {
        FlowKind::AgreementApproved { info: Ok(_), .. } => 3,
        FlowKind::AgreementApproved { info: Err(_), .. } => 1,
        _ => 0,
    }
}

/// How a handler ends once its plan is done: an approved agreement whose
/// properties could not be read is answered with that error; every other
/// handler has completed.
pub open spec fn completion(kind: FlowKind) -> FlowEnd {
    match kind {
        FlowKind::AgreementApproved { info: Err(e), .. } => FlowEnd::Failed(e),
        _ => FlowEnd::Completed,
    }
}

/// What a handler does when the `position`-th step it handed out fails with
/// `error`: initialization, an ended activity, and the registration of an
/// approved agreement answer with the error; an approved agreement that
/// could not be set up after its registration is broken; the other handlers
/// log the error.
pub open spec fn failure_action(kind: FlowKind, position: nat, error: String) -> FlowAction {
    match kind {
        FlowKind::Initialize => FlowAction::Finish(FlowEnd::Failed(error)),
        FlowKind::ActivityDestroyed { .. } => FlowAction::Finish(FlowEnd::Failed(error)),
        FlowKind::AgreementApproved { info, .. } => match info {
            Ok(i) => if position <= registration_len(kind) {
                FlowAction::Finish(FlowEnd::Failed(error))
            } else {
                FlowAction::Perform(step(Target::Myself, Delivery::Post,
                    Notice::BreakAgreement(BreakAgreement {
                        agreement_id: i.agreement_id,
                        reason: BreakReason::InitializationError { error },
                    })))
            },
            Err(_) => FlowAction::Finish(FlowEnd::Failed(error)),
        },
        _ => FlowAction::Finish(FlowEnd::Abandoned(error)),
    }
}

/// A handler's next position, phase and action, given how the last step it
/// handed out (the `position`-th) went. After a success, or after a failure
/// of a step delivered as `Notify`, the next step of the plan is handed out,
/// or the handler ends as `completion` says when none is left; after any
/// other failure the handler does what `failure_action` says, and once a
/// recovery step is done it completes.
pub open spec fn flow_next(kind: FlowKind, position: nat, phase: FlowPhase, last: Result<(), String>) -> (nat, FlowPhase, FlowAction) {
    if phase == FlowPhase::Recovering {
        (position, FlowPhase::Finished, FlowAction::Finish(FlowEnd::Completed))
    } else {
        let tolerated = 1 <= position <= plan(kind).len() && plan(kind)[position - 1].delivery == Delivery::Notify;
        match last {
            Err(e) if !tolerated => {
                let a = failure_action(kind, position, e);
                (position, if a is Perform { FlowPhase::Recovering } else { FlowPhase::Finished }, a)
            },
            _ => if position < plan(kind).len() {
                (position + 1, FlowPhase::Running, FlowAction::Perform(plan(kind)[position as int]))
            } else {
                (position, FlowPhase::Finished, FlowAction::Finish(completion(kind)))
            },
        }
    }
}

/// The actions a running handler at `position` hands out when the next
/// `count` reports are all successes.
pub open spec fn actions_on_success(kind: FlowKind, position: nat, count: nat) -> Seq<FlowAction>
    decreases count,
{
    if count == 0 {
        Seq::empty()
    } else {
        let (next, phase, a) = flow_next(kind, position, FlowPhase::Running, Ok(()));
        if phase == FlowPhase::Running {
            seq![a] + actions_on_success(kind, next, (count - 1) as nat)
        } else {
            seq![a]
        }
    }
}

/// The error text an approval answers with when the agreement's properties
/// could not be read.
pub open spec fn task_info_failure_text(reason: Seq<char>) -> Seq<char> {
    "Failed to create TaskInfo from Agreement. "@ + reason
}

/// Builds the error text an approval answers with when the agreement's
/// properties could not be read for `reason`.
pub fn task_info_failure(reason: &str) -> (s: String)
    ensures
        s@ == task_info_failure_text(reason@),
{
    let mut s = String::new();
    crate::text::push_str(&mut s, "Failed to create TaskInfo from Agreement. ");
    crate::text::push_str(&mut s, reason);
    proof {
        assert(s@ =~= task_info_failure_text(reason@));
    }
    s
}

/// A handler in progress.
pub struct Flow {
    kind: FlowKind,
    position: usize,
    phase: FlowPhase,
}

impl Flow {
    pub closed spec fn kind(&self) -> FlowKind {
        self.kind
    }

    /// How many steps were handed out.
    pub closed spec fn position(&self) -> nat {
        self.position as nat
    }

    pub closed spec fn phase(&self) -> FlowPhase {
        self.phase
    }

    /// The position lies within the plan.
    pub closed spec fn wf(&self) -> bool {
        1 <= self.position <= plan(self.kind).len()
    }

    /// Starts a handler: the first step of its plan.
    pub fn start(kind: FlowKind) -> (r: (Flow, FlowAction))
        ensures
            r.0.wf(),
            r.0.kind() == kind,
            r.0.position() == 1,
            r.0.phase() == FlowPhase::Running,
            r.1 == FlowAction::Perform(plan(kind)[0]),
    {
        let first = step_at(&kind, 0);
        (Flow { kind, position: 1, phase: FlowPhase::Running }, FlowAction::Perform(first))
    }

    /// The next action, given how the last step handed out went. Posted
    /// messages cannot fail; they are reported as successes.
    pub fn advance(&mut self, last: Result<(), String>) -> (a: FlowAction)
        requires
            old(self).wf(),
            old(self).phase() != FlowPhase::Finished,
        ensures
            final(self).wf(),
            final(self).kind() == old(self).kind(),
            (final(self).position(), final(self).phase(), a)
                == flow_next(old(self).kind(), old(self).position(), old(self).phase(), last),
    {
        if self.phase == FlowPhase::Recovering {
            self.phase = FlowPhase::Finished;
            return FlowAction::Finish(FlowEnd::Completed);
        }
        let tolerated = delivery_at(&self.kind, self.position - 1) == Delivery::Notify;
        match last {
            Err(e) if !tolerated => {
                let a = on_failure(&self.kind, self.position, e);
                self.phase = if let FlowAction::Perform(_) = a { FlowPhase::Recovering } else { FlowPhase::Finished };
                a
            },
            _ => {
                if self.position < plan_len(&self.kind) {
                    let s = step_at(&self.kind, self.position);
                    self.position = self.position + 1;
                    FlowAction::Perform(s)
                } else {
                    self.phase = FlowPhase::Finished;
                    FlowAction::Finish(on_completion(&self.kind))
                }
            },
        }
    }
}

fn plan_len(kind: &FlowKind) -> (n: usize)
    ensures
        n == plan(*kind).len(),
{
    match kind {
        FlowKind::Initialize => 4,
        FlowKind::AgreementApproved { info, .. } => if info.is_ok() { 7 } else { 1 },
        FlowKind::ActivityCreated { .. } => 4,
        FlowKind::ActivityDestroyed { close, .. } => if *close { 2 } else { 1 },
        FlowKind::Break { .. } => 5,
        FlowKind::Close { .. } => 5,
    }
}

fn delivery_at(kind: &FlowKind, i: usize) -> (d: Delivery)
    requires
        i < plan(*kind).len(),
    ensures
        d == plan(*kind)[i as int].delivery,
{
    match kind {
        FlowKind::Break { .. } => if i == 1 {
            Delivery::Notify
        } else if i == 2 {
            Delivery::Post
        } else {
            Delivery::Await
        },
        FlowKind::ActivityCreated { .. } => if i == 2 { Delivery::Post } else { Delivery::Await },
        FlowKind::ActivityDestroyed { .. } => if i == 1 { Delivery::Post } else { Delivery::Await },
        FlowKind::Close { .. } => if i == 1 || i == 2 { Delivery::Post } else { Delivery::Await },
        _ => Delivery::Await,
    }
}

fn on_completion(kind: &FlowKind) -> (e: FlowEnd)
    ensures
        e == completion(*kind),
{
    match kind {
        FlowKind::AgreementApproved { info: Err(e), .. } => FlowEnd::Failed(e.clone()),
        _ => FlowEnd::Completed,
    }
}

fn on_failure(kind: &FlowKind, position: usize, error: String) -> (a: FlowAction)
    ensures
        a == failure_action(*kind, position as nat, error),
{
    match kind {
        FlowKind::Initialize => FlowAction::Finish(FlowEnd::Failed(error)),
        FlowKind::ActivityDestroyed { .. } => FlowAction::Finish(FlowEnd::Failed(error)),
        FlowKind::AgreementApproved { info, .. } => match info {
            Ok(i) => if position <= 3 {
                FlowAction::Finish(FlowEnd::Failed(error))
            } else {
                FlowAction::Perform(Step {
                    target: Target::Myself,
                    delivery: Delivery::Post,
                    notice: Notice::BreakAgreement(BreakAgreement {
                        agreement_id: i.agreement_id.clone(),
                        reason: BreakReason::InitializationError { error },
                    }),
                })
            },
            Err(_) => FlowAction::Finish(FlowEnd::Failed(error)),
        },
        _ => FlowAction::Finish(FlowEnd::Abandoned(error)),
    }
}

fn mk(target: Target, delivery: Delivery, notice: Notice) -> (s: Step)
    ensures
        s == step(target, delivery, notice),
{
    Step { target, delivery, notice }
}

fn step_at(kind: &FlowKind, i: usize) -> (s: Step)
    requires
        i < plan(*kind).len(),
    ensures
        s == plan(*kind)[i as int],
{
    match kind {
        FlowKind::Initialize => {
            let topic = if i == 0 {
                Topic::AgreementApproved
            } else if i == 1 {
                Topic::CloseAgreement
            } else if i == 2 {
                Topic::ActivityCreated
            } else {
                Topic::ActivityDestroyed
            };
            let target = if i < 2 { Target::Market } else { Target::Runner };
            mk(target, Delivery::Await, Notice::Subscribe(topic))
        },
        FlowKind::AgreementApproved { agreement_id, info } => {
            if i == 0 {
                mk(Target::States, Delivery::Await, Notice::NewAgreement { agreement_id: agreement_id.clone() })
            } else {
                match info {
                    Ok(inf) => {
                        if i == 1 {
                            mk(Target::Props, Delivery::Await, Notice::RecordTaskInfo(inf.clone()))
                        } else if i == 2 {
                            mk(Target::States, Delivery::Await, Notice::StartTransition {
                                agreement_id: agreement_id.clone(),
                                state: AgreementState::Initialized,
                            })
                        } else if i == 3 {
                            mk(Target::Myself, Delivery::Await, Notice::ScheduleExpiration(inf.clone()))
                        } else if i == 4 {
                            mk(Target::Runner, Delivery::Await, Notice::Forward)
                        } else if i == 5 {
                            mk(Target::Payments, Delivery::Await, Notice::Forward)
                        } else {
                            mk(Target::Myself, Delivery::Await, Notice::FinishTransition {
                                agreement_id: agreement_id.clone(),
                                state: AgreementState::Initialized,
                            })
                        }
                    },
                    Err(_) => {
                        mk(Target::States, Delivery::Await, Notice::NewAgreement { agreement_id: agreement_id.clone() })
                    },
                }
            }
        },
        FlowKind::ActivityCreated { agreement_id } => {
            if i == 0 {
                mk(Target::States, Delivery::Await, Notice::WaitTransitionFinished { agreement_id: agreement_id.clone() })
            } else if i == 1 {
                mk(Target::States, Delivery::Await, Notice::StartTransition {
                    agreement_id: agreement_id.clone(),
                    state: AgreementState::Computing,
                })
            } else if i == 2 {
                mk(Target::Payments, Delivery::Post, Notice::Forward)
            } else {
                mk(Target::States, Delivery::Await, Notice::FinishTransition {
                    agreement_id: agreement_id.clone(),
                    state: AgreementState::Computing,
                })
            }
        },
        FlowKind::ActivityDestroyed { agreement_id, close } => {
            if i == 0 {
                mk(Target::Payments, Delivery::Await, Notice::Forward)
            } else {
                mk(Target::Myself, Delivery::Post, Notice::CloseAgreement(CloseAgreement {
                    agreement_id: agreement_id.clone(),
                    is_terminated: false,
                }))
            }
        },
        FlowKind::Break { broken: msg } => {
            if i == 0 || i == 4 {
                let state = AgreementState::Broken { reason: msg.reason.clone() };
                let agreement_id = msg.agreement_id.clone();
                if i == 0 {
                    mk(Target::Myself, Delivery::Await, Notice::StartTransition { agreement_id, state })
                } else {
                    mk(Target::Myself, Delivery::Await, Notice::FinishTransition { agreement_id, state })
                }
            } else {
                let notice = AgreementBroken::from(msg.clone());
                if i == 1 {
                    mk(Target::Runner, Delivery::Notify, Notice::AgreementBroken(notice))
                } else if i == 2 {
                    mk(Target::Market, Delivery::Post, Notice::AgreementBroken(notice))
                } else {
                    mk(Target::Payments, Delivery::Await, Notice::AgreementBroken(notice))
                }
            }
        },
        FlowKind::Close { closing: msg } => {
            if i == 0 || i == 4 {
                let agreement_id = msg.agreement_id.clone();
                if i == 0 {
                    mk(Target::Myself, Delivery::Await, Notice::StartTransition { agreement_id, state: AgreementState::Closed })
                } else {
                    mk(Target::Myself, Delivery::Await, Notice::FinishTransition { agreement_id, state: AgreementState::Closed })
                }
            } else {
                let notice = AgreementClosed { agreement_id: msg.agreement_id.clone(), send_terminate: !msg.is_terminated };
                if i == 1 {
                    mk(Target::Runner, Delivery::Post, Notice::AgreementClosed(notice))
                } else if i == 2 {
                    mk(Target::Market, Delivery::Post, Notice::AgreementClosed(notice))
                } else {
                    mk(Target::Payments, Delivery::Await, Notice::AgreementClosed(notice))
                }
            }
        },
    }
}

// =========================================== //
// Laws of the handlers
// =========================================== //

/// Who each step of a plan addresses, in order.
pub open spec fn targets(p: Seq<Step>) -> Seq<Target> {
    p.map_values(|s: Step| s.target)
}

/// Initialization subscribes the task manager, through the market, to
/// approved and closed agreements and, through the runner, to created and
/// destroyed activities, awaiting each answer; a failure of any of the four
/// subscriptions is answered with that error, and after the last one the
/// handler completes.
pub proof fn law_initialize(position: nat, error: String)
    ensures
        ({
            let p = plan(FlowKind::Initialize);
            &&& p.len() == 4
            &&& targets(p) == seq![Target::Market, Target::Market, Target::Runner, Target::Runner]
            &&& p[0] == step(Target::Market, Delivery::Await, Notice::Subscribe(Topic::AgreementApproved))
            &&& p[1] == step(Target::Market, Delivery::Await, Notice::Subscribe(Topic::CloseAgreement))
            &&& p[2] == step(Target::Runner, Delivery::Await, Notice::Subscribe(Topic::ActivityCreated))
            &&& p[3] == step(Target::Runner, Delivery::Await, Notice::Subscribe(Topic::ActivityDestroyed))
            &&& (1 <= position <= 4 ==> flow_next(FlowKind::Initialize, position, FlowPhase::Running, Err(error))
                == (position, FlowPhase::Finished, FlowAction::Finish(FlowEnd::Failed(error))))
            &&& flow_next(FlowKind::Initialize, 4, FlowPhase::Running, Ok(()))
                == (4nat, FlowPhase::Finished, FlowAction::Finish(FlowEnd::Completed))
        }),
{
    assert(targets(plan(FlowKind::Initialize)) =~= seq![Target::Market, Target::Market, Target::Runner, Target::Runner]);
}

/// Breaking an agreement begins and ends with the same move to the broken
/// state with the request's reason, done through the task manager's own
/// mailbox. Once the move has begun, the runner (awaited, but its failure
/// tolerated), the market (posted) and payments (awaited) are each told once,
/// in that order, whatever the runner answers; every notice names the
/// agreement and the reason of the request. A failure of the move or of
/// payments is logged and the handler answers success.
pub proof fn law_break_sequence(request: BreakAgreement, runner_answer: Result<(), String>, position: nat, error: String)
    ensures
        ({
            let kind = FlowKind::Break { broken: request };
            let p = plan(kind);
            let state = AgreementState::Broken { reason: request.reason };
            let notice = Notice::AgreementBroken(AgreementBroken { agreement_id: request.agreement_id, reason: request.reason });
            &&& p.len() == 5
            &&& targets(p) == seq![Target::Myself, Target::Runner, Target::Market, Target::Payments, Target::Myself]
            &&& p[0] == step(Target::Myself, Delivery::Await,
                    Notice::StartTransition { agreement_id: request.agreement_id, state })
            &&& p[1] == step(Target::Runner, Delivery::Notify, notice)
            &&& p[2] == step(Target::Market, Delivery::Post, notice)
            &&& p[3] == step(Target::Payments, Delivery::Await, notice)
            &&& p[4] == step(Target::Myself, Delivery::Await,
                    Notice::FinishTransition { agreement_id: request.agreement_id, state })
            &&& flow_next(kind, 1, FlowPhase::Running, Ok(())) == (2nat, FlowPhase::Running, FlowAction::Perform(p[1]))
            &&& flow_next(kind, 2, FlowPhase::Running, runner_answer) == (3nat, FlowPhase::Running, FlowAction::Perform(p[2]))
            &&& flow_next(kind, 3, FlowPhase::Running, Ok(())) == (4nat, FlowPhase::Running, FlowAction::Perform(p[3]))
            &&& ((position == 1 || position == 4 || position == 5) ==> flow_next(kind, position, FlowPhase::Running, Err(error))
                == (position, FlowPhase::Finished, FlowAction::Finish(FlowEnd::Abandoned(error))))
        }),
{
    let p = plan(FlowKind::Break { broken: request });
    assert(targets(p) =~= seq![Target::Myself, Target::Runner, Target::Market, Target::Payments, Target::Myself]);
}

/// Closing an agreement begins and ends with the same move to the closed
/// state, done through the task manager's own mailbox. In between, the
/// runner and the market are posted, and payments awaited, each once and in
/// that order, with a notice for the agreement that says to send the
/// termination exactly when the requestor did not terminate the agreement
/// itself. A failure of the move or of payments is logged and the handler
/// answers success.
pub proof fn law_close_sequence(request: CloseAgreement, position: nat, error: String)
    ensures
        ({
            let kind = FlowKind::Close { closing: request };
            let p = plan(kind);
            let notice = Notice::AgreementClosed(
                AgreementClosed { agreement_id: request.agreement_id, send_terminate: !request.is_terminated });
            &&& p.len() == 5
            &&& targets(p) == seq![Target::Myself, Target::Runner, Target::Market, Target::Payments, Target::Myself]
            &&& p[0] == step(Target::Myself, Delivery::Await,
                    Notice::StartTransition { agreement_id: request.agreement_id, state: AgreementState::Closed })
            &&& p[1] == step(Target::Runner, Delivery::Post, notice)
            &&& p[2] == step(Target::Market, Delivery::Post, notice)
            &&& p[3] == step(Target::Payments, Delivery::Await, notice)
            &&& p[4] == step(Target::Myself, Delivery::Await,
                    Notice::FinishTransition { agreement_id: request.agreement_id, state: AgreementState::Closed })
            &&& ((position == 1 || position == 4 || position == 5) ==> flow_next(kind, position, FlowPhase::Running, Err(error))
                == (position, FlowPhase::Finished, FlowAction::Finish(FlowEnd::Abandoned(error))))
        }),
{
    let p = plan(FlowKind::Close { closing: request });
    assert(targets(p) =~= seq![Target::Myself, Target::Runner, Target::Market, Target::Payments, Target::Myself]);
}

/// An approved agreement is first registered in the state table, its
/// properties recorded and its move to the initialized state begun; a failure
/// there is answered at once with that error and nothing is sent. Then the
/// task manager sets the agreement's expiration timers through its own
/// mailbox, the runner and then payments are given the approval, and only
/// then the move to the initialized state is finished, through the mailbox.
/// A failure in that set-up breaks the agreement with the failure's text,
/// posted to the task manager itself, and then the handler completes.
pub proof fn law_approval(agreement_id: String, info: TaskInfo, error: String, position: nat)
    ensures
        ({
            let kind = FlowKind::AgreementApproved { agreement_id, info: Ok(info) };
            let p = plan(kind);
            &&& p.len() == 7
            &&& targets(p) == seq![Target::States, Target::Props, Target::States, Target::Myself,
                    Target::Runner, Target::Payments, Target::Myself]
            &&& p[0] == step(Target::States, Delivery::Await, Notice::NewAgreement { agreement_id })
            &&& p[1] == step(Target::Props, Delivery::Await, Notice::RecordTaskInfo(info))
            &&& p[2] == step(Target::States, Delivery::Await,
                    Notice::StartTransition { agreement_id, state: AgreementState::Initialized })
            &&& p[3] == step(Target::Myself, Delivery::Await, Notice::ScheduleExpiration(info))
            &&& p[4] == step(Target::Runner, Delivery::Await, Notice::Forward)
            &&& p[5] == step(Target::Payments, Delivery::Await, Notice::Forward)
            &&& p[6] == step(Target::Myself, Delivery::Await,
                    Notice::FinishTransition { agreement_id, state: AgreementState::Initialized })
            &&& (1 <= position <= 3 ==> flow_next(kind, position, FlowPhase::Running, Err(error))
                    == (position, FlowPhase::Finished, FlowAction::Finish(FlowEnd::Failed(error))))
            &&& (4 <= position <= 7 ==> flow_next(kind, position, FlowPhase::Running, Err(error))
                    == (position, FlowPhase::Recovering, FlowAction::Perform(
                        step(Target::Myself, Delivery::Post, Notice::BreakAgreement(BreakAgreement {
                            agreement_id: info.agreement_id,
                            reason: BreakReason::InitializationError { error },
                        })))))
            &&& flow_next(kind, position, FlowPhase::Recovering, Ok(()))
                    == (position, FlowPhase::Finished, FlowAction::Finish(FlowEnd::Completed))
        }),
{
    let p = plan(FlowKind::AgreementApproved { agreement_id, info: Ok(info) });
    assert(targets(p) =~= seq![Target::States, Target::Props, Target::States, Target::Myself,
        Target::Runner, Target::Payments, Target::Myself]);
}

/// An approved agreement whose properties could not be read is still
/// registered in the state table (as the first step always is), and is then
/// answered with the reading's error; nothing else is sent.
pub proof fn law_approval_unreadable(agreement_id: String, reason: String, error: String)
    ensures
        ({
            let kind = FlowKind::AgreementApproved { agreement_id, info: Err(reason) };
            &&& plan(kind) == seq![step(Target::States, Delivery::Await, Notice::NewAgreement { agreement_id })]
            &&& flow_next(kind, 1, FlowPhase::Running, Ok(()))
                == (1nat, FlowPhase::Finished, FlowAction::Finish(FlowEnd::Failed(reason)))
            &&& flow_next(kind, 1, FlowPhase::Running, Err(error))
                == (1nat, FlowPhase::Finished, FlowAction::Finish(FlowEnd::Failed(error)))
        }),
{
}

/// A new activity moves its agreement to computing only after any pending
/// state change of the agreement is complete (all in the state table), and
/// payments are posted the event while the move is in progress. A failure is
/// logged and the handler answers success.
pub proof fn law_activity_created(agreement_id: String, position: nat, error: String)
    ensures
        ({
            let kind = FlowKind::ActivityCreated { agreement_id };
            let p = plan(kind);
            &&& p.len() == 4
            &&& targets(p) == seq![Target::States, Target::States, Target::Payments, Target::States]
            &&& p[0] == step(Target::States, Delivery::Await, Notice::WaitTransitionFinished { agreement_id })
            &&& p[1] == step(Target::States, Delivery::Await,
                    Notice::StartTransition { agreement_id, state: AgreementState::Computing })
            &&& p[2] == step(Target::Payments, Delivery::Post, Notice::Forward)
            &&& p[3] == step(Target::States, Delivery::Await,
                    Notice::FinishTransition { agreement_id, state: AgreementState::Computing })
            &&& ((position == 1 || position == 2 || position == 4) ==> flow_next(kind, position, FlowPhase::Running, Err(error))
                == (position, FlowPhase::Finished, FlowAction::Finish(FlowEnd::Abandoned(error))))
        }),
{
    let p = plan(FlowKind::ActivityCreated { agreement_id });
    assert(targets(p) =~= seq![Target::States, Target::States, Target::Payments, Target::States]);
}

/// When an activity ends, payments hear of it first (awaited; a failure is
/// answered with that error); then, exactly when the provider closes the
/// agreement, the task manager posts itself a close request saying the
/// requestor did not terminate.
pub proof fn law_activity_destroyed(agreement_id: String, close: bool, error: String)
    ensures
        ({
            let kind = FlowKind::ActivityDestroyed { agreement_id, close };
            let p = plan(kind);
            &&& p[0] == step(Target::Payments, Delivery::Await, Notice::Forward)
            &&& p.len() == (if close { 2int } else { 1int })
            &&& close ==> p[1] == step(Target::Myself, Delivery::Post,
                    Notice::CloseAgreement(CloseAgreement { agreement_id, is_terminated: false }))
            &&& flow_next(kind, 1, FlowPhase::Running, Err(error))
                == (1nat, FlowPhase::Finished, FlowAction::Finish(FlowEnd::Failed(error)))
        }),
{
}

proof fn lemma_success_suffix(kind: FlowKind, position: nat)
    requires
        1 <= position <= plan(kind).len(),
    ensures
        actions_on_success(kind, position, (plan(kind).len() - position + 1) as nat)
            == plan(kind).subrange(position as int, plan(kind).len() as int).map_values(|s: Step| FlowAction::Perform(s))
                .push(FlowAction::Finish(completion(kind))),
    decreases plan(kind).len() - position,
{
    let n = plan(kind).len();
    let rest = plan(kind).subrange(position as int, n as int).map_values(|s: Step| FlowAction::Perform(s));
    if position == n {
        assert(rest =~= Seq::<FlowAction>::empty());
        assert(actions_on_success(kind, position, 1) =~= seq![FlowAction::Finish(completion(kind))]);
    } else {
        lemma_success_suffix(kind, position + 1);
        let tail = plan(kind).subrange(position + 1 as int, n as int).map_values(|s: Step| FlowAction::Perform(s));
        assert(rest =~= seq![FlowAction::Perform(plan(kind)[position as int])] + tail);
        assert(actions_on_success(kind, position, (n - position + 1) as nat)
            =~= seq![FlowAction::Perform(plan(kind)[position as int])]
                + actions_on_success(kind, position + 1, (n - position) as nat));
        assert(rest.push(FlowAction::Finish(completion(kind)))
            =~= seq![FlowAction::Perform(plan(kind)[position as int])] + tail.push(FlowAction::Finish(completion(kind))));
    }
}

/// A handler whose steps all succeed performs exactly its plan, in order,
/// and then ends as `completion` says: after `start` hands out the first
/// step, the successful reports hand out the others one by one and then the
/// end.
pub proof fn law_success_follows_plan(kind: FlowKind)
    ensures
        plan(kind).len() >= 1,
        actions_on_success(kind, 1, plan(kind).len())
            == plan(kind).drop_first().map_values(|s: Step| FlowAction::Perform(s))
                .push(FlowAction::Finish(completion(kind))),
{
    lemma_success_suffix(kind, 1);
    assert(plan(kind).drop_first() =~= plan(kind).subrange(1, plan(kind).len() as int));
}

} // verus!
