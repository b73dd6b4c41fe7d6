//! A requestor that describes a batch of tasks (the image to run, the
//! resources it needs, the commands of each task) and drives its session
//! with the market.
use vstd::prelude::*;
use crate::time::TimeSpan;

verus! {

/// The WebAssembly runtime an image needs.
#[derive(Debug, Clone, Copy, PartialEq, Eq, Structural)]
pub enum WasmRuntime {
    /// WASI, of the given version.
    Wasi(i32),
}

/// What image a task runs.
#[derive(Debug, Clone, Copy, PartialEq, Eq, Structural)]
pub struct ImageSpec {
    runtime: WasmRuntime,
}

impl ImageSpec {
    pub closed spec fn runtime_spec(&self) -> WasmRuntime {
        self.runtime
    }

    /// The image published in a GitHub repository. The image specification
    /// is not downloaded yet: every image runs on WASI version 1.
    pub fn from_github(_github_repository: &str) -> (s: Self)
        ensures
            s.runtime_spec() == WasmRuntime::Wasi(1),
    {
        Self { runtime: WasmRuntime::Wasi(1) }
    }

    /// The same image on another runtime.
    pub fn runtime(self, runtime: WasmRuntime) -> (s: Self)
        ensures
            s.runtime_spec() == runtime,
    {
        Self { runtime }
    }
}

/// One command of an exe-script.
#[derive(Debug)]
pub enum Command {
    Deploy,
    Start,
    Run(Vec<String>),
    Stop,
}

/// The commands of one task, in order.
#[derive(Debug)]
pub struct CommandList(Vec<Command>);

impl CommandList {
    pub closed spec fn commands(&self) -> Seq<Command> {
        self.0@
    }

    pub fn new(v: Vec<Command>) -> (l: Self)
        ensures
            l.commands() == v@,
    {
        Self(v)
    }
}

/// The resources demanded for running an image. Sizes are in GiB, held as
/// the bits of their IEEE-754 double-precision value.
#[derive(Debug, Clone, Copy, PartialEq, Eq, Structural)]
pub struct WasmDemand {
    spec: ImageSpec,
    min_ram_gib: u64,
    min_storage_gib: u64,
}

impl WasmDemand {
    pub closed spec fn image(&self) -> ImageSpec {
        self.spec
    }

    /// Bits of the least RAM demanded, in GiB.
    pub closed spec fn ram_bits(&self) -> u64 {
        self.min_ram_gib
    }

    /// Bits of the least storage demanded, in GiB.
    pub closed spec fn storage_bits(&self) -> u64 {
        self.min_storage_gib
    }

    /// A demand for the image with no resource minimum (0.0 GiB each; the
    /// bits of 0.0 are all zero).
    pub fn with_image(spec: ImageSpec) -> (d: Self)
        ensures
            d.image() == spec,
            d.ram_bits() == 0,
            d.storage_bits() == 0,
    {
        Self { spec, min_ram_gib: 0, min_storage_gib: 0 }
    }

    /// The same demand with another least RAM size (bits of the GiB value).
    pub fn min_ram_gib(self, min_ram_gib: u64) -> (d: Self)
        ensures
            d.image() == self.image(),
            d.ram_bits() == min_ram_gib,
            d.storage_bits() == self.storage_bits(),
    {
        Self { min_ram_gib, ..self }
    }

    /// The same demand with another least storage size (bits of the GiB value).
    pub fn min_storage_gib(self, min_storage_gib: u64) -> (d: Self)
        ensures
            d.image() == self.image(),
            d.ram_bits() == self.ram_bits(),
            d.storage_bits() == min_storage_gib,
    {
        Self { min_storage_gib, ..self }
    }
}

/// How long a session lasts by default, in seconds.
pub const DEFAULT_SESSION_TIMEOUT_SECS: u64 = 60;

/// A named batch of tasks, with the demand they need.
#[derive(Debug)]
pub struct TaskSession {
    name: String,
    timeout: TimeSpan,
    demand: Option<WasmDemand>,
    tasks: Vec<CommandList>,
}

impl TaskSession {
    pub closed spec fn name_spec(&self) -> Seq<char> {
        self.name@
    }

    pub closed spec fn timeout_spec(&self) -> TimeSpan {
        self.timeout
    }

    pub closed spec fn demand_spec(&self) -> Option<WasmDemand> {
        self.demand
    }

    pub closed spec fn tasks_spec(&self) -> Seq<CommandList> {
        self.tasks@
    }

    /// A session with no demand and no tasks, timing out after a minute.
    pub fn new(name: &str) -> (s: Self)
        ensures
            s.name_spec() == name@,
            s.timeout_spec() == (TimeSpan { secs: DEFAULT_SESSION_TIMEOUT_SECS, nanos: 0 }),
            s.demand_spec() is None,
            s.tasks_spec() == Seq::<CommandList>::empty(),
    {
        Self {
            name: name.to_owned(),
            timeout: TimeSpan::from_secs(DEFAULT_SESSION_TIMEOUT_SECS),
            demand: None,
            tasks: Vec::new(),
        }
    }

    /// The same session with another timeout.
    pub fn with_timeout(self, timeout: TimeSpan) -> (s: Self)
        ensures
            s.name_spec() == self.name_spec(),
            s.timeout_spec() == timeout,
            s.demand_spec() == self.demand_spec(),
            s.tasks_spec() == self.tasks_spec(),
    {
        Self { timeout, ..self }
    }

    /// The same session with this demand.
    pub fn demand(self, demand: WasmDemand) -> (s: Self)
        ensures
            s.name_spec() == self.name_spec(),
            s.timeout_spec() == self.timeout_spec(),
            s.demand_spec() == Some(demand),
            s.tasks_spec() == self.tasks_spec(),
    {
        Self { demand: Some(demand), ..self }
    }

    /// The same session with these tasks, in order, in place of its tasks.
    pub fn tasks(self, tasks: Vec<CommandList>) -> (s: Self)
        ensures
            s.name_spec() == self.name_spec(),
            s.timeout_spec() == self.timeout_spec(),
            s.demand_spec() == self.demand_spec(),
            s.tasks_spec() == tasks@,
    {
        Self { tasks, ..self }
    }

    /// The session's name.
    pub fn name(&self) -> (n: &str)
        ensures
            n@ == self.name_spec(),
    {
        self.name.as_str()
    }

    /// The session's timeout.
    pub fn timeout(&self) -> (t: TimeSpan)
        ensures
            t == self.timeout_spec(),
    {
        self.timeout
    }
}

// =========================================== //
// Progress display
// =========================================== //

/// How many ticks the progress display shows.
pub const PROGRESS_TICKS: u32 = 100;
/// The pause between two ticks of the progress display, in milliseconds.
pub const PROGRESS_PAUSE_MILLIS: u64 = 50;

/// What the progress display does next.
#[derive(Debug, Clone, Copy, PartialEq, Eq, Structural)]
pub enum ProgressAction {
    /// Wait before the next tick.
    Pause { millis: u64 },
    /// The display is done.
    Finish,
}

/// The progress display's next action after `done` ticks: a pause for each
/// of the first hundred ticks, then the end.
pub fn progress_step(done: u32) -> (a: ProgressAction)
    ensures
        done < PROGRESS_TICKS ==> a == (ProgressAction::Pause { millis: PROGRESS_PAUSE_MILLIS }),
        done >= PROGRESS_TICKS ==> a == ProgressAction::Finish,
{
    if done < PROGRESS_TICKS {
        ProgressAction::Pause { millis: PROGRESS_PAUSE_MILLIS }
    } else {
        ProgressAction::Finish
    }
}

// =========================================== //
// The session with the market
// =========================================== //

/// How long one collect call may wait for events, in seconds.
pub const COLLECT_TIMEOUT_SECS: u32 = 120;
/// How many events one collect call asks for at most.
pub const COLLECT_MAX_EVENTS: i32 = 5;
/// The pause between two collect calls, in milliseconds.
pub const COLLECT_PAUSE_MILLIS: u64 = 1000;

/// Where a running session stands.
#[derive(Debug)]
pub enum SessionPhase {
    /// The demand was handed to the market; its subscription id is awaited.
    Subscribing,
    /// Events of the subscription are being collected.
    Collecting { subscription_id: String },
    /// Pausing before the next collect.
    Pausing { subscription_id: String },
    /// The session ended.
    Finished,
}

/// What the market and the clock answered to the last action.
#[derive(Debug)]
pub enum SessionEvent {
    /// The demand was subscribed under this id.
    Subscribed(String),
    /// A collect call returned: the events, or the error text.
    Collected(Result<(), String>),
    /// The pause is over.
    Paused,
}

/// What the session does next.
#[derive(Debug)]
pub enum SessionAction {
    /// Subscribe the session's demand on the market.
    Subscribe,
    /// Collect events of the subscription.
    Collect { subscription_id: String, timeout_secs: u32, max_events: i32 },
    /// Wait before the next collect.
    Pause { millis: u64 },
    /// End the session with this result.
    Finish(Result<(), String>),
}

/// Whether the event answers the action that the phase waits on.
pub open spec fn answers(phase: SessionPhase, event: SessionEvent) -> bool {
    match phase {
        SessionPhase::Subscribing => event is Subscribed,
        SessionPhase::Collecting { .. } => event is Collected,
        SessionPhase::Pausing { .. } => event is Paused,
        SessionPhase::Finished => false,
    }
}

/// The collect call for a subscription.
pub open spec fn collect_action(subscription_id: String) -> SessionAction {
    SessionAction::Collect {
        subscription_id,
        timeout_secs: COLLECT_TIMEOUT_SECS,
        max_events: COLLECT_MAX_EVENTS,
    }
}

/// The session's next phase and action, given the answer to its last action.
pub open spec fn session_next(phase: SessionPhase, event: SessionEvent) -> (SessionPhase, SessionAction) {
    match (phase, event) {
        (SessionPhase::Subscribing, SessionEvent::Subscribed(id)) =>
            (SessionPhase::Collecting { subscription_id: id }, collect_action(id)),
        (SessionPhase::Collecting { subscription_id }, SessionEvent::Collected(Ok(()))) =>
            (SessionPhase::Pausing { subscription_id }, SessionAction::Pause { millis: COLLECT_PAUSE_MILLIS }),
        (SessionPhase::Collecting { .. }, SessionEvent::Collected(Err(e))) =>
            (SessionPhase::Finished, SessionAction::Finish(Err(e))),
        (SessionPhase::Pausing { subscription_id }, SessionEvent::Paused) =>
            (SessionPhase::Collecting { subscription_id }, collect_action(subscription_id)),
        (p, _) => (p, SessionAction::Finish(Ok(()))),
    }
}

/// A session with the market: subscribe the demand, then collect its events
/// again and again, pausing between collects, until a collect fails.
#[derive(Debug)]
pub struct MarketSession {
    phase: SessionPhase,
}

impl MarketSession {
    pub closed spec fn phase(&self) -> SessionPhase {
        self.phase
    }

    /// The session's first action: subscribing the demand.
    pub fn start() -> (r: (MarketSession, SessionAction))
        ensures
            r.0.phase() == SessionPhase::Subscribing,
            r.1 == SessionAction::Subscribe,
    {
        (MarketSession { phase: SessionPhase::Subscribing }, SessionAction::Subscribe)
    }

    /// The next action, given the answer to the last one.
    pub fn step(&mut self, event: SessionEvent) -> (a: SessionAction)
        requires
            answers(old(self).phase(), event),
        ensures
            (final(self).phase(), a) == session_next(old(self).phase(), event),
    {
        let mut phase = SessionPhase::Finished;
        std::mem::swap(&mut phase, &mut self.phase);
        match (phase, event) {
            (SessionPhase::Subscribing, SessionEvent::Subscribed(id)) => {
                let action = SessionAction::Collect {
                    subscription_id: id.clone(),
                    timeout_secs: COLLECT_TIMEOUT_SECS,
                    max_events: COLLECT_MAX_EVENTS,
                };
                self.phase = SessionPhase::Collecting { subscription_id: id };
                action
            },
            (SessionPhase::Collecting { subscription_id }, SessionEvent::Collected(Ok(()))) => {
                self.phase = SessionPhase::Pausing { subscription_id };
                SessionAction::Pause { millis: COLLECT_PAUSE_MILLIS }
            },
            (SessionPhase::Collecting { .. }, SessionEvent::Collected(Err(e))) => {
                SessionAction::Finish(Err(e))
            },
            (SessionPhase::Pausing { subscription_id }, SessionEvent::Paused) => {
                let action = SessionAction::Collect {
                    subscription_id: subscription_id.clone(),
                    timeout_secs: COLLECT_TIMEOUT_SECS,
                    max_events: COLLECT_MAX_EVENTS,
                };
                self.phase = SessionPhase::Collecting { subscription_id };
                action
            },
            (p, _) => {
                self.phase = p;
                SessionAction::Finish(Ok(()))
            },
        }
    }
}

/// Once subscribed, a session only ever collects with the subscription id the
/// market returned, and it ends only when a collect fails, with that failure.
pub proof fn law_session_keeps_subscription(phase: SessionPhase, event: SessionEvent)
    requires
        answers(phase, event),
    ensures
        ({
            let (next, action) = session_next(phase, event);
            &&& (phase matches SessionPhase::Collecting { subscription_id } ==>
                    (next matches SessionPhase::Pausing { subscription_id: kept } && kept == subscription_id)
                    || next == SessionPhase::Finished)
            &&& (phase matches SessionPhase::Pausing { subscription_id } ==>
                    next == (SessionPhase::Collecting { subscription_id }) && action == collect_action(subscription_id))
            &&& (event matches SessionEvent::Subscribed(id) ==>
                    next == (SessionPhase::Collecting { subscription_id: id }) && action == collect_action(id))
            &&& (next == SessionPhase::Finished <==> (event matches SessionEvent::Collected(Err(_))))
            &&& (event matches SessionEvent::Collected(Err(e)) ==> action == SessionAction::Finish(Err(e)))
        }),
{
}

} // verus!
