//! Decisions of the provider's task manager, which drives each agreement from
//! its approval on the market to its closing or breaking.
//!
//! The actor around it (its mailbox, the addresses of the market, runner and
//! payments actors, the agreement state table and the timers) performs what
//! the functions here decide.
use vstd::prelude::*;
use crate::time::{format_utc_debug, span_between, span_until, utc_datetime_debug, utc_now, TimeSpan, UtcTime};
use crate::props_table::TaskPropsTable;
use crate::text::{int_text, nat_text, push_i64, push_nat, push_str};

verus! {

// =========================================== //
// Agreement data
// =========================================== //

/// Why an agreement was broken by the provider.
#[derive(Debug)]
pub enum BreakReason {
    /// The agreement reached its expiration time before it was finalized.
    Expired(UtcTime),
    /// No activity was created within the given span after the agreement started.
    NoActivity(TimeSpan),
    /// Setting the agreement up failed, with this error.
    InitializationError { error: String },
}

impl Clone for BreakReason {
    fn clone(&self) -> (r: Self)
        ensures
            r == *self,
    {
        match self {
            BreakReason::Expired(t) => BreakReason::Expired(*t),
            BreakReason::NoActivity(s) => BreakReason::NoActivity(*s),
            BreakReason::InitializationError { error } => BreakReason::InitializationError { error: error.clone() },
        }
    }
}

/// The states of an agreement that the task manager moves it to.
#[derive(Debug)]
pub enum AgreementState {
    Initialized,
    Computing,
    Closed,
    Broken { reason: BreakReason },
}

impl Clone for AgreementState {
    fn clone(&self) -> (r: Self)
        ensures
            r == *self,
    {
        match self {
            AgreementState::Initialized => AgreementState::Initialized,
            AgreementState::Computing => AgreementState::Computing,
            AgreementState::Closed => AgreementState::Closed,
            AgreementState::Broken { reason } => AgreementState::Broken { reason: reason.clone() },
        }
    }
}

/// What the task manager keeps of an agreement.
#[derive(Debug)]
pub struct TaskInfo {
    pub agreement_id: String,
    /// When the agreement expires.
    pub expiration: UtcTime,
    /// Whether the requestor may run several activities under the agreement;
    /// if not, the provider closes it once the first activity ends.
    pub multi_activity: bool,
}

impl Clone for TaskInfo {
    fn clone(&self) -> (r: Self)
        ensures
            r == *self,
    {
        TaskInfo { agreement_id: self.agreement_id.clone(), expiration: self.expiration, multi_activity: self.multi_activity }
    }
}

// =========================================== //
// Messages modifying agreement state
// =========================================== //

/// Forces the termination of an agreement whose conditions were broken,
/// which includes killing its ExeUnit. Normally the requestor terminates
/// agreements.
#[derive(Debug)]
pub struct BreakAgreement {
    pub agreement_id: String,
    pub reason: BreakReason,
}

impl Clone for BreakAgreement {
    fn clone(&self) -> (r: Self)
        ensures
            r == *self,
    {
        BreakAgreement { agreement_id: self.agreement_id.clone(), reason: self.reason.clone() }
    }
}

/// Notifies the task manager that the requestor closed an agreement.
#[derive(Debug)]
pub struct CloseAgreement {
    pub agreement_id: String,
    pub is_terminated: bool,
}

impl Clone for CloseAgreement {
    fn clone(&self) -> (r: Self)
        ensures
            r == *self,
    {
        CloseAgreement { agreement_id: self.agreement_id.clone(), is_terminated: self.is_terminated }
    }
}

// =========================================== //
// Output events
// =========================================== //

/// The agreement was broken by this provider. Every module that receives it
/// must break the agreement and handle its own errors.
#[derive(Debug)]
pub struct AgreementBroken {
    pub agreement_id: String,
    pub reason: BreakReason,
}

impl Clone for AgreementBroken {
    fn clone(&self) -> (r: Self)
        ensures
            r == *self,
    {
        AgreementBroken { agreement_id: self.agreement_id.clone(), reason: self.reason.clone() }
    }
}

/// The agreement was finished by the requestor: the proper way to close it.
#[derive(Debug)]
pub struct AgreementClosed {
    pub agreement_id: String,
    pub send_terminate: bool,
}

impl Clone for AgreementClosed {
    fn clone(&self) -> (r: Self)
        ensures
            r == *self,
    {
        AgreementClosed { agreement_id: self.agreement_id.clone(), send_terminate: self.send_terminate }
    }
}

/// Initializes the task manager.
#[derive(Debug, Clone, Copy)]
pub struct InitializeTaskManager;

impl From<BreakAgreement> for AgreementBroken {
    fn from(msg: BreakAgreement) -> (r: Self) {
        AgreementBroken { agreement_id: msg.agreement_id, reason: msg.reason }
    }
}

impl vstd::std_specs::convert::FromSpecImpl<BreakAgreement> for AgreementBroken {
    open spec fn obeys_from_spec() -> bool {
        true
    }

    open spec fn from_spec(msg: BreakAgreement) -> AgreementBroken {
        AgreementBroken { agreement_id: msg.agreement_id, reason: msg.reason }
    }
}

/// The notice that a broken agreement gives: same agreement, same reason.
pub open spec fn broken_notice(msg: BreakAgreement) -> AgreementBroken {
    AgreementBroken { agreement_id: msg.agreement_id, reason: msg.reason }
}

/// The notice that a closed agreement gives: the termination is still to be
/// sent unless the requestor already terminated the agreement.
pub open spec fn closed_notice(msg: CloseAgreement) -> AgreementClosed {
    AgreementClosed { agreement_id: msg.agreement_id, send_terminate: !msg.is_terminated }
}

// =========================================== //
// Expiration
// =========================================== //

/// How long the provider waits for the first activity of an agreement.
pub const NO_ACTIVITY_TIMEOUT_SECS: u64 = 90;

/// The two timers set when an agreement starts.
#[derive(Debug, Clone, Copy, PartialEq, Eq, Structural)]
pub struct ExpirationPlan {
    /// After this span the agreement has expired.
    pub expire_after: TimeSpan,
    /// After this span the agreement is broken if no activity was created.
    pub no_activity_after: TimeSpan,
}

/// Why the timers of an agreement could not be set.
#[derive(Debug, Clone, Copy, PartialEq, Eq, Structural)]
pub enum ScheduleError {
    /// The agreement had expired before it started.
    ExpiredBeforeStart { expiration: UtcTime },
    /// The clock passed the expiration between the check and the measurement
    /// of the remaining span, which came out negative.
    DelayOutOfRange,
}

/// How an expiration time is written in an error: chrono's alternate debug
/// form of the UTC date-time (such as `2020-03-15T10:20:30Z`); an instant
/// chrono cannot represent is written as its seconds and nanoseconds since
/// the epoch.
pub open spec fn expiration_text(expiration: UtcTime) -> Seq<char> {
    match utc_datetime_debug(expiration.secs, expiration.nanos) {
        Some(t) => t,
        None => int_text(expiration.secs as int) + "s "@ + nat_text(expiration.nanos as nat)
            + "ns after the Unix epoch"@,
    }
}

/// The text of a scheduling error.
pub open spec fn schedule_error_text(e: ScheduleError) -> Seq<char> {
    match e {
        ScheduleError::ExpiredBeforeStart { expiration } =>
            "Agreement expired before start. Expiration "@ + expiration_text(expiration),
        ScheduleError::DelayOutOfRange => "Source duration value is out of range for the target type"@,
    }
}

impl ScheduleError {
    /// The error's text: an agreement that had expired starts with
    /// "Agreement expired before start" and names its expiration time.
    pub fn message(&self) -> (s: String)
        ensures
            s@ == schedule_error_text(*self),
    {
        let mut s = String::new();
        match self {
            ScheduleError::ExpiredBeforeStart { expiration } => {
                push_str(&mut s, "Agreement expired before start. Expiration ");
                match format_utc_debug(expiration.secs, expiration.nanos) {
                    Some(t) => push_str(&mut s, t.as_str()),
                    None => {
                        push_i64(&mut s, expiration.secs);
                        push_str(&mut s, "s ");
                        push_nat(&mut s, expiration.nanos as u64);
                        push_str(&mut s, "ns after the Unix epoch");
                    },
                }
            },
            ScheduleError::DelayOutOfRange => {
                push_str(&mut s, "Source duration value is out of range for the target type");
            },
        }
        proof {
            assert(s@ =~= schedule_error_text(*self));
        }
        s
    }
}

/// The timers for an agreement that expires at `expiration`, when the clock
/// read `checked_at` for the expiry check and `measured_at` for the remaining
/// span.
pub open spec fn expiration_plan_spec(expiration: UtcTime, checked_at: UtcTime, measured_at: UtcTime) -> Result<ExpirationPlan, ScheduleError> {
    if checked_at.total_nanos() > expiration.total_nanos() {
        Err(ScheduleError::ExpiredBeforeStart { expiration })
    } else {
        match span_between(measured_at, expiration) {
            None => Err(ScheduleError::DelayOutOfRange),
            Some(d) => Ok(ExpirationPlan {
                expire_after: d,
                no_activity_after: TimeSpan { secs: NO_ACTIVITY_TIMEOUT_SECS, nanos: 0 },
            }),
        }
    }
}

/// Computes `expiration_plan_spec`.
pub fn expiration_plan(expiration: &UtcTime, checked_at: &UtcTime, measured_at: &UtcTime) -> (r: Result<ExpirationPlan, ScheduleError>)
    requires
        expiration.wf(),
        checked_at.wf(),
        measured_at.wf(),
    ensures
        r == expiration_plan_spec(*expiration, *checked_at, *measured_at),
{
    if checked_at.is_after(expiration) {
        return Err(ScheduleError::ExpiredBeforeStart { expiration: *expiration });
    }
    match span_until(measured_at, expiration) {
        None => Err(ScheduleError::DelayOutOfRange),
        Some(d) => Ok(ExpirationPlan { expire_after: d, no_activity_after: TimeSpan::from_secs(NO_ACTIVITY_TIMEOUT_SECS) }),
    }
}

// =========================================== //
// TaskManager
// =========================================== //

/// Why an agreement's properties were not recorded.
#[derive(Debug, Clone, Copy, PartialEq, Eq, Structural)]
pub enum AddAgreementError {
    /// Properties of an agreement with the same id are recorded already.
    AlreadyKnown,
}

/// The properties table after recording `props`, and the answer: an unknown
/// agreement is recorded and its properties handed back; a known one is
/// refused and the table left as it was.
pub open spec fn add_agreement_spec(table: Map<Seq<char>, TaskInfo>, props: TaskInfo) -> (Map<Seq<char>, TaskInfo>, Result<TaskInfo, AddAgreementError>) {
    if table.contains_key(props.agreement_id@) {
        (table, Err(AddAgreementError::AlreadyKnown))
    } else {
        (table.insert(props.agreement_id@, props), Ok(props))
    }
}

/// Task manager is responsible for managing tasks (agreements) state. It
/// controls the whole flow of task execution from the point when it gets a
/// signed agreement from the market, to the point of agreement payment.
pub struct TaskManager {
    tasks_props: TaskPropsTable,
}

impl TaskManager {
    /// The properties of each agreement the manager took on, by agreement id.
    pub closed spec fn props(&self) -> Map<Seq<char>, TaskInfo> {
        self.tasks_props@
    }

    /// The manager's own consistency.
    pub closed spec fn wf(&self) -> bool {
        self.tasks_props.wf()
    }

    /// A manager with no agreements.
    pub fn new() -> (m: TaskManager)
        ensures
            m.wf(),
            m.props() == Map::<Seq<char>, TaskInfo>::empty(),
    {
        TaskManager { tasks_props: TaskPropsTable::new() }
    }

    /// Records the properties of a newly approved agreement and hands them
    /// back; an agreement already known is refused and its record kept.
    pub fn add_new_agreement(&mut self, props: TaskInfo) -> (r: Result<TaskInfo, AddAgreementError>)
        requires
            old(self).wf(),
        ensures
            final(self).wf(),
            (final(self).props(), r) == add_agreement_spec(old(self).props(), props),
    {
        if self.tasks_props.get(&props.agreement_id).is_some() {
            return Err(AddAgreementError::AlreadyKnown);
        }
        let copy = props.clone();
        self.tasks_props.insert(props.agreement_id.clone(), props);
        Ok(copy)
    }

    /// The properties recorded for an agreement.
    pub fn task_props(&self, agreement_id: &String) -> (r: Option<&TaskInfo>)
        requires
            self.wf(),
        ensures
            r == (if self.props().contains_key(agreement_id@) { Some(&self.props()[agreement_id@]) } else { None }),
    {
        self.tasks_props.get(agreement_id)
    }

    /// The timers for an agreement, measured against the system clock: the
    /// clock is read once for the expiry check and once for the remaining span.
    /// The expiration must be a well-formed instant: chrono's leap-second
    /// instants (a sub-second part of one second or more) are not covered.
    pub fn schedule_expiration(&self, info: &TaskInfo) -> (r: Result<ExpirationPlan, ScheduleError>)
        requires
            info.expiration.wf(),
        ensures
            exists|checked_at: UtcTime, measured_at: UtcTime|
                checked_at.wf() && measured_at.wf()
                && r == expiration_plan_spec(info.expiration, checked_at, measured_at),
    {
        let checked_at = utc_now();
        let measured_at = utc_now();
        expiration_plan(&info.expiration, &checked_at, &measured_at)
    }

    /// When the expiration timer of an agreement fires: break the agreement
    /// unless it was finalized meanwhile.
    pub fn expiration_elapsed(agreement_id: String, expiration: UtcTime, finalized: bool) -> (r: Option<BreakAgreement>)
        ensures
            r == (if finalized {
                None
            } else {
                Some(BreakAgreement { agreement_id, reason: BreakReason::Expired(expiration) })
            }),
    {
        if finalized {
            None
        } else {
            Some(BreakAgreement { agreement_id, reason: BreakReason::Expired(expiration) })
        }
    }

    /// When the no-activity timer of an agreement fires after `waited`: break
    /// the agreement if it still has no activity.
    pub fn no_activity_elapsed(agreement_id: String, waited: TimeSpan, not_active: bool) -> (r: Option<BreakAgreement>)
        ensures
            r == (if not_active {
                Some(BreakAgreement { agreement_id, reason: BreakReason::NoActivity(waited) })
            } else {
                None
            }),
    {
        if not_active {
            Some(BreakAgreement { agreement_id, reason: BreakReason::NoActivity(waited) })
        } else {
            None
        }
    }

    /// Whether the provider closes the agreement when an activity of it
    /// ends: closing must be allowed in the agreement's state, and the
    /// agreement must be known and not in multi-activity mode (otherwise the
    /// requestor terminates it).
    pub fn closes_after_activity(&self, agreement_id: &String, closing_allowed: bool) -> (b: bool)
        requires
            self.wf(),
        ensures
            b == (closing_allowed && self.props().contains_key(agreement_id@)
                && !self.props()[agreement_id@].multi_activity),
    {
        let close_after_1st_activity = match self.task_props(agreement_id) {
            Some(info) => !info.multi_activity,
            None => false,
        };
        closing_allowed && close_after_1st_activity
    }
}

// =========================================== //
// Laws
// =========================================== //

/// Timers are set only for an agreement that had not expired at the check;
/// the expiration timer then fires exactly at the expiration time, counted
/// from the moment the span was measured, and the no-activity timer after
/// ninety seconds.
pub proof fn law_expiration_timers(expiration: UtcTime, checked_at: UtcTime, measured_at: UtcTime)
    requires
        expiration.wf(),
        checked_at.wf(),
        measured_at.wf(),
    ensures
        (expiration_plan_spec(expiration, checked_at, measured_at) matches Err(ScheduleError::ExpiredBeforeStart { .. }))
            <==> checked_at.total_nanos() > expiration.total_nanos(),
        expiration_plan_spec(expiration, checked_at, measured_at) matches Ok(p) ==> {
            &&& checked_at.total_nanos() <= expiration.total_nanos()
            &&& measured_at.total_nanos() + p.expire_after.total_nanos() == expiration.total_nanos()
            &&& p.expire_after.wf()
            &&& p.no_activity_after == (TimeSpan { secs: 90, nanos: 0 })
        },
{
    let d = expiration.total_nanos() - measured_at.total_nanos();
    let n = crate::time::NANOS_PER_SEC as int;
    if d >= 0 {
        assert((d / n) * n + d % n == d) by (nonlinear_arith)
            requires
                n > 0,
        ;
        assert(0 <= d % n < n) by (nonlinear_arith)
            requires
                n > 0,
        ;
        assert(d / n >= 0) by (nonlinear_arith)
            requires
                n > 0,
                d >= 0,
        ;
    }
}

/// Recording is once per agreement: after an agreement's properties are
/// recorded they are found under its id, other agreements keep theirs, and
/// recording the agreement again is refused and changes nothing.
pub proof fn law_agreement_recorded_once(table: Map<Seq<char>, TaskInfo>, props: TaskInfo, again: TaskInfo, other: Seq<char>)
    requires
        !table.contains_key(props.agreement_id@),
        again.agreement_id@ == props.agreement_id@,
        other != props.agreement_id@,
    ensures
        ({
            let (after, r) = add_agreement_spec(table, props);
            let (after_again, r_again) = add_agreement_spec(after, again);
            &&& r == Ok::<TaskInfo, AddAgreementError>(props)
            &&& after.contains_key(props.agreement_id@) && after[props.agreement_id@] == props
            &&& after.contains_key(other) == table.contains_key(other)
            &&& (table.contains_key(other) ==> after[other] == table[other])
            &&& r_again == Err::<TaskInfo, AddAgreementError>(AddAgreementError::AlreadyKnown)
            &&& after_again == after
        }),
{
}

} // verus!
