//! What the drone's projectors make of a signal: the plan/task table
//! update a plan or task event asks for, and the VDR row a decision or
//! verify signal becomes. The database writes themselves stay with the
//! caller; these functions decide what to write.

use vstd::prelude::*;

use crate::text::{owned, str_eq};

verus! {

/// A top-level value of a signal's JSON payload, as the projectors read
/// it: a string, an unsigned integer, a boolean, or anything else.
#[derive(Clone, Debug)]
pub enum PayloadValue {
    /// A JSON string.
    Text(String),
    /// A JSON number that is a non-negative integer.
    Unsigned(u64),
    /// A JSON boolean.
    Flag(bool),
    /// Null, a negative or fractional number, an array or an object.
    Other,
}

/// A signal's payload: the members of its top-level JSON object, in
/// order. A payload that is not an object has no members.
#[derive(Clone, Debug)]
pub struct Payload {
    /// Member names and values.
    pub fields: Vec<(String, PayloadValue)>,
}

/// The value of the first member named `key`.
pub open spec fn field_of(fields: Seq<(String, PayloadValue)>, key: Seq<char>) -> Option<
    PayloadValue,
>
    decreases fields.len(),
{
    if fields.len() == 0 {
        None
    } else if fields[0].0@ == key {
        Some(fields[0].1)
    } else {
        field_of(fields.drop_first(), key)
    }
}

/// The member `key` when it is a string.
pub open spec fn text_of(fields: Seq<(String, PayloadValue)>, key: Seq<char>) -> Option<Seq<char>> {
    match field_of(fields, key) {
        Some(PayloadValue::Text(s)) => Some(s@),
        _ => None,
    }
}

/// The member `key` when it is a non-negative integer.
pub open spec fn unsigned_of(fields: Seq<(String, PayloadValue)>, key: Seq<char>) -> Option<u64> {
    match field_of(fields, key) {
        Some(PayloadValue::Unsigned(n)) => Some(n),
        _ => None,
    }
}

/// The member `key` when it is a boolean.
pub open spec fn flag_of(fields: Seq<(String, PayloadValue)>, key: Seq<char>) -> Option<bool> {
    match field_of(fields, key) {
        Some(PayloadValue::Flag(b)) => Some(b),
        _ => None,
    }
}

/// The member `key` when it is a string, else the empty string.
pub open spec fn text_or_empty(fields: Seq<(String, PayloadValue)>, key: Seq<char>) -> Seq<char> {
    match text_of(fields, key) {
        Some(s) => s,
        None => Seq::empty(),
    }
}

impl Payload {
    /// The value of the first member named `key`, if any.
    pub fn get(&self, key: &str) -> (r: Option<&PayloadValue>)
        ensures
            match r {
                Some(v) => field_of(self.fields@, key@) == Some(*v),
                None => field_of(self.fields@, key@) is None,
            },
    {
        let mut i: usize = 0;
        proof {
            assert(self.fields@.subrange(0, self.fields@.len() as int) =~= self.fields@);
        }
        while i < self.fields.len()
            invariant
                i <= self.fields@.len(),
                field_of(self.fields@, key@) == field_of(
                    self.fields@.subrange(i as int, self.fields@.len() as int),
                    key@,
                ),
            decreases self.fields@.len() - i,
        {
            let ghost rest = self.fields@.subrange(i as int, self.fields@.len() as int);
            proof {
                assert(rest.drop_first() =~= self.fields@.subrange(
                    i + 1,
                    self.fields@.len() as int,
                ));
            }
            if str_eq(self.fields[i].0.as_str(), key) {
                return Some(&self.fields[i].1);
            }
            i = i + 1;
        }
        None
    }

    /// The member `key` when it is a string.
    pub fn text(&self, key: &str) -> (r: Option<String>)
        ensures
            match r {
                Some(s) => text_of(self.fields@, key@) == Some(s@),
                None => text_of(self.fields@, key@) is None,
            },
    {
        match self.get(key) {
            Some(PayloadValue::Text(s)) => Some(owned(s.as_str())),
            _ => None,
        }
    }

    /// The member `key` when it is a non-negative integer.
    pub fn unsigned(&self, key: &str) -> (r: Option<u64>)
        ensures
            r == unsigned_of(self.fields@, key@),
    {
        match self.get(key) {
            Some(PayloadValue::Unsigned(n)) => Some(*n),
            _ => None,
        }
    }

    /// The member `key` when it is a boolean.
    pub fn flag(&self, key: &str) -> (r: Option<bool>)
        ensures
            r == flag_of(self.fields@, key@),
    {
        match self.get(key) {
            Some(PayloadValue::Flag(b)) => Some(*b),
            _ => None,
        }
    }

    /// The member `key` when it is a string, else the empty string.
    pub fn text_or_empty(&self, key: &str) -> (r: String)
        ensures
            r@ == text_or_empty(self.fields@, key@),
    {
        match self.text(key) {
            Some(s) => s,
            None => String::new(),
        }
    }
}

/// A plan's status column.
#[derive(Clone, Copy, Debug, PartialEq, Eq, Structural)]
pub enum PlanStatus {
    /// Waiting for the user's approval.
    PendingApproval,
    /// Approved (or created without an approval step).
    Approved,
    /// Aborted.
    Aborted,
    /// Finished.
    Complete,
}

impl PlanStatus {
    /// The stored text: `pending_approval`, `approved`, `aborted`,
    /// `complete`.
    pub fn as_str(&self) -> (r: &'static str)
        ensures
            r@ == plan_status_text(*self),
    {
        match self {
            PlanStatus::PendingApproval => "pending_approval",
            PlanStatus::Approved => "approved",
            PlanStatus::Aborted => "aborted",
            PlanStatus::Complete => "complete",
        }
    }
}

/// The stored text of a plan status.
pub open spec fn plan_status_text(s: PlanStatus) -> Seq<char> {
    match s {
        PlanStatus::PendingApproval => "pending_approval"@,
        PlanStatus::Approved => "approved"@,
        PlanStatus::Aborted => "aborted"@,
        PlanStatus::Complete => "complete"@,
    }
}

/// Which timestamp column a plan status change also stamps.
#[derive(Clone, Copy, Debug, PartialEq, Eq, Structural)]
pub enum PlanStamp {
    /// `approved_at`.
    ApprovedAt,
    /// `completed_at`.
    CompletedAt,
    /// No timestamp.
    NoStamp,
}

/// The terminal status a task event lands a task in.
#[derive(Clone, Copy, Debug, PartialEq, Eq, Structural)]
pub enum TaskStatus {
    /// `done`.
    Done,
    /// `skipped`.
    Skipped,
    /// `failed`.
    Failed,
}

impl TaskStatus {
    /// The stored text: `done`, `skipped` or `failed`.
    pub fn as_str(&self) -> (r: &'static str)
        ensures
            r@ == task_status_text(*self),
    {
        match self {
            TaskStatus::Done => "done",
            TaskStatus::Skipped => "skipped",
            TaskStatus::Failed => "failed",
        }
    }
}

/// The stored text of a terminal task status.
pub open spec fn task_status_text(s: TaskStatus) -> Seq<char> {
    match s {
        TaskStatus::Done => "done"@,
        TaskStatus::Skipped => "skipped"@,
        TaskStatus::Failed => "failed"@,
    }
}

/// The table write a plan or task event asks for.
#[derive(Clone, Debug)]
pub enum PlanUpdate {
    /// Insert a plan (or retitle an existing one).
    CreatePlan {
        /// Plan id.
        plan_id: String,
        /// Plan title.
        title: String,
        /// Whether the plan waits for approval.
        approval_required: bool,
        /// The status a new plan starts in.
        status: PlanStatus,
    },
    /// Move a plan to a new status.
    SetPlanStatus {
        /// Plan id.
        plan_id: String,
        /// The new status.
        status: PlanStatus,
        /// The timestamp column also written.
        stamp: PlanStamp,
    },
    /// Mark a task running, unless it already reached a terminal status.
    StartTask {
        /// Plan id.
        plan_id: String,
        /// Task id.
        task_id: String,
    },
    /// Land a task in a terminal status.
    FinishTask {
        /// Plan id.
        plan_id: String,
        /// Task id.
        task_id: String,
        /// The terminal status.
        status: TaskStatus,
    },
    /// Record a failed task attempt.
    FailTask {
        /// Plan id.
        plan_id: String,
        /// Task id.
        task_id: String,
        /// Failures so far.
        failure_count: u64,
    },
    /// Record an escalated task.
    EscalateTask {
        /// Plan id.
        plan_id: String,
        /// Task id.
        task_id: String,
        /// Failures so far.
        failure_count: u64,
        /// The failure budget.
        max_failures: u64,
    },
    /// Not a plan or task event: nothing to write.
    Ignore,
}

/// The mathematical form of a `PlanUpdate`.
pub enum PlanUpdateView {
    /// See `PlanUpdate::CreatePlan`.
    CreatePlan { plan_id: Seq<char>, title: Seq<char>, approval_required: bool, status: PlanStatus },
    /// See `PlanUpdate::SetPlanStatus`.
    SetPlanStatus { plan_id: Seq<char>, status: PlanStatus, stamp: PlanStamp },
    /// See `PlanUpdate::StartTask`.
    StartTask { plan_id: Seq<char>, task_id: Seq<char> },
    /// See `PlanUpdate::FinishTask`.
    FinishTask { plan_id: Seq<char>, task_id: Seq<char>, status: TaskStatus },
    /// See `PlanUpdate::FailTask`.
    FailTask { plan_id: Seq<char>, task_id: Seq<char>, failure_count: u64 },
    /// See `PlanUpdate::EscalateTask`.
    EscalateTask {
        plan_id: Seq<char>,
        task_id: Seq<char>,
        failure_count: u64,
        max_failures: u64,
    },
    /// See `PlanUpdate::Ignore`.
    Ignore,
}

impl View for PlanUpdate {
    type V = PlanUpdateView;

    open spec fn view(&self) -> PlanUpdateView {
        match *self {
            PlanUpdate::CreatePlan { plan_id, title, approval_required, status } =>
                PlanUpdateView::CreatePlan {
                plan_id: plan_id@,
                title: title@,
                approval_required,
                status,
            },
            PlanUpdate::SetPlanStatus { plan_id, status, stamp } => PlanUpdateView::SetPlanStatus {
                plan_id: plan_id@,
                status,
                stamp,
            },
            PlanUpdate::StartTask { plan_id, task_id } => PlanUpdateView::StartTask {
                plan_id: plan_id@,
                task_id: task_id@,
            },
            PlanUpdate::FinishTask { plan_id, task_id, status } => PlanUpdateView::FinishTask {
                plan_id: plan_id@,
                task_id: task_id@,
                status,
            },
            PlanUpdate::FailTask { plan_id, task_id, failure_count } => PlanUpdateView::FailTask {
                plan_id: plan_id@,
                task_id: task_id@,
                failure_count,
            },
            PlanUpdate::EscalateTask { plan_id, task_id, failure_count, max_failures } =>
                PlanUpdateView::EscalateTask {
                plan_id: plan_id@,
                task_id: task_id@,
                failure_count,
                max_failures,
            },
            PlanUpdate::Ignore => PlanUpdateView::Ignore,
        }
    }
}

/// A plan or task event that lacks a member its kind requires.
#[derive(Clone, Debug)]
pub struct InvalidPayload {
    /// The event kind as the error names it (`plan_created`, `plan_*`,
    /// `task_started`, `task_terminal`, `task_failed`, `task_escalated`).
    pub event_type: String,
    /// The missing member.
    pub field: String,
}

impl InvalidPayload {
    /// `invalid payload for <event_type>: missing field <field>`.
    pub fn message(&self) -> (r: String)
        ensures
            r@ == "invalid payload for "@ + self.event_type@ + ": missing field "@ + self.field@,
    {
        let mut s = owned("invalid payload for ");
        crate::text::push_str(&mut s, self.event_type.as_str());
        crate::text::push_str(&mut s, ": missing field ");
        crate::text::push_str(&mut s, self.field.as_str());
        s
    }
}

/// The kind of event a payload carries: its `type` member, or the empty
/// string.
pub open spec fn event_type_of(p: Seq<(String, PayloadValue)>) -> Seq<char> {
    text_or_empty(p, "type"@)
}

/// The update for a plan status event: the plan id is required.
pub open spec fn plan_status_outcome(
    p: Seq<(String, PayloadValue)>,
    status: PlanStatus,
    stamp: PlanStamp,
) -> Result<PlanUpdateView, (Seq<char>, Seq<char>)> {
    match text_of(p, "plan_id"@) {
        None => Err(("plan_*"@, "plan_id"@)),
        Some(plan_id) => Ok(PlanUpdateView::SetPlanStatus { plan_id, status, stamp }),
    }
}

/// The update for a task event that only needs the plan and task ids.
pub open spec fn task_ids_outcome(
    p: Seq<(String, PayloadValue)>,
    label: Seq<char>,
    make: spec_fn(Seq<char>, Seq<char>) -> PlanUpdateView,
) -> Result<PlanUpdateView, (Seq<char>, Seq<char>)> {
    match text_of(p, "plan_id"@) {
        None => Err((label, "plan_id"@)),
        Some(plan_id) => match text_of(p, "task_id"@) {
            None => Err((label, "task_id"@)),
            Some(task_id) => Ok(make(plan_id, task_id)),
        },
    }
}

/// What a plan or task event asks the plan projector to write, or the
/// first required member it lacks (as the event label and the member's
/// name). Unknown kinds and payloads without a `type` ask for nothing.
pub open spec fn plan_outcome(p: Seq<(String, PayloadValue)>) -> Result<
    PlanUpdateView,
    (Seq<char>, Seq<char>),
> {
    let et = event_type_of(p);
    if et == "plan_created"@ {
        match text_of(p, "plan_id"@) {
            None => Err(("plan_created"@, "plan_id"@)),
            Some(plan_id) => match text_of(p, "title"@) {
                None => Err(("plan_created"@, "title"@)),
                Some(title) => match flag_of(p, "approval_required"@) {
                    None => Err(("plan_created"@, "approval_required"@)),
                    Some(approval_required) => Ok(
                        PlanUpdateView::CreatePlan {
                            plan_id,
                            title,
                            approval_required,
                            status: if approval_required {
                                PlanStatus::PendingApproval
                            } else {
                                PlanStatus::Approved
                            },
                        },
                    ),
                },
            },
        }
    } else if et == "plan_approved"@ {
        plan_status_outcome(p, PlanStatus::Approved, PlanStamp::ApprovedAt)
    } else if et == "plan_aborted"@ {
        plan_status_outcome(p, PlanStatus::Aborted, PlanStamp::NoStamp)
    } else if et == "plan_complete"@ {
        plan_status_outcome(p, PlanStatus::Complete, PlanStamp::CompletedAt)
    } else if et == "plan_revised"@ {
        plan_status_outcome(p, PlanStatus::PendingApproval, PlanStamp::NoStamp)
    } else if et == "task_started"@ {
        task_ids_outcome(
            p,
            "task_started"@,
            |plan_id: Seq<char>, task_id: Seq<char>| PlanUpdateView::StartTask { plan_id, task_id },
        )
    } else if et == "task_completed"@ {
        task_ids_outcome(
            p,
            "task_terminal"@,
            |plan_id: Seq<char>, task_id: Seq<char>|
                PlanUpdateView::FinishTask { plan_id, task_id, status: TaskStatus::Done },
        )
    } else if et == "task_skipped"@ {
        task_ids_outcome(
            p,
            "task_terminal"@,
            |plan_id: Seq<char>, task_id: Seq<char>|
                PlanUpdateView::FinishTask { plan_id, task_id, status: TaskStatus::Skipped },
        )
    } else if et == "task_rolled_back"@ {
        task_ids_outcome(
            p,
            "task_terminal"@,
            |plan_id: Seq<char>, task_id: Seq<char>|
                PlanUpdateView::FinishTask { plan_id, task_id, status: TaskStatus::Failed },
        )
    } else if et == "task_failed"@ {
        match text_of(p, "plan_id"@) {
            None => Err(("task_failed"@, "plan_id"@)),
            Some(plan_id) => match text_of(p, "task_id"@) {
                None => Err(("task_failed"@, "task_id"@)),
                Some(task_id) => match unsigned_of(p, "failure_count"@) {
                    None => Err(("task_failed"@, "failure_count"@)),
                    Some(failure_count) => Ok(
                        PlanUpdateView::FailTask { plan_id, task_id, failure_count },
                    ),
                },
            },
        }
    } else if et == "task_escalated"@ {
        match text_of(p, "plan_id"@) {
            None => Err(("task_escalated"@, "plan_id"@)),
            Some(plan_id) => match text_of(p, "task_id"@) {
                None => Err(("task_escalated"@, "task_id"@)),
                Some(task_id) => match unsigned_of(p, "failure_count"@) {
                    None => Err(("task_escalated"@, "failure_count"@)),
                    Some(failure_count) => match unsigned_of(p, "max_failures"@) {
                        None => Err(("task_escalated"@, "max_failures"@)),
                        Some(max_failures) => Ok(
                            PlanUpdateView::EscalateTask {
                                plan_id,
                                task_id,
                                failure_count,
                                max_failures,
                            },
                        ),
                    },
                },
            },
        }
    } else {
        Ok(PlanUpdateView::Ignore)
    }
}

fn missing(event_type: &str, field: &str) -> (r: InvalidPayload)
    ensures
        r.event_type@ == event_type@,
        r.field@ == field@,
{
    InvalidPayload { event_type: owned(event_type), field: owned(field) }
}

fn require_text(payload: &Payload, field: &str, event_type: &str) -> (r: Result<
    String,
    InvalidPayload,
>)
    ensures
        match r {
            Ok(s) => text_of(payload.fields@, field@) == Some(s@),
            Err(e) => text_of(payload.fields@, field@) is None && e.event_type@ == event_type@
                && e.field@ == field@,
        },
{
    match payload.text(field) {
        Some(s) => Ok(s),
        None => Err(missing(event_type, field)),
    }
}

fn require_unsigned(payload: &Payload, field: &str, event_type: &str) -> (r: Result<
    u64,
    InvalidPayload,
>)
    ensures
        match r {
            Ok(n) => unsigned_of(payload.fields@, field@) == Some(n),
            Err(e) => unsigned_of(payload.fields@, field@) is None && e.event_type@ == event_type@
                && e.field@ == field@,
        },
{
    match payload.unsigned(field) {
        Some(n) => Ok(n),
        None => Err(missing(event_type, field)),
    }
}

/// The result form `plan_update` is specified against.
pub open spec fn plan_result_view(r: Result<PlanUpdate, InvalidPayload>) -> Result<
    PlanUpdateView,
    (Seq<char>, Seq<char>),
> {
    match r {
        Ok(u) => Ok(u@),
        Err(e) => Err((e.event_type@, e.field@)),
    }
}

fn set_plan_status(payload: &Payload, status: PlanStatus, stamp: PlanStamp) -> (r: Result<
    PlanUpdate,
    InvalidPayload,
>)
    ensures
        plan_result_view(r) == plan_status_outcome(payload.fields@, status, stamp),
{
    let plan_id = match require_text(payload, "plan_id", "plan_*") {
        Ok(s) => s,
        Err(e) => return Err(e),
    };
    Ok(PlanUpdate::SetPlanStatus { plan_id, status, stamp })
}

fn task_ids(payload: &Payload, label: &str) -> (r: Result<(String, String), InvalidPayload>)
    ensures
        match r {
            Ok((plan_id, task_id)) => text_of(payload.fields@, "plan_id"@) == Some(plan_id@)
                && text_of(payload.fields@, "task_id"@) == Some(task_id@),
            Err(e) => e.event_type@ == label@ && (if text_of(payload.fields@, "plan_id"@) is None {
                e.field@ == "plan_id"@
            } else {
                text_of(payload.fields@, "task_id"@) is None && e.field@ == "task_id"@
            }),
        },
{
    let plan_id = match require_text(payload, "plan_id", label) {
        Ok(s) => s,
        Err(e) => return Err(e),
    };
    let task_id = match require_text(payload, "task_id", label) {
        Ok(s) => s,
        Err(e) => return Err(e),
    };
    Ok((plan_id, task_id))
}

/// Decides what the plan projector writes for a signal's payload: the
/// update its `type` asks for, `Ignore` for any other kind, or the first
/// required member that is missing.
#[verifier::rlimit(40)]
pub fn plan_update(payload: &Payload) -> (r: Result<PlanUpdate, InvalidPayload>)
    ensures
        plan_result_view(r) == plan_outcome(payload.fields@),
{
    let et = payload.text_or_empty("type");
    let et = et.as_str();
    if str_eq(et, "plan_created") {
        let plan_id = match require_text(payload, "plan_id", "plan_created") {
            Ok(s) => s,
            Err(e) => return Err(e),
        };
        let title = match require_text(payload, "title", "plan_created") {
            Ok(s) => s,
            Err(e) => return Err(e),
        };
        let approval_required = match payload.flag("approval_required") {
            Some(b) => b,
            None => return Err(missing("plan_created", "approval_required")),
        };
        let status = if approval_required {
            PlanStatus::PendingApproval
        } else {
            PlanStatus::Approved
        };
        Ok(PlanUpdate::CreatePlan { plan_id, title, approval_required, status })
    } else if str_eq(et, "plan_approved") {
        set_plan_status(payload, PlanStatus::Approved, PlanStamp::ApprovedAt)
    } else if str_eq(et, "plan_aborted") {
        set_plan_status(payload, PlanStatus::Aborted, PlanStamp::NoStamp)
    } else if str_eq(et, "plan_complete") {
        set_plan_status(payload, PlanStatus::Complete, PlanStamp::CompletedAt)
    } else if str_eq(et, "plan_revised") {
        set_plan_status(payload, PlanStatus::PendingApproval, PlanStamp::NoStamp)
    } else if str_eq(et, "task_started") {
        match task_ids(payload, "task_started") {
            Ok((plan_id, task_id)) => Ok(PlanUpdate::StartTask { plan_id, task_id }),
            Err(e) => Err(e),
        }
    } else if str_eq(et, "task_completed") || str_eq(et, "task_skipped") || str_eq(
        et,
        "task_rolled_back",
    ) {
        let status = if str_eq(et, "task_completed") {
            TaskStatus::Done
        } else if str_eq(et, "task_skipped") {
            TaskStatus::Skipped
        } else {
            TaskStatus::Failed
        };
        match task_ids(payload, "task_terminal") {
            Ok((plan_id, task_id)) => Ok(PlanUpdate::FinishTask { plan_id, task_id, status }),
            Err(e) => Err(e),
        }
    } else if str_eq(et, "task_failed") {
        let (plan_id, task_id) = match task_ids(payload, "task_failed") {
            Ok(ids) => ids,
            Err(e) => return Err(e),
        };
        let failure_count = match require_unsigned(payload, "failure_count", "task_failed") {
            Ok(n) => n,
            Err(e) => return Err(e),
        };
        Ok(PlanUpdate::FailTask { plan_id, task_id, failure_count })
    } else if str_eq(et, "task_escalated") {
        let (plan_id, task_id) = match task_ids(payload, "task_escalated") {
            Ok(ids) => ids,
            Err(e) => return Err(e),
        };
        let failure_count = match require_unsigned(payload, "failure_count", "task_escalated") {
            Ok(n) => n,
            Err(e) => return Err(e),
        };
        let max_failures = match require_unsigned(payload, "max_failures", "task_escalated") {
            Ok(n) => n,
            Err(e) => return Err(e),
        };
        Ok(PlanUpdate::EscalateTask { plan_id, task_id, failure_count, max_failures })
    } else {
        Ok(PlanUpdate::Ignore)
    }
}

/// A task status that a late `task_started` never overwrites: `done`,
/// `skipped` or `escalated`.
pub open spec fn terminal_task_status(s: Seq<char>) -> bool {
    s == "done"@ || s == "skipped"@ || s == "escalated"@
}

/// The status a task row holds once its task has started, given the
/// status it held before (`None`: no row yet).
pub open spec fn status_after_start(prev: Option<Seq<char>>) -> Seq<char> {
    match prev {
        Some(s) => if terminal_task_status(s) {
            s
        } else {
            "running"@
        },
        None => "running"@,
    }
}

/// The status a task row holds after a task update is applied to it,
/// given the status it held before (`None`: no row yet). Plan updates
/// and `Ignore` leave it as it was.
pub open spec fn task_status_after(prev: Option<Seq<char>>, u: PlanUpdateView) -> Option<
    Seq<char>,
> {
    match u {
        PlanUpdateView::StartTask { .. } => Some(status_after_start(prev)),
        PlanUpdateView::FinishTask { status, .. } => Some(task_status_text(status)),
        PlanUpdateView::FailTask { .. } => Some("failed"@),
        PlanUpdateView::EscalateTask { .. } => Some("escalated"@),
        _ => prev,
    }
}

/// The status column a `task_started` event writes, given the status
/// the task row holds (`None`: no row yet): a terminal status stays,
/// anything else becomes `running`.
pub fn started_task_status(current: Option<&str>) -> (r: String)
    ensures
        r@ == status_after_start(
            match current {
                Some(s) => Some(s@),
                None => None,
            },
        ),
{
    match current {
        Some(s) => {
            if str_eq(s, "done") || str_eq(s, "skipped") || str_eq(s, "escalated") {
                owned(s)
            } else {
                owned("running")
            }
        },
        None => owned("running"),
    }
}

/// A task that reached `done`, `skipped` or `escalated` keeps that
/// status when its `task_started` event arrives late.
pub proof fn lemma_start_keeps_terminal_status(prev: Seq<char>, u: PlanUpdateView)
    requires
        terminal_task_status(prev),
        u is StartTask,
    ensures
        task_status_after(Some(prev), u) == Some(prev),
{
}

/// Projecting the same task event twice leaves the task's status as
/// projecting it once does.
pub proof fn lemma_task_update_idempotent(prev: Option<Seq<char>>, u: PlanUpdateView)
    ensures
        task_status_after(task_status_after(prev, u), u) == task_status_after(prev, u),
{
    reveal_strlit("running");
    reveal_strlit("done");
    reveal_strlit("skipped");
    reveal_strlit("escalated");
}

/// A task completed or skipped before its start event arrives stays
/// completed or skipped: the out-of-order replay order ends where the
/// live order does.
pub proof fn lemma_finish_before_start_keeps_finish(
    prev: Option<Seq<char>>,
    finish: PlanUpdateView,
    start: PlanUpdateView,
)
    requires
        finish matches PlanUpdateView::FinishTask { status, .. } && status != TaskStatus::Failed,
        start is StartTask,
    ensures
        task_status_after(task_status_after(prev, finish), start) == task_status_after(
            task_status_after(prev, start),
            finish,
        ),
{
}

/// The columns of the VDR row a decision or verify signal becomes.
#[derive(Clone, Debug)]
pub struct VdrFields {
    /// The acting agent (`agent_id`, or empty).
    pub agent_id: String,
    /// The decision text, or for a verify signal the hook id.
    pub decision: String,
    /// The rationale, or for a verify signal the outcome.
    pub rationale: String,
    /// The tool a decision used, if it names one.
    pub tool_invoked: Option<String>,
    /// `pass` or `fail` for a verify signal; none for a decision.
    pub outcome: Option<String>,
}

/// Only decision and verify signals are projected into the VDR table.
pub open spec fn vdr_eligible(sig_type: Seq<char>) -> bool {
    sig_type == "decision"@ || sig_type == "verify"@
}

/// Is a signal of this type projected into the VDR table?
pub fn is_projection_eligible(sig_type: &str) -> (r: bool)
    ensures
        r == vdr_eligible(sig_type@),
{
    str_eq(sig_type, "decision") || str_eq(sig_type, "verify")
}

/// The outcome text of a verify signal: `pass` when its `passed`
/// member is `true`, else `fail`.
pub open spec fn verify_outcome(p: Seq<(String, PayloadValue)>) -> Seq<char> {
    if flag_of(p, "passed"@) == Some(true) {
        "pass"@
    } else {
        "fail"@
    }
}

/// The VDR row for a decision or verify signal; none for any other type.
pub fn vdr_fields(sig_type: &str, payload: &Payload) -> (r: Option<VdrFields>)
    ensures
        r is Some <==> vdr_eligible(sig_type@),
        r matches Some(f) ==> f.agent_id@ == text_or_empty(payload.fields@, "agent_id"@),
        r matches Some(f) ==> sig_type@ == "decision"@ ==> {
            &&& f.decision@ == text_or_empty(payload.fields@, "decision"@)
            &&& f.rationale@ == text_or_empty(payload.fields@, "rationale"@)
            &&& match f.tool_invoked {
                Some(t) => text_of(payload.fields@, "tool_used"@) == Some(t@),
                None => text_of(payload.fields@, "tool_used"@) is None,
            }
            &&& f.outcome is None
        },
        r matches Some(f) ==> sig_type@ == "verify"@ ==> {
            &&& f.decision@ == text_or_empty(payload.fields@, "hook_id"@)
            &&& f.rationale@ == verify_outcome(payload.fields@)
            &&& f.tool_invoked is None
            &&& f.outcome matches Some(o) && o@ == verify_outcome(payload.fields@)
        },
{
    if !is_projection_eligible(sig_type) {
        return None;
    }
    let agent_id = payload.text_or_empty("agent_id");
    proof {
        reveal_strlit("decision");
        reveal_strlit("verify");
        assert("decision"@.len() != "verify"@.len());
    }
    if str_eq(sig_type, "decision") {
        Some(
            VdrFields {
                agent_id,
                decision: payload.text_or_empty("decision"),
                rationale: payload.text_or_empty("rationale"),
                tool_invoked: payload.text("tool_used"),
                outcome: None,
            },
        )
    } else {
        let passed = match payload.flag("passed") {
            Some(b) => b,
            None => false,
        };
        let outcome = if passed {
            "pass"
        } else {
            "fail"
        };
        Some(
            VdrFields {
                agent_id,
                decision: payload.text_or_empty("hook_id"),
                rationale: owned(outcome),
                tool_invoked: None,
                outcome: Some(owned(outcome)),
            },
        )
    }
}

/// What each plan or task event asks the projector to write, given the
/// members it needs: `task_completed`, `task_skipped` and
/// `task_rolled_back` land the task in `done`, `skipped` and `failed`;
/// `task_started` marks it started; `task_failed` and `task_escalated`
/// record their counts; `plan_approved` approves the plan and stamps
/// `approved_at`, `plan_complete` completes it and stamps `completed_at`,
/// `plan_aborted` aborts it and `plan_revised` sends it back for approval.
pub proof fn lemma_events_land_their_status(p: Seq<(String, PayloadValue)>)
    requires
        text_of(p, "plan_id"@) is Some,
        text_of(p, "task_id"@) is Some,
    ensures
        event_type_of(p) == "task_completed"@ ==> (plan_outcome(p) matches Ok(
            PlanUpdateView::FinishTask { status, .. },
        ) && task_status_text(status) == "done"@),
        event_type_of(p) == "task_skipped"@ ==> (plan_outcome(p) matches Ok(
            PlanUpdateView::FinishTask { status, .. },
        ) && task_status_text(status) == "skipped"@),
        event_type_of(p) == "task_rolled_back"@ ==> (plan_outcome(p) matches Ok(
            PlanUpdateView::FinishTask { status, .. },
        ) && task_status_text(status) == "failed"@),
        event_type_of(p) == "task_started"@ ==> ((plan_outcome(p) matches Ok(
            PlanUpdateView::StartTask { .. },
        ))),
        event_type_of(p) == "plan_approved"@ ==> (plan_outcome(p) matches Ok(
            PlanUpdateView::SetPlanStatus { status, stamp, .. },
        ) && plan_status_text(status) == "approved"@ && stamp == PlanStamp::ApprovedAt),
        event_type_of(p) == "plan_complete"@ ==> (plan_outcome(p) matches Ok(
            PlanUpdateView::SetPlanStatus { status, stamp, .. },
        ) && plan_status_text(status) == "complete"@ && stamp == PlanStamp::CompletedAt),
        event_type_of(p) == "plan_aborted"@ ==> (plan_outcome(p) matches Ok(
            PlanUpdateView::SetPlanStatus { status, stamp, .. },
        ) && plan_status_text(status) == "aborted"@ && stamp == PlanStamp::NoStamp),
        event_type_of(p) == "plan_revised"@ ==> (plan_outcome(p) matches Ok(
            PlanUpdateView::SetPlanStatus { status, stamp, .. },
        ) && plan_status_text(status) == "pending_approval"@ && stamp == PlanStamp::NoStamp),
{
    reveal_strlit("plan_created");
    reveal_strlit("plan_approved");
    reveal_strlit("plan_aborted");
    reveal_strlit("plan_complete");
    reveal_strlit("plan_revised");
    reveal_strlit("task_started");
    reveal_strlit("task_completed");
    reveal_strlit("task_skipped");
    reveal_strlit("task_rolled_back");
    reveal_strlit("task_failed");
    reveal_strlit("task_escalated");
    assert("plan_created"@.len() != "plan_approved"@.len());
    assert("plan_created"@[5] != "plan_aborted"@[5]);
    assert("plan_created"@.len() != "plan_complete"@.len());
    assert("plan_created"@[5] != "plan_revised"@[5]);
    assert("plan_created"@[0] != "task_started"@[0]);
    assert("plan_created"@.len() != "task_completed"@.len());
    assert("plan_created"@[0] != "task_skipped"@[0]);
    assert("plan_created"@.len() != "task_rolled_back"@.len());
    assert("plan_created"@.len() != "task_failed"@.len());
    assert("plan_created"@.len() != "task_escalated"@.len());
    assert("plan_approved"@.len() != "plan_aborted"@.len());
    assert("plan_approved"@[5] != "plan_complete"@[5]);
    assert("plan_approved"@.len() != "plan_revised"@.len());
    assert("plan_approved"@.len() != "task_started"@.len());
    assert("plan_approved"@.len() != "task_completed"@.len());
    assert("plan_approved"@.len() != "task_skipped"@.len());
    assert("plan_approved"@.len() != "task_rolled_back"@.len());
    assert("plan_approved"@.len() != "task_failed"@.len());
    assert("plan_approved"@.len() != "task_escalated"@.len());
    assert("plan_aborted"@.len() != "plan_complete"@.len());
    assert("plan_aborted"@[5] != "plan_revised"@[5]);
    assert("plan_aborted"@[0] != "task_started"@[0]);
    assert("plan_aborted"@.len() != "task_completed"@.len());
    assert("plan_aborted"@[0] != "task_skipped"@[0]);
    assert("plan_aborted"@.len() != "task_rolled_back"@.len());
    assert("plan_aborted"@.len() != "task_failed"@.len());
    assert("plan_aborted"@.len() != "task_escalated"@.len());
    assert("plan_complete"@.len() != "plan_revised"@.len());
    assert("plan_complete"@.len() != "task_started"@.len());
    assert("plan_complete"@.len() != "task_completed"@.len());
    assert("plan_complete"@.len() != "task_skipped"@.len());
    assert("plan_complete"@.len() != "task_rolled_back"@.len());
    assert("plan_complete"@.len() != "task_failed"@.len());
    assert("plan_complete"@.len() != "task_escalated"@.len());
    assert("plan_revised"@[0] != "task_started"@[0]);
    assert("plan_revised"@.len() != "task_completed"@.len());
    assert("plan_revised"@[0] != "task_skipped"@[0]);
    assert("plan_revised"@.len() != "task_rolled_back"@.len());
    assert("plan_revised"@.len() != "task_failed"@.len());
    assert("plan_revised"@.len() != "task_escalated"@.len());
    assert("task_started"@.len() != "task_completed"@.len());
    assert("task_started"@[6] != "task_skipped"@[6]);
    assert("task_started"@.len() != "task_rolled_back"@.len());
    assert("task_started"@.len() != "task_failed"@.len());
    assert("task_started"@.len() != "task_escalated"@.len());
    assert("task_completed"@.len() != "task_skipped"@.len());
    assert("task_completed"@.len() != "task_rolled_back"@.len());
    assert("task_completed"@.len() != "task_failed"@.len());
    assert("task_completed"@[5] != "task_escalated"@[5]);
    assert("task_skipped"@.len() != "task_rolled_back"@.len());
    assert("task_skipped"@.len() != "task_failed"@.len());
    assert("task_skipped"@.len() != "task_escalated"@.len());
    assert("task_rolled_back"@.len() != "task_failed"@.len());
    assert("task_rolled_back"@.len() != "task_escalated"@.len());
    assert("task_failed"@.len() != "task_escalated"@.len());
    let plan_id = text_of(p, "plan_id"@).unwrap();
    let task_id = text_of(p, "task_id"@).unwrap();
    let et = event_type_of(p);
    if et == "task_completed"@ {
        assert(plan_outcome(p) == Ok::<PlanUpdateView, (Seq<char>, Seq<char>)>(
            PlanUpdateView::FinishTask { plan_id, task_id, status: TaskStatus::Done },
        ));
    }
    if et == "task_skipped"@ {
        assert(plan_outcome(p) == Ok::<PlanUpdateView, (Seq<char>, Seq<char>)>(
            PlanUpdateView::FinishTask { plan_id, task_id, status: TaskStatus::Skipped },
        ));
    }
    if et == "task_rolled_back"@ {
        assert(plan_outcome(p) == Ok::<PlanUpdateView, (Seq<char>, Seq<char>)>(
            PlanUpdateView::FinishTask { plan_id, task_id, status: TaskStatus::Failed },
        ));
    }
    if et == "task_started"@ {
        assert(plan_outcome(p) == Ok::<PlanUpdateView, (Seq<char>, Seq<char>)>(
            PlanUpdateView::StartTask { plan_id, task_id },
        ));
    }
}

/// A plan created with an approval step waits for approval; one created
/// without it starts approved.
pub proof fn lemma_created_plan_status(p: Seq<(String, PayloadValue)>)
    requires
        event_type_of(p) == "plan_created"@,
        text_of(p, "plan_id"@) is Some,
        text_of(p, "title"@) is Some,
        flag_of(p, "approval_required"@) is Some,
    ensures
        plan_outcome(p) matches Ok(PlanUpdateView::CreatePlan { status, approval_required, .. })
            && approval_required == flag_of(p, "approval_required"@).unwrap() && plan_status_text(
            status,
        ) == (if approval_required {
            "pending_approval"@
        } else {
            "approved"@
        }),
{
}

} // verus!
