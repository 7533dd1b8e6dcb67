//! Human-in-the-loop policy evaluation over nine trigger types.
//!
//! Given a framework's HITL policy and the context of a trigger that just
//! fired, decide whether the trigger is enabled and, if so, which UI to
//! mount, how long to wait and what to do on timeout.

use vstd::prelude::*;

use crate::text::{owned, seq_starts_with, starts_with, str_eq};

verus! {

/// The nine HITL trigger types.
#[derive(Clone, Copy, Debug, PartialEq, Eq, Structural)]
pub enum HitlTriggerRef {
    /// A tool or skill is missing.
    OnGap,
    /// An agent attempted a risky tool.
    OnRiskyTool,
    /// An agent attempted to edit a protected path.
    OnDontTouchEdit,
    /// A task exceeded its failure budget.
    OnFailureThreshold,
    /// An agent violated its capabilities.
    OnCapabilityViolation,
    /// Spend crossed the budget threshold.
    OnBudgetThreshold,
    /// A plan awaits approval.
    OnPlanApproval,
    /// Gate before each task.
    PerTask,
    /// Gate at each plan boundary.
    PerEpic,
}

/// The UI surface a resolved trigger mounts.
#[derive(Clone, Copy, Debug, PartialEq, Eq, Structural)]
pub enum HitlUiVariantRef {
    /// Takes over the surface.
    Panel,
    /// Blocks adjacent controls.
    Modal,
    /// Unobtrusive notice.
    Toast,
}

/// The UI override a framework may configure per trigger.
#[derive(Clone, Copy, Debug, PartialEq, Eq, Structural)]
pub enum HitlUiVariant {
    /// Panel.
    Panel,
    /// Modal.
    Modal,
    /// Toast.
    Toast,
}

/// Kind of a configured notifier.
#[derive(Clone, Copy, Debug, PartialEq, Eq, Structural)]
pub enum HitlNotifierType {
    /// ASCII bell on the terminal.
    TerminalBell,
    /// Desktop notification.
    Desktop,
    /// Audible tone.
    Sound,
    /// A plugin notifier.
    Plugin,
}

/// One configured notifier.
#[derive(Clone, Debug)]
pub struct HitlNotifierConfig {
    /// Notifier kind.
    pub type_: HitlNotifierType,
    /// Whether the notifier is dispatched.
    pub enabled: bool,
    /// Plugin name, for plugin notifiers.
    pub name: Option<String>,
}

/// Per-trigger policy.
#[derive(Clone, Debug)]
pub struct HitlTriggerPolicy {
    /// Whether the trigger fires at all.
    pub enabled: bool,
    /// Budget percent at or above which `on_budget_threshold` fires.
    pub percent: Option<i64>,
    /// Failure count at or above which `on_failure_threshold` fires.
    pub threshold: Option<u64>,
    /// Risky-tool patterns; empty means every tool is risky.
    pub tools: Vec<String>,
    /// UI override.
    pub ui: Option<HitlUiVariant>,
}

/// A framework's HITL policy.
#[derive(Clone, Debug)]
pub struct HitlPolicy {
    /// Action taken when the prompt times out.
    pub default_action_on_timeout: String,
    /// Configured notifiers.
    pub notifiers: Vec<HitlNotifierConfig>,
    /// `on_budget_threshold` policy.
    pub on_budget_threshold: Option<HitlTriggerPolicy>,
    /// `on_capability_violation` policy.
    pub on_capability_violation: Option<HitlTriggerPolicy>,
    /// `on_dont_touch_edit` policy.
    pub on_dont_touch_edit: Option<HitlTriggerPolicy>,
    /// `on_failure_threshold` policy.
    pub on_failure_threshold: Option<HitlTriggerPolicy>,
    /// `on_gap` policy.
    pub on_gap: Option<HitlTriggerPolicy>,
    /// `on_plan_approval` policy.
    pub on_plan_approval: Option<HitlTriggerPolicy>,
    /// `on_risky_tool` policy.
    pub on_risky_tool: Option<HitlTriggerPolicy>,
    /// `per_epic` policy.
    pub per_epic: Option<HitlTriggerPolicy>,
    /// `per_task` policy.
    pub per_task: Option<HitlTriggerPolicy>,
    /// Seconds before a prompt times out.
    pub timeout_seconds: u64,
}

/// The default UI per trigger: a panel for substantial decisions, a
/// modal for quick yes/no.
pub open spec fn default_ui(trigger: HitlTriggerRef) -> HitlUiVariantRef {
    match trigger {
        HitlTriggerRef::OnGap | HitlTriggerRef::OnFailureThreshold | HitlTriggerRef::OnPlanApproval
        | HitlTriggerRef::PerEpic => HitlUiVariantRef::Panel,
        _ => HitlUiVariantRef::Modal,
    }
}

/// Default UI variant for a trigger when the framework sets no override.
pub fn default_ui_for(trigger: HitlTriggerRef) -> (r: HitlUiVariantRef)
    ensures
        r == default_ui(trigger),
{
    match trigger {
        HitlTriggerRef::OnGap
        | HitlTriggerRef::OnFailureThreshold
        | HitlTriggerRef::OnPlanApproval
        | HitlTriggerRef::PerEpic => HitlUiVariantRef::Panel,
        HitlTriggerRef::OnRiskyTool
        | HitlTriggerRef::OnDontTouchEdit
        | HitlTriggerRef::OnCapabilityViolation
        | HitlTriggerRef::OnBudgetThreshold
        | HitlTriggerRef::PerTask => HitlUiVariantRef::Modal,
    }
}

/// The context of the trigger that just fired.
#[derive(Clone, Debug)]
pub enum HitlContext {
    /// A tool or skill is missing.
    Gap {
        /// Agent that observed the gap.
        agent_id: String,
        /// What is missing.
        missing: String,
    },
    /// An agent attempted a tool.
    RiskyTool {
        /// Agent attempting the tool.
        agent_id: String,
        /// Tool name, matched against the risky-tool patterns.
        tool_name: String,
    },
    /// An agent attempted to edit a protected path.
    DontTouchEdit {
        /// Agent attempting the edit.
        agent_id: String,
        /// The protected path.
        path: String,
    },
    /// A task escalated.
    FailureThreshold {
        /// Escalated task.
        task_id: String,
        /// Plan owning the task.
        plan_id: String,
        /// Failures so far.
        failure_count: u32,
    },
    /// A capability violation.
    CapabilityViolation {
        /// Violating agent.
        agent_id: String,
        /// Attempted operation.
        attempted: String,
    },
    /// Spend crossed a threshold.
    BudgetThreshold {
        /// Percent of the cap spent.
        percent: u32,
    },
    /// A plan awaits approval.
    PlanApproval {
        /// The plan.
        plan_id: String,
    },
    /// Gate before a task.
    PerTask {
        /// The task.
        task_id: String,
    },
    /// Gate at a plan boundary.
    PerEpic {
        /// The plan.
        plan_id: String,
    },
}

/// The trigger a context belongs to.
pub open spec fn context_trigger(ctx: HitlContext) -> HitlTriggerRef {
    match ctx {
        HitlContext::Gap { .. } => HitlTriggerRef::OnGap,
        HitlContext::RiskyTool { .. } => HitlTriggerRef::OnRiskyTool,
        HitlContext::DontTouchEdit { .. } => HitlTriggerRef::OnDontTouchEdit,
        HitlContext::FailureThreshold { .. } => HitlTriggerRef::OnFailureThreshold,
        HitlContext::CapabilityViolation { .. } => HitlTriggerRef::OnCapabilityViolation,
        HitlContext::BudgetThreshold { .. } => HitlTriggerRef::OnBudgetThreshold,
        HitlContext::PlanApproval { .. } => HitlTriggerRef::OnPlanApproval,
        HitlContext::PerTask { .. } => HitlTriggerRef::PerTask,
        HitlContext::PerEpic { .. } => HitlTriggerRef::PerEpic,
    }
}

impl HitlContext {
    /// The trigger this context belongs to.
    pub fn trigger(&self) -> (r: HitlTriggerRef)
        ensures
            r == context_trigger(*self),
    {
        match self {
            HitlContext::Gap { .. } => HitlTriggerRef::OnGap,
            HitlContext::RiskyTool { .. } => HitlTriggerRef::OnRiskyTool,
            HitlContext::DontTouchEdit { .. } => HitlTriggerRef::OnDontTouchEdit,
            HitlContext::FailureThreshold { .. } => HitlTriggerRef::OnFailureThreshold,
            HitlContext::CapabilityViolation { .. } => HitlTriggerRef::OnCapabilityViolation,
            HitlContext::BudgetThreshold { .. } => HitlTriggerRef::OnBudgetThreshold,
            HitlContext::PlanApproval { .. } => HitlTriggerRef::OnPlanApproval,
            HitlContext::PerTask { .. } => HitlTriggerRef::PerTask,
            HitlContext::PerEpic { .. } => HitlTriggerRef::PerEpic,
        }
    }

    /// The originating agent for agent-scoped triggers (gap, risky tool,
    /// protected-path edit, capability violation); `None` for the
    /// plan-scoped ones.
    pub fn agent_id(&self) -> (r: Option<&str>)
        ensures
            match *self {
                HitlContext::Gap { agent_id, .. } => r matches Some(s) && s@ == agent_id@,
                HitlContext::RiskyTool { agent_id, .. } => r matches Some(s) && s@ == agent_id@,
                HitlContext::DontTouchEdit { agent_id, .. } => r matches Some(s) && s@ == agent_id@,
                HitlContext::CapabilityViolation { agent_id, .. } => r matches Some(s) && s@
                    == agent_id@,
                _ => r is None,
            },
    {
        match self {
            HitlContext::Gap { agent_id, .. }
            | HitlContext::RiskyTool { agent_id, .. }
            | HitlContext::DontTouchEdit { agent_id, .. }
            | HitlContext::CapabilityViolation { agent_id, .. } => Some(agent_id.as_str()),
            HitlContext::FailureThreshold { .. }
            | HitlContext::BudgetThreshold { .. }
            | HitlContext::PlanApproval { .. }
            | HitlContext::PerTask { .. }
            | HitlContext::PerEpic { .. } => None,
        }
    }
}

/// A trigger ready to drive the HITL seam.
#[derive(Clone, Debug)]
pub struct ResolvedTrigger {
    /// Which trigger fired.
    pub trigger: HitlTriggerRef,
    /// UI to mount.
    pub ui_variant: HitlUiVariantRef,
    /// Seconds to wait before timing out.
    pub timeout_seconds: u64,
    /// Action taken on timeout.
    pub default_action: String,
}

/// The per-trigger policy configured for `trigger`.
pub open spec fn policy_for(policy: HitlPolicy, trigger: HitlTriggerRef) -> Option<HitlTriggerPolicy> {
    match trigger {
        HitlTriggerRef::OnGap => policy.on_gap,
        HitlTriggerRef::OnRiskyTool => policy.on_risky_tool,
        HitlTriggerRef::OnDontTouchEdit => policy.on_dont_touch_edit,
        HitlTriggerRef::OnFailureThreshold => policy.on_failure_threshold,
        HitlTriggerRef::OnCapabilityViolation => policy.on_capability_violation,
        HitlTriggerRef::OnBudgetThreshold => policy.on_budget_threshold,
        HitlTriggerRef::OnPlanApproval => policy.on_plan_approval,
        HitlTriggerRef::PerTask => policy.per_task,
        HitlTriggerRef::PerEpic => policy.per_epic,
    }
}

/// A risky-tool pattern matches a tool: a pattern ending in `*` matches
/// every tool that starts with the rest of the pattern; any other pattern
/// matches only the identical name.
pub open spec fn tool_pattern_matches(pattern: Seq<char>, candidate: Seq<char>) -> bool {
    if pattern.len() > 0 && pattern.last() == '*' {
        seq_starts_with(candidate, pattern.drop_last())
    } else {
        pattern == candidate
    }
}

/// The trigger-specific precondition: the risky tool matches a pattern
/// (or no patterns are set), the failure count reaches the threshold, the
/// spend reaches the percent; every other trigger has none.
pub open spec fn precondition_holds(ctx: HitlContext, per: HitlTriggerPolicy) -> bool {
    match ctx {
        HitlContext::RiskyTool { tool_name, .. } => per.tools@.len() == 0 || exists|i: int|
            0 <= i < per.tools@.len() && tool_pattern_matches(
                (#[trigger] per.tools@[i])@,
                tool_name@,
            ),
        HitlContext::FailureThreshold { failure_count, .. } => match per.threshold {
            Some(t) => failure_count >= t,
            None => true,
        },
        HitlContext::BudgetThreshold { percent } => match per.percent {
            Some(p) => percent >= p,
            None => true,
        },
        _ => true,
    }
}

/// The UI a per-trigger override selects.
pub open spec fn ui_ref(v: HitlUiVariant) -> HitlUiVariantRef {
    match v {
        HitlUiVariant::Panel => HitlUiVariantRef::Panel,
        HitlUiVariant::Modal => HitlUiVariantRef::Modal,
        HitlUiVariant::Toast => HitlUiVariantRef::Toast,
    }
}

/// Does `policy` fire for `ctx`? Configured, enabled, and precondition met.
pub open spec fn fires(policy: HitlPolicy, ctx: HitlContext) -> bool {
    match policy_for(policy, context_trigger(ctx)) {
        Some(per) => per.enabled && precondition_holds(ctx, per),
        None => false,
    }
}

/// The UI mounted when `policy` fires for `ctx`: the override, else the
/// trigger's default.
pub open spec fn resolved_ui(policy: HitlPolicy, ctx: HitlContext) -> HitlUiVariantRef {
    match policy_for(policy, context_trigger(ctx)) {
        Some(per) => match per.ui {
            Some(v) => ui_ref(v),
            None => default_ui(context_trigger(ctx)),
        },
        None => default_ui(context_trigger(ctx)),
    }
}

fn lookup_policy(policy: &HitlPolicy, trigger: HitlTriggerRef) -> (r: Option<&HitlTriggerPolicy>)
    ensures
        match policy_for(*policy, trigger) {
            Some(p) => r matches Some(q) && *q == p,
            None => r is None,
        },
{
    match trigger {
        HitlTriggerRef::OnGap => policy.on_gap.as_ref(),
        HitlTriggerRef::OnRiskyTool => policy.on_risky_tool.as_ref(),
        HitlTriggerRef::OnDontTouchEdit => policy.on_dont_touch_edit.as_ref(),
        HitlTriggerRef::OnFailureThreshold => policy.on_failure_threshold.as_ref(),
        HitlTriggerRef::OnCapabilityViolation => policy.on_capability_violation.as_ref(),
        HitlTriggerRef::OnBudgetThreshold => policy.on_budget_threshold.as_ref(),
        HitlTriggerRef::OnPlanApproval => policy.on_plan_approval.as_ref(),
        HitlTriggerRef::PerTask => policy.per_task.as_ref(),
        HitlTriggerRef::PerEpic => policy.per_epic.as_ref(),
    }
}

/// Risky-tool pattern matcher: exact match, or a trailing `*` wildcard.
pub fn matches_tool(pattern: &str, candidate: &str) -> (r: bool)
    ensures
        r == tool_pattern_matches(pattern@, candidate@),
{
    let n = pattern.unicode_len();
    if n > 0 && pattern.get_char(n - 1) == '*' {
        let prefix = pattern.substring_char(0, n - 1);
        proof {
            assert(prefix@ =~= pattern@.drop_last());
        }
        starts_with(candidate, prefix)
    } else {
        str_eq(pattern, candidate)
    }
}

fn precondition_satisfied(context: &HitlContext, per_trigger: &HitlTriggerPolicy) -> (r: bool)
    ensures
        r == precondition_holds(*context, *per_trigger),
{
    match context {
        HitlContext::RiskyTool { agent_id, tool_name } => {
            if per_trigger.tools.len() == 0 {
                return true;
            }
            let mut i: usize = 0;
            while i < per_trigger.tools.len()
                invariant
                    i <= per_trigger.tools@.len(),
                    *context == (HitlContext::RiskyTool { agent_id: *agent_id, tool_name: *tool_name }),
                    forall|j: int|
                        0 <= j < i ==> !tool_pattern_matches(
                            (#[trigger] per_trigger.tools@[j])@,
                            tool_name@,
                        ),
                decreases per_trigger.tools@.len() - i,
            {
                if matches_tool(per_trigger.tools[i].as_str(), tool_name.as_str()) {
                    proof {
                        assert(tool_pattern_matches(per_trigger.tools@[i as int]@, tool_name@));
                    }
                    return true;
                }
                i = i + 1;
            }
            false
        },
        HitlContext::FailureThreshold { failure_count, .. } => match per_trigger.threshold {
            Some(t) => (*failure_count as u64) >= t,
            None => true,
        },
        HitlContext::BudgetThreshold { percent } => match per_trigger.percent {
            Some(p) => (*percent as i64) >= p,
            None => true,
        },
        _ => true,
    }
}

/// Maps a configured UI override to the surface it selects.
pub fn map_ui_variant(v: HitlUiVariant) -> (r: HitlUiVariantRef)
    ensures
        r == ui_ref(v),
{
    match v {
        HitlUiVariant::Panel => HitlUiVariantRef::Panel,
        HitlUiVariant::Modal => HitlUiVariantRef::Modal,
        HitlUiVariant::Toast => HitlUiVariantRef::Toast,
    }
}

/// The nine-trigger policy evaluator.
pub struct HitlPolicyEvaluator;

impl HitlPolicyEvaluator {
    /// `Some` when the policy configures the context's trigger, enables
    /// it, and its precondition holds; the result carries the trigger, the
    /// override or default UI, the policy timeout and the timeout action.
    /// `None` otherwise.
    pub fn evaluate(policy: &HitlPolicy, context: &HitlContext) -> (r: Option<ResolvedTrigger>)
        ensures
            r is Some <==> fires(*policy, *context),
            r matches Some(t) ==> t.trigger == context_trigger(*context) && t.ui_variant
                == resolved_ui(*policy, *context) && t.timeout_seconds == policy.timeout_seconds
                && t.default_action@ == policy.default_action_on_timeout@,
    {
        let trigger = context.trigger();
        let per_trigger = match lookup_policy(policy, trigger) {
            Some(p) => p,
            None => {
                return None;
            },
        };
        if !per_trigger.enabled {
            return None;
        }
        if !precondition_satisfied(context, per_trigger) {
            return None;
        }
        let ui_variant = match per_trigger.ui {
            Some(v) => map_ui_variant(v),
            None => default_ui_for(trigger),
        };
        Some(
            ResolvedTrigger {
                trigger,
                ui_variant,
                timeout_seconds: policy.timeout_seconds,
                default_action: policy.default_action_on_timeout.clone(),
            },
        )
    }
}

/// Pattern `pattern` names tool `tool`: it is the tool's exact name, or
/// it ends in `*` and the tool's name starts with what precedes the `*`.
pub open spec fn pattern_names_tool(pattern: Seq<char>, tool: Seq<char>) -> bool {
    pattern == tool || (pattern.len() > 0 && pattern.last() == '*' && seq_starts_with(
        tool,
        pattern.drop_last(),
    ))
}

/// An enabled risky-tool policy fires for a tool that some listed
/// pattern, at any position of the list, names; in particular for a tool
/// whose exact name is listed anywhere.
pub proof fn lemma_listed_risky_tool_fires(policy: HitlPolicy, ctx: HitlContext, i: int)
    requires
        ctx matches HitlContext::RiskyTool { tool_name, .. } && (policy.on_risky_tool matches Some(
            per,
        ) && per.enabled && 0 <= i < per.tools@.len() && pattern_names_tool(
            per.tools@[i]@,
            tool_name@,
        )),
    ensures
        fires(policy, ctx),
{
    let per = policy.on_risky_tool.unwrap();
    let tool = match ctx {
        HitlContext::RiskyTool { tool_name, .. } => tool_name@,
        _ => Seq::empty(),
    };
    assert(tool_pattern_matches(per.tools@[i]@, tool));
}

/// An enabled risky-tool policy with no patterns fires for every tool; with
/// patterns, it fires exactly when some listed pattern names the tool.
pub proof fn lemma_risky_tool_fires_iff_named(policy: HitlPolicy, ctx: HitlContext)
    requires
        ctx is RiskyTool,
        policy.on_risky_tool matches Some(per) && per.enabled,
    ensures
        ctx matches HitlContext::RiskyTool { tool_name, .. } && (policy.on_risky_tool matches Some(
            per,
        ) && (fires(policy, ctx) <==> (per.tools@.len() == 0 || exists|i: int|
            0 <= i < per.tools@.len() && pattern_names_tool(
                #[trigger] per.tools@[i]@,
                tool_name@,
            )))),
{
    let per = policy.on_risky_tool.unwrap();
    let tool = match ctx {
        HitlContext::RiskyTool { tool_name, .. } => tool_name@,
        _ => Seq::empty(),
    };
    if fires(policy, ctx) && per.tools@.len() > 0 {
        let i = choose|i: int|
            0 <= i < per.tools@.len() && tool_pattern_matches((#[trigger] per.tools@[i])@, tool);
        assert(pattern_names_tool(per.tools@[i]@, tool));
    }
    if per.tools@.len() > 0 && exists|i: int|
        0 <= i < per.tools@.len() && pattern_names_tool(#[trigger] per.tools@[i]@, tool) {
        let i = choose|i: int|
            0 <= i < per.tools@.len() && pattern_names_tool(#[trigger] per.tools@[i]@, tool);
        assert(tool_pattern_matches(per.tools@[i]@, tool));
    }
}

} // verus!
