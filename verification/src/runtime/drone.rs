//! Value types of the main-to-drone channel and of the signal log.

use vstd::prelude::*;

use crate::text::{concat, owned, str_eq};

verus! {

/// The status a drone heartbeat reports.
#[derive(Clone, Copy, Debug, PartialEq, Eq, Structural)]
pub enum HeartbeatStatus {
    /// Processing normally.
    Healthy,
    /// Making progress, but degraded.
    Degraded,
    /// No forward progress.
    Stalled,
}

/// The lowercase name a heartbeat status is written as.
pub open spec fn status_name(s: HeartbeatStatus) -> Seq<char> {
    match s {
        HeartbeatStatus::Healthy => "ok"@,
        HeartbeatStatus::Degraded => "degraded"@,
        HeartbeatStatus::Stalled => "stalled"@,
    }
}

/// Error for an unknown heartbeat status name; carries the name.
#[derive(Clone, Debug)]
pub struct ParseHeartbeatStatusError(pub String);

impl ParseHeartbeatStatusError {
    /// `unknown heartbeat status: <name>`.
    pub fn message(&self) -> (r: String)
        ensures
            r@ == "unknown heartbeat status: "@ + self.0@,
    {
        concat("unknown heartbeat status: ", self.0.as_str())
    }
}

impl HeartbeatStatus {
    /// The lowercase name: `ok`, `degraded` or `stalled`.
    pub fn as_str(&self) -> (r: &'static str)
        ensures
            r@ == status_name(*self),
    {
        match self {
            HeartbeatStatus::Healthy => "ok",
            HeartbeatStatus::Degraded => "degraded",
            HeartbeatStatus::Stalled => "stalled",
        }
    }

    /// Parses a lowercase status name; any other text is an error that
    /// carries it.
    pub fn parse(s: &str) -> (r: Result<HeartbeatStatus, ParseHeartbeatStatusError>)
        ensures
            r matches Ok(st) ==> status_name(st) == s@,
            r is Err ==> s@ != "ok"@ && s@ != "degraded"@ && s@ != "stalled"@,
            r matches Err(e) ==> e.0@ == s@,
    {
        if str_eq(s, "ok") {
            Ok(HeartbeatStatus::Healthy)
        } else if str_eq(s, "degraded") {
            Ok(HeartbeatStatus::Degraded)
        } else if str_eq(s, "stalled") {
            Ok(HeartbeatStatus::Stalled)
        } else {
            Err(ParseHeartbeatStatusError(owned(s)))
        }
    }
}

/// Parsing the name of a status gives the status back.
pub proof fn lemma_status_name_round_trip(a: HeartbeatStatus, b: HeartbeatStatus)
    requires
        status_name(a) == status_name(b),
    ensures
        a == b,
{
    reveal_strlit("ok");
    reveal_strlit("degraded");
    reveal_strlit("stalled");
    assert("ok"@.len() == 2);
    assert("degraded"@.len() == 8);
    assert("stalled"@.len() == 7);
    assert(status_name(a).len() == status_name(b).len());
}

/// Activity states the drone tracks.
#[derive(Clone, Copy, Debug, PartialEq, Eq, Structural)]
pub enum ActivityState {
    /// Actively processing.
    Active,
    /// No work in progress.
    Idle,
    /// No progress detected.
    Stalled,
    /// Activity timeout exceeded.
    TimedOut,
    /// The user aborted the session.
    UserAborted,
    /// Recovering from a crash or revert.
    Recovering,
}

/// Why a process stopped.
#[derive(Clone, Copy, Debug, PartialEq, Eq, Structural)]
pub enum StopReason {
    /// Exited cleanly.
    Graceful,
    /// Crashed.
    Crash,
    /// Timed out.
    Timeout,
    /// The user aborted.
    UserAbort,
    /// Force-killed by the drone.
    ForceKill,
}

/// Kinds of child process the drone manages.
#[derive(Clone, Copy, Debug, PartialEq, Eq, Structural)]
pub enum ProcessType {
    /// An agent process.
    Agent,
    /// An MCP server process.
    Mcp,
    /// A sandboxed skill execution.
    SkillSandbox,
}

/// Alert severity.
#[derive(Clone, Copy, Debug, PartialEq, Eq, Structural)]
pub enum AlertLevel {
    /// Something is off but not critical.
    Warn,
    /// Immediate attention required.
    Critical,
}

/// Why a snapshot revert was requested.
#[derive(Clone, Debug)]
pub enum RevertReason {
    /// A verification hook triggered the rollback; carries its id.
    HookRollback {
        /// The firing hook's id.
        hook_id: String,
    },
    /// The user asked for a rollback.
    UserRollback,
    /// Gap recovery required reverting state.
    GapRecovery,
}

/// The reason string a revert confirmation carries.
pub open spec fn revert_reason_text(reason: RevertReason) -> Seq<char> {
    match reason {
        RevertReason::HookRollback { hook_id } => "revert:hook_rollback:"@ + hook_id@,
        RevertReason::UserRollback => "revert:user_rollback"@,
        RevertReason::GapRecovery => "revert:gap_recovery"@,
    }
}

impl RevertReason {
    /// The reason string the drone re-emits when it confirms a revert:
    /// the hook id is included for hook rollbacks.
    pub fn confirmation_text(&self) -> (r: String)
        ensures
            r@ == revert_reason_text(*self),
    {
        match self {
            RevertReason::HookRollback { hook_id } => concat(
                "revert:hook_rollback:",
                hook_id.as_str(),
            ),
            RevertReason::UserRollback => owned("revert:user_rollback"),
            RevertReason::GapRecovery => owned("revert:gap_recovery"),
        }
    }
}

/// Configuration for spawning a child process.
#[derive(Clone, Debug)]
pub struct ProcessConfig {
    /// Command to execute.
    pub command: String,
    /// Command-line arguments.
    pub args: Vec<String>,
    /// Environment variables, as name-value pairs.
    pub env: Vec<(String, String)>,
}

/// Reference to a prior signal in a causal chain.
#[derive(Clone, Debug)]
pub struct PreSignalId(pub String);

/// Reference to a parent signal.
#[derive(Clone, Debug)]
pub struct ParentSignalId(pub String);

/// Reference to the signal this one retries.
#[derive(Clone, Debug)]
pub struct RetryOfSignalId(pub String);

/// The context a signal was produced in.
#[derive(Clone, Copy, Debug, PartialEq, Eq, Structural)]
pub enum ContextType {
    /// An agent's main loop.
    AgentLoop,
    /// Skill load or discovery.
    SkillLoad,
    /// A tool invocation.
    ToolInvoke,
    /// Hook execution.
    HookExecute,
    /// Plan creation.
    PlanCreate,
    /// A HITL prompt cycle.
    HitlPrompt,
    /// Session start, resume or end.
    SessionLifecycle,
}

/// How main's connection to the drone behaves: `Active` talks to a real
/// drone; `Noop` accepts every send and yields no events.
#[derive(Clone, Copy, Debug, PartialEq, Eq, Structural)]
pub enum Mode {
    /// A live socket connection.
    Active,
    /// No drone: sends succeed, the event stream is empty.
    Noop,
}

/// Maximum length of one framed-JSON IPC line, in bytes (4 MiB).
pub const MAX_IPC_FRAME_BYTES: usize = 4194304;

} // verus!
