//! One record per security-relevant event: framework load, gap
//! detection and resolution, capability grant and denial, MCP server
//! install, removal and authorisation, tier transition. Each constructor
//! pins the `details` members of its kind.

use vstd::prelude::*;

use crate::capability::enforcer::DenyReason;
use crate::capability::types::Tier;
use crate::text::owned;

verus! {

/// The kind of an audit record.
#[derive(Clone, Copy, Debug, PartialEq, Eq, Structural)]
pub enum AuditEntryKind {
    /// A framework loaded and validated.
    FrameworkLoaded,
    /// An unresolved reference was found.
    GapDetected,
    /// A previously detected gap was resolved.
    GapResolved,
    /// A capability was granted or confirmed.
    CapabilityGranted,
    /// A capability check was rejected.
    CapabilityDenied,
    /// An MCP server was installed.
    McpInstalled,
    /// An MCP server was removed.
    McpUninstalled,
    /// A secret was stored for an MCP server.
    McpAuthGranted,
    /// The user's tier changed.
    TierTransition,
}

/// The wire name of an audit record kind.
pub open spec fn kind_text(k: AuditEntryKind) -> Seq<char> {
    match k {
        AuditEntryKind::FrameworkLoaded => "framework_loaded"@,
        AuditEntryKind::GapDetected => "gap_detected"@,
        AuditEntryKind::GapResolved => "gap_resolved"@,
        AuditEntryKind::CapabilityGranted => "capability_granted"@,
        AuditEntryKind::CapabilityDenied => "capability_denied"@,
        AuditEntryKind::McpInstalled => "mcp_installed"@,
        AuditEntryKind::McpUninstalled => "mcp_uninstalled"@,
        AuditEntryKind::McpAuthGranted => "mcp_auth_granted"@,
        AuditEntryKind::TierTransition => "tier_transition"@,
    }
}

impl AuditEntryKind {
    /// The wire name, e.g. `framework_loaded`.
    pub fn as_str(&self) -> (r: &'static str)
        ensures
            r@ == kind_text(*self),
    {
        match self {
            AuditEntryKind::FrameworkLoaded => "framework_loaded",
            AuditEntryKind::GapDetected => "gap_detected",
            AuditEntryKind::GapResolved => "gap_resolved",
            AuditEntryKind::CapabilityGranted => "capability_granted",
            AuditEntryKind::CapabilityDenied => "capability_denied",
            AuditEntryKind::McpInstalled => "mcp_installed",
            AuditEntryKind::McpUninstalled => "mcp_uninstalled",
            AuditEntryKind::McpAuthGranted => "mcp_auth_granted",
            AuditEntryKind::TierTransition => "tier_transition",
        }
    }
}

/// A value of an audit record's `details` object.
#[derive(Clone, Debug)]
pub enum AuditValue {
    /// A string.
    Text(String),
    /// A count.
    Count(u64),
    /// A boolean.
    Flag(bool),
}

/// One audit record.
#[derive(Clone, Debug)]
pub struct AuditEntry {
    /// Wall-clock unix milliseconds when the record was built.
    pub timestamp_unix_ms: u64,
    /// The session the event belongs to; never empty.
    pub session_id: String,
    /// The record's kind.
    pub kind: AuditEntryKind,
    /// The kind's payload members, in order.
    pub details: Vec<(String, AuditValue)>,
}

/// The member `d` is named `key` and holds the string `val`.
pub open spec fn is_text_detail(d: (String, AuditValue), key: Seq<char>, val: Seq<char>) -> bool {
    &&& d.0@ == key
    &&& d.1 matches AuditValue::Text(s) && s@ == val
}

/// The member `d` is named `key` and holds the count `val`.
pub open spec fn is_count_detail(d: (String, AuditValue), key: Seq<char>, val: u64) -> bool {
    &&& d.0@ == key
    &&& d.1 matches AuditValue::Count(n) && n == val
}

/// The member `d` is named `key` and holds the boolean `val`.
pub open spec fn is_flag_detail(d: (String, AuditValue), key: Seq<char>, val: bool) -> bool {
    &&& d.0@ == key
    &&& d.1 matches AuditValue::Flag(b) && b == val
}

/// The first member of `details` named `key`.
pub open spec fn detail_of(details: Seq<(String, AuditValue)>, key: Seq<char>) -> Option<
    AuditValue,
>
    decreases details.len(),
{
    if details.len() == 0 {
        None
    } else if details[0].0@ == key {
        Some(details[0].1)
    } else {
        detail_of(details.drop_first(), key)
    }
}

impl AuditEntry {
    /// The value of the member `key` of the record's details, if any.
    pub fn detail(&self, key: &str) -> (r: Option<&AuditValue>)
        ensures
            match r {
                Some(v) => detail_of(self.details@, key@) == Some(*v),
                None => detail_of(self.details@, key@) is None,
            },
    {
        let mut i: usize = 0;
        proof {
            assert(self.details@.subrange(0, self.details@.len() as int) =~= self.details@);
        }
        while i < self.details.len()
            invariant
                i <= self.details@.len(),
                detail_of(self.details@, key@) == detail_of(
                    self.details@.subrange(i as int, self.details@.len() as int),
                    key@,
                ),
            decreases self.details@.len() - i,
        {
            let ghost rest = self.details@.subrange(i as int, self.details@.len() as int);
            proof {
                assert(rest.drop_first() =~= self.details@.subrange(
                    i + 1,
                    self.details@.len() as int,
                ));
            }
            if crate::text::str_eq(self.details[i].0.as_str(), key) {
                return Some(&self.details[i].1);
            }
            i = i + 1;
        }
        None
    }
}

/// `std::time::SystemTime`, carried through opaquely.
#[verifier::external_type_specification]
#[verifier::external_body]
pub struct ExSystemTime(std::time::SystemTime);

/// Calls `SystemTime::now()`: the machine's clock, so nothing is claimed
/// of the result.
#[verifier::external_body]
fn system_now() -> std::time::SystemTime {
    std::time::SystemTime::now()
}

/// Calls `SystemTime::duration_since(UNIX_EPOCH)` on `t`; `None` when `t`
/// is before the epoch. Times are opaque to Verus, so nothing more is
/// claimed.
#[verifier::external_body]
fn since_epoch(t: &std::time::SystemTime) -> Option<std::time::Duration> {
    t.duration_since(std::time::UNIX_EPOCH).ok()
}

/// Calls `Duration::as_millis`. Durations are opaque to Verus, so nothing
/// is claimed of the result.
#[verifier::external_body]
fn duration_millis(d: &std::time::Duration) -> u128 {
    d.as_millis()
}

/// Milliseconds since the Unix epoch by the machine's clock; `None` when
/// the clock reads before the epoch.
fn elapsed_since_epoch_ms() -> Option<u128> {
    let now = system_now();
    match since_epoch(&now) {
        Some(d) => Some(duration_millis(&d)),
        None => None,
    }
}

/// The timestamp recorded for an elapsed time: `0` before the epoch,
/// the milliseconds when they fit in a `u64`, else `u64::MAX`.
pub open spec fn clamp_elapsed(elapsed: Option<u128>) -> u64 {
    match elapsed {
        None => 0,
        Some(ms) => if ms <= u64::MAX {
            ms as u64
        } else {
            u64::MAX
        },
    }
}

/// Converts a clock reading to the recorded timestamp (see
/// `clamp_elapsed`).
pub fn unix_ms_from_elapsed(elapsed: Option<u128>) -> (r: u64)
    ensures
        r == clamp_elapsed(elapsed),
{
    match elapsed {
        None => 0,
        Some(ms) => if ms <= 0xffff_ffff_ffff_ffffu128 {
            ms as u64
        } else {
            u64::MAX
        },
    }
}

/// Wall-clock unix milliseconds; a clock before the epoch reads as `0`.
pub fn now_unix_ms() -> u64 {
    unix_ms_from_elapsed(elapsed_since_epoch_ms())
}

/// The session id a record carries: the given one, or `unknown-session`
/// when it is empty.
pub open spec fn recorded_session(raw: Seq<char>) -> Seq<char> {
    if raw.len() == 0 {
        "unknown-session"@
    } else {
        raw
    }
}

fn session_id(raw: &str) -> (r: String)
    ensures
        r@ == recorded_session(raw@),
{
    if raw.unicode_len() == 0 {
        owned("unknown-session")
    } else {
        owned(raw)
    }
}

fn text(key: &str, val: &str) -> (r: (String, AuditValue))
    ensures
        is_text_detail(r, key@, val@),
{
    (owned(key), AuditValue::Text(owned(val)))
}

fn entry(session: &str, kind: AuditEntryKind, details: Vec<(String, AuditValue)>) -> (r: AuditEntry)
    ensures
        r.session_id@ == recorded_session(session@),
        r.kind == kind,
        r.details@ == details@,
{
    AuditEntry { timestamp_unix_ms: now_unix_ms(), session_id: session_id(session), kind, details }
}

/// `framework_loaded`: the framework's name and its agent count.
pub fn framework_loaded(session: &str, framework_name: &str, agent_count: usize) -> (r:
    AuditEntry)
    ensures
        r.kind == AuditEntryKind::FrameworkLoaded,
        r.session_id@ == recorded_session(session@),
        r.details@.len() == 2,
        is_text_detail(r.details@[0], "framework_name"@, framework_name@),
        is_count_detail(r.details@[1], "agent_count"@, agent_count as u64),
{
    let mut d: Vec<(String, AuditValue)> = Vec::new();
    d.push(text("framework_name", framework_name));
    d.push((owned("agent_count"), AuditValue::Count(agent_count as u64)));
    entry(session, AuditEntryKind::FrameworkLoaded, d)
}

/// `gap_detected`: the agent, the gap kind, the missing name and who
/// asked for it.
pub fn gap_detected(
    session: &str,
    agent_id: &str,
    gap_kind: &str,
    missing_name: &str,
    requested_via: &str,
) -> (r: AuditEntry)
    ensures
        r.kind == AuditEntryKind::GapDetected,
        r.session_id@ == recorded_session(session@),
        r.details@.len() == 4,
        is_text_detail(r.details@[0], "agent_id"@, agent_id@),
        is_text_detail(r.details@[1], "gap_kind"@, gap_kind@),
        is_text_detail(r.details@[2], "missing_name"@, missing_name@),
        is_text_detail(r.details@[3], "requested_via"@, requested_via@),
{
    let mut d: Vec<(String, AuditValue)> = Vec::new();
    d.push(text("agent_id", agent_id));
    d.push(text("gap_kind", gap_kind));
    d.push(text("missing_name", missing_name));
    d.push(text("requested_via", requested_via));
    entry(session, AuditEntryKind::GapDetected, d)
}

/// `gap_resolved`: the agent, the gap kind and the capability that
/// resolved it.
pub fn gap_resolved(session: &str, agent_id: &str, gap_kind: &str, capability: &str) -> (r:
    AuditEntry)
    ensures
        r.kind == AuditEntryKind::GapResolved,
        r.session_id@ == recorded_session(session@),
        r.details@.len() == 3,
        is_text_detail(r.details@[0], "agent_id"@, agent_id@),
        is_text_detail(r.details@[1], "gap_kind"@, gap_kind@),
        is_text_detail(r.details@[2], "capability"@, capability@),
{
    let mut d: Vec<(String, AuditValue)> = Vec::new();
    d.push(text("agent_id", agent_id));
    d.push(text("gap_kind", gap_kind));
    d.push(text("capability", capability));
    entry(session, AuditEntryKind::GapResolved, d)
}

/// `capability_granted`: the agent, the capability kind and the
/// resource.
pub fn capability_granted(session: &str, agent_id: &str, capability_kind: &str, resource: &str) -> (r:
    AuditEntry)
    ensures
        r.kind == AuditEntryKind::CapabilityGranted,
        r.session_id@ == recorded_session(session@),
        r.details@.len() == 3,
        is_text_detail(r.details@[0], "agent_id"@, agent_id@),
        is_text_detail(r.details@[1], "capability_kind"@, capability_kind@),
        is_text_detail(r.details@[2], "resource"@, resource@),
{
    let mut d: Vec<(String, AuditValue)> = Vec::new();
    d.push(text("agent_id", agent_id));
    d.push(text("capability_kind", capability_kind));
    d.push(text("resource", resource));
    entry(session, AuditEntryKind::CapabilityGranted, d)
}

/// The wire name of a denial reason.
pub open spec fn deny_reason_text(reason: DenyReason) -> Seq<char> {
    match reason {
        DenyReason::NoDeclarations => "no_declarations"@,
        DenyReason::NoMatchingGrant => "no_matching_grant"@,
    }
}

/// `capability_denied`: the agent, the capability kind and why it was
/// denied (`no_declarations` or `no_matching_grant`).
pub fn capability_denied(
    session: &str,
    agent_id: &str,
    capability_kind: &str,
    reason: DenyReason,
) -> (r: AuditEntry)
    ensures
        r.kind == AuditEntryKind::CapabilityDenied,
        r.session_id@ == recorded_session(session@),
        r.details@.len() == 3,
        is_text_detail(r.details@[0], "agent_id"@, agent_id@),
        is_text_detail(r.details@[1], "capability_kind"@, capability_kind@),
        is_text_detail(r.details@[2], "reason"@, deny_reason_text(reason)),
{
    let reason_str = match reason {
        DenyReason::NoDeclarations => "no_declarations",
        DenyReason::NoMatchingGrant => "no_matching_grant",
    };
    let mut d: Vec<(String, AuditValue)> = Vec::new();
    d.push(text("agent_id", agent_id));
    d.push(text("capability_kind", capability_kind));
    d.push(text("reason", reason_str));
    entry(session, AuditEntryKind::CapabilityDenied, d)
}

/// `mcp_installed`: the server name, its transport kind and whether it
/// carries auth (never the secret itself).
pub fn mcp_installed(session: &str, name: &str, transport_kind: &str, has_auth: bool) -> (r:
    AuditEntry)
    ensures
        r.kind == AuditEntryKind::McpInstalled,
        r.session_id@ == recorded_session(session@),
        r.details@.len() == 3,
        is_text_detail(r.details@[0], "name"@, name@),
        is_text_detail(r.details@[1], "transport_kind"@, transport_kind@),
        is_flag_detail(r.details@[2], "has_auth"@, has_auth),
{
    let mut d: Vec<(String, AuditValue)> = Vec::new();
    d.push(text("name", name));
    d.push(text("transport_kind", transport_kind));
    d.push((owned("has_auth"), AuditValue::Flag(has_auth)));
    entry(session, AuditEntryKind::McpInstalled, d)
}

/// `mcp_uninstalled`: the server name only.
pub fn mcp_uninstalled(session: &str, name: &str) -> (r: AuditEntry)
    ensures
        r.kind == AuditEntryKind::McpUninstalled,
        r.session_id@ == recorded_session(session@),
        r.details@.len() == 1,
        is_text_detail(r.details@[0], "name"@, name@),
{
    let mut d: Vec<(String, AuditValue)> = Vec::new();
    d.push(text("name", name));
    entry(session, AuditEntryKind::McpUninstalled, d)
}

/// `mcp_auth_granted`: the server name only; the secret is never
/// recorded.
pub fn mcp_auth_granted(session: &str, name: &str) -> (r: AuditEntry)
    ensures
        r.kind == AuditEntryKind::McpAuthGranted,
        r.session_id@ == recorded_session(session@),
        r.details@.len() == 1,
        is_text_detail(r.details@[0], "name"@, name@),
{
    let mut d: Vec<(String, AuditValue)> = Vec::new();
    d.push(text("name", name));
    entry(session, AuditEntryKind::McpAuthGranted, d)
}

/// The wire name of a tier.
pub open spec fn tier_text(t: Tier) -> Seq<char> {
    match t {
        Tier::Novice => "novice"@,
        Tier::Promoted => "promoted"@,
    }
}

/// The wire name of a tier: `novice` or `promoted`.
pub fn tier_str(t: Tier) -> (r: &'static str)
    ensures
        r@ == tier_text(t),
{
    match t {
        Tier::Novice => "novice",
        Tier::Promoted => "promoted",
    }
}

/// `tier_transition`: both tiers and the reason for the change.
pub fn tier_transition(session: &str, previous: Tier, current: Tier, reason: &str) -> (r:
    AuditEntry)
    ensures
        r.kind == AuditEntryKind::TierTransition,
        r.session_id@ == recorded_session(session@),
        r.details@.len() == 3,
        is_text_detail(r.details@[0], "previous"@, tier_text(previous)),
        is_text_detail(r.details@[1], "current"@, tier_text(current)),
        is_text_detail(r.details@[2], "reason"@, reason@),
{
    let mut d: Vec<(String, AuditValue)> = Vec::new();
    d.push(text("previous", tier_str(previous)));
    d.push(text("current", tier_str(current)));
    d.push(text("reason", reason));
    entry(session, AuditEntryKind::TierTransition, d)
}

} // verus!
