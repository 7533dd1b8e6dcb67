use std::path::Path;

use agent_runtime::audit::entry::{
    capability_denied, capability_granted, framework_loaded, gap_detected, gap_resolved,
    mcp_auth_granted, mcp_installed, mcp_uninstalled, now_unix_ms, tier_transition,
    unix_ms_from_elapsed, AuditEntry, AuditEntryKind, AuditValue,
};
use agent_runtime::audit::file_path::{audit_file_name, audit_path, AUDIT_FILE_NAME};
use agent_runtime::capability::enforcer::DenyReason;
use agent_runtime::capability::types::Tier;

fn text(e: &AuditEntry, key: &str) -> String {
    match e.detail(key) {
        Some(AuditValue::Text(s)) => s.clone(),
        other => panic!("{key} is not text: {other:?}"),
    }
}

#[test]
fn now_unix_ms_returns_post_epoch() {
    let now = now_unix_ms();
    assert!(now > 1_700_000_000_000, "clock returned pre-2024 value: {now}");
}

#[test]
fn clock_readings_clamp_to_u64() {
    assert_eq!(unix_ms_from_elapsed(None), 0);
    assert_eq!(unix_ms_from_elapsed(Some(42)), 42);
    assert_eq!(unix_ms_from_elapsed(Some(u128::from(u64::MAX) + 1)), u64::MAX);
}

#[test]
fn framework_loaded_entry_has_expected_shape() {
    let e = framework_loaded("sess-1", "aria", 3);
    assert!(matches!(e.kind, AuditEntryKind::FrameworkLoaded));
    assert_eq!(e.session_id.as_str(), "sess-1");
    assert_eq!(text(&e, "framework_name"), "aria");
    assert!(matches!(e.detail("agent_count"), Some(AuditValue::Count(3))));
}

#[test]
fn gap_detected_entry_carries_gap_kind() {
    let e = gap_detected("sess-1", "worker", "tool_missing", "fetch_prs", "loader");
    assert!(matches!(e.kind, AuditEntryKind::GapDetected));
    assert_eq!(text(&e, "agent_id"), "worker");
    assert_eq!(text(&e, "gap_kind"), "tool_missing");
    assert_eq!(text(&e, "missing_name"), "fetch_prs");
    assert_eq!(text(&e, "requested_via"), "loader");
}

#[test]
fn gap_resolved_entry_carries_capability() {
    let e = gap_resolved("sess-1", "worker", "tool_missing", "fetch_prs");
    assert!(matches!(e.kind, AuditEntryKind::GapResolved));
    assert_eq!(text(&e, "capability"), "fetch_prs");
}

#[test]
fn capability_granted_entry_carries_resource() {
    let e = capability_granted("sess-1", "worker", "read", "src/**");
    assert!(matches!(e.kind, AuditEntryKind::CapabilityGranted));
    assert_eq!(text(&e, "resource"), "src/**");
}

#[test]
fn capability_denied_serializes_no_declarations_reason() {
    let e = capability_denied("sess-1", "worker", "read", DenyReason::NoDeclarations);
    assert!(matches!(e.kind, AuditEntryKind::CapabilityDenied));
    assert_eq!(text(&e, "reason"), "no_declarations");
}

#[test]
fn capability_denied_serializes_no_matching_grant_reason() {
    let e = capability_denied("sess-1", "worker", "write", DenyReason::NoMatchingGrant);
    assert_eq!(text(&e, "reason"), "no_matching_grant");
}

#[test]
fn tier_transition_entry_records_both_sides() {
    let e = tier_transition("sess-1", Tier::Novice, Tier::Promoted, "user accepted prompt");
    assert!(matches!(e.kind, AuditEntryKind::TierTransition));
    assert_eq!(text(&e, "previous"), "novice");
    assert_eq!(text(&e, "current"), "promoted");
    assert_eq!(text(&e, "reason"), "user accepted prompt");
}

#[test]
fn empty_session_id_falls_back_to_unknown_session() {
    let e = framework_loaded("", "aria", 1);
    assert_eq!(e.session_id.as_str(), "unknown-session");
}

#[test]
fn mcp_entries_never_carry_secrets() {
    let e = mcp_installed("sess-1", "github", "stdio", true);
    assert_eq!(e.kind.as_str(), "mcp_installed");
    assert_eq!(text(&e, "name"), "github");
    assert_eq!(text(&e, "transport_kind"), "stdio");
    assert!(matches!(e.detail("has_auth"), Some(AuditValue::Flag(true))));
    let e = mcp_uninstalled("sess-1", "github");
    assert_eq!(e.details.len(), 1);
    assert_eq!(e.kind.as_str(), "mcp_uninstalled");
    let e = mcp_auth_granted("sess-1", "github");
    assert_eq!(e.details.len(), 1);
    assert_eq!(text(&e, "name"), "github");
}

#[test]
fn audit_file_name_is_skills_audit_jsonl() {
    assert_eq!(AUDIT_FILE_NAME, "skills.audit.jsonl");
}

#[test]
fn audit_path_joins_file_name_to_dir() {
    let dir = Path::new("/var/lib/agent-runtime");
    let path = audit_path(dir);
    assert!(path.ends_with("skills.audit.jsonl"));
    assert_eq!(path.parent().unwrap(), dir);
}

#[test]
fn audit_file_name_is_the_jsonl_log() {
    assert_eq!(audit_file_name(), "skills.audit.jsonl");
    assert_eq!(audit_file_name(), AUDIT_FILE_NAME);
}
