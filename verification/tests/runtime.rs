use agent_runtime::runtime::cmd_error::{CmdError, ErrorMessage};
use agent_runtime::runtime::commands::{
    activity_timeout_alert, decimal_string, query_rejection, stop_process_alert,
    unknown_snapshot_alert, unsupported_alert, write_signal_ack,
};
use agent_runtime::runtime::drone::{HeartbeatStatus, ProcessType, RevertReason, MAX_IPC_FRAME_BYTES};
use agent_runtime::runtime::migrations::pending_migrations;
use agent_runtime::runtime::response::{await_step, Arrival, AwaitStep, Awaited};
use agent_runtime::runtime::retry::{backoff_after, retry_step, RetryAction, SendOutcome, MAX_RETRIES};
use agent_runtime::runtime::sql::{is_select_only, truncate_for_log};

#[test]
fn provider_constructor_wraps_message() {
    let e = CmdError::provider("boom");
    assert!(matches!(e, CmdError::Provider(_)));
    assert_eq!(e.message(), Some("boom"));
}

#[test]
fn drone_constructor_wraps_message() {
    let e = CmdError::drone("disconnected");
    assert!(matches!(e, CmdError::Drone(_)));
    assert_eq!(e.message(), Some("disconnected"));
}

#[test]
fn key_store_constructor_wraps_message() {
    let e = CmdError::key_store("backend failure");
    assert!(matches!(e, CmdError::KeyStore(_)));
    assert_eq!(e.message(), Some("backend failure"));
}

#[test]
fn internal_constructor_wraps_message() {
    let e = CmdError::internal("channel closed");
    assert!(matches!(e, CmdError::Internal(_)));
    assert_eq!(e.message(), Some("channel closed"));
}

#[test]
fn empty_message_substitutes_placeholder_to_satisfy_min_length_one() {
    let e = CmdError::provider("");
    assert_eq!(e.message(), Some("(no message)"));
}

#[test]
fn setup_required_message_is_none() {
    assert_eq!(CmdError::SetupRequired.message(), None);
}

#[test]
fn display_setup_required_matches_legacy_thiserror_message() {
    assert_eq!(
        CmdError::SetupRequired.to_display_string(),
        "API key not set; call set_api_key first"
    );
}

#[test]
fn display_provider_uses_legacy_prefix() {
    assert_eq!(
        CmdError::provider("auth failed").to_display_string(),
        "provider error: auth failed"
    );
}

#[test]
fn display_drone_uses_legacy_prefix() {
    assert_eq!(
        CmdError::drone("timeout").to_display_string(),
        "drone IPC unavailable: timeout"
    );
}

#[test]
fn display_key_store_uses_legacy_prefix() {
    assert_eq!(CmdError::key_store("locked").to_display_string(), "key store: locked");
}

#[test]
fn display_internal_uses_legacy_prefix() {
    assert_eq!(CmdError::internal("oops").to_display_string(), "internal: oops");
}

#[test]
fn error_message_as_str_returns_inner_string() {
    let m = ErrorMessage::try_from("hello").expect("non-empty");
    assert_eq!(m.as_str(), "hello");
}

#[test]
fn error_message_rejects_empty_text() {
    assert!(ErrorMessage::try_from("").is_none());
}

#[test]
fn max_ipc_frame_bytes_is_exactly_4_mib() {
    assert_eq!(MAX_IPC_FRAME_BYTES, 4_194_304);
}

#[test]
fn truncate_for_log_handles_short_strings() {
    assert_eq!(truncate_for_log("abc", 80), "abc");
}

#[test]
fn truncate_for_log_respects_utf8_boundaries() {
    let s = "été café";
    let truncated = truncate_for_log(s, 4);
    assert!(truncated.is_char_boundary(truncated.len()));
    assert!(truncated.len() <= 4);
}

#[test]
fn truncate_for_log_backs_off_to_the_last_boundary() {
    // "é" is two bytes: 4 bytes hold "ét" (3 bytes) but not "été" (5).
    assert_eq!(truncate_for_log("été café", 4), "ét");
    assert_eq!(truncate_for_log("été café", 5), "été");
    assert_eq!(truncate_for_log("abc", 0), "");
}

#[test]
fn is_select_only_rejects_attack_vectors() {
    assert!(is_select_only("SELECT * FROM signals"));
    assert!(is_select_only("SELECT id FROM signals WHERE id = 'x'"));
    assert!(is_select_only("SELECT * FROM signals;"));
    assert!(!is_select_only("DROP TABLE signals"), "DROP must be rejected");
    assert!(!is_select_only("DELETE FROM signals"), "DELETE must be rejected");
    assert!(
        !is_select_only("INSERT INTO signals (id) VALUES ('x')"),
        "INSERT must be rejected"
    );
    assert!(!is_select_only("UPDATE signals SET id = 'x'"), "UPDATE must be rejected");
    assert!(!is_select_only("PRAGMA table_info(signals)"), "PRAGMA must be rejected");
    assert!(
        !is_select_only("SELECT 1; DROP TABLE signals"),
        "compound semicolons must be rejected"
    );
    assert!(!is_select_only(""), "empty string must be rejected");
    assert!(!is_select_only("not sql at all"));
}

#[test]
fn is_select_only_edge_cases() {
    assert!(is_select_only("  select\tid from t ;;  "));
    assert!(is_select_only("SELECT"));
    assert!(is_select_only("SELECT;"));
    assert!(!is_select_only("selectable"));
    assert!(!is_select_only("   "));
    assert!(!is_select_only(";"));
    assert!(!is_select_only("WITH x AS (SELECT 1) SELECT * FROM x"));
}

#[test]
fn heartbeat_status_names_round_trip() {
    assert_eq!(HeartbeatStatus::Healthy.as_str(), "ok");
    assert_eq!(HeartbeatStatus::parse("degraded").unwrap(), HeartbeatStatus::Degraded);
    assert_eq!(HeartbeatStatus::parse("stalled").unwrap(), HeartbeatStatus::Stalled);
    assert_eq!(HeartbeatStatus::parse("ok").unwrap(), HeartbeatStatus::Healthy);
    let err = HeartbeatStatus::parse("bogus").unwrap_err();
    assert_eq!(err.message(), "unknown heartbeat status: bogus");
}

#[test]
fn revert_confirmation_names_the_hook() {
    let r = RevertReason::HookRollback { hook_id: "h-1".to_string() };
    assert_eq!(r.confirmation_text(), "revert:hook_rollback:h-1");
    assert_eq!(RevertReason::UserRollback.confirmation_text(), "revert:user_rollback");
    assert_eq!(RevertReason::GapRecovery.confirmation_text(), "revert:gap_recovery");
}

#[test]
fn command_alerts_render_their_fields() {
    assert_eq!(decimal_string(0), "0");
    assert_eq!(decimal_string(4_194_304), "4194304");
    assert_eq!(decimal_string(u64::MAX), "18446744073709551615");
    assert_eq!(
        stop_process_alert(42, true),
        "stop_process not yet implemented (pid=42, force=true)"
    );
    assert_eq!(
        activity_timeout_alert(1500),
        "set_activity_timeout not yet implemented (ms=1500)"
    );
    assert_eq!(
        unsupported_alert("spawn_process", ProcessType::SkillSandbox, "python"),
        "spawn_process not yet implemented (type=SkillSandbox, command=python)"
    );
    assert_eq!(write_signal_ack("sig-1"), "write_signal ok: sig-1");
    assert_eq!(unknown_snapshot_alert("snap-9"), "unknown snapshot id: snap-9");
}

#[test]
fn query_rejection_only_for_non_select() {
    assert_eq!(query_rejection("SELECT 1"), None);
    assert_eq!(
        query_rejection("DROP TABLE x").as_deref(),
        Some("query_session_db rejected: only SELECT statements permitted; got: DROP TABLE x")
    );
    let long = "x".repeat(200);
    let msg = query_rejection(&long).unwrap();
    assert!(msg.ends_with(&"x".repeat(80)));
    assert!(!msg.ends_with(&"x".repeat(81)));
}

#[test]
fn retry_backs_off_exponentially_then_gives_up() {
    assert_eq!(retry_step(0, SendOutcome::Sent), RetryAction::Done);
    assert_eq!(
        retry_step(0, SendOutcome::TransportFailed),
        RetryAction::BackoffAndRetry { delay_ms: 200 }
    );
    assert_eq!(
        retry_step(3, SendOutcome::TransportFailed),
        RetryAction::BackoffAndRetry { delay_ms: 1600 }
    );
    assert_eq!(
        retry_step(MAX_RETRIES - 1, SendOutcome::TransportFailed),
        RetryAction::GiveUp { retries: 5 }
    );
    assert_eq!(backoff_after(2), 800);
}

#[test]
fn pending_migrations_skip_applied_versions() {
    assert_eq!(pending_migrations(&[0, 1], &[]), vec![0, 1]);
    assert_eq!(pending_migrations(&[0, 1], &[0]), vec![1]);
    assert_eq!(pending_migrations(&[0, 1], &[1, 0]), Vec::<u32>::new());
    let first = pending_migrations(&[0, 1, 2], &[1]);
    let mut applied = vec![1];
    applied.extend(first.iter().copied());
    assert!(pending_migrations(&[0, 1, 2], &applied).is_empty());
}

#[test]
fn awaited_answer_is_accepted() {
    assert_eq!(await_step(Awaited::QueryResult, &Arrival::QueryResult), AwaitStep::Accept);
    assert_eq!(await_step(Awaited::SignalLog, &Arrival::SignalLog), AwaitStep::Accept);
    assert_eq!(await_step(Awaited::SessionRecovered, &Arrival::SessionRecovered), AwaitStep::Accept);
}

#[test]
fn other_answers_and_events_are_skipped() {
    assert_eq!(await_step(Awaited::QueryResult, &Arrival::SignalLog), AwaitStep::Wait);
    assert_eq!(await_step(Awaited::SignalLog, &Arrival::SessionRecovered), AwaitStep::Wait);
    assert_eq!(await_step(Awaited::SessionRecovered, &Arrival::Other), AwaitStep::Wait);
    let unrelated = Arrival::Alert("write_signal ok: s1".to_string());
    assert_eq!(await_step(Awaited::QueryResult, &unrelated), AwaitStep::Wait);
}

#[test]
fn alert_naming_the_request_fails_it() {
    let alert = Arrival::Alert("query_session_db rejected: only SELECT".to_string());
    assert_eq!(await_step(Awaited::QueryResult, &alert), AwaitStep::Fail);
    assert_eq!(await_step(Awaited::SignalLog, &alert), AwaitStep::Wait);
    let alert = Arrival::Alert("read_signals failed: locked".to_string());
    assert_eq!(await_step(Awaited::SignalLog, &alert), AwaitStep::Fail);
    let alert = Arrival::Alert("recover_session failed: no snapshot".to_string());
    assert_eq!(await_step(Awaited::SessionRecovered, &alert), AwaitStep::Fail);
    assert_eq!(Awaited::SessionRecovered.alert_prefix(), "recover_session");
}

#[test]
fn heartbeat_status_display_round_trip() {
    for s in [HeartbeatStatus::Healthy, HeartbeatStatus::Degraded, HeartbeatStatus::Stalled] {
        let displayed = s.as_str().to_string();
        let parsed = HeartbeatStatus::parse(&displayed).expect("parse");
        assert_eq!(parsed, s);
    }
}

#[test]
fn heartbeat_status_parse_rejects_unknown() {
    let err = HeartbeatStatus::parse("boom").unwrap_err();
    assert!(err.message().contains("boom"));
}

#[test]
fn fresh_init_applies_all_migrations() {
    assert_eq!(pending_migrations(&[0, 1], &[]), vec![0, 1]);
}

#[test]
fn re_init_is_idempotent_no_extra_migration_rows() {
    let mut applied: Vec<u32> = Vec::new();
    for _ in 0..3 {
        let run = pending_migrations(&[0, 1], &applied);
        applied.extend(run);
    }
    assert_eq!(applied.len(), 2, "each migration should appear exactly once");
}

#[test]
fn run_migrations_on_existing_connection_is_idempotent() {
    let first = pending_migrations(&[0, 1], &[]);
    let second = pending_migrations(&[0, 1], &first);
    assert!(second.is_empty());
    assert_eq!(first.len() + second.len(), 2);
}
