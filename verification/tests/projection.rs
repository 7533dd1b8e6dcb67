use agent_runtime::runtime::projection::{
    is_projection_eligible, plan_update, started_task_status, vdr_fields, Payload, PayloadValue,
    PlanStamp, PlanStatus, PlanUpdate, TaskStatus,
};
use agent_runtime::runtime::snapshot::{
    hex_lower, normalized_task_status, sha256_hex, uncertain_tool_invocations,
};

fn payload(fields: &[(&str, PayloadValue)]) -> Payload {
    Payload { fields: fields.iter().map(|(k, v)| (k.to_string(), v.clone())).collect() }
}

fn text(s: &str) -> PayloadValue {
    PayloadValue::Text(s.to_string())
}

#[test]
fn project_unknown_event_type_is_noop() {
    let p = payload(&[("type", text("totally_unknown"))]);
    assert!(matches!(plan_update(&p), Ok(PlanUpdate::Ignore)));
    let p = payload(&[("type", text("agent_spawned"))]);
    assert!(matches!(plan_update(&p), Ok(PlanUpdate::Ignore)));
}

#[test]
fn project_empty_payload_is_noop() {
    assert!(matches!(plan_update(&payload(&[])), Ok(PlanUpdate::Ignore)));
}

#[test]
fn plan_created_status_follows_approval_required() {
    let p = payload(&[
        ("type", text("plan_created")),
        ("plan_id", text("p1")),
        ("title", text("Ship it")),
        ("approval_required", PayloadValue::Flag(true)),
    ]);
    match plan_update(&p).unwrap() {
        PlanUpdate::CreatePlan { plan_id, title, approval_required, status } => {
            assert_eq!(plan_id, "p1");
            assert_eq!(title, "Ship it");
            assert!(approval_required);
            assert_eq!(status, PlanStatus::PendingApproval);
            assert_eq!(status.as_str(), "pending_approval");
        }
        other => panic!("unexpected {other:?}"),
    }
    let p = payload(&[
        ("type", text("plan_created")),
        ("plan_id", text("p1")),
        ("title", text("Ship it")),
        ("approval_required", PayloadValue::Flag(false)),
    ]);
    assert!(matches!(plan_update(&p), Ok(PlanUpdate::CreatePlan { status: PlanStatus::Approved, .. })));
}

#[test]
fn plan_created_missing_required_field_errors() {
    let p = payload(&[("type", text("plan_created")), ("plan_id", text("p1"))]);
    let err = plan_update(&p).unwrap_err();
    assert_eq!(err.event_type, "plan_created");
    assert_eq!(err.field, "title");
    assert_eq!(err.message(), "invalid payload for plan_created: missing field title");
}

#[test]
fn plan_status_events_stamp_the_right_column() {
    let with = |t: &str| payload(&[("type", text(t)), ("plan_id", text("p1"))]);
    assert!(matches!(
        plan_update(&with("plan_approved")),
        Ok(PlanUpdate::SetPlanStatus { status: PlanStatus::Approved, stamp: PlanStamp::ApprovedAt, .. })
    ));
    assert!(matches!(
        plan_update(&with("plan_complete")),
        Ok(PlanUpdate::SetPlanStatus { status: PlanStatus::Complete, stamp: PlanStamp::CompletedAt, .. })
    ));
    assert!(matches!(
        plan_update(&with("plan_aborted")),
        Ok(PlanUpdate::SetPlanStatus { status: PlanStatus::Aborted, stamp: PlanStamp::NoStamp, .. })
    ));
    assert!(matches!(
        plan_update(&with("plan_revised")),
        Ok(PlanUpdate::SetPlanStatus { status: PlanStatus::PendingApproval, stamp: PlanStamp::NoStamp, .. })
    ));
    let err = plan_update(&payload(&[("type", text("plan_aborted"))])).unwrap_err();
    assert_eq!((err.event_type.as_str(), err.field.as_str()), ("plan_*", "plan_id"));
}

#[test]
fn task_events_land_the_expected_status() {
    let ids = |t: &str| payload(&[("type", text(t)), ("plan_id", text("p1")), ("task_id", text("t1"))]);
    assert!(matches!(plan_update(&ids("task_started")), Ok(PlanUpdate::StartTask { .. })));
    assert!(matches!(plan_update(&ids("task_completed")), Ok(PlanUpdate::FinishTask { status: TaskStatus::Done, .. })));
    assert!(matches!(plan_update(&ids("task_skipped")), Ok(PlanUpdate::FinishTask { status: TaskStatus::Skipped, .. })));
    assert!(matches!(plan_update(&ids("task_rolled_back")), Ok(PlanUpdate::FinishTask { status: TaskStatus::Failed, .. })));
    assert_eq!(TaskStatus::Skipped.as_str(), "skipped");
}

#[test]
fn task_started_missing_task_id_errors() {
    let p = payload(&[("type", text("task_started")), ("plan_id", text("p1"))]);
    let err = plan_update(&p).unwrap_err();
    assert_eq!(err.event_type, "task_started");
    assert_eq!(err.field, "task_id");
    let p = payload(&[("type", text("task_completed")), ("plan_id", text("p1"))]);
    assert_eq!(plan_update(&p).unwrap_err().event_type, "task_terminal");
}

#[test]
fn task_failed_and_escalated_carry_counts() {
    let p = payload(&[
        ("type", text("task_failed")),
        ("plan_id", text("p1")),
        ("task_id", text("t1")),
        ("failure_count", PayloadValue::Unsigned(2)),
    ]);
    assert!(matches!(plan_update(&p), Ok(PlanUpdate::FailTask { failure_count: 2, .. })));
    let p = payload(&[
        ("type", text("task_escalated")),
        ("plan_id", text("p1")),
        ("task_id", text("t1")),
        ("failure_count", PayloadValue::Unsigned(3)),
        ("max_failures", PayloadValue::Unsigned(3)),
    ]);
    assert!(matches!(
        plan_update(&p),
        Ok(PlanUpdate::EscalateTask { failure_count: 3, max_failures: 3, .. })
    ));
    let p = payload(&[
        ("type", text("task_escalated")),
        ("plan_id", text("p1")),
        ("task_id", text("t1")),
        ("failure_count", PayloadValue::Other),
    ]);
    assert_eq!(plan_update(&p).unwrap_err().field, "failure_count");
}

#[test]
fn decision_signal_becomes_a_vdr_row_with_tool() {
    let p = payload(&[
        ("agent_id", text("a1")),
        ("decision", text("use cache")),
        ("rationale", text("faster")),
        ("tool_used", text("Read")),
    ]);
    let f = vdr_fields("decision", &p).unwrap();
    assert_eq!(f.agent_id, "a1");
    assert_eq!(f.decision, "use cache");
    assert_eq!(f.rationale, "faster");
    assert_eq!(f.tool_invoked.as_deref(), Some("Read"));
    assert_eq!(f.outcome, None);
}

#[test]
fn verify_signal_becomes_a_vdr_row() {
    let p = payload(&[("hook_id", text("lint")), ("passed", PayloadValue::Flag(true))]);
    let f = vdr_fields("verify", &p).unwrap();
    assert_eq!(f.agent_id, "");
    assert_eq!(f.decision, "lint");
    assert_eq!(f.rationale, "pass");
    assert_eq!(f.outcome.as_deref(), Some("pass"));
    let f = vdr_fields("verify", &payload(&[])).unwrap();
    assert_eq!(f.outcome.as_deref(), Some("fail"));
}

#[test]
fn other_signal_types_are_not_projected() {
    assert!(vdr_fields("tool", &payload(&[])).is_none());
    assert!(is_projection_eligible("decision"));
    assert!(!is_projection_eligible("session"));
}

#[test]
fn recover_running_task_is_normalized_to_pending() {
    assert_eq!(normalized_task_status("running"), "pending");
    assert_eq!(normalized_task_status("done"), "done");
}

#[test]
fn uncertain_invocations_lack_a_matching_result() {
    let invoked = |agent: &str, tool: &str| {
        payload(&[("type", text("tool_invoked")), ("agent_id", text(agent)), ("tool_name", text(tool))])
    };
    let result = |agent: &str, tool: &str| {
        payload(&[("type", text("tool_result")), ("agent_id", text(agent)), ("tool_name", text(tool))])
    };
    let rows = vec![
        ("s1".to_string(), invoked("a1", "Read")),
        ("s2".to_string(), result("a1", "Read")),
        ("s3".to_string(), invoked("a1", "Write")),
        ("s4".to_string(), invoked("a2", "Read")),
        ("s5".to_string(), payload(&[])),
    ];
    assert_eq!(uncertain_tool_invocations(&rows), vec!["s3".to_string(), "s4".to_string()]);
}

#[test]
fn snapshot_state_hash_is_sha256_hex() {
    assert_eq!(
        sha256_hex(""),
        "e3b0c44298fc1c149afbf4c8996fb92427ae41e4649b934ca495991b7852b855"
    );
    assert_eq!(
        sha256_hex("abc"),
        "ba7816bf8f01cfea414140de5dae2223b00361a396177a9cb410ff61f20015ad"
    );
    assert_eq!(sha256_hex("{\"k\":\"v\"}").len(), 64);
    assert_eq!(hex_lower(&[0x00, 0x0f, 0xa5, 0xff]), "000fa5ff");
}

#[test]
fn late_start_keeps_terminal_task_status() {
    assert_eq!(started_task_status(Some("done")), "done");
    assert_eq!(started_task_status(Some("skipped")), "skipped");
    assert_eq!(started_task_status(Some("escalated")), "escalated");
}

#[test]
fn start_marks_other_tasks_running() {
    assert_eq!(started_task_status(None), "running");
    assert_eq!(started_task_status(Some("failed")), "running");
    assert_eq!(started_task_status(Some("running")), "running");
    assert_eq!(started_task_status(Some("")), "running");
}

fn plan_created(approval_required: bool) -> Payload {
    payload(&[
        ("type", text("plan_created")),
        ("plan_id", text("p1")),
        ("title", text("Migrate auth")),
        ("task_count", PayloadValue::Unsigned(3)),
        ("approval_required", PayloadValue::Flag(approval_required)),
    ])
}

fn task_event(kind: &str, extra: &[(&str, PayloadValue)]) -> Payload {
    let mut fields = vec![("type", text(kind)), ("plan_id", text("p1")), ("task_id", text("t1"))];
    fields.extend(extra.iter().cloned());
    payload(&fields)
}

fn created_status(p: &Payload) -> &'static str {
    match plan_update(p).unwrap() {
        PlanUpdate::CreatePlan { status, .. } => status.as_str(),
        other => panic!("unexpected {other:?}"),
    }
}

fn plan_status(p: &Payload) -> (&'static str, PlanStamp) {
    match plan_update(p).unwrap() {
        PlanUpdate::SetPlanStatus { plan_id, status, stamp } => {
            assert_eq!(plan_id, "p1");
            (status.as_str(), stamp)
        }
        other => panic!("unexpected {other:?}"),
    }
}

fn finished_status(p: &Payload) -> &'static str {
    match plan_update(p).unwrap() {
        PlanUpdate::FinishTask { plan_id, task_id, status } => {
            assert_eq!((plan_id.as_str(), task_id.as_str()), ("p1", "t1"));
            status.as_str()
        }
        other => panic!("unexpected {other:?}"),
    }
}

#[test]
fn plan_created_with_approval_required_lands_pending_approval() {
    assert_eq!(created_status(&plan_created(true)), "pending_approval");
}

#[test]
fn plan_created_without_approval_required_lands_approved() {
    assert_eq!(created_status(&plan_created(false)), "approved");
}

#[test]
fn double_projection_is_idempotent() {
    let p = plan_created(true);
    let first = plan_update(&p).unwrap();
    let second = plan_update(&p).unwrap();
    match (first, second) {
        (
            PlanUpdate::CreatePlan { plan_id: a, title: ta, status: sa, .. },
            PlanUpdate::CreatePlan { plan_id: b, title: tb, status: sb, .. },
        ) => {
            assert_eq!(a, b);
            assert_eq!(ta, tb);
            assert_eq!(sa, sb);
        }
        other => panic!("unexpected {other:?}"),
    }
    let started = started_task_status(Some("running"));
    assert_eq!(started_task_status(Some(&started)), started);
}

#[test]
fn plan_approved_transitions_status_and_sets_approved_at() {
    let p = payload(&[("type", text("plan_approved")), ("plan_id", text("p1")), ("approved_by", text("user"))]);
    assert_eq!(plan_status(&p), ("approved", PlanStamp::ApprovedAt));
}

#[test]
fn plan_complete_sets_completed_at() {
    let p = payload(&[
        ("type", text("plan_complete")),
        ("plan_id", text("p1")),
        ("duration_ms", PayloadValue::Unsigned(500)),
    ]);
    assert_eq!(plan_status(&p), ("complete", PlanStamp::CompletedAt));
}

#[test]
fn plan_aborted_transitions() {
    let p = payload(&[("type", text("plan_aborted")), ("plan_id", text("p1")), ("reason", text("user"))]);
    assert_eq!(plan_status(&p).0, "aborted");
}

#[test]
fn plan_revised_returns_to_pending_approval() {
    let p = payload(&[("type", text("plan_revised")), ("plan_id", text("p1")), ("revision_reason", text("x"))]);
    assert_eq!(plan_status(&p).0, "pending_approval");
}

#[test]
fn task_started_inserts_running_row() {
    let p = task_event("task_started", &[("agent_id", text("a1"))]);
    match plan_update(&p).unwrap() {
        PlanUpdate::StartTask { plan_id, task_id } => {
            assert_eq!((plan_id.as_str(), task_id.as_str()), ("p1", "t1"));
        }
        other => panic!("unexpected {other:?}"),
    }
    assert_eq!(started_task_status(None), "running");
}

#[test]
fn out_of_order_terminal_then_started_keeps_terminal() {
    let completed = task_event("task_completed", &[("duration_ms", PayloadValue::Unsigned(200))]);
    let status = finished_status(&completed);
    assert_eq!(status, "done");
    let started = task_event("task_started", &[("agent_id", text("a1"))]);
    assert!(matches!(plan_update(&started), Ok(PlanUpdate::StartTask { .. })));
    assert_eq!(started_task_status(Some(status)), "done");
}

#[test]
fn task_failed_records_failure_count() {
    let p = task_event("task_failed", &[("error", text("boom")), ("failure_count", PayloadValue::Unsigned(2))]);
    assert!(matches!(plan_update(&p), Ok(PlanUpdate::FailTask { failure_count: 2, .. })));
}

#[test]
fn task_escalated_records_failure_and_max() {
    let p = task_event(
        "task_escalated",
        &[("failure_count", PayloadValue::Unsigned(3)), ("max_failures", PayloadValue::Unsigned(3))],
    );
    assert!(matches!(
        plan_update(&p),
        Ok(PlanUpdate::EscalateTask { failure_count: 3, max_failures: 3, .. })
    ));
}

#[test]
fn task_skipped_lands_skipped() {
    let p = task_event("task_skipped", &[("reason", text("HITL skip"))]);
    assert_eq!(finished_status(&p), "skipped");
}

#[test]
fn task_rolled_back_lands_failed() {
    let p = task_event("task_rolled_back", &[("snapshot_id", text("snap-1"))]);
    assert_eq!(finished_status(&p), "failed");
}

#[test]
fn decision_signal_produces_vdr_row() {
    let p = payload(&[
        ("agent_id", text("a1")),
        ("decision", text("pick haiku")),
        ("rationale", text("cost")),
        ("tool_used", text("estimate_cost")),
    ]);
    let f = vdr_fields("decision", &p).expect("decision signal must produce one VDR row");
    assert_eq!(f.decision, "pick haiku");
    assert_eq!(f.rationale, "cost");
    assert_eq!(f.tool_invoked.as_deref(), Some("estimate_cost"));
}

#[test]
fn verify_signal_produces_vdr_row() {
    let p = payload(&[("agent_id", text("a1")), ("hook_id", text("test-suite")), ("passed", PayloadValue::Flag(true))]);
    let f = vdr_fields("verify", &p).expect("verify signal must produce one VDR row");
    assert_eq!(f.outcome.as_deref(), Some("pass"));
}

#[test]
fn non_decision_signal_produces_nothing() {
    let p = payload(&[("agent_id", text("a1")), ("tool_name", text("search"))]);
    assert!(vdr_fields("tool", &p).is_none());
}

#[test]
fn recover_preserves_terminal_task_status() {
    assert_eq!(normalized_task_status("done"), "done");
    assert_eq!(normalized_task_status("skipped"), "skipped");
}

#[test]
fn recover_uncertain_tool_invocation_when_no_matching_result() {
    let rows = vec![(
        "sig-invoke".to_string(),
        payload(&[("type", text("tool_invoked")), ("agent_id", text("a1")), ("tool_name", text("Read"))]),
    )];
    assert_eq!(uncertain_tool_invocations(&rows), vec!["sig-invoke".to_string()]);
}

#[test]
fn recover_no_uncertain_when_matching_result_present() {
    let rows = vec![
        (
            "sig-invoke".to_string(),
            payload(&[("type", text("tool_invoked")), ("agent_id", text("a1")), ("tool_name", text("Bash"))]),
        ),
        (
            "sig-result".to_string(),
            payload(&[("type", text("tool_result")), ("agent_id", text("a1")), ("tool_name", text("Bash"))]),
        ),
    ];
    assert!(uncertain_tool_invocations(&rows).is_empty());
}

#[test]
fn recover_skips_signals_with_invalid_payload() {
    let rows = vec![("bad".to_string(), payload(&[]))];
    assert!(uncertain_tool_invocations(&rows).is_empty());
}

#[test]
fn recover_skips_empty_payloads() {
    let rows = vec![("empty".to_string(), payload(&[]))];
    assert!(uncertain_tool_invocations(&rows).is_empty());
}

#[test]
fn snapshot_state_hash_is_sha256() {
    assert_eq!(
        sha256_hex("{\"k\":\"v\"}"),
        "666c1aa02e8068c6d5cc1d3295009432c16790bec28ec8ce119d0d1a18d61319"
    );
}
