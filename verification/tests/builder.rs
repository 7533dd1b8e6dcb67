use std::time::Duration;

use agent_runtime::builder::persist::{
    is_companion_md, merge_companions, normalize_line_endings, split_frontmatter, Companion,
};
use agent_runtime::builder::summary::framework_capability_summary;
use agent_runtime::builder::tester::{
    allowed_test_tools, capability_kind_label, fold_outcome, imported_artifact_refs, TesterError,
    TraceEvent,
};
use agent_runtime::builder::validate::validate_framework;
use agent_runtime::capability::types::CapabilityKind;
use agent_runtime::framework::model::{
    Agent, Capabilities, FileAccess, Framework, FrameworkAgentsItem, FrameworkSkillsItem,
    FrameworkToolsItem, FrameworkToolsItemSource, ModelRef,
};

fn strings(items: &[&str]) -> Vec<String> {
    items.iter().map(|s| s.to_string()).collect()
}

fn model() -> ModelRef {
    ModelRef { provider: "acme".to_string(), id: "model-haiku-4-5".to_string() }
}

fn agent(id: &str, read: &[&str], write: &[&str], network: &[&str], shell: bool, spawns: &[&str]) -> Agent {
    Agent {
        id: id.to_string(),
        role: format!("{id}-role"),
        model: model(),
        capabilities: Capabilities {
            tools_called: Vec::new(),
            skills_loaded: Vec::new(),
            file_access: FileAccess { read: strings(read), write: strings(write) },
            network: strings(network),
            shell,
            spawn_agents: Vec::new(),
        },
        allowed_tools: Vec::new(),
        allowed_skills: Vec::new(),
        spawns: strings(spawns),
    }
}

fn framework(agents: Vec<FrameworkAgentsItem>) -> Framework {
    Framework {
        name: "fixture".to_string(),
        version: "1.0.0".to_string(),
        description: "builder fixture".to_string(),
        model: model(),
        agents,
        tools: Vec::new(),
        skills: Vec::new(),
        session_root_agent: "lead".to_string(),
    }
}

#[test]
fn fold_outcome_clean_trace_yields_passed_true() {
    let trace = vec![TraceEvent::Other];
    let outcome = fold_outcome(trace, Duration::from_millis(5));
    assert!(outcome.passed, "a trace with no violation and no hash mismatch passes");
    assert!(outcome.capability_failures.is_empty());
}

#[test]
fn fold_outcome_capability_violation_yields_a_failure_and_passed_false() {
    let trace = vec![TraceEvent::CapabilityViolation {
        agent_id: "worker".to_string(),
        capability_kind: CapabilityKind::Read,
        declared_scope: "none".to_string(),
        requested_action: "read /etc/passwd".to_string(),
    }];
    let outcome = fold_outcome(trace, Duration::from_millis(5));
    assert!(!outcome.passed, "a capability violation fails the test");
    assert_eq!(outcome.capability_failures.len(), 1);
    assert_eq!(outcome.capability_failures[0].agent_id, "worker");
    assert_eq!(outcome.capability_failures[0].needed, "read");
    assert_eq!(
        outcome.capability_failures[0].reason,
        "requested `read /etc/passwd` — declared scope `none`"
    );
}

#[test]
fn fold_outcome_artifact_hash_mismatch_yields_passed_false() {
    let trace = vec![TraceEvent::ArtifactHashMismatch { artifact_ref: "skill@1.0.0".to_string() }];
    let outcome = fold_outcome(trace, Duration::from_millis(5));
    assert!(!outcome.passed, "an integrity block forces passed = false");
}

#[test]
fn fold_outcome_sums_token_usage_into_token_spend() {
    let trace = vec![
        TraceEvent::TokenUsage { input: 100, output: 40 },
        TraceEvent::TokenUsage { input: 50, output: 10 },
    ];
    let outcome = fold_outcome(trace, Duration::from_millis(5));
    assert_eq!(outcome.token_spend.input, 150, "input tokens summed");
    assert_eq!(outcome.token_spend.output, 50, "output tokens summed");
    assert_eq!(outcome.token_spend.total, 200, "total = input + output");
}

#[test]
fn fold_outcome_preserves_the_full_event_trace() {
    let trace = vec![TraceEvent::Other, TraceEvent::Other];
    let outcome = fold_outcome(trace.clone(), Duration::from_millis(5));
    assert_eq!(
        outcome.trace.len(),
        trace.len(),
        "the outcome carries the full ordered trace for F2 to render"
    );
    assert_eq!(outcome.timing, Duration::from_millis(5));
}

#[test]
fn capability_kind_labels_are_snake_case() {
    assert_eq!(capability_kind_label(CapabilityKind::ProcessSpawn), "process_spawn");
    assert_eq!(capability_kind_label(CapabilityKind::Network), "network");
}

#[test]
fn tester_error_messages() {
    assert_eq!(TesterError::Run("stream closed".into()).message(), "test session run failed: stream closed");
    assert_eq!(TesterError::Drone("spawn".into()).message(), "test-session drone failed: spawn");
    assert_eq!(TesterError::DbSetup("denied".into()).message(), "test database setup failed: denied");
}

#[test]
fn imported_artifact_refs_lists_skills_then_tools_with_paths() {
    let mut fw = framework(Vec::new());
    fw.skills = vec![
        FrameworkSkillsItem { name: "s1".into(), source: "local".into(), path: Some("skills/s1.md".into()) },
        FrameworkSkillsItem { name: "s2".into(), source: "local".into(), path: None },
    ];
    fw.tools = vec![FrameworkToolsItem {
        name: "t1".into(),
        source: FrameworkToolsItemSource::External,
        path: Some("tools/t1.md".into()),
    }];
    assert_eq!(
        imported_artifact_refs(&fw),
        vec![
            ("s1".to_string(), "skills/s1.md".to_string()),
            ("t1".to_string(), "tools/t1.md".to_string())
        ]
    );
}

#[test]
fn allowed_test_tools_dedupes_in_first_seen_order() {
    let mut a = agent("lead", &[], &[], &[], false, &[]);
    a.allowed_tools = strings(&["Read", "Write"]);
    let mut b = agent("worker", &[], &[], &[], false, &[]);
    b.allowed_tools = strings(&["Write", "Bash", "Read"]);
    let fw = framework(vec![
        FrameworkAgentsItem::Agent(a),
        FrameworkAgentsItem::Object { id: "x".into(), path: "x.md".into() },
        FrameworkAgentsItem::Agent(b),
    ]);
    assert_eq!(allowed_test_tools(&fw), strings(&["Read", "Write", "Bash"]));
}

#[test]
fn split_frontmatter_splits_well_formed_documents() {
    assert_eq!(split_frontmatter("---\nid: a\n---\nbody\n"), Some(("id: a\n", "body\n")));
    assert_eq!(split_frontmatter("---\n---\n"), Some(("", "")));
    assert_eq!(split_frontmatter("no frontmatter"), None);
    assert_eq!(split_frontmatter("---\nunterminated"), None);
    assert_eq!(split_frontmatter(" ---\nid: a\n---\n"), None);
}

#[test]
fn companion_names_follow_the_flat_convention() {
    assert!(is_companion_md("summarize.skill.md"));
    assert!(is_companion_md("fetch.tool.md"));
    assert!(is_companion_md("lead.agent.md"));
    assert!(!is_companion_md("README.md"));
    assert!(!is_companion_md("framework.json"));
}

#[test]
fn summary_collects_distinct_sorted_entries_and_any_shell() {
    let a = agent("lead", &["src/**", "docs/**"], &["target/**"], &["b.example.com"], false, &["worker"]);
    let b = agent("worker", &["docs/**", ""], &[], &["a.example.com", "b.example.com"], true, &[]);
    let fw = framework(vec![FrameworkAgentsItem::Agent(a), FrameworkAgentsItem::Agent(b)]);
    let s = framework_capability_summary(&fw);
    assert_eq!(s.files_read, strings(&["", "docs/**", "src/**"]));
    assert_eq!(s.files_written, strings(&["target/**"]));
    assert_eq!(s.network_hosts, strings(&["a.example.com", "b.example.com"]));
    assert!(s.any_shell);
    assert_eq!(s.spawn_edges.len(), 1);
    assert_eq!(s.spawn_edges[0].parent_id, "lead");
    assert_eq!(s.spawn_edges[0].child_id, "worker");
    // The child reads `docs/**` too, but writes nothing and asks for the
    // shell and another host, which the parent does not hold.
    let err = s.spawn_edges[0].narrowed_caps.as_ref().unwrap_err();
    assert!(err.starts_with("proposed capability is not held by parent: "));
}

#[test]
fn summary_narrows_a_child_inside_its_parent() {
    let a = agent("lead", &["src/**"], &[], &[], false, &["worker"]);
    let b = agent("worker", &["src/**"], &[], &[], false, &[]);
    let fw = framework(vec![FrameworkAgentsItem::Agent(a), FrameworkAgentsItem::Agent(b)]);
    let s = framework_capability_summary(&fw);
    assert!(!s.any_shell);
    let narrowed = s.spawn_edges[0].narrowed_caps.as_ref().expect("child within parent");
    assert_eq!(narrowed.len(), 1);
}

#[test]
fn validation_reports_schema_failures_at_root() {
    let r = validate_framework(Err("missing field `name`".to_string()));
    assert!(!r.ok);
    assert_eq!(r.schema_errors.len(), 1);
    assert_eq!(r.schema_errors[0].node_path, "(root)");
    assert_eq!(r.schema_errors[0].message, "missing field `name`");
    assert!(r.capability_summary.is_none());
}

#[test]
fn validation_reports_gaps_and_failed_narrowings() {
    let a = agent("lead", &[], &[], &[], false, &["worker", "ghost"]);
    let b = agent("worker", &[], &[], &[], true, &[]);
    let fw = framework(vec![FrameworkAgentsItem::Agent(a), FrameworkAgentsItem::Agent(b)]);
    let r = validate_framework(Ok(fw));
    assert!(!r.ok);
    assert!(r.schema_errors.is_empty());
    assert_eq!(r.capability_errors.len(), 2);
    assert_eq!(r.capability_errors[0].node_path, "lead");
    assert_eq!(r.capability_errors[1].node_path, "worker");
    assert!(r.capability_summary.is_some());
}

#[test]
fn validation_of_a_clean_framework_is_ok() {
    let fw = framework(vec![FrameworkAgentsItem::Agent(agent("lead", &[], &[], &[], false, &[]))]);
    let r = validate_framework(Ok(fw));
    assert!(r.ok);
    assert!(r.capability_errors.is_empty());
}

fn companion(name: &str, body: &str) -> Companion {
    Companion { file_name: name.to_string(), body: body.to_string() }
}

#[test]
fn merged_companions_are_sorted_and_deduplicated() {
    let resolved = vec![
        companion("tools/zeta.md", "z"),
        companion("agents/orchestrator.md", "o"),
        companion("summarize.skill.md", "from-ref"),
    ];
    let flat = vec![
        companion("summarize.skill.md", "from-dir"),
        companion("lint.tool.md", "l"),
    ];
    let merged = merge_companions(resolved, flat);
    let names: Vec<&str> = merged.iter().map(|c| c.file_name.as_str()).collect();
    assert_eq!(
        names,
        vec!["agents/orchestrator.md", "lint.tool.md", "summarize.skill.md", "tools/zeta.md"]
    );
    let summarize = merged.iter().find(|c| c.file_name == "summarize.skill.md").unwrap();
    assert_eq!(summarize.body, "from-ref");
}

#[test]
fn merging_nothing_gives_nothing() {
    assert!(merge_companions(Vec::new(), Vec::new()).is_empty());
}

#[test]
fn merge_keeps_equal_names_in_order() {
    let resolved = vec![companion("b.md", "first"), companion("a.md", "x"), companion("b.md", "second")];
    let merged = merge_companions(resolved, Vec::new());
    let bodies: Vec<&str> = merged.iter().map(|c| c.body.as_str()).collect();
    assert_eq!(bodies, vec!["x", "first", "second"]);
}

#[test]
fn crlf_line_endings_become_lf() {
    assert_eq!(normalize_line_endings("---\r\nid: a\r\n---\r\nbody"), "---\nid: a\n---\nbody");
    assert_eq!(normalize_line_endings("a\r\r\nb\rc\n"), "a\r\nb\rc\n");
    assert_eq!(normalize_line_endings(""), "");
    let normalized = normalize_line_endings("---\r\nid: a\r\n---\r\nbody\r\n");
    assert_eq!(split_frontmatter(&normalized), Some(("id: a\n", "body\n")));
}
