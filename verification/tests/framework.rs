use agent_runtime::audit::entry::{AuditEntryKind, AuditValue};
use agent_runtime::capability::types::{CapabilityKind, CapabilityScope, SideEffectClass};
use agent_runtime::framework::capability_map::{
    capabilities_for_tool, capabilities_to_declarations, declaration_to_narrowed_from_str, inline_agents,
    parent_grants_for_agent, root_agent_role, CapabilityLookupError,
};
use agent_runtime::framework::loader::{gap_kind_str, plan_load, LoadVerdict};
use agent_runtime::framework::model::{
    Agent, Capabilities, FileAccess, Framework, FrameworkAgentsItem, FrameworkSkillsItem,
    FrameworkToolsItem, FrameworkToolsItemSource, ModelRef,
};
use agent_runtime::framework::walker::{walk, Gap, GapEvent, GapKind, GapSeverity, GapSource};

fn strings(items: &[&str]) -> Vec<String> {
    items.iter().map(|s| s.to_string()).collect()
}

fn model() -> ModelRef {
    ModelRef { provider: "acme".to_string(), id: "model-sonnet-4-6".to_string() }
}

fn source(s: &str) -> FrameworkToolsItemSource {
    match s {
        "builtin" => FrameworkToolsItemSource::Builtin,
        "generated" => FrameworkToolsItemSource::Generated,
        "registry" => FrameworkToolsItemSource::Registry,
        _ => FrameworkToolsItemSource::External,
    }
}

#[allow(clippy::too_many_arguments)]
fn agent(
    id: &str,
    role: &str,
    tools_called: &[&str],
    skills_loaded: &[&str],
    read: &[&str],
    write: &[&str],
    network: &[&str],
    shell: bool,
    spawn_agents: &[&str],
) -> Agent {
    Agent {
        id: id.to_string(),
        role: role.to_string(),
        model: model(),
        capabilities: Capabilities {
            tools_called: strings(tools_called),
            skills_loaded: strings(skills_loaded),
            file_access: FileAccess { read: strings(read), write: strings(write) },
            network: strings(network),
            shell,
            spawn_agents: strings(spawn_agents),
        },
        allowed_tools: strings(tools_called),
        allowed_skills: strings(skills_loaded),
        spawns: strings(spawn_agents),
    }
}

fn framework(agents: Vec<FrameworkAgentsItem>, tools: &[(&str, &str)], skills: &[&str], root: &str) -> Framework {
    Framework {
        name: "test".to_string(),
        version: "1.0.0".to_string(),
        description: "test framework".to_string(),
        model: model(),
        agents,
        tools: tools
            .iter()
            .map(|(n, s)| FrameworkToolsItem { name: n.to_string(), source: source(s), path: None })
            .collect(),
        skills: skills
            .iter()
            .map(|n| FrameworkSkillsItem { name: n.to_string(), source: "local".to_string(), path: None })
            .collect(),
        session_root_agent: root.to_string(),
    }
}

#[allow(clippy::too_many_arguments)]
fn fw_with_agent(
    agent_id: &str,
    tools_called: &[&str],
    skills_loaded: &[&str],
    read: &[&str],
    write: &[&str],
    network: &[&str],
    shell: bool,
    spawn_agents: &[&str],
    framework_tools: &[(&str, &str)],
) -> Framework {
    let a = agent(agent_id, "worker", tools_called, skills_loaded, read, write, network, shell, spawn_agents);
    framework(vec![FrameworkAgentsItem::Agent(a)], framework_tools, &[], agent_id)
}

fn inline_agent(id: &str, allowed_tools: &[&str], allowed_skills: &[&str], spawns: &[&str]) -> FrameworkAgentsItem {
    let mut a = agent(id, "worker", &[], &[], &[], &[], &[], false, &[]);
    a.allowed_tools = strings(allowed_tools);
    a.allowed_skills = strings(allowed_skills);
    a.spawns = strings(spawns);
    FrameworkAgentsItem::Agent(a)
}

fn object_agent(id: &str, path: &str) -> FrameworkAgentsItem {
    FrameworkAgentsItem::Object { id: id.to_string(), path: path.to_string() }
}

fn fw_from_agents(tools: &[&str], skills: &[&str], agents: Vec<FrameworkAgentsItem>) -> Framework {
    let tool_items: Vec<(&str, &str)> = tools.iter().map(|t| (*t, "builtin")).collect();
    framework(agents, &tool_items, skills, "root")
}

#[test]
fn capabilities_for_tool_returns_exec_pure_for_builtin() {
    let fw = fw_with_agent("worker", &["Read"], &[], &[], &[], &[], false, &[], &[("Read", "builtin")]);
    let needed = capabilities_for_tool(&fw, "Read").expect("declared tool resolves");
    assert_eq!(needed.len(), 1);
    assert_eq!(needed[0].kind, CapabilityKind::Exec);
    assert_eq!(needed[0].resource, "Read");
    assert_eq!(needed[0].side_effect_class, SideEffectClass::Pure);
}

#[test]
fn capabilities_for_tool_returns_exec_irreversible_for_external() {
    let fw = fw_with_agent(
        "worker",
        &["external_tool"],
        &[],
        &[],
        &[],
        &[],
        false,
        &[],
        &[("external_tool", "external")],
    );
    let needed = capabilities_for_tool(&fw, "external_tool").expect("declared tool resolves");
    assert_eq!(needed[0].side_effect_class, SideEffectClass::Irreversible);
}

#[test]
fn capabilities_for_tool_returns_err_for_unknown() {
    let fw = fw_with_agent("worker", &[], &[], &[], &[], &[], false, &[], &[("Read", "builtin")]);
    let err = capabilities_for_tool(&fw, "Mystery").expect_err("unknown tool errs");
    match err {
        CapabilityLookupError::ToolNotFound { name } => assert_eq!(name, "Mystery"),
    }
}

#[test]
fn parent_grants_for_agent_returns_none_for_unknown() {
    let fw = fw_with_agent("worker", &[], &[], &[], &[], &[], false, &[], &[]);
    assert!(parent_grants_for_agent(&fw, "ghost").is_none());
}

#[test]
fn parent_grants_for_agent_translates_full_capability_surface() {
    let fw = fw_with_agent(
        "worker",
        &["Read"],
        &["planning"],
        &["src/**"],
        &["target/**"],
        &[".example.com"],
        true,
        &["worker"],
        &[("Read", "builtin")],
    );
    let grants = parent_grants_for_agent(&fw, "worker").expect("agent declared");
    assert_eq!(grants.len(), 7);
    let kinds: Vec<CapabilityKind> = grants.iter().map(|g| g.kind).collect();
    assert!(kinds.contains(&CapabilityKind::Read));
    assert!(kinds.contains(&CapabilityKind::Write));
    assert!(kinds.contains(&CapabilityKind::Network));
    assert!(kinds.contains(&CapabilityKind::Exec));
    assert!(kinds.contains(&CapabilityKind::ProcessSpawn));
}

#[test]
fn capabilities_to_declarations_produces_consistent_shape_for_round_trip() {
    let fw = fw_with_agent("worker", &["Read"], &[], &["src/**"], &[], &[], false, &[], &[("Read", "builtin")]);
    let g1 = parent_grants_for_agent(&fw, "worker").unwrap();
    let g2 = parent_grants_for_agent(&fw, "worker").unwrap();
    assert_eq!(g1.len(), g2.len());
    for (a, b) in g1.iter().zip(g2.iter()) {
        assert_eq!(a.kind, b.kind);
        assert_eq!(a.resource, b.resource);
        assert_eq!(a.side_effect_class, b.side_effect_class);
    }
}

#[test]
fn declaration_to_narrowed_from_str_round_trips_useful_substring() {
    let fw = fw_with_agent("worker", &["Read"], &[], &["src/**"], &[], &[], false, &[], &[("Read", "builtin")]);
    let grants = parent_grants_for_agent(&fw, "worker").unwrap();
    let descriptions: Vec<String> = grants.iter().map(declaration_to_narrowed_from_str).collect();
    assert!(descriptions.iter().any(|d| d.contains("read")));
    assert!(descriptions.iter().any(|d| d.contains("src/**")));
}

#[test]
fn declaration_text_is_lowercased_kind_resource_scope_class() {
    let fw = fw_with_agent("worker", &[], &[], &["src/**"], &[], &[], false, &[], &[]);
    let grants = parent_grants_for_agent(&fw, "worker").unwrap();
    assert_eq!(declaration_to_narrowed_from_str(&grants[0]), "read:filesystem:glob:src/**:pure");
}

#[test]
fn inline_agents_skips_object_form() {
    let fw = framework(
        vec![object_agent("external-ref", "agents/external.md"), inline_agent("inline", &[], &[], &[])],
        &[],
        &[],
        "inline",
    );
    let agents = inline_agents(&fw);
    assert_eq!(agents.len(), 1);
    assert_eq!(agents[0].id.as_str(), "inline");
}

#[test]
fn root_agent_role_returns_role_for_inline_agent() {
    let a = agent("alpha", "lead", &[], &[], &[], &[], &[], false, &[]);
    let fw = framework(vec![FrameworkAgentsItem::Agent(a)], &[], &[], "alpha");
    assert_eq!(root_agent_role(&fw, "alpha"), "lead");
}

#[test]
fn root_agent_role_falls_back_to_id_for_path_ref_agent() {
    let fw = framework(vec![object_agent("alpha", "agents/alpha.md")], &[], &[], "alpha");
    assert_eq!(root_agent_role(&fw, "alpha"), "alpha");
}

#[test]
fn root_agent_role_falls_back_to_id_when_not_found() {
    let a = agent("alpha", "lead", &[], &[], &[], &[], &[], false, &[]);
    let fw = framework(vec![FrameworkAgentsItem::Agent(a)], &[], &[], "alpha");
    assert_eq!(root_agent_role(&fw, "ghost"), "ghost");
}

#[test]
fn root_agent_role_picks_the_matching_agent_when_multiple_inline_agents_declared() {
    let a = agent("alpha", "alpha-lead", &[], &[], &[], &[], &[], false, &[]);
    let b = agent("beta", "beta-worker", &[], &[], &[], &[], &[], false, &[]);
    let fw = framework(vec![FrameworkAgentsItem::Agent(a), FrameworkAgentsItem::Agent(b)], &[], &[], "beta");
    assert_eq!(root_agent_role(&fw, "beta"), "beta-worker");
}

#[test]
fn capabilities_for_tool_twice_in_sequence_both_succeed() {
    let fw = fw_with_agent("worker", &["Read"], &[], &[], &[], &[], false, &[], &[("Read", "builtin")]);
    let first = capabilities_for_tool(&fw, "Read").expect("first lookup");
    let second = capabilities_for_tool(&fw, "Read").expect("second lookup");
    assert_eq!(first.len(), second.len());
    assert_eq!(first[0].kind, second[0].kind);
    assert_eq!(first[0].resource, second[0].resource);
    assert!(matches!(&first[0].scope, CapabilityScope::Glob(g) if g == "*"));
}

#[test]
fn walks_valid_framework_emits_zero_gaps() {
    let fw = fw_from_agents(
        &["Read", "Write"],
        &["planning"],
        vec![inline_agent("worker", &["Read", "Write"], &["planning"], &[])],
    );
    assert!(walk(&fw).is_empty());
}

#[test]
fn unresolved_tool_reference_emits_tool_missing() {
    let fw = fw_from_agents(&["Read"], &[], vec![inline_agent("worker", &["Read", "MissingTool"], &[], &[])]);
    let gaps = walk(&fw);
    assert_eq!(gaps.len(), 1, "exactly one gap for one unresolved tool");
    assert_eq!(gaps[0].kind, GapKind::Tool);
    assert_eq!(gaps[0].agent_id, "worker");
    assert_eq!(gaps[0].missing_name, "MissingTool");
    assert_eq!(gaps[0].severity, GapSeverity::Critical);
    assert!(!gaps[0].suggested_action.is_empty());
}

#[test]
fn unresolved_skill_reference_emits_skill_missing() {
    let fw = fw_from_agents(&[], &[], vec![inline_agent("worker", &[], &["MissingSkill"], &[])]);
    let gaps = walk(&fw);
    assert_eq!(gaps.len(), 1);
    assert_eq!(gaps[0].kind, GapKind::Skill);
    assert_eq!(gaps[0].missing_name, "MissingSkill");
    assert_eq!(gaps[0].severity, GapSeverity::Advisory);
}

#[test]
fn unresolved_subagent_reference_emits_agent_missing() {
    let fw = fw_from_agents(&[], &[], vec![inline_agent("orchestrator", &[], &[], &["nonexistent-child"])]);
    let gaps = walk(&fw);
    assert_eq!(gaps.len(), 1);
    assert_eq!(gaps[0].kind, GapKind::Agent);
    assert_eq!(gaps[0].agent_id, "orchestrator");
    assert_eq!(gaps[0].missing_name, "nonexistent-child");
    assert_eq!(gaps[0].severity, GapSeverity::Critical);
}

#[test]
fn multiple_gaps_in_one_walk_all_surface() {
    let fw = fw_from_agents(
        &[],
        &[],
        vec![inline_agent("worker", &["MissingTool1", "MissingTool2"], &["MissingSkill"], &["missing-agent"])],
    );
    let gaps = walk(&fw);
    assert_eq!(gaps.len(), 4, "all four unresolved refs surface");
    let kinds: Vec<GapKind> = gaps.iter().map(|g| g.kind).collect();
    assert!(kinds.contains(&GapKind::Tool));
    assert!(kinds.contains(&GapKind::Skill));
    assert!(kinds.contains(&GapKind::Agent));
}

#[test]
fn severity_critical_for_tool_and_agent_advisory_for_skill() {
    let fw = fw_from_agents(
        &[],
        &[],
        vec![inline_agent("worker", &["MissingTool"], &["MissingSkill"], &["missing-agent"])],
    );
    for g in &walk(&fw) {
        match g.kind {
            GapKind::Tool | GapKind::Agent => assert_eq!(g.severity, GapSeverity::Critical),
            GapKind::Skill => assert_eq!(g.severity, GapSeverity::Advisory),
            GapKind::Mcp => unreachable!("the loader never reports an MCP gap"),
        }
    }
}

#[test]
fn declared_subagent_via_object_form_still_resolves_spawns() {
    let fw = fw_from_agents(
        &[],
        &[],
        vec![
            object_agent("report-writer", "agents/report-writer.md"),
            inline_agent("orchestrator", &[], &[], &["report-writer"]),
        ],
    );
    assert!(walk(&fw).is_empty(), "object-form agent counts as declared");
}

#[test]
fn gap_to_event_round_trip_carries_source_discriminator() {
    let gap = Gap {
        kind: GapKind::Tool,
        agent_id: "worker".into(),
        missing_name: "fetch_prs".into(),
        severity: GapSeverity::Critical,
        suggested_action: "Install tool 'fetch_prs' and click Resume.".into(),
    };
    match gap.to_event(GapSource::Loader) {
        GapEvent::ToolMissing { requested_via, tool_name, .. } => {
            assert_eq!(requested_via, GapSource::Loader);
            assert_eq!(tool_name, "fetch_prs");
        }
        _ => panic!("expected ToolMissing"),
    }
    match gap.to_event(GapSource::RequestCapability) {
        GapEvent::ToolMissing { requested_via, .. } => {
            assert_eq!(requested_via, GapSource::RequestCapability);
        }
        _ => panic!("expected ToolMissing"),
    }
}

#[test]
fn gap_to_event_covers_all_four_kinds() {
    let kinds = [
        (GapKind::Tool, GapSeverity::Critical),
        (GapKind::Skill, GapSeverity::Advisory),
        (GapKind::Mcp, GapSeverity::Important),
        (GapKind::Agent, GapSeverity::Critical),
    ];
    for (kind, severity) in kinds {
        let gap = Gap {
            kind,
            agent_id: "worker".into(),
            missing_name: "x".into(),
            severity,
            suggested_action: "fix it".into(),
        };
        let event = gap.to_event(GapSource::RequestCapability);
        match (kind, &event) {
            (GapKind::Tool, GapEvent::ToolMissing { .. })
            | (GapKind::Skill, GapEvent::SkillMissing { .. })
            | (GapKind::Mcp, GapEvent::McpMissing { .. })
            | (GapKind::Agent, GapEvent::AgentMissing { .. }) => {}
            _ => panic!("kind {kind:?} did not map to matching event"),
        }
    }
}

#[test]
fn gap_kind_names_match_the_event_vocabulary() {
    assert_eq!(gap_kind_str(GapKind::Tool), "tool_missing");
    assert_eq!(gap_kind_str(GapKind::Skill), "skill_missing");
    assert_eq!(gap_kind_str(GapKind::Mcp), "mcp_missing");
    assert_eq!(gap_kind_str(GapKind::Agent), "agent_missing");
}

#[test]
fn plan_load_records_framework_loaded_when_clean() {
    let fw = fw_from_agents(&["Read"], &[], vec![inline_agent("worker", &["Read"], &[], &[])]);
    let plan = plan_load("sess-1", &fw);
    assert_eq!(plan.verdict, LoadVerdict::Loaded);
    assert!(plan.events.is_empty());
    assert_eq!(plan.audit.len(), 1);
    assert_eq!(plan.audit[0].kind, AuditEntryKind::FrameworkLoaded);
    assert!(matches!(plan.audit[0].detail("framework_name"), Some(AuditValue::Text(n)) if n == "test"));
    assert!(matches!(plan.audit[0].detail("agent_count"), Some(AuditValue::Count(1))));
}

#[test]
fn plan_load_records_one_gap_entry_and_event_per_gap() {
    let fw = fw_from_agents(&[], &[], vec![inline_agent("worker", &["MissingTool"], &[], &["ghost"])]);
    let plan = plan_load("", &fw);
    assert_eq!(plan.verdict, LoadVerdict::GapsFound { count: 2 });
    assert_eq!(plan.audit.len(), 2);
    assert_eq!(plan.events.len(), 2);
    assert_eq!(plan.audit[0].session_id, "unknown-session");
    assert!(matches!(plan.audit[0].detail("gap_kind"), Some(AuditValue::Text(k)) if k == "tool_missing"));
    assert!(matches!(plan.audit[1].detail("gap_kind"), Some(AuditValue::Text(k)) if k == "agent_missing"));
    assert!(matches!(plan.audit[1].detail("requested_via"), Some(AuditValue::Text(v)) if v == "loader"));
    assert!(matches!(&plan.events[1], GapEvent::AgentMissing { missing_agent_id, requested_via: GapSource::Loader, .. } if missing_agent_id == "ghost"));
}

#[test]
fn network_grant_names_the_host_resource() {
    let a = agent("worker", "worker", &[], &[], &[], &[], &[".example.com"], false, &[]);
    let decls = capabilities_to_declarations(&a.capabilities);
    assert_eq!(decls.len(), 1);
    assert_eq!(decls[0].kind, CapabilityKind::Network);
    assert_eq!(decls[0].resource, "host");
    assert!(matches!(&decls[0].scope, CapabilityScope::Domain(d) if d == ".example.com"));
    assert_eq!(decls[0].side_effect_class, SideEffectClass::NetworkEgress);
}

#[test]
fn own_builtin_tool_passes_the_grant_match() {
    let fw = fw_with_agent("worker", &["Read"], &[], &[], &[], &[], false, &[], &[("Read", "builtin")]);
    let request = capabilities_for_tool(&fw, "Read").expect("declared");
    let grants = parent_grants_for_agent(&fw, "worker").expect("agent declared");
    assert!(grants.iter().any(|g| agent_runtime::capability::declaration::subsumes(g, &request[0])));
}
