use agent_runtime::capability::declaration::{scope_contains, subsumes};
use agent_runtime::capability::enforcer::{CapabilityEnforcer, DenyReason};
use agent_runtime::capability::error::{CapabilityError, NarrowingError};
use agent_runtime::capability::narrowing::narrow;
use agent_runtime::capability::types::{
    CapabilityDeclaration, CapabilityKind, CapabilityScope, SideEffectClass, Tier,
};

fn decl(
    kind: CapabilityKind,
    resource: &str,
    scope: CapabilityScope,
    side: SideEffectClass,
) -> CapabilityDeclaration {
    CapabilityDeclaration { kind, resource: resource.to_string(), scope, side_effect_class: side }
}

fn glob_scope(s: &str) -> CapabilityScope {
    CapabilityScope::Glob(s.to_string())
}

fn domain_scope(s: &str) -> CapabilityScope {
    CapabilityScope::Domain(s.to_string())
}

fn path_scope(s: &str) -> CapabilityScope {
    CapabilityScope::Path(s.to_string())
}

fn read_src_glob() -> CapabilityDeclaration {
    decl(CapabilityKind::Read, "src", glob_scope("src/**"), SideEffectClass::Pure)
}

fn write_src_glob() -> CapabilityDeclaration {
    decl(CapabilityKind::Write, "src", glob_scope("src/**"), SideEffectClass::FilesystemMutate)
}

fn read_src_path(p: &str) -> CapabilityDeclaration {
    decl(CapabilityKind::Read, "src", path_scope(p), SideEffectClass::Pure)
}

#[test]
fn subsumes_identical_declarations_returns_true() {
    let parent = decl(CapabilityKind::Read, "src", glob_scope("src/**"), SideEffectClass::Pure);
    let child = decl(CapabilityKind::Read, "src", glob_scope("src/**"), SideEffectClass::Pure);
    assert!(subsumes(&parent, &child));
}

#[test]
fn subsumes_different_kind_returns_false() {
    let parent = decl(CapabilityKind::Read, "src", glob_scope("src/**"), SideEffectClass::Pure);
    let child = decl(
        CapabilityKind::Write,
        "src",
        glob_scope("src/**"),
        SideEffectClass::FilesystemMutate,
    );
    assert!(!subsumes(&parent, &child));
}

#[test]
fn subsumes_different_side_effect_class_returns_false() {
    let parent = decl(CapabilityKind::Read, "src", glob_scope("src/**"), SideEffectClass::Pure);
    let child = decl(
        CapabilityKind::Read,
        "src",
        glob_scope("src/**"),
        SideEffectClass::FilesystemMutate,
    );
    assert!(!subsumes(&parent, &child));
}

#[test]
fn subsumes_different_resource_returns_false() {
    let parent = decl(CapabilityKind::Read, "src", glob_scope("src/**"), SideEffectClass::Pure);
    let child = decl(CapabilityKind::Read, "docs", glob_scope("src/**"), SideEffectClass::Pure);
    assert!(!subsumes(&parent, &child));
}

#[test]
fn scope_contains_glob_matches_path_inside_glob() {
    assert!(scope_contains(&glob_scope("src/**"), &path_scope("src/lib/foo.rs")));
}

#[test]
fn scope_contains_glob_rejects_path_outside_glob() {
    assert!(!scope_contains(&glob_scope("src/**"), &path_scope("docs/foo.md")));
}

#[test]
fn scope_contains_path_subsumes_only_prefix_with_separator() {
    let outer = path_scope("src");
    assert!(scope_contains(&outer, &path_scope("src/foo.rs")));
    assert!(!scope_contains(&outer, &path_scope("src-other/foo.rs")));
    assert!(scope_contains(&outer, &path_scope("src")));
}

#[test]
fn scope_contains_path_with_trailing_slash_normalized() {
    assert!(scope_contains(&path_scope("src/"), &path_scope("src/foo.rs")));
}

#[test]
fn scope_contains_domain_exact_match() {
    assert!(scope_contains(&domain_scope("api.example.com"), &domain_scope("api.example.com")));
}

#[test]
fn scope_contains_domain_subdomain_match_via_leading_dot() {
    let outer = domain_scope(".example.com");
    assert!(scope_contains(&outer, &domain_scope("example.com")));
    assert!(scope_contains(&outer, &domain_scope("api.example.com")));
    assert!(!scope_contains(&outer, &domain_scope("evil.com")));
}

#[test]
fn scope_contains_domain_no_match_without_leading_dot() {
    assert!(!scope_contains(&domain_scope("example.com"), &domain_scope("api.example.com")));
}

#[test]
fn scope_contains_cross_variant_path_does_not_subsume_glob() {
    assert!(!scope_contains(&path_scope("src/lib/foo.rs"), &glob_scope("src/**")));
}

#[test]
fn scope_contains_glob_equals_glob() {
    let outer = glob_scope("src/**");
    assert!(scope_contains(&outer, &glob_scope("src/**")));
    assert!(!scope_contains(&outer, &glob_scope("docs/**")));
}

#[test]
fn scope_contains_invalid_glob_returns_false_not_panic() {
    assert!(!scope_contains(&glob_scope("src/[unclosed"), &path_scope("src/foo")));
}

#[test]
fn scope_contains_domain_vs_path_returns_false() {
    assert!(!scope_contains(&domain_scope("example.com"), &path_scope("src")));
}

#[test]
fn default_deny_when_no_declarations_for_agent() {
    let enforcer = CapabilityEnforcer::new();
    let err = enforcer.check("worker", &read_src_glob()).expect_err("no declarations must err");
    match err {
        CapabilityError::Denied { reason, agent_id } => {
            assert_eq!(reason, DenyReason::NoDeclarations);
            assert_eq!(agent_id, "worker");
        }
        CapabilityError::TierForbidden { .. } => panic!("Read should pass the tier gate"),
    }
}

#[test]
fn exact_match_grant_passes_check() {
    let mut enforcer = CapabilityEnforcer::new();
    enforcer.grant("worker", read_src_glob());
    enforcer.check("worker", &read_src_glob()).expect("identical declaration must pass");
}

#[test]
fn grant_for_one_agent_does_not_satisfy_other_agent() {
    let mut enforcer = CapabilityEnforcer::new();
    enforcer.grant("worker", read_src_glob());
    let err = enforcer.check("intruder", &read_src_glob()).expect_err("other agent must default-deny");
    match err {
        CapabilityError::Denied { reason, .. } => assert_eq!(reason, DenyReason::NoDeclarations),
        CapabilityError::TierForbidden { .. } => panic!("Read should pass the tier gate"),
    }
}

#[test]
fn scope_widening_denied_when_request_falls_outside_glob() {
    let mut enforcer = CapabilityEnforcer::new();
    enforcer.grant("worker", read_src_glob());
    let err = enforcer.check("worker", &read_src_path("docs/foo.md")).expect_err("outside-glob path must err");
    match err {
        CapabilityError::Denied { reason, .. } => assert_eq!(reason, DenyReason::NoMatchingGrant),
        CapabilityError::TierForbidden { .. } => panic!("Read should pass the tier gate"),
    }
}

#[test]
fn side_effect_class_mismatch_denied() {
    let mut enforcer = CapabilityEnforcer::new();
    enforcer.set_tier(Tier::Promoted);
    enforcer.grant("worker", read_src_glob());
    let err = enforcer.check("worker", &write_src_glob()).expect_err("read grant cannot satisfy write request");
    match err {
        CapabilityError::Denied { reason, .. } => assert_eq!(reason, DenyReason::NoMatchingGrant),
        CapabilityError::TierForbidden { .. } => panic!("Promoted tier should not reject Write"),
    }
}

#[test]
fn default_tier_is_novice() {
    assert_eq!(CapabilityEnforcer::new().current_tier(), Tier::Novice);
}

#[test]
fn set_tier_updates_current_tier() {
    let mut enforcer = CapabilityEnforcer::new();
    enforcer.set_tier(Tier::Promoted);
    assert_eq!(enforcer.current_tier(), Tier::Promoted);
    enforcer.set_tier(Tier::Novice);
    assert_eq!(enforcer.current_tier(), Tier::Novice);
}

#[test]
fn novice_tier_rejects_write_with_tier_forbidden_error() {
    let mut enforcer = CapabilityEnforcer::new();
    enforcer.grant("worker", write_src_glob());
    let err = enforcer.check("worker", &write_src_glob()).expect_err("Novice rejects Write");
    match err {
        CapabilityError::TierForbidden { tier, capability_kind, agent_id } => {
            assert_eq!(tier, Tier::Novice);
            assert_eq!(capability_kind, CapabilityKind::Write);
            assert_eq!(agent_id, "worker");
        }
        CapabilityError::Denied { .. } => panic!("the grant lookup ran before the tier gate"),
    }
}

#[test]
fn promoted_tier_passes_l4_then_l1_finds_grant() {
    let mut enforcer = CapabilityEnforcer::new();
    enforcer.set_tier(Tier::Promoted);
    enforcer.grant("worker", write_src_glob());
    enforcer.check("worker", &write_src_glob()).expect("Promoted with matching Write grant passes");
}

#[test]
fn tier_demotion_invalidates_previously_passing_check() {
    let mut enforcer = CapabilityEnforcer::new();
    enforcer.set_tier(Tier::Promoted);
    enforcer.grant("worker", write_src_glob());
    enforcer.check("worker", &write_src_glob()).expect("under Promoted, Write passes");
    enforcer.set_tier(Tier::Novice);
    let err = enforcer.check("worker", &write_src_glob()).expect_err("after demotion, Write is forbidden");
    assert!(matches!(err, CapabilityError::TierForbidden { .. }));
}

#[test]
fn multi_call_invariant_both_succeed_in_sequence() {
    let mut enforcer = CapabilityEnforcer::new();
    enforcer.grant("worker", read_src_glob());
    enforcer.check("worker", &read_src_glob()).expect("first check");
    enforcer.check("worker", &read_src_glob()).expect("second check");
    enforcer.check("worker", &read_src_glob()).expect("third check");
}

#[test]
fn check_picks_satisfying_grant_among_many() {
    let mut enforcer = CapabilityEnforcer::new();
    enforcer.grant("worker", write_src_glob());
    enforcer.grant("worker", read_src_glob());
    assert_eq!(enforcer.grant_count("worker"), 2);
    enforcer.check("worker", &read_src_glob()).expect("any matching grant suffices");
}

#[test]
fn grants_for_unknown_agent_returns_empty_slice() {
    let enforcer = CapabilityEnforcer::new();
    assert!(enforcer.grants_for("unknown").is_empty());
    assert_eq!(enforcer.grant_count("unknown"), 0);
}

#[test]
fn grants_for_known_agent_returns_full_slice() {
    let mut enforcer = CapabilityEnforcer::new();
    enforcer.grant("worker", read_src_glob());
    enforcer.grant("worker", write_src_glob());
    assert_eq!(enforcer.grants_for("worker").len(), 2);
}

#[test]
fn default_enforcer_has_no_grants() {
    let enforcer = CapabilityEnforcer::default();
    assert_eq!(enforcer.grant_count("anyone"), 0);
}

#[test]
fn agent_id_carried_on_denied_error() {
    let enforcer = CapabilityEnforcer::new();
    let err = enforcer.check("specific-agent-id", &read_src_glob()).expect_err("err");
    match err {
        CapabilityError::Denied { agent_id, .. } => assert_eq!(agent_id, "specific-agent-id"),
        CapabilityError::TierForbidden { .. } => panic!("Read should pass the tier gate"),
    }
}

#[test]
fn novice_tier_allows_domain_scoped_network_only() {
    let mut enforcer = CapabilityEnforcer::new();
    let net = decl(
        CapabilityKind::Network,
        "api.example.com",
        domain_scope("api.example.com"),
        SideEffectClass::NetworkEgress,
    );
    enforcer.grant("worker", net.clone());
    enforcer.check("worker", &net).expect("domain-scoped network passes under Novice");
    let glob_net = decl(
        CapabilityKind::Network,
        "api.example.com",
        glob_scope("*"),
        SideEffectClass::NetworkEgress,
    );
    assert!(matches!(
        enforcer.check("worker", &glob_net),
        Err(CapabilityError::TierForbidden { .. })
    ));
}

#[test]
fn child_identical_to_parent_ok() {
    let parent = vec![read_src_glob()];
    let proposed = vec![read_src_glob()];
    let narrowed = narrow(&parent, &proposed).expect("identical narrows OK");
    assert_eq!(narrowed.len(), 1);
}

#[test]
fn child_subset_of_parent_ok() {
    let parent = vec![read_src_glob()];
    let proposed = vec![read_src_path("src/lib/foo.rs")];
    let narrowed = narrow(&parent, &proposed).expect("subset narrows OK");
    assert_eq!(narrowed.len(), 1);
}

#[test]
fn child_widening_scope_denied() {
    let parent = vec![read_src_path("src/lib/foo.rs")];
    let proposed = vec![read_src_glob()];
    let err = narrow(&parent, &proposed).expect_err("widening denied");
    match err {
        NarrowingError::CapabilityNotHeldByParent { .. } => {}
    }
}

#[test]
fn child_capability_parent_lacks_denied() {
    let parent = vec![read_src_glob()];
    let proposed = vec![write_src_glob()];
    let err = narrow(&parent, &proposed).expect_err("missing kind denied");
    match err {
        NarrowingError::CapabilityNotHeldByParent { proposed: p } => {
            assert_eq!(p.kind, CapabilityKind::Write);
        }
    }
}

#[test]
fn empty_proposed_always_ok() {
    let parent = vec![read_src_glob()];
    let proposed: Vec<CapabilityDeclaration> = Vec::new();
    let narrowed = narrow(&parent, &proposed).expect("empty narrows OK");
    assert!(narrowed.is_empty());
}

#[test]
fn proposed_with_multiple_caps_one_invalid_short_circuits_at_first() {
    let parent = vec![read_src_glob()];
    let proposed = vec![write_src_glob(), read_src_path("src/foo.rs")];
    let err = narrow(&parent, &proposed).expect_err("first failure short-circuits");
    match err {
        NarrowingError::CapabilityNotHeldByParent { proposed: p } => {
            assert_eq!(p.kind, CapabilityKind::Write);
        }
    }
}

#[test]
fn parent_with_multiple_grants_child_only_uses_subset() {
    let parent = vec![write_src_glob(), read_src_glob()];
    let proposed = vec![read_src_glob()];
    let narrowed = narrow(&parent, &proposed).expect("subset of multi-grant parent");
    assert_eq!(narrowed.len(), 1);
}

#[test]
fn narrowing_error_message_names_the_declaration() {
    let err = narrow(&[read_src_glob()], &[write_src_glob()]).unwrap_err();
    assert_eq!(
        err.message(),
        "proposed capability is not held by parent: Write:src:glob:src/**:FilesystemMutate"
    );
}

#[test]
fn glob_covers_no_path_holding_a_backslash() {
    assert!(!scope_contains(&glob_scope("src/**"), &path_scope("src\\lib\\foo.rs")));
    assert!(!scope_contains(&glob_scope("**"), &path_scope("a\\b")));
    assert!(scope_contains(&glob_scope("**"), &path_scope("a/b")));
}

#[test]
fn glob_backslash_escapes_in_patterns() {
    assert!(scope_contains(&glob_scope("src/\\*.rs"), &path_scope("src/*.rs")));
    assert!(!scope_contains(&glob_scope("src/\\*.rs"), &path_scope("src/a.rs")));
}

#[test]
fn unbuildable_glob_matches_nothing() {
    assert!(!scope_contains(&glob_scope("src/[a"), &path_scope("src/a")));
}
