//! Parent-to-child narrowing: a spawned child may only hold capabilities
//! its parent's grants cover.
//!
//! The narrowing invariant: every capability in an accepted child set is
//! covered by some parent grant. The direction is load-bearing: it is the
//! parent that must cover the child, never the reverse.

use vstd::prelude::*;

use crate::capability::declaration::{
    domain_covers, grant_covers, path_covers, scope_covers, subsumes, trim_trailing_slashes,
};
use crate::capability::enforcer::{check_verdict, covered_by_any, some_grant_covers, CheckVerdict};
use crate::capability::error::NarrowingError;
use crate::capability::types::{
    duplicate_all, tier_permits, CapabilityDeclaration, CapabilityKind, CapabilityScope, Tier,
};

verus! {

/// Every proposed capability is covered by some parent grant.
pub open spec fn all_covered(
    parent: Seq<CapabilityDeclaration>,
    proposed: Seq<CapabilityDeclaration>,
) -> bool {
    forall|i: int| 0 <= i < proposed.len() ==> some_grant_covers(parent, #[trigger] proposed[i])
}

/// Checks that `proposed` is a subset of what `parent` holds.
///
/// Returns the proposed set unchanged when every proposed capability is
/// covered by a parent grant. Otherwise reports the first proposed
/// capability no parent grant covers; narrowing is all-or-nothing.
pub fn narrow(parent: &[CapabilityDeclaration], proposed: &[CapabilityDeclaration]) -> (r: Result<
    Vec<CapabilityDeclaration>,
    NarrowingError,
>)
    ensures
        r is Ok <==> all_covered(parent@, proposed@),
        r matches Ok(v) ==> v@ == proposed@,
        r matches Ok(v) ==> forall|i: int|
            0 <= i < v@.len() ==> some_grant_covers(parent@, #[trigger] v@[i]),
        r matches Err(NarrowingError::CapabilityNotHeldByParent { proposed: bad }) ==> exists|i: int|
            0 <= i < proposed@.len() && *bad == proposed@[i] && !some_grant_covers(
                parent@,
                #[trigger] proposed@[i],
            ) && forall|j: int| 0 <= j < i ==> some_grant_covers(parent@, #[trigger] proposed@[j]),
{
    let mut i: usize = 0;
    while i < proposed.len()
        invariant
            i <= proposed@.len(),
            forall|j: int| 0 <= j < i ==> some_grant_covers(parent@, #[trigger] proposed@[j]),
        decreases proposed@.len() - i,
    {
        let prop = &proposed[i];
        let found = covered_by_any(parent, prop);
        if !found {
            let bad = prop.duplicate();
            proof {
                assert(!some_grant_covers(parent@, proposed@[i as int]));
                assert(!all_covered(parent@, proposed@));
            }
            return Err(NarrowingError::CapabilityNotHeldByParent { proposed: Box::new(bad) });
        }
        i = i + 1;
    }
    Ok(duplicate_all(proposed))
}

/// A grant covers itself: every scope contains itself.
pub proof fn lemma_grant_covers_itself(d: CapabilityDeclaration)
    ensures
        grant_covers(d, d),
{
    match d.scope {
        CapabilityScope::Glob(g) => {},
        CapabilityScope::Domain(s) => {
            assert(domain_covers(s@, s@));
        },
        CapabilityScope::Path(p) => {
            assert(path_covers(p@, p@));
        },
    }
}

/// A child that proposes exactly its parent's grants is always accepted.
pub proof fn lemma_identical_child_narrows(parent: Seq<CapabilityDeclaration>)
    ensures
        all_covered(parent, parent),
{
    assert forall|i: int| 0 <= i < parent.len() implies some_grant_covers(
        parent,
        #[trigger] parent[i],
    ) by {
        lemma_grant_covers_itself(parent[i]);
    }
}

/// A child proposing a subset of its parent's grants is accepted.
pub proof fn lemma_subset_child_narrows(
    parent: Seq<CapabilityDeclaration>,
    proposed: Seq<CapabilityDeclaration>,
)
    requires
        forall|i: int| 0 <= i < proposed.len() ==> parent.contains(#[trigger] proposed[i]),
    ensures
        all_covered(parent, proposed),
{
    assert forall|i: int| 0 <= i < proposed.len() implies some_grant_covers(
        parent,
        #[trigger] proposed[i],
    ) by {
        assert(parent.contains(proposed[i]));
        let j = choose|j: int| 0 <= j < parent.len() && parent[j] == proposed[i];
        lemma_grant_covers_itself(proposed[i]);
        assert(grant_covers(parent[j], proposed[i]));
    }
}

/// Widening is denied: when the only parent grant does not cover the
/// proposed capability, the child cannot hold it.
pub proof fn lemma_widening_denied(narrower: CapabilityDeclaration, wider: CapabilityDeclaration)
    requires
        !grant_covers(narrower, wider),
    ensures
        !all_covered(seq![narrower], seq![wider]),
{
    assert(!some_grant_covers(seq![narrower], seq![wider][0]));
}

/// Default deny: an enforcer with no grants allows nothing, in any tier.
pub proof fn lemma_default_deny(tier: Tier, agent: Seq<char>, requested: CapabilityDeclaration)
    ensures
        check_verdict(
            Map::<Seq<char>, Seq<CapabilityDeclaration>>::empty(),
            tier,
            agent,
            requested,
        ) != CheckVerdict::Allowed,
{
}

/// A capability just granted to an agent passes that agent's check
/// whenever the tier permits it.
pub proof fn lemma_granted_capability_passes(
    grants: Map<Seq<char>, Seq<CapabilityDeclaration>>,
    tier: Tier,
    agent: Seq<char>,
    capability: CapabilityDeclaration,
)
    requires
        tier_permits(tier, capability),
    ensures
        check_verdict(
            grants.insert(
                agent,
                if grants.contains_key(agent) {
                    grants[agent].push(capability)
                } else {
                    seq![capability]
                },
            ),
            tier,
            agent,
            capability,
        ) == CheckVerdict::Allowed,
{
    lemma_grant_covers_itself(capability);
    let after = grants.insert(
        agent,
        if grants.contains_key(agent) {
            grants[agent].push(capability)
        } else {
            seq![capability]
        },
    );
    let s = after[agent];
    assert(s[s.len() - 1] == capability);
    assert(some_grant_covers(s, capability));
}

/// Granting never revokes: any check that passed before a grant still
/// passes after it, for every agent.
pub proof fn lemma_grant_keeps_allowed(
    grants: Map<Seq<char>, Seq<CapabilityDeclaration>>,
    tier: Tier,
    granted_to: Seq<char>,
    capability: CapabilityDeclaration,
    agent: Seq<char>,
    requested: CapabilityDeclaration,
)
    requires
        check_verdict(grants, tier, agent, requested) == CheckVerdict::Allowed,
    ensures
        check_verdict(
            grants.insert(
                granted_to,
                if grants.contains_key(granted_to) {
                    grants[granted_to].push(capability)
                } else {
                    seq![capability]
                },
            ),
            tier,
            agent,
            requested,
        ) == CheckVerdict::Allowed,
{
    let after = grants.insert(
        granted_to,
        if grants.contains_key(granted_to) {
            grants[granted_to].push(capability)
        } else {
            seq![capability]
        },
    );
    let k = choose|k: int|
        0 <= k < grants[agent].len() && grant_covers(#[trigger] grants[agent][k], requested);
    if agent == granted_to {
        assert(after[agent][k] == grants[agent][k]);
    } else {
        assert(after[agent] == grants[agent]);
    }
    assert(some_grant_covers(after[agent], requested));
}

/// The tier gate is the outer gate: a request the tier forbids is
/// rejected as `TierForbidden` whatever grants exist.
pub proof fn lemma_tier_gate_precedes_grants(
    grants: Map<Seq<char>, Seq<CapabilityDeclaration>>,
    tier: Tier,
    agent: Seq<char>,
    requested: CapabilityDeclaration,
)
    requires
        !tier_permits(tier, requested),
    ensures
        check_verdict(grants, tier, agent, requested) == CheckVerdict::TierForbidden,
{
}

/// The novice allowlist: in the novice tier a request passes the tier
/// gate exactly when it reads, or reaches the network within a domain
/// scope. A write, an exec, a process spawn (the shell among them), or
/// network access under a glob or path scope is rejected as
/// `TierForbidden`, whatever grants the agent holds.
pub proof fn lemma_novice_allowlist(
    grants: Map<Seq<char>, Seq<CapabilityDeclaration>>,
    agent: Seq<char>,
    requested: CapabilityDeclaration,
)
    ensures
        (check_verdict(grants, Tier::Novice, agent, requested) == CheckVerdict::TierForbidden) <==> !(
        requested.kind == CapabilityKind::Read || (requested.kind == CapabilityKind::Network
            && requested.scope is Domain)),
        requested.kind == CapabilityKind::Write ==> check_verdict(grants, Tier::Novice, agent, requested)
            == CheckVerdict::TierForbidden,
        requested.kind == CapabilityKind::Exec ==> check_verdict(grants, Tier::Novice, agent, requested)
            == CheckVerdict::TierForbidden,
        requested.kind == CapabilityKind::ProcessSpawn ==> check_verdict(
            grants,
            Tier::Novice,
            agent,
            requested,
        ) == CheckVerdict::TierForbidden,
{
}

/// A promoted user is not tier-gated: no request is rejected as
/// `TierForbidden` in the promoted tier.
pub proof fn lemma_promoted_is_not_tier_gated(
    grants: Map<Seq<char>, Seq<CapabilityDeclaration>>,
    agent: Seq<char>,
    requested: CapabilityDeclaration,
)
    ensures
        check_verdict(grants, Tier::Promoted, agent, requested) != CheckVerdict::TierForbidden,
{
}

} // verus!
