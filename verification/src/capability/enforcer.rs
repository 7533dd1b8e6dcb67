//! The per-agent capability enforcer: a tier gate followed by a
//! default-deny grant lookup.
//!
//! `check(agent, requested)` first asks the tier gate; a request the tier
//! forbids is rejected with `TierForbidden` whatever the agent holds.
//! Only then are the agent's grants consulted: an agent with no recorded
//! grants is denied with `NoDeclarations`, an agent whose grants do not
//! cover the request with `NoMatchingGrant`.

use vstd::prelude::*;

use crate::capability::declaration::{grant_covers, subsumes};
use crate::capability::error::CapabilityError;
use crate::capability::types::{
    tier_permits, CapabilityDeclaration, Tier, TierError, TierEvaluator,
};
use crate::text::{owned, str_eq};

verus! {

/// Why a check was denied after the tier gate passed.
#[derive(Clone, Copy, Debug, PartialEq, Eq, Structural)]
pub enum DenyReason {
    /// The agent has no grants recorded at all.
    NoDeclarations,
    /// The agent has grants, but none covers the request.
    NoMatchingGrant,
}

/// The outcome of a check, as a value of the model.
pub enum CheckVerdict {
    /// Some grant covers the request and the tier permits it.
    Allowed,
    /// The tier gate rejects the request.
    TierForbidden,
    /// The agent has no grants.
    NoDeclarations,
    /// The agent's grants do not cover the request.
    NoMatchingGrant,
}

/// Does some grant in `grants` cover `requested`?
pub open spec fn some_grant_covers(
    grants: Seq<CapabilityDeclaration>,
    requested: CapabilityDeclaration,
) -> bool {
    exists|i: int| 0 <= i < grants.len() && grant_covers(#[trigger] grants[i], requested)
}

/// What a check decides for `agent` and `requested`, given the grant map
/// and the current tier.
pub open spec fn check_verdict(
    grants: Map<Seq<char>, Seq<CapabilityDeclaration>>,
    tier: Tier,
    agent: Seq<char>,
    requested: CapabilityDeclaration,
) -> CheckVerdict {
    if !tier_permits(tier, requested) {
        CheckVerdict::TierForbidden
    } else if !grants.contains_key(agent) {
        CheckVerdict::NoDeclarations
    } else if some_grant_covers(grants[agent], requested) {
        CheckVerdict::Allowed
    } else {
        CheckVerdict::NoMatchingGrant
    }
}

/// Does some grant in `grants` cover `requested`?
pub fn covered_by_any(grants: &[CapabilityDeclaration], requested: &CapabilityDeclaration) -> (r:
    bool)
    ensures
        r == some_grant_covers(grants@, *requested),
{
    let mut j: usize = 0;
    while j < grants.len()
        invariant
            j <= grants@.len(),
            forall|k: int| 0 <= k < j ==> !grant_covers(#[trigger] grants@[k], *requested),
        decreases grants@.len() - j,
    {
        if subsumes(&grants[j], requested) {
            proof {
                assert(grant_covers(grants@[j as int], *requested));
            }
            return true;
        }
        j = j + 1;
    }
    false
}

/// The grants recorded for one agent.
pub struct AgentGrants {
    agent: String,
    grants: Vec<CapabilityDeclaration>,
}

/// Per-agent grants plus the user's current tier.
pub struct CapabilityEnforcer {
    grants_by_agent: Vec<AgentGrants>,
    current_tier: Tier,
}

impl CapabilityEnforcer {
    /// No agent name is recorded twice, and every recorded agent holds
    /// at least one grant.
    pub closed spec fn well_formed(&self) -> bool {
        &&& forall|i: int, j: int|
            0 <= i < j < self.grants_by_agent@.len() ==> (#[trigger] self.grants_by_agent@[i]).agent@
                != (#[trigger] self.grants_by_agent@[j]).agent@
        &&& forall|i: int|
            0 <= i < self.grants_by_agent@.len() ==> (#[trigger] self.grants_by_agent@[i]).grants@.len()
                > 0
    }

    /// Every agent the grant map records holds at least one grant, so an
    /// agent without grants is one the map does not record (and is refused
    /// with `NoDeclarations`).
    pub proof fn lemma_recorded_grants_non_empty(&self, agent: Seq<char>)
        requires
            self.well_formed(),
            self.grant_map().contains_key(agent),
        ensures
            self.grant_map()[agent].len() > 0,
    {
        let k = choose|k: int|
            0 <= k < self.grants_by_agent@.len() && (#[trigger] self.grants_by_agent@[k]).agent@
                == agent;
        self.lemma_map_at(k);
    }

    /// The grant map: each recorded agent name to its grants, in the order
    /// they were granted.
    pub closed spec fn grant_map(&self) -> Map<Seq<char>, Seq<CapabilityDeclaration>> {
        Map::new(
            |a: Seq<char>|
                exists|i: int|
                    0 <= i < self.grants_by_agent@.len() && (#[trigger] self.grants_by_agent@[i]).agent@
                        == a,
            |a: Seq<char>|
                {
                    let i = choose|i: int|
                        0 <= i < self.grants_by_agent@.len() && (#[trigger] self.grants_by_agent@[i]).agent@
                            == a;
                    self.grants_by_agent@[i].grants@
                },
        )
    }

    /// The tier in force.
    pub closed spec fn tier(&self) -> Tier {
        self.current_tier
    }

    proof fn lemma_map_at(&self, i: int)
        requires
            self.well_formed(),
            0 <= i < self.grants_by_agent@.len(),
        ensures
            self.grant_map().contains_key(self.grants_by_agent@[i].agent@),
            self.grant_map()[self.grants_by_agent@[i].agent@] == self.grants_by_agent@[i].grants@,
    {
        let a = self.grants_by_agent@[i].agent@;
        assert(self.grant_map().dom().contains(a));
        let j = choose|j: int|
            0 <= j < self.grants_by_agent@.len() && (#[trigger] self.grants_by_agent@[j]).agent@ == a;
        if j != i {
            if j < i {
                assert(self.grants_by_agent@[j].agent@ != self.grants_by_agent@[i].agent@);
            } else {
                assert(self.grants_by_agent@[i].agent@ != self.grants_by_agent@[j].agent@);
            }
        }
    }

    /// An empty enforcer: every agent is denied until granted, and the
    /// tier starts at `Novice`.
    pub fn new() -> (r: Self)
        ensures
            r.well_formed(),
            r.grant_map() == Map::<Seq<char>, Seq<CapabilityDeclaration>>::empty(),
            r.tier() == Tier::Novice,
    {
        let r = CapabilityEnforcer { grants_by_agent: Vec::new(), current_tier: Tier::Novice };
        assert(r.grant_map() =~= Map::<Seq<char>, Seq<CapabilityDeclaration>>::empty());
        r
    }

    fn find_index(&self, agent: &str) -> (r: Option<usize>)
        ensures
            r matches Some(i) ==> i < self.grants_by_agent@.len() && self.grants_by_agent@[i as int].agent@
                == agent@,
            r is None ==> forall|i: int|
                0 <= i < self.grants_by_agent@.len() ==> (#[trigger] self.grants_by_agent@[i]).agent@
                    != agent@,
    {
        let mut i: usize = 0;
        while i < self.grants_by_agent.len()
            invariant
                i <= self.grants_by_agent@.len(),
                forall|j: int|
                    0 <= j < i ==> (#[trigger] self.grants_by_agent@[j]).agent@ != agent@,
            decreases self.grants_by_agent@.len() - i,
        {
            if str_eq(self.grants_by_agent[i].agent.as_str(), agent) {
                return Some(i);
            }
            i = i + 1;
        }
        None
    }

    /// Records `capability` for `agent`. Repeated grants append; nothing
    /// is deduplicated. Other agents' grants and the tier are unchanged.
    pub fn grant(&mut self, agent: &str, capability: CapabilityDeclaration)
        requires
            old(self).well_formed(),
        ensures
            final(self).well_formed(),
            final(self).tier() == old(self).tier(),
            final(self).grant_map() == old(self).grant_map().insert(
                agent@,
                if old(self).grant_map().contains_key(agent@) {
                    old(self).grant_map()[agent@].push(capability)
                } else {
                    seq![capability]
                },
            ),
    {
        let ghost before = self.grant_map();
        match self.find_index(agent) {
            Some(i) => {
                proof {
                    self.lemma_map_at(i as int);
                }
                let ghost old_entries = self.grants_by_agent@;
                self.grants_by_agent[i].grants.push(capability);
                proof {
                    assert forall|x: int, y: int|
                        0 <= x < y < self.grants_by_agent@.len() implies (
                        #[trigger] self.grants_by_agent@[x]).agent@ != (
                        #[trigger] self.grants_by_agent@[y]).agent@ by {
                        assert(old_entries[x].agent@ != old_entries[y].agent@);
                    }
                    let newm = self.grant_map();
                    let expect = before.insert(agent@, before[agent@].push(capability));
                    assert forall|a: Seq<char>| #[trigger] newm.contains_key(a) == expect.contains_key(a) by {
                        if expect.contains_key(a) {
                            if a == agent@ {
                                assert(self.grants_by_agent@[i as int].agent@ == a);
                            } else {
                                let k = choose|k: int|
                                    0 <= k < old_entries.len() && (#[trigger] old_entries[k]).agent@ == a;
                                assert(self.grants_by_agent@[k].agent@ == a);
                            }
                        }
                        if newm.contains_key(a) {
                            let k = choose|k: int|
                                0 <= k < self.grants_by_agent@.len() && (
                                #[trigger] self.grants_by_agent@[k]).agent@ == a;
                            assert(old_entries[k].agent@ == a);
                        }
                    }
                    assert forall|a: Seq<char>| #[trigger] newm.contains_key(a) implies newm[a] == expect[a] by {
                        let k = choose|k: int|
                            0 <= k < self.grants_by_agent@.len() && (
                            #[trigger] self.grants_by_agent@[k]).agent@ == a;
                        self.lemma_map_at(k);
                        assert(old_entries[k].agent@ == a);
                        if k != i {
                            assert(old_entries[k] == self.grants_by_agent@[k]);
                        }
                        assert(before[a] == old_entries[k].grants@) by {
                            let kk = choose|kk: int|
                                0 <= kk < old_entries.len() && (#[trigger] old_entries[kk]).agent@
                                    == a;
                            if kk != k {
                                if kk < k {
                                    assert(old_entries[kk].agent@ != old_entries[k].agent@);
                                } else {
                                    assert(old_entries[k].agent@ != old_entries[kk].agent@);
                                }
                            }
                        }
                    }
                    assert(newm =~= expect);
                }
            },
            None => {
                let ghost old_entries = self.grants_by_agent@;
                let mut v: Vec<CapabilityDeclaration> = Vec::new();
                v.push(capability);
                self.grants_by_agent.push(AgentGrants { agent: owned(agent), grants: v });
                proof {
                    let n = old_entries.len();
                    assert(self.grants_by_agent@[n as int].agent@ == agent@);
                    let newm = self.grant_map();
                    let expect = before.insert(agent@, seq![capability]);
                    assert(!before.contains_key(agent@));
                    assert forall|a: Seq<char>| #[trigger] newm.contains_key(a) == expect.contains_key(a) by {
                        if expect.contains_key(a) && a != agent@ {
                            let k = choose|k: int|
                                0 <= k < old_entries.len() && (#[trigger] old_entries[k]).agent@ == a;
                            assert(self.grants_by_agent@[k].agent@ == a);
                        }
                        if newm.contains_key(a) && a != agent@ {
                            let k = choose|k: int|
                                0 <= k < self.grants_by_agent@.len() && (
                                #[trigger] self.grants_by_agent@[k]).agent@ == a;
                            assert(old_entries[k].agent@ == a);
                        }
                    }
                    assert forall|a: Seq<char>| #[trigger] newm.contains_key(a) implies newm[a] == expect[a] by {
                        let k = choose|k: int|
                            0 <= k < self.grants_by_agent@.len() && (
                            #[trigger] self.grants_by_agent@[k]).agent@ == a;
                        self.lemma_map_at(k);
                        if k < n {
                            assert(old_entries[k].agent@ == a);
                            let kk = choose|kk: int|
                                0 <= kk < old_entries.len() && (#[trigger] old_entries[kk]).agent@
                                    == a;
                            if kk != k {
                                if kk < k {
                                    assert(old_entries[kk].agent@ != old_entries[k].agent@);
                                } else {
                                    assert(old_entries[k].agent@ != old_entries[kk].agent@);
                                }
                            }
                        } else {
                            assert(v@ =~= seq![capability]);
                        }
                    }
                    assert(newm =~= expect);
                }
            },
        }
    }

    /// Sets the tier in force. Grants are unchanged.
    pub fn set_tier(&mut self, tier: Tier)
        requires
            old(self).well_formed(),
        ensures
            final(self).well_formed(),
            final(self).tier() == tier,
            final(self).grant_map() == old(self).grant_map(),
    {
        self.current_tier = tier;
    }

    /// The tier in force.
    pub fn current_tier(&self) -> (r: Tier)
        ensures
            r == self.tier(),
    {
        self.current_tier
    }

    /// The tier gate, then the default-deny grant lookup.
    pub fn check(&self, agent: &str, requested: &CapabilityDeclaration) -> (r: Result<
        (),
        CapabilityError,
    >)
        requires
            self.well_formed(),
        ensures
            match check_verdict(self.grant_map(), self.tier(), agent@, *requested) {
                CheckVerdict::Allowed => r is Ok,
                CheckVerdict::TierForbidden => r matches Err(
                    CapabilityError::TierForbidden { agent_id, tier, capability_kind },
                ) && agent_id@ == agent@ && tier == self.tier() && capability_kind
                    == requested.kind,
                CheckVerdict::NoDeclarations => r matches Err(
                    CapabilityError::Denied { agent_id, reason },
                ) && agent_id@ == agent@ && reason == DenyReason::NoDeclarations,
                CheckVerdict::NoMatchingGrant => r matches Err(
                    CapabilityError::Denied { agent_id, reason },
                ) && agent_id@ == agent@ && reason == DenyReason::NoMatchingGrant,
            },
    {
        match TierEvaluator::allows(self.current_tier, requested) {
            Err(TierError::ForbiddenInTier { tier, capability_kind }) => {
                return Err(
                    CapabilityError::TierForbidden { agent_id: owned(agent), tier, capability_kind },
                );
            },
            Ok(()) => {},
        }
        let idx = match self.find_index(agent) {
            Some(i) => i,
            None => {
                proof {
                    assert(!self.grant_map().contains_key(agent@));
                }
                return Err(
                    CapabilityError::Denied {
                        agent_id: owned(agent),
                        reason: DenyReason::NoDeclarations,
                    },
                );
            },
        };
        proof {
            self.lemma_map_at(idx as int);
        }
        if covered_by_any(self.grants_by_agent[idx].grants.as_slice(), requested) {
            return Ok(());
        }
        Err(CapabilityError::Denied { agent_id: owned(agent), reason: DenyReason::NoMatchingGrant })
    }

    /// How many grants are recorded for `agent` (zero when none).
    pub fn grant_count(&self, agent: &str) -> (r: usize)
        requires
            self.well_formed(),
        ensures
            r == (if self.grant_map().contains_key(agent@) {
                self.grant_map()[agent@].len()
            } else {
                0
            }),
    {
        match self.find_index(agent) {
            Some(i) => {
                proof {
                    self.lemma_map_at(i as int);
                }
                self.grants_by_agent[i].grants.len()
            },
            None => 0,
        }
    }

    /// The grants recorded for `agent`, in grant order; empty when none.
    pub fn grants_for(&self, agent: &str) -> (r: &[CapabilityDeclaration])
        requires
            self.well_formed(),
        ensures
            r@ == (if self.grant_map().contains_key(agent@) {
                self.grant_map()[agent@]
            } else {
                Seq::<CapabilityDeclaration>::empty()
            }),
            r@.len() == 0 <==> !self.grant_map().contains_key(agent@),
    {
        match self.find_index(agent) {
            Some(i) => {
                proof {
                    self.lemma_map_at(i as int);
                    self.lemma_recorded_grants_non_empty(agent@);
                }
                self.grants_by_agent[i].grants.as_slice()
            },
            None => &[],
        }
    }
}

impl Default for CapabilityEnforcer {
    /// The same empty enforcer as `new`.
    fn default() -> (r: Self)
        ensures
            r.well_formed(),
            r.grant_map() == Map::<Seq<char>, Seq<CapabilityDeclaration>>::empty(),
            r.tier() == Tier::Novice,
    {
        CapabilityEnforcer::new()
    }
}

} // verus!
