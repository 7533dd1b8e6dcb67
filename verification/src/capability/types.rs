//! Capability declarations, the user tier, and the tier gate.

use vstd::prelude::*;

verus! {

/// Coarse category of a capability.
#[derive(Clone, Copy, Debug, PartialEq, Eq, Structural)]
pub enum CapabilityKind {
    /// Read access to a resource.
    Read,
    /// Write access to a resource.
    Write,
    /// Execute a tool or skill.
    Exec,
    /// Network egress.
    Network,
    /// Spawn a process or sub-agent.
    ProcessSpawn,
}

/// Side-effect classification of a capability.
#[derive(Clone, Copy, Debug, PartialEq, Eq, Structural)]
pub enum SideEffectClass {
    /// No side effects.
    Pure,
    /// Mutates the filesystem.
    FilesystemMutate,
    /// Sends data over the network.
    NetworkEgress,
    /// Spawns processes.
    ProcessSpawn,
    /// Side effects that cannot be undone.
    Irreversible,
}

/// Where a capability applies: a glob, a network domain, or a path prefix.
#[derive(Clone, Debug)]
pub enum CapabilityScope {
    /// A glob pattern (`src/**`).
    Glob(String),
    /// A network domain (`api.example.com` or `.example.com`).
    Domain(String),
    /// A filesystem path prefix (`src`).
    Path(String),
}

impl CapabilityScope {
    /// A field-for-field copy.
    pub fn duplicate(&self) -> (r: Self)
        ensures
            r == *self,
    {
        match self {
            CapabilityScope::Glob(g) => CapabilityScope::Glob(g.clone()),
            CapabilityScope::Domain(d) => CapabilityScope::Domain(d.clone()),
            CapabilityScope::Path(p) => CapabilityScope::Path(p.clone()),
        }
    }
}

/// One capability: what kind, on which resource, in which scope, with
/// which side-effect class.
#[derive(Clone, Debug)]
pub struct CapabilityDeclaration {
    /// Coarse category.
    pub kind: CapabilityKind,
    /// Target identifier.
    pub resource: String,
    /// Where the capability applies.
    pub scope: CapabilityScope,
    /// Side-effect classification.
    pub side_effect_class: SideEffectClass,
}

impl CapabilityDeclaration {
    /// A field-for-field copy.
    pub fn duplicate(&self) -> (r: Self)
        ensures
            r == *self,
    {
        CapabilityDeclaration {
            kind: self.kind,
            resource: self.resource.clone(),
            scope: self.scope.duplicate(),
            side_effect_class: self.side_effect_class,
        }
    }
}

/// A scope as plain values.
pub enum ScopeView {
    /// A glob pattern.
    Glob(Seq<char>),
    /// A network domain.
    Domain(Seq<char>),
    /// A path prefix.
    Path(Seq<char>),
}

/// A declaration as plain values.
pub struct DeclView {
    /// Coarse category.
    pub kind: CapabilityKind,
    /// Target identifier.
    pub resource: Seq<char>,
    /// Where the capability applies.
    pub scope: ScopeView,
    /// Side-effect classification.
    pub side_effect_class: SideEffectClass,
}

impl View for CapabilityScope {
    type V = ScopeView;

    open spec fn view(&self) -> ScopeView {
        match self {
            CapabilityScope::Glob(g) => ScopeView::Glob(g@),
            CapabilityScope::Domain(d) => ScopeView::Domain(d@),
            CapabilityScope::Path(p) => ScopeView::Path(p@),
        }
    }
}

impl View for CapabilityDeclaration {
    type V = DeclView;

    open spec fn view(&self) -> DeclView {
        DeclView {
            kind: self.kind,
            resource: self.resource@,
            scope: self.scope@,
            side_effect_class: self.side_effect_class,
        }
    }
}

/// Copies a slice of declarations element by element.
pub fn duplicate_all(decls: &[CapabilityDeclaration]) -> (r: Vec<CapabilityDeclaration>)
    ensures
        r@ == decls@,
{
    let mut out: Vec<CapabilityDeclaration> = Vec::new();
    let mut i: usize = 0;
    while i < decls.len()
        invariant
            i <= decls@.len(),
            out@ == decls@.subrange(0, i as int),
        decreases decls@.len() - i,
    {
        out.push(decls[i].duplicate());
        i = i + 1;
    }
    proof {
        assert(decls@.subrange(0, decls@.len() as int) =~= decls@);
    }
    out
}

/// The user's trust tier. New users start as `Novice`.
#[derive(Clone, Copy, Debug, PartialEq, Eq, Structural)]
pub enum Tier {
    /// Default-safe tier: only reads and domain-scoped network access.
    Novice,
    /// Promoted tier: the tier gate passes every request through.
    Promoted,
}

impl Default for Tier {
    fn default() -> (r: Self)
        ensures
            r == Tier::Novice,
    {
        Tier::Novice
    }
}

/// Rejection raised by the tier gate.
#[derive(Clone, Debug, PartialEq, Eq, Structural)]
pub enum TierError {
    /// The tier's allowlist excludes the requested kind.
    ForbiddenInTier {
        /// The tier that rejected the request.
        tier: Tier,
        /// The requested kind.
        capability_kind: CapabilityKind,
    },
}

/// Does `tier` let `requested` through its allowlist?
///
/// A novice may only read, or reach the network within a domain scope; a
/// promoted user is not restricted.
pub open spec fn tier_permits(tier: Tier, requested: CapabilityDeclaration) -> bool {
    match tier {
        Tier::Novice => requested.kind == CapabilityKind::Read || (requested.kind
            == CapabilityKind::Network && requested.scope is Domain),
        Tier::Promoted => true,
    }
}

/// The tier gate that runs before any per-agent grant lookup.
pub struct TierEvaluator;

impl TierEvaluator {
    /// `Ok(())` when `tier` permits `requested`; otherwise
    /// `ForbiddenInTier` naming the tier and the requested kind.
    pub fn allows(tier: Tier, requested: &CapabilityDeclaration) -> (r: Result<(), TierError>)
        ensures
            r is Ok <==> tier_permits(tier, *requested),
            r is Err ==> r == Err::<(), TierError>(
                TierError::ForbiddenInTier { tier, capability_kind: requested.kind },
            ),
    {
        let permitted = match tier {
            Tier::Novice => match requested.kind {
                CapabilityKind::Read => true,
                CapabilityKind::Network => match requested.scope {
                    CapabilityScope::Domain(_) => true,
                    _ => false,
                },
                _ => false,
            },
            Tier::Promoted => true,
        };
        if permitted {
            Ok(())
        } else {
            Err(TierError::ForbiddenInTier { tier, capability_kind: requested.kind })
        }
    }
}

} // verus!
