//! Errors raised by the enforcer and the narrowing evaluator.

use vstd::prelude::*;

use crate::capability::enforcer::DenyReason;
use crate::capability::types::{CapabilityDeclaration, CapabilityKind, Tier};
use crate::framework::capability_map::{declaration_text, narrowed_from_text};
use crate::text::concat;

verus! {

/// Errors raised by `CapabilityEnforcer::check`.
#[derive(Debug)]
pub enum CapabilityError {
    /// The grant lookup rejected the request.
    Denied {
        /// The agent whose dispatch was rejected.
        agent_id: String,
        /// Why the dispatch was denied.
        reason: DenyReason,
    },
    /// The tier gate rejected the request before any grant was consulted.
    TierForbidden {
        /// The agent whose dispatch was rejected.
        agent_id: String,
        /// The tier that rejected the request.
        tier: Tier,
        /// The requested kind the tier's allowlist excludes.
        capability_kind: CapabilityKind,
    },
}

/// Errors raised by `narrow`.
#[derive(Debug)]
pub enum NarrowingError {
    /// A proposed child capability is not covered by any parent grant.
    CapabilityNotHeldByParent {
        /// The first proposed declaration no parent grant covers.
        proposed: Box<CapabilityDeclaration>,
    },
}

impl NarrowingError {
    /// `proposed capability is not held by parent: <kind:resource:scope:class>`.
    pub fn message(&self) -> (r: String)
        ensures
            r@ == match self {
                NarrowingError::CapabilityNotHeldByParent { proposed } =>
                    "proposed capability is not held by parent: "@ + narrowed_from_text(proposed@),
            },
    {
        match self {
            NarrowingError::CapabilityNotHeldByParent { proposed } => {
                let t = declaration_text(proposed);
                concat("proposed capability is not held by parent: ", t.as_str())
            },
        }
    }
}

} // verus!
