//! Capability enforcement: the per-agent grant check, the parent-to-child
//! narrowing evaluator, and the predicates both rest on.

pub mod declaration;
pub mod enforcer;
pub mod error;
pub mod narrowing;
pub mod types;
