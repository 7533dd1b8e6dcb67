//! Agent runtime policy library: capability grants, narrowing, gap
//! detection, human-in-the-loop policy, cost caching and the drone's
//! pure decision logic.

pub mod text;
pub mod capability;
pub mod framework;
pub mod hitl;
pub mod budget;
pub mod runtime;
pub mod audit;
pub mod builder;
