//! Budget support: the token-cost cache and the model-tier ladder.

pub mod cost;
pub mod ladder;
pub mod threshold;
