//! Framework documents: the model the runtime reads, Layer-1 gap
//! detection, and the mapping from an agent's coarse capabilities
//! block to capability declarations.

pub mod model;
pub mod walker;
pub mod capability_map;
pub mod loader;
