//! The framework builder's pure core: persistence helpers, the
//! whole-framework capability summary, the tester's trace fold and the
//! validation report.

pub mod persist;
pub mod tester;
pub mod summary;
pub mod validate;
