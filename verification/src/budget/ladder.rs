//! The model ladder a budget downshift walks: opus, then sonnet, then
//! haiku. Models are placed on the ladder by their id.

use vstd::prelude::*;

use crate::text::{ascii_lowercase, chars_contain, seq_contains_sub, to_ascii_lowercase};

verus! {

/// A model's place on the ladder.
#[derive(Clone, Copy, Debug, PartialEq, Eq, Structural)]
pub enum ModelTier {
    /// An opus model.
    Opus,
    /// A sonnet model.
    Sonnet,
    /// A haiku model.
    Haiku,
    /// Not on the ladder.
    Unknown,
}

/// The tier of a model id: the first of `opus`, `sonnet`, `haiku` that
/// occurs in the ASCII-lowercased id.
pub open spec fn tier_of(model: Seq<char>) -> ModelTier {
    let lower = ascii_lowercase(model);
    if seq_contains_sub(lower, "opus"@) {
        ModelTier::Opus
    } else if seq_contains_sub(lower, "sonnet"@) {
        ModelTier::Sonnet
    } else if seq_contains_sub(lower, "haiku"@) {
        ModelTier::Haiku
    } else {
        ModelTier::Unknown
    }
}

/// Places a model id on the ladder by name, ignoring ASCII case.
pub fn classify_tier(model: &str) -> (r: ModelTier)
    ensures
        r == tier_of(model@),
{
    let lower = to_ascii_lowercase(model);
    if chars_contain(&lower, "opus") {
        ModelTier::Opus
    } else if chars_contain(&lower, "sonnet") {
        ModelTier::Sonnet
    } else if chars_contain(&lower, "haiku") {
        ModelTier::Haiku
    } else {
        ModelTier::Unknown
    }
}

} // verus!
