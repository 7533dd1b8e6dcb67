//! Human-in-the-loop: the nine-trigger policy evaluator, the notifier
//! registry, and the values exchanged with the seam.

pub mod notifiers;
pub mod policy;
pub mod seam;
