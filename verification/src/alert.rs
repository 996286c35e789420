//! Judgements on a single reading: is it stale, and which flood stage has it
//! reached.

pub mod stalenesses;
pub mod thresholds;
