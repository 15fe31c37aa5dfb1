//! Storage for aggregate times on splits.
//!
//! zombiesplit tracks two [Scope]s of aggregate (total across all times in the split, and
//! cumulative totals over all splits up to and including the split), and two [Source]s (from the
//! current attempt, and from the comparison).
pub mod index;
pub mod set;

pub use index::{Kind, Scope, Source};
pub use set::{Full, AggregateSet};
