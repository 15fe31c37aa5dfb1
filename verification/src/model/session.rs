//! Sessions: the attempt in progress, the actions that change it, and the events it emits.
pub mod action;
pub mod event;
pub mod state;

pub use action::Action;
pub use event::Event;
pub use state::State;

use super::game::category;
use super::run;
use vstd::prelude::*;

verus! {

/// An attempt at a game-category, with its splits and their times.
#[derive(Debug)]
pub struct Attempt {
    /// The game-category being attempted.
    pub category: category::Info,
    /// Counts of attempts at this game-category.
    pub info: category::AttemptInfo,
    /// The splits of the attempt.
    pub splits: Vec<run::Split>,
}

} // verus!
