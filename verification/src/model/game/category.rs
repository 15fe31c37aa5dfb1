//! Game-category information.
use crate::model::short;
use vstd::prelude::*;

verus! {

/// Counts of attempts at a game-category.
#[derive(Copy, Clone, Debug, PartialEq, Eq, Structural)]
pub struct AttemptInfo {
    /// The total number of attempts.
    pub total: usize,
    /// The number of completed attempts.
    pub completed: usize,
}

impl Default for AttemptInfo {
    fn default() -> (a: Self)
        ensures
            a.total == 0 && a.completed == 0,
    {
        AttemptInfo { total: 0, completed: 0 }
    }
}

/// A pair of short names identifying a game-category.
#[derive(Clone, Debug)]
pub struct ShortDescriptor {
    /// The short name of the game.
    pub game: short::Name,
    /// The short name of the category.
    pub category: short::Name,
}

impl ShortDescriptor {
    /// Constructs a descriptor from the short names of a game and a category.
    pub fn new(game: &str, category: &str) -> (d: Self)
        ensures
            d.game@ == game@,
            d.category@ == category@,
    {
        ShortDescriptor { game: short::Name::from_str(game), category: short::Name::from_str(category) }
    }
}

/// Information about a game-category.
#[derive(Clone, Debug)]
pub struct Info {
    /// The display name of the game.
    pub game: String,
    /// The display name of the category.
    pub category: String,
    /// The short names of the game and category.
    pub short: ShortDescriptor,
}

} // verus!
