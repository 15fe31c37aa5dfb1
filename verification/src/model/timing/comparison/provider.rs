//! Comparison providers.
use super::Comparison;
use vstd::prelude::*;

verus! {

/// Enumeration of errors that can occur when getting a comparison.
#[derive(Clone, Debug)]
pub enum Error {
    /// An arbitrary error has occurred while getting the comparison; the message says what.
    Other(String),
}

/// Trait of objects that can provide comparisons.
pub trait Provider {
    /// Gets the current comparison for a game-category, if there is one.
    fn comparison(&mut self) -> Result<Option<Comparison>, Error>;
}

/// A provider that never provides comparisons.
pub struct Null;

impl Provider for Null {
    fn comparison(&mut self) -> (r: Result<Option<Comparison>, Error>)
        ensures
            r matches Ok(None),
    {
        Ok(None)
    }
}

/// Comparisons, themselves, are comparison providers.
impl Provider for Comparison {
    fn comparison(&mut self) -> (r: Result<Option<Comparison>, Error>)
        ensures
            r matches Ok(Some(c)) && c.run == old(self).run && c.splits.entries@.len()
                == old(self).splits.entries@.len() && (forall|i: int|
                0 <= i < c.splits.entries@.len() ==> (#[trigger] c.splits.entries@[i]).0@
                    == old(self).splits.entries@[i].0@ && c.splits.entries@[i].1
                    == old(self).splits.entries@[i].1),
            *final(self) == *old(self),
    {
        Ok(Some(Comparison { splits: self.splits.copy(), run: self.run }))
    }
}

} // verus!
