//! Presenter-level types for handling splits.
use crate::model::run::Split;
use vstd::prelude::*;

verus! {

/// A split reference, containing position information for the split.
#[derive(Copy, Clone)]
pub struct Ref<'a> {
    /// The index of the split reference.
    pub index: usize,
    /// The cursor position of the presenter, if a run is underway.
    pub cursor: Option<usize>,
    /// The split data.
    pub split: &'a Split,
}

/// Relative positions of splits to cursors.
#[derive(Clone, Copy, Debug, PartialEq, Eq, Structural, PartialOrd, Ord, Hash)]
pub enum Position {
    /// This split is before the cursor.
    Done,
    /// This split is on the cursor.
    Cursor,
    /// This split is after the cursor.
    Coming,
}

impl<'a> Ref<'a> {
    /// Gets where this split stands relative to the cursor: every split is still to come when
    /// no run is underway.
    pub fn position(&self) -> (p: Position)
        ensures
            match self.cursor {
                None => p == Position::Coming,
                Some(c) => if self.index < c {
                    p == Position::Done
                } else if self.index == c {
                    p == Position::Cursor
                } else {
                    p == Position::Coming
                },
            },
    {
        match self.cursor {
            Some(c) => if self.index < c {
                Position::Done
            } else if self.index == c {
                Position::Cursor
            } else {
                Position::Coming
            },
            None => Position::Coming,
        }
    }
}

} // verus!
