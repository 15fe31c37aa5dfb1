//! The cursor struct and associated functionality.
use vstd::prelude::*;

verus! {

/// A bounded cursor: its position never exceeds its maximum.
#[derive(Copy, Clone, Debug, PartialEq, Eq, Structural)]
pub struct Cursor {
    /// The current position.
    pos: usize,
    /// The maximum position.
    max: usize,
}

/// A cursor motion.
#[derive(Copy, Clone, Debug, PartialEq, Eq, Structural)]
pub enum Motion {
    /// Move the cursor up.
    Up,
    /// Move the cursor down.
    Down,
}

impl Cursor {
    #[verifier::type_invariant]
    spec fn inv(self) -> bool {
        self.pos <= self.max
    }

    /// The current position.
    pub closed spec fn spec_pos(self) -> nat {
        self.pos as nat
    }

    /// The maximum position.
    pub closed spec fn spec_max(self) -> nat {
        self.max as nat
    }

    /// The position after moving up by `n` from `pos` (stopping at the top).
    pub open spec fn up_from(pos: nat, n: nat) -> nat {
        if pos <= n {
            0
        } else {
            (pos - n) as nat
        }
    }

    /// The position after moving down by `n` from `pos` (stopping at `max`).
    pub open spec fn down_from(pos: nat, max: nat, n: nat) -> nat {
        if max <= pos + n {
            max
        } else {
            pos + n
        }
    }

    /// Creates a new cursor at the top, with the given maximum index.
    pub fn new(max: usize) -> (c: Self)
        ensures
            c.spec_pos() == 0,
            c.spec_max() == max,
    {
        Self { pos: 0, max }
    }

    /// Gets the current cursor position, which is never above the maximum.
    pub fn position(&self) -> (p: usize)
        ensures
            p == self.spec_pos(),
            p <= self.spec_max(),
    {
        proof {
            use_type_invariant(self);
        }
        self.pos
    }

    /// Gets the maximum cursor position.
    pub fn max(&self) -> (m: usize)
        ensures
            m == self.spec_max(),
    {
        self.max
    }

    /// Moves the cursor up by `n`, returning whether the position changed.
    pub fn move_up(&mut self, n: usize) -> (moved: bool)
        ensures
            final(self).spec_max() == old(self).spec_max(),
            final(self).spec_pos() == Self::up_from(old(self).spec_pos(), n as nat),
            moved == (final(self).spec_pos() != old(self).spec_pos()),
            final(self).spec_pos() <= final(self).spec_max(),
    {
        proof {
            use_type_invariant(&*self);
        }
        let before = self.pos;
        if self.pos <= n {
            self.pos = 0;
        } else {
            self.pos = self.pos - n;
        }
        self.pos != before
    }

    /// Moves the cursor down by `n`, returning whether the position changed.
    pub fn move_down(&mut self, n: usize) -> (moved: bool)
        ensures
            final(self).spec_max() == old(self).spec_max(),
            final(self).spec_pos() == Self::down_from(
                old(self).spec_pos(),
                old(self).spec_max(),
                n as nat,
            ),
            moved == (final(self).spec_pos() != old(self).spec_pos()),
            final(self).spec_pos() <= final(self).spec_max(),
    {
        proof {
            use_type_invariant(&*self);
        }
        let before = self.pos;
        if self.max - self.pos <= n {
            self.pos = self.max;
        } else {
            self.pos = self.pos + n;
        }
        self.pos != before
    }

    /// Moves the cursor in the direction of `m` by `multiplier` positions, returning whether
    /// the position changed.
    pub fn move_by(&mut self, m: Motion, multiplier: usize) -> (moved: bool)
        ensures
            final(self).spec_max() == old(self).spec_max(),
            final(self).spec_pos() <= final(self).spec_max(),
            moved == (final(self).spec_pos() != old(self).spec_pos()),
            m == Motion::Up ==> final(self).spec_pos() == Self::up_from(
                old(self).spec_pos(),
                multiplier as nat,
            ),
            m == Motion::Down ==> final(self).spec_pos() == Self::down_from(
                old(self).spec_pos(),
                old(self).spec_max(),
                multiplier as nat,
            ),
    {
        match m {
            Motion::Up => self.move_up(multiplier),
            Motion::Down => self.move_down(multiplier),
        }
    }
}

} // verus!
