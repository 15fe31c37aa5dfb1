//! zombiesplit's notion of times.
pub mod error;
pub mod field;
pub mod human;
pub mod position;

pub use error::Error;
pub use field::Field;
pub use position::Position;

use vstd::prelude::*;

verus! {

/// A time.
///
/// Times (more correctly, durations) are represented internally as a number of milliseconds.
/// The representation can stretch to several days before overflow.
#[derive(Copy, Clone, Debug, PartialEq, Eq, Structural, PartialOrd, Ord, Hash)]
pub struct Time(pub i32);

impl View for Time {
    type V = int;

    open spec fn view(&self) -> int {
        self.0 as int
    }
}

/// Whether `x` can be stored as a millisecond count.
pub open spec fn fits_i32(x: int) -> bool {
    i32::MIN <= x <= i32::MAX
}

/// The sum, in milliseconds, of a sequence of times.
pub open spec fn sum_millis(times: Seq<Time>) -> int
    decreases times.len(),
{
    if times.len() == 0 {
        0
    } else {
        sum_millis(times.drop_last()) + times.last()@
    }
}

/// Every running total of `times`, from the left, can be stored as a millisecond count.
pub open spec fn prefix_sums_fit(times: Seq<Time>) -> bool {
    forall|i: int| 0 <= i <= times.len() ==> #[trigger] fits_i32(sum_millis(times.take(i)))
}

impl Default for Time {
    fn default() -> (t: Self)
        ensures
            t@ == 0,
    {
        Time(0)
    }
}

impl Time {
    /// Creates a time from a signed millisecond representation.
    pub fn from_millis(amount: i32) -> (t: Self)
        ensures
            t@ == amount,
    {
        Time(amount)
    }

    /// Converts this time to a signed millisecond representation.
    pub fn into_millis(self) -> (ms: i32)
        ensures
            ms == self@,
    {
        self.0
    }

    /// The zero time.
    pub fn zero() -> (t: Self)
        ensures
            t@ == 0,
    {
        Time(0)
    }

    /// Adds two times; the sum must be representable.
    pub fn plus(self, rhs: Self) -> (t: Self)
        requires
            fits_i32(self@ + rhs@),
        ensures
            t@ == self@ + rhs@,
    {
        Time(self.0 + rhs.0)
    }

    /// Subtracts `rhs` from this time; the difference must be representable.
    pub fn minus(self, rhs: Self) -> (t: Self)
        requires
            fits_i32(self@ - rhs@),
        ensures
            t@ == self@ - rhs@,
    {
        Time(self.0 - rhs.0)
    }

    /// Sums a sequence of times, whose running totals must all be representable.
    pub fn sum(times: &[Time]) -> (t: Self)
        requires
            prefix_sums_fit(times@),
        ensures
            t@ == sum_millis(times@),
    {
        let mut acc: i32 = 0;
        let mut i: usize = 0;
        while i < times.len()
            invariant
                i <= times@.len(),
                prefix_sums_fit(times@),
                acc == sum_millis(times@.take(i as int)),
            decreases times@.len() - i,
        {
            assert(times@.take(i as int + 1).drop_last() =~= times@.take(i as int));
            assert(fits_i32(sum_millis(times@.take(i as int + 1))));
            acc = acc + times[i].0;
            i = i + 1;
        }
        assert(times@.take(times@.len() as int) =~= times@);
        Time(acc)
    }
}

/// Adding a time and then subtracting it again gives back the original time.
pub proof fn law_add_then_sub(t1: Time, t2: Time)
    requires
        fits_i32(t1@ + t2@),
    ensures
        fits_i32((t1@ + t2@) - t2@),
        (t1@ + t2@) - t2@ == t1@,
{
}

/// Subtracting a time and then adding it again gives back the original time: subtraction
/// does not saturate, even below zero.
pub proof fn law_sub_then_add(t1: Time, t2: Time)
    requires
        fits_i32(t1@ - t2@),
    ensures
        fits_i32((t1@ - t2@) + t2@),
        (t1@ - t2@) + t2@ == t1@,
{
}

} // verus!
