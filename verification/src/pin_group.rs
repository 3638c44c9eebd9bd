//! Logical groups of digital lines.
//!
//! A group is a fixed-size collection of lines addressed by index. How the
//! lines are driven or sampled is the hardware's business; the contracts
//! here only fix the group's size and that driving a line cannot resize it.

use vstd::prelude::*;

verus! {

/// A fixed-size group of output lines.
///
/// Verified implementations override the two spec observers with their real
/// state; the defaults describe an empty group, so implementations outside
/// the proofs need only supply the executable methods.
pub trait OutputGroup {
    type Error;

    /// The number of lines in the group.
    open spec fn spec_len(&self) -> usize {
        0
    }

    /// Whether the line at `index` is driven to its low level. A line that
    /// is not low is either driven high or left floating (for open-drain
    /// outputs); the two are not distinguished here.
    open spec fn spec_line_low(&self, index: int) -> bool {
        false
    }

    /// The number of lines in the group.
    fn len(&self) -> (r: usize)
        ensures
            r == self.spec_len(),
    ;

    /// Drives the line at `index` low, leaving every other line alone.
    fn set_low(&mut self, index: usize) -> (r: Result<(), Self::Error>)
        requires
            index < old(self).spec_len(),
        ensures
            final(self).spec_len() == old(self).spec_len(),
            r is Ok ==> final(self).spec_line_low(index as int),
            r is Ok ==> forall|j: int|
                0 <= j < old(self).spec_len() && j != index ==> final(self).spec_line_low(j)
                    == old(self).spec_line_low(j),
    ;

    /// Takes the line at `index` off its low level (driving it high or
    /// leaving it floating), leaving every other line alone.
    fn set_high(&mut self, index: usize) -> (r: Result<(), Self::Error>)
        requires
            index < old(self).spec_len(),
        ensures
            final(self).spec_len() == old(self).spec_len(),
            r is Ok ==> !final(self).spec_line_low(index as int),
            r is Ok ==> forall|j: int|
                0 <= j < old(self).spec_len() && j != index ==> final(self).spec_line_low(j)
                    == old(self).spec_line_low(j),
    ;
}

/// A fixed-size group of input lines.
pub trait InputGroup {
    type Error;

    /// The number of lines in the group; zero by default, overridden by
    /// verified implementations.
    open spec fn spec_len(&self) -> usize {
        0
    }

    /// The number of lines in the group.
    fn len(&self) -> (r: usize)
        ensures
            r == self.spec_len(),
    ;

    /// Samples the line at `index`: true when it reads low.
    fn is_low(&self, index: usize) -> (r: Result<bool, Self::Error>)
        requires
            index < self.spec_len(),
    ;

    /// Samples the line at `index`: true when it reads high.
    fn is_high(&self, index: usize) -> (r: Result<bool, Self::Error>)
        requires
            index < self.spec_len(),
    ;
}

} // verus!
