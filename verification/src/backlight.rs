//! Backlight interface for keyboard hardware.
//!
//! For keyboards that do not support backlight, the type [`NoBacklight`]
//! provides a no-op implementation.

use vstd::prelude::*;

verus! {

/// The level a clamping `set_level` call settles on: the requested level,
/// cut off at the highest level that exists.
pub open spec fn clamped_level(level: u8, num_levels: u8) -> u8 {
    if level < num_levels {
        level
    } else {
        (num_levels - 1) as u8
    }
}

/// A dimmable backlight with a fixed number of levels.
///
/// Level 0 is off; the highest level is `num_levels() - 1`. Implementations
/// keep the current level inside that range and clamp what `set_level` is
/// given, which is all the stepping operations build on.
/// Verified implementations override the two spec observers with their real
/// state; the defaults describe the trivial backlight with a single dark
/// level, so implementations outside the proofs need only supply the
/// executable methods.
pub trait Backlight: Sized {
    /// The number of levels this backlight can show.
    open spec fn spec_num_levels(&self) -> u8 {
        1
    }

    /// The level currently shown.
    open spec fn spec_level(&self) -> u8 {
        0
    }

    /// Number of backlight levels/states, including the zero/off state.
    ///
    /// If there is no backlight, then the only allowed state is zero, and
    /// `num_levels` is 1.
    fn num_levels(&self) -> (r: u8)
        ensures
            r == self.spec_num_levels(),
            r >= 1,
    ;

    /// The current backlight level, always within `0..num_levels()`.
    fn level(&self) -> (r: u8)
        ensures
            r == self.spec_level(),
            r < self.spec_num_levels(),
    ;

    /// Set the current level to `level`.
    ///
    /// Allowable values are in the range `0..self.num_levels()` (maximum is
    /// `self.num_levels() - 1`). Values outside this range are clamped.
    fn set_level(&mut self, level: u8)
        ensures
            final(self).spec_num_levels() == old(self).spec_num_levels(),
            final(self).spec_level() == clamped_level(level, old(self).spec_num_levels()),
    ;

    /// Increments the current level by one. Does nothing if the backlight is
    /// already at the max level.
    fn increase(&mut self)
        ensures
            final(self).spec_num_levels() == old(self).spec_num_levels(),
            final(self).spec_level() == if old(self).spec_level() + 1 < old(
                self,
            ).spec_num_levels() {
                old(self).spec_level() + 1
            } else {
                old(self).spec_level() as int
            },
    {
        let level = self.level();
        if level < self.num_levels() - 1 {
            self.set_level(level + 1);
        }
    }

    /// Decrements the current level by one. Does nothing if the backlight is
    /// already at the zero level.
    fn decrease(&mut self)
        ensures
            final(self).spec_num_levels() == old(self).spec_num_levels(),
            final(self).spec_level() == if old(self).spec_level() > 0 {
                old(self).spec_level() - 1
            } else {
                0
            },
    {
        let level = self.level();
        if level > 0 {
            self.set_level(level - 1);
        }
    }

    /// Cycles through backlight levels in increasing order. Loops around to
    /// zero after the maximum level is reached.
    fn cycle_step(&mut self)
        ensures
            final(self).spec_num_levels() == old(self).spec_num_levels(),
            final(self).spec_level() == (old(self).spec_level() + 1) % (old(
                self,
            ).spec_num_levels() as int),
    {
        let level = self.level();
        let num = self.num_levels();
        self.set_level((level + 1) % num);
    }
}

/// The backlight of a keyboard without one: a single level, always zero.
pub struct NoBacklight;

impl Backlight for NoBacklight {
    open spec fn spec_num_levels(&self) -> u8 {
        1
    }

    open spec fn spec_level(&self) -> u8 {
        0
    }

    fn num_levels(&self) -> u8 {
        1
    }

    fn level(&self) -> u8 {
        0
    }

    fn set_level(&mut self, level: u8) {
    }
}

} // verus!
