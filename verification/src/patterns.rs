//! Patterns that are drawn on the strip, one frame after another.
use crate::color::RGB8;
use vstd::prelude::*;

pub mod laws;
pub mod meaning;
pub mod stars;

verus! {

/// A pattern that redraws the strip frame by frame.
pub trait Pattern {
    /// The pattern can be drawn on a strip of `len` LEDs.
    spec fn fits(&self, len: nat) -> bool;

    /// The time from one frame to the next, in milliseconds.
    fn update_rate(&self) -> u64;

    /// Advances the pattern by one frame and draws it on the strip.
    fn update(&mut self, colors: &mut [RGB8])
        requires
            old(self).fits(old(colors)@.len()),
        ensures
            final(self).fits(old(colors)@.len()),
            final(colors)@.len() == old(colors)@.len(),
    ;
}

} // verus!
