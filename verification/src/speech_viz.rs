//! The live speech level shown while recording.
use vstd::prelude::*;

verus! {

/// The speech level (the bit pattern of an `f32` in 0.0..=1.0, which is all
/// that is stored) and whether it is live.
pub struct SpeechVizState {
    level_bits: u32,
    active: bool,
}

impl SpeechVizState {
    /// The stored level bits.
    pub closed spec fn level_spec(&self) -> u32 {
        self.level_bits
    }

    /// Whether the level is live.
    pub closed spec fn active_spec(&self) -> bool {
        self.active
    }

    /// Level 0.0 (whose bits are all zero), not live.
    pub fn new() -> (r: Self)
        ensures
            r.level_spec() == 0,
            !r.active_spec(),
    {
        SpeechVizState { level_bits: 0, active: false }
    }

    /// Stores the bits of a level that has already been clamped to 0.0..=1.0.
    pub fn store_level_bits(&mut self, bits: u32)
        ensures
            final(self).level_spec() == bits,
            final(self).active_spec() == old(self).active_spec(),
    {
        self.level_bits = bits;
    }

    /// The stored level bits.
    pub fn level_bits(&self) -> (r: u32)
        ensures
            r == self.level_spec(),
    {
        self.level_bits
    }

    /// Marks the level live or not.
    pub fn set_active(&mut self, active: bool)
        ensures
            final(self).active_spec() == active,
            final(self).level_spec() == old(self).level_spec(),
    {
        self.active = active;
    }

    /// Whether the level is live.
    pub fn is_active(&self) -> (r: bool)
        ensures
            r == self.active_spec(),
    {
        self.active
    }

    /// Stops the level being live; the level stays.
    pub fn deactivate(&mut self)
        ensures
            !final(self).active_spec(),
            final(self).level_spec() == old(self).level_spec(),
    {
        self.set_active(false);
    }

    /// Level back to 0.0 and not live.
    pub fn reset(&mut self)
        ensures
            final(self).level_spec() == 0,
            !final(self).active_spec(),
    {
        self.store_level_bits(0);
        self.set_active(false);
    }
}

} // verus!
