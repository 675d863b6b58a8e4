use vstd::prelude::*;

verus! {

/// Master clock frequency of the DMG in Hz.
pub const CLOCK_SPEED: u32 = 4_194_304;

/// Counts the T-cycles the machine has run.
pub struct Clock {
    ticks: u128,
}

impl View for Clock {
    type V = u128;

    /// The number of T-cycles counted, modulo 2^128.
    closed spec fn view(&self) -> u128 {
        self.ticks
    }
}

impl Clock {
    pub fn new() -> (r: Self)
        ensures
            r@ == 0,
    {
        Self { ticks: 0 }
    }

    pub fn tick(&mut self, cycles: u8)
        ensures
            final(self)@ == old(self)@.wrapping_add(cycles as u128),
    {
        self.ticks = self.ticks.wrapping_add(cycles as u128);
    }

    pub fn get_ticks(&self) -> (r: u128)
        ensures
            r == self@,
    {
        self.ticks
    }

    /// Frequency of the counted clock in Hz.
    pub fn speed(&self) -> (r: u32)
        ensures
            r == CLOCK_SPEED,
    {
        CLOCK_SPEED
    }
}

} // verus!
