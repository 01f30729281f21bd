//! Network milestones that the animator shows as a partial-strip blink.
use vstd::prelude::*;

verus! {

/// Number of pixels on the strip.
pub const LEDS: usize = 50;

/// Pause between the phases of a milestone blink, in milliseconds.
pub const BLINK_INTERVAL_MS: u64 = 100;

/// A connectivity milestone, sized relative to the strip.
#[derive(Debug, Clone, Copy, PartialEq, Eq, Structural)]
pub struct Ready {
    /// Pixels lit steadily.
    pub enlight: u8,
    /// Pixels that blink after the steady ones; also the number of blink cycles.
    pub blink: u8,
    /// Pause between blink phases, in milliseconds.
    pub blink_wait_ms: u64,
}

impl Ready {
    /// "Address acquired": a quarter of the strip lit, a quarter blinking.
    pub fn ip() -> (r: Self)
        ensures
            r.enlight == LEDS / 4,
            r.blink == LEDS / 4,
            r.blink_wait_ms == BLINK_INTERVAL_MS,
    {
        Ready { enlight: (LEDS / 4) as u8, blink: (LEDS / 4) as u8, blink_wait_ms: BLINK_INTERVAL_MS }
    }

    /// "Transport connected": half of the strip lit, a quarter blinking.
    pub fn tcp() -> (r: Self)
        ensures
            r.enlight == LEDS / 2,
            r.blink == LEDS / 4,
            r.blink_wait_ms == BLINK_INTERVAL_MS,
    {
        Ready { enlight: (LEDS / 2) as u8, blink: (LEDS / 4) as u8, blink_wait_ms: BLINK_INTERVAL_MS }
    }

    /// How many pixels, counted from the start of the strip, are lit in the
    /// bright phase of the blink.
    pub fn bright_threshold(&self) -> (r: usize)
        ensures
            r == self.enlight + self.blink,
    {
        self.enlight as usize + self.blink as usize
    }
}

} // verus!
