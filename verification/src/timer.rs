//! The two 8-bit countdown timers: a delay timer and a sound timer.
//!
//! Both saturate at zero and decrease by exactly one per external tick; the
//! tick cadence (60 Hz) is the caller's responsibility.

use vstd::prelude::*;

verus! {

#[derive(Debug)]
pub struct Timer {
    pub delay_timer: u8,
    pub sound_timer: u8,
}

impl Timer {
    /// A fresh timer pair: the delay timer starts at `ticks`, the sound timer
    /// at twice that.
    pub fn new(ticks: u8) -> (r: Self)
        requires
            2 * ticks <= 255,
        ensures
            r.delay_timer == ticks,
            r.sound_timer == 2 * ticks,
    {
        Self { delay_timer: ticks, sound_timer: 2 * ticks }
    }

    /// One timer tick: each counter that is nonzero goes down by one; a
    /// counter at zero stays at zero.
    pub fn tick(&mut self)
        ensures
            final(self).delay_timer == if old(self).delay_timer > 0 {
                (old(self).delay_timer - 1) as u8
            } else {
                0u8
            },
            final(self).sound_timer == if old(self).sound_timer > 0 {
                (old(self).sound_timer - 1) as u8
            } else {
                0u8
            },
    {
        if self.delay_timer > 0 {
            self.delay_timer = self.delay_timer - 1;
        }
        if self.sound_timer > 0 {
            self.sound_timer = self.sound_timer - 1;
        }
    }
}

} // verus!
