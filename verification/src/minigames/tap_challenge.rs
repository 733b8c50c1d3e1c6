//! Core relay bypass: tap SPACE enough times before the time runs out.

use vstd::prelude::*;

use crate::input::{Key, KeyInput};
use crate::minigames::MinigameOutcome;
use crate::text::{decimal, push_char, push_decimal, push_str, digit_char};

verus! {

/// Taps it takes.
pub const GOAL_TAPS: u32 = 14;

/// Time allowed, in microseconds.
pub const TIME_LIMIT_MICROS: u64 = 8_000_000;

/// A tapping challenge under way.
pub struct TapChallenge {
    taps: u32,
    remaining: u64,
}

/// Time left, in tenths of a second, rounded to the nearest tenth.
pub open spec fn tenths(micros: int) -> int {
    (micros + 50_000) / 100_000
}

impl TapChallenge {
    pub closed spec fn taps_so_far(&self) -> int {
        self.taps as int
    }

    /// Microseconds left on the clock.
    pub closed spec fn time_left(&self) -> int {
        self.remaining as int
    }

    pub fn new() -> (game: Self)
        ensures
            game.taps_so_far() == 0,
            game.time_left() == TIME_LIMIT_MICROS,
    {
        TapChallenge { taps: 0, remaining: TIME_LIMIT_MICROS }
    }

    pub fn title(&self) -> (s: &'static str)
        ensures
            s@ == "Core Relay Bypass"@,
    {
        "Core Relay Bypass"
    }

    pub fn instructions(&self) -> (s: &'static str)
        ensures
            s@ == "Tap SPACE repeatedly before time runs out."@,
    {
        "Tap SPACE repeatedly before time runs out."
    }

    /// Taps so far out of the goal, and the time left to a tenth of a second.
    pub fn status(&self) -> (s: String)
        ensures
            s@ == "Pulses: "@ + decimal(self.taps_so_far() as nat) + "/14   Time: "@ + decimal(
                (tenths(self.time_left()) / 10) as nat,
            ) + "."@ + seq![digit_char(tenths(self.time_left()) % 10)] + "s"@,
    {
        let shown = (self.remaining as u128 + 50_000) / 100_000;
        let shown = shown as u64;
        let mut s = String::new();
        push_str(&mut s, "Pulses: ");
        push_decimal(&mut s, self.taps as u64);
        push_str(&mut s, "/14   Time: ");
        push_decimal(&mut s, shown / 10);
        push_str(&mut s, ".");
        push_char(&mut s, crate::text::digit(shown % 10));
        push_str(&mut s, "s");
        s
    }

    /// One frame: a SPACE tap counts towards the goal and reaching it is a
    /// success; otherwise the clock runs down, and running out is a failure.
    pub fn tick(&mut self, keys: &KeyInput, delta_micros: u64) -> (outcome: Option<MinigameOutcome>)
        ensures
            ({
                let tapped = keys.just_pressed@.contains(Key::Space);
                let taps = if tapped && old(self).taps_so_far() < u32::MAX {
                    old(self).taps_so_far() + 1
                } else {
                    old(self).taps_so_far()
                };
                &&& final(self).taps_so_far() == taps
                &&& if tapped && taps >= GOAL_TAPS {
                    &&& outcome == Some(MinigameOutcome::Success)
                    &&& final(self).time_left() == old(self).time_left()
                } else if delta_micros >= old(self).time_left() {
                    &&& outcome == Some(MinigameOutcome::Failure)
                    &&& final(self).time_left() == 0
                } else {
                    &&& outcome is None
                    &&& final(self).time_left() == old(self).time_left() - delta_micros
                }
            }),
    {
        let tapped = keys.just_pressed(Key::Space);
        if tapped {
            if self.taps < u32::MAX {
                self.taps = self.taps + 1;
            }
            if self.taps >= GOAL_TAPS {
                return Some(MinigameOutcome::Success);
            }
        }
        if delta_micros >= self.remaining {
            self.remaining = 0;
            Some(MinigameOutcome::Failure)
        } else {
            self.remaining = self.remaining - delta_micros;
            None
        }
    }
}

} // verus!
