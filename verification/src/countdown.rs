//! The launch clock: how long a run has, how the clock reads, and when it
//! turns hot and then critical.
//!
//! Time is kept in microseconds.

use vstd::prelude::*;

use crate::flow::{Flow, PlayingState};
use crate::text::{decimal, push_decimal, push_str, push_two_digits, two_digits};

verus! {

/// How long a run lasts before the launch clock hits zero.
pub const MISSION_MICROS: u64 = 150_000_000;
/// Time left at which the clock turns the warning colour.
pub const WARNING_MICROS: u64 = 30_000_000;
/// Time left at which the clock turns the alert colour and starts to beat.
pub const URGENT_MICROS: u64 = 10_000_000;

/// The clock's colour.
#[derive(Debug, Clone, Copy, PartialEq, Eq, Structural)]
pub enum ClockTone {
    Calm,
    Warning,
    Urgent,
}

/// Whole seconds left, rounded up, and none once the clock is out.
pub open spec fn seconds_shown(remaining: int) -> int {
    if remaining <= 0 {
        0
    } else {
        (remaining + 999_999) / 1_000_000
    }
}

/// `n` written with at least two digits.
pub open spec fn padded_two(n: nat) -> Seq<char> {
    if n < 10 {
        seq!['0'] + decimal(n)
    } else {
        decimal(n)
    }
}

/// How the clock reads with `remaining` microseconds left: `T-mm:ss`.
pub open spec fn clock_text(remaining: int) -> Seq<char> {
    let total = seconds_shown(remaining);
    "T-"@ + padded_two((total / 60) as nat) + ":"@ + two_digits((total % 60) as nat)
}

/// The clock's colour with `remaining` microseconds left.
pub open spec fn tone_at(remaining: int) -> ClockTone {
    if remaining <= URGENT_MICROS {
        ClockTone::Urgent
    } else if remaining <= WARNING_MICROS {
        ClockTone::Warning
    } else {
        ClockTone::Calm
    }
}

/// The readout, rounded up so it only shows `T-00:00` once the clock has
/// actually run out.
pub fn format_remaining(remaining_micros: i64) -> (s: String)
    ensures
        s@ == clock_text(remaining_micros as int),
{
    let total: u64 = if remaining_micros <= 0 {
        0
    } else {
        ((remaining_micros as u64 - 1) / 1_000_000) + 1
    };
    proof {
        if remaining_micros > 0 {
            assert(((remaining_micros - 1) / 1_000_000) + 1 == (remaining_micros + 999_999)
                / 1_000_000);
        }
    }
    let minutes = total / 60;
    let mut s = String::new();
    push_str(&mut s, "T-");
    if minutes < 10 {
        push_str(&mut s, "0");
        proof {
            reveal_strlit("0");
        }
    }
    push_decimal(&mut s, minutes);
    push_str(&mut s, ":");
    push_two_digits(&mut s, total % 60);
    s
}

/// The clock's colour.
pub fn clock_tone(remaining_micros: u64) -> (tone: ClockTone)
    ensures
        tone == tone_at(remaining_micros as int),
{
    if remaining_micros <= URGENT_MICROS {
        ClockTone::Urgent
    } else if remaining_micros <= WARNING_MICROS {
        ClockTone::Warning
    } else {
        ClockTone::Calm
    }
}

/// The clock for the current run: it counts once, from a full mission down
/// to nothing, and stops there.
#[derive(Debug, Clone, Copy, PartialEq, Eq, Structural)]
pub struct MissionTimer {
    pub elapsed_micros: u64,
}

impl Default for MissionTimer {
    /// A full mission to go.
    fn default() -> (timer: Self)
        ensures
            timer.elapsed_micros == 0,
    {
        MissionTimer { elapsed_micros: 0 }
    }
}

impl MissionTimer {
    /// Microseconds left.
    pub fn remaining(&self) -> (r: u64)
        ensures
            r == if self.elapsed_micros >= MISSION_MICROS {
                0
            } else {
                MISSION_MICROS - self.elapsed_micros
            },
    {
        if self.elapsed_micros >= MISSION_MICROS {
            0
        } else {
            MISSION_MICROS - self.elapsed_micros
        }
    }

    /// Whether the clock has run out.
    pub fn finished(&self) -> (done: bool)
        ensures
            done == (self.elapsed_micros >= MISSION_MICROS),
    {
        self.elapsed_micros >= MISSION_MICROS
    }

    /// Runs the clock on `delta_micros`, stopping it at zero.
    pub fn tick(&mut self, delta_micros: u64)
        ensures
            final(self).elapsed_micros == if old(self).elapsed_micros + delta_micros
                >= MISSION_MICROS {
                MISSION_MICROS as int
            } else {
                old(self).elapsed_micros + delta_micros
            },
    {
        if self.elapsed_micros >= MISSION_MICROS || delta_micros >= MISSION_MICROS
            - self.elapsed_micros {
            self.elapsed_micros = MISSION_MICROS;
        } else {
            self.elapsed_micros = self.elapsed_micros + delta_micros;
        }
    }
}

/// One frame of the launch clock: it runs on, and the run is over once it
/// is out. Also gives what the readout says and its colour.
pub fn tick_countdown(timer: &mut MissionTimer, delta_micros: u64) -> (frame: (Flow, String, ClockTone))
    requires
        old(timer).elapsed_micros <= MISSION_MICROS,
    ensures
        final(timer).elapsed_micros == if old(timer).elapsed_micros + delta_micros
            >= MISSION_MICROS {
            MISSION_MICROS as int
        } else {
            old(timer).elapsed_micros + delta_micros
        },
        frame.0 == if final(timer).elapsed_micros >= MISSION_MICROS {
            Flow::Playing(PlayingState::GameOver)
        } else {
            Flow::Stay
        },
        frame.1@ == clock_text(MISSION_MICROS - final(timer).elapsed_micros),
        frame.2 == tone_at(MISSION_MICROS - final(timer).elapsed_micros),
{
    timer.tick(delta_micros);
    let remaining = timer.remaining();
    let text = format_remaining(remaining as i64);
    let tone = clock_tone(remaining);
    let flow = if timer.finished() {
        Flow::Playing(PlayingState::GameOver)
    } else {
        Flow::Stay
    };
    (flow, text, tone)
}

/// The clock only reads zero once it is out: with any time at all left it
/// shows at least a second, and it never shows more whole seconds than are
/// left, rounded up.
pub proof fn law_the_clock_reads_zero_only_when_out(remaining: int)
    ensures
        remaining > 0 ==> seconds_shown(remaining) >= 1,
        remaining <= 0 ==> seconds_shown(remaining) == 0,
        remaining > 0 ==> (seconds_shown(remaining) - 1) * 1_000_000 < remaining <= seconds_shown(
            remaining,
        ) * 1_000_000,
{
}

/// The clock only ever heats up as time runs down.
pub proof fn law_the_clock_never_cools(earlier: int, later: int)
    requires
        later <= earlier,
    ensures
        tone_at(earlier) == ClockTone::Urgent ==> tone_at(later) == ClockTone::Urgent,
        tone_at(earlier) == ClockTone::Warning ==> tone_at(later) != ClockTone::Calm,
{
}

} // verus!
