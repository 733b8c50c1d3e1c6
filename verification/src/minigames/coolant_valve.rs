//! Coolant pressure regulator: hold the feed key to drive the line's
//! pressure up, let go and it bleeds back. Settle it inside the marked band
//! and keep it there long enough and the line seals; drive it past the top
//! of the gauge and it ruptures, vents, and has to be started again.
//!
//! Pressure is kept in millionths of a PSI, its rate of change in millionths
//! of a PSI per second, and time in microseconds. The line is integrated one
//! frame at a time: the feed or the bleed accelerates the rate, drag takes a
//! share of it off, the rate is capped, and the pressure moves by the rate.

use vstd::prelude::*;

use crate::input::{Key, KeyInput};
use crate::minigame_keys::MinigameKeys;
use crate::minigames::{MinigameAudioCue, MinigameOutcome};
use crate::text::{decimal, digit, digit_char, push_char, push_decimal, push_str};

verus! {

/// Top of the gauge: past this the line ruptures.
pub const PRESSURE_MAX: i64 = 100_000_000;
/// The band painted on the gauge, inclusive.
pub const BAND_LOW: i64 = 52_000_000;
pub const BAND_HIGH: i64 = 72_000_000;
/// How fast the feed, and the bleed, change the rate: PSI per second per
/// second.
pub const FEED_ACCEL: i64 = 130;
pub const BLEED_ACCEL: i64 = 95;
/// Drag takes this many ten-millionths of the rate off per microsecond
/// (2.6 per second).
pub const RATE_DRAG: i64 = 26;
/// The fastest the pressure can move, either way.
pub const MAX_RATE: i64 = 60_000_000;
/// How long the pressure has to be held in the band to seal the line.
pub const SEAL_MICROS: u64 = 6_000_000;
/// How long a sealed line is shown before it is signed off.
pub const SEALED_HOLD_MICROS: u64 = 900_000;
/// How long a ruptured line vents before it can be worked again.
pub const VENT_MICROS: u64 = 1_200_000;
/// Where the needle settles once sealed: the middle of the band.
pub const SEALED_PRESSURE: i64 = 62_000_000;
/// The longest single frame the line is integrated over.
pub const MAX_STEP_MICROS: u64 = 1_000_000_000;

#[derive(Debug, Clone, Copy, PartialEq, Eq, Structural)]
pub enum ValvePhase {
    Regulating,
    Holding { remaining: u64 },
    Venting { remaining: u64 },
    Sealed { remaining: u64 },
}

/// The gauge as it is drawn.
#[derive(Debug, Clone, Copy, PartialEq, Eq, Structural)]
pub struct CoolantGaugeVisualState {
    /// Where the needle stands, in thousandths of the track: 0 at the empty
    /// end, 1000 at the stop.
    pub fill: u64,
    pub sealed: bool,
}

/// A coolant line being regulated.
pub struct CoolantValve {
    pressure: i64,
    rate: i64,
    phase: ValvePhase,
    pending_cue: Option<MinigameAudioCue>,
    feed_key: Key,
}

/// `a / b`, rounded toward zero.
pub open spec fn div_toward_zero(a: int, b: int) -> int {
    if a >= 0 {
        a / b
    } else {
        -((-a) / b)
    }
}

/// `value` held inside `-limit..=limit`.
pub open spec fn capped(value: int, limit: int) -> int {
    if value > limit {
        limit
    } else if value < -limit {
        -limit
    } else {
        value
    }
}

/// The rate after one frame of feeding or bleeding, drag, and the cap.
pub open spec fn driven_rate(rate: int, feeding: bool, delta: int) -> int {
    let accel: int = if feeding {
        FEED_ACCEL as int
    } else {
        -(BLEED_ACCEL as int)
    };
    let pushed = rate + accel * delta;
    capped(pushed - div_toward_zero(pushed * RATE_DRAG * delta, 10_000_000), MAX_RATE as int)
}

/// The pressure and rate after one frame: the pressure moves by the new
/// rate, and stops at empty with any fall taken out of the rate.
pub open spec fn driven(pressure: int, rate: int, feeding: bool, delta: int) -> (int, int) {
    let r = driven_rate(rate, feeding, delta);
    let p = pressure + div_toward_zero(r * delta, 1_000_000);
    if p <= 0 {
        (0, if r < 0 {
            0
        } else {
            r
        })
    } else {
        (p, r)
    }
}

/// Whether a pressure is inside the painted band.
pub open spec fn in_band_at(pressure: int) -> bool {
    BAND_LOW <= pressure <= BAND_HIGH
}

/// What happens to the line in one frame of `tick`, as
/// (pressure, rate, phase, cue raised, outcome).
pub open spec fn valve_step(
    pressure: int,
    rate: int,
    phase: ValvePhase,
    feeding: bool,
    delta: int,
) -> (int, int, ValvePhase, Option<MinigameAudioCue>, Option<MinigameOutcome>) {
    let (p, r) = driven(pressure, rate, feeding, delta);
    let ruptured = (0, 0, ValvePhase::Venting { remaining: VENT_MICROS }, Some(
        MinigameAudioCue::CoolantVent,
    ), None::<MinigameOutcome>);
    match phase {
        ValvePhase::Regulating => if p > PRESSURE_MAX {
            ruptured
        } else if in_band_at(p) {
            (p, r, ValvePhase::Holding { remaining: SEAL_MICROS }, None, None)
        } else {
            (p, r, ValvePhase::Regulating, None, None)
        },
        ValvePhase::Holding { remaining } => if p > PRESSURE_MAX {
            ruptured
        } else if !in_band_at(p) {
            (p, r, ValvePhase::Regulating, None, None)
        } else if delta >= remaining {
            (
                SEALED_PRESSURE as int,
                0,
                ValvePhase::Sealed { remaining: SEALED_HOLD_MICROS },
                Some(MinigameAudioCue::CoolantSealed),
                None,
            )
        } else {
            (p, r, ValvePhase::Holding { remaining: (remaining - delta) as u64 }, None, None)
        },
        ValvePhase::Venting { remaining } => if delta >= remaining {
            (pressure, rate, ValvePhase::Regulating, None, None)
        } else {
            (pressure, rate, ValvePhase::Venting { remaining: (remaining - delta) as u64 }, None, None)
        },
        ValvePhase::Sealed { remaining } => if delta >= remaining {
            (pressure, rate, phase, None, Some(MinigameOutcome::Success))
        } else {
            (pressure, rate, ValvePhase::Sealed { remaining: (remaining - delta) as u64 }, None, None)
        },
    }
}

/// A pressure, in whole PSI, rounded to the nearest.
pub open spec fn whole_psi(pressure: int) -> int {
    (pressure + 500_000) / 1_000_000
}

/// What the status line reads.
pub open spec fn valve_status_text(pressure: int, phase: ValvePhase) -> Seq<char> {
    match phase {
        ValvePhase::Regulating => decimal(whole_psi(pressure) as nat) + " PSI. Line unsealed."@,
        ValvePhase::Holding { remaining } => {
            let tenths = (remaining + 50_000) / 100_000;
            decimal(whole_psi(pressure) as nat) + " PSI. Holding — "@ + decimal((tenths / 10) as nat)
                + "."@ + seq![digit_char(tenths % 10)] + "s"@
        },
        ValvePhase::Venting { .. } => "Over-pressure. Line venting."@,
        ValvePhase::Sealed { .. } => "Pressure held. Line sealed."@,
    }
}

/// `a / b` rounded toward zero, for a positive `b`.
fn divide_toward_zero(a: i128, b: i128) -> (q: i128)
    requires
        b > 0,
        a > i128::MIN,
    ensures
        q == div_toward_zero(a as int, b as int),
{
    if a >= 0 {
        a / b
    } else {
        -((-a) / b)
    }
}

impl CoolantValve {
    /// The needle stays on the gauge, from empty to `PRESSURE_MAX`, and the
    /// line never runs faster than `MAX_RATE` either way.
    pub open spec fn well_formed(&self) -> bool {
        &&& 0 <= self.line_pressure() <= PRESSURE_MAX
        &&& -MAX_RATE <= self.line_rate() <= MAX_RATE
    }

    pub closed spec fn line_pressure(&self) -> int {
        self.pressure as int
    }

    pub closed spec fn line_rate(&self) -> int {
        self.rate as int
    }

    pub closed spec fn valve_phase(&self) -> ValvePhase {
        self.phase
    }

    pub closed spec fn cue(&self) -> Option<MinigameAudioCue> {
        self.pending_cue
    }

    pub closed spec fn feed(&self) -> Key {
        self.feed_key
    }

    /// A flat line, fed with `keys`' action key.
    pub fn new(keys: MinigameKeys) -> (valve: Self)
        ensures
            valve.well_formed(),
            valve.line_pressure() == 0,
            valve.line_rate() == 0,
            valve.valve_phase() == ValvePhase::Regulating,
            valve.cue() is None,
            valve.feed() == keys.action,
    {
        CoolantValve {
            pressure: 0,
            rate: 0,
            phase: ValvePhase::Regulating,
            pending_cue: None,
            feed_key: keys.action,
        }
    }

    pub fn pressure(&self) -> (p: i64)
        ensures
            p == self.line_pressure(),
    {
        self.pressure
    }

    pub fn phase(&self) -> (p: ValvePhase)
        ensures
            p == self.valve_phase(),
    {
        self.phase
    }

    /// Whether the needle is inside the painted band.
    pub fn in_band(&self) -> (b: bool)
        ensures
            b == in_band_at(self.line_pressure()),
    {
        BAND_LOW <= self.pressure && self.pressure <= BAND_HIGH
    }

    /// One frame of the line: where the pressure and rate go.
    fn drive(&self, feeding: bool, delta_micros: u64) -> (next: (i128, i64))
        requires
            self.well_formed(),
            delta_micros <= MAX_STEP_MICROS,
        ensures
            (next.0 as int, next.1 as int) == driven(
                self.line_pressure(),
                self.line_rate(),
                feeding,
                delta_micros as int,
            ),
            next.0 >= 0,
            -MAX_RATE <= next.1 <= MAX_RATE,
    {
        let dt: i128 = delta_micros as i128;
        let accel: i128 = if feeding {
            FEED_ACCEL as i128
        } else {
            -(BLEED_ACCEL as i128)
        };
        proof {
            assert(-95 * dt >= -95 * 1_000_000_000 && 130 * dt <= 130 * 1_000_000_000) by (nonlinear_arith)
                requires
                    0 <= dt <= 1_000_000_000,
            ;
            assert(accel * dt >= -95 * 1_000_000_000 && accel * dt <= 130 * 1_000_000_000) by (nonlinear_arith)
                requires
                    0 <= dt <= 1_000_000_000,
                    accel == 130 || accel == -95,
            ;
        }
        let pushed: i128 = self.rate as i128 + accel * dt;
        proof {
            let bound: int = 60_000_000int + 130int * 1_000_000_000int;
            assert(-bound <= pushed <= bound);
            assert(pushed * 26 * dt <= bound * 26 * 1_000_000_000 && pushed * 26 * dt >= -bound * 26
                * 1_000_000_000) by (nonlinear_arith)
                requires
                    -bound <= pushed <= bound,
                    0 <= dt <= 1_000_000_000,
                    bound == 60_000_000 + 130 * 1_000_000_000,
            ;
        }
        let drag = divide_toward_zero(pushed * (RATE_DRAG as i128) * dt, 10_000_000);
        proof {
            let bound: int = 60_000_000int + 130int * 1_000_000_000int;
            let product: int = pushed as int * 26 * dt as int;
            assert(-(bound * 26 * 1_000_000_000) <= product <= bound * 26 * 1_000_000_000);
            assert(div_toward_zero(product, 10_000_000) <= bound * 26 * 1_000_000_000
                && div_toward_zero(product, 10_000_000) >= -(bound * 26 * 1_000_000_000)) by (nonlinear_arith)
                requires
                    -(bound * 26 * 1_000_000_000) <= product <= bound * 26 * 1_000_000_000,
                    bound == 60_000_000 + 130 * 1_000_000_000,
            ;
        }
        let slowed: i128 = pushed - drag;
        let rate: i64 = if slowed > MAX_RATE as i128 {
            MAX_RATE
        } else if slowed < -(MAX_RATE as i128) {
            -MAX_RATE
        } else {
            slowed as i64
        };
        proof {
            assert(rate as int * dt <= 60_000_000 * 1_000_000_000 && rate as int * dt >= -60_000_000
                * 1_000_000_000) by (nonlinear_arith)
                requires
                    -60_000_000 <= rate <= 60_000_000,
                    0 <= dt <= 1_000_000_000,
            ;
        }
        let moved = divide_toward_zero(rate as i128 * dt, 1_000_000);
        proof {
            let product: int = rate as int * dt as int;
            assert(div_toward_zero(product, 1_000_000) <= 60_000_000 * 1_000_000_000
                && div_toward_zero(product, 1_000_000) >= -60_000_000 * 1_000_000_000) by (nonlinear_arith)
                requires
                    -60_000_000 * 1_000_000_000 <= product <= 60_000_000 * 1_000_000_000,
            ;
        }
        let pressure: i128 = self.pressure as i128 + moved;
        if pressure <= 0 {
            (0, if rate < 0 {
                0
            } else {
                rate
            })
        } else {
            (pressure, rate)
        }
    }

    /// Vents a ruptured line: empty, still, and venting.
    fn rupture(&mut self)
        ensures
            final(self).line_pressure() == 0,
            final(self).line_rate() == 0,
            final(self).cue() == Some(MinigameAudioCue::CoolantVent),
            final(self).valve_phase() == (ValvePhase::Venting { remaining: VENT_MICROS }),
            final(self).feed() == old(self).feed(),
    {
        self.pressure = 0;
        self.rate = 0;
        self.pending_cue = Some(MinigameAudioCue::CoolantVent);
        self.phase = ValvePhase::Venting { remaining: VENT_MICROS };
    }

    pub fn title(&self) -> (s: &'static str)
        ensures
            s@ == "Coolant Pressure Regulator"@,
    {
        "Coolant Pressure Regulator"
    }

    pub fn instructions(&self) -> (s: &'static str)
        ensures
            s@ == "Consult the repair manual."@,
    {
        "Consult the repair manual."
    }

    /// The pressure to the nearest PSI and what the line is doing.
    pub fn status(&self) -> (s: String)
        requires
            self.well_formed(),
        ensures
            s@ == valve_status_text(self.line_pressure(), self.valve_phase()),
    {
        let psi = ((self.pressure + 500_000) / 1_000_000) as u64;
        match self.phase {
            ValvePhase::Regulating => {
                let mut s = String::new();
                push_decimal(&mut s, psi);
                push_str(&mut s, " PSI. Line unsealed.");
                s
            },
            ValvePhase::Holding { remaining } => {
                let tenths = ((remaining as u128 + 50_000) / 100_000) as u64;
                let mut s = String::new();
                push_decimal(&mut s, psi);
                push_str(&mut s, " PSI. Holding — ");
                push_decimal(&mut s, tenths / 10);
                push_str(&mut s, ".");
                push_char(&mut s, digit(tenths % 10));
                push_str(&mut s, "s");
                s
            },
            ValvePhase::Venting { .. } => {
                let mut s = String::new();
                push_str(&mut s, "Over-pressure. Line venting.");
                s
            },
            ValvePhase::Sealed { .. } => {
                let mut s = String::new();
                push_str(&mut s, "Pressure held. Line sealed.");
                s
            },
        }
    }

    /// What `take_audio_cues` hands over and leaves behind.
    pub open spec fn cues_taken(before: Self, after: Self, cues: Seq<MinigameAudioCue>) -> bool {
        &&& cues == match before.cue() {
            Some(c) => seq![c],
            None => Seq::<MinigameAudioCue>::empty(),
        }
        &&& after.cue() is None
        &&& after.line_pressure() == before.line_pressure()
        &&& after.line_rate() == before.line_rate()
        &&& after.valve_phase() == before.valve_phase()
        &&& after.feed() == before.feed()
    }

    /// Hands over the sound the last frame raised, if any, and forgets it.
    pub fn take_audio_cues(&mut self) -> (cues: Vec<MinigameAudioCue>)
        ensures
            old(self).well_formed() ==> final(self).well_formed(),
            Self::cues_taken(*old(self), *final(self), cues@),
    {
        let mut cues: Vec<MinigameAudioCue> = Vec::new();
        match self.pending_cue {
            Some(c) => {
                cues.push(c);
            },
            None => {},
        }
        self.pending_cue = None;
        cues
    }

    /// The gauge: the needle's place along the track, and whether the sealed
    /// face is up.
    pub fn visual_state(&self) -> (v: CoolantGaugeVisualState)
        requires
            self.well_formed(),
        ensures
            v.fill == self.line_pressure() / 100_000,
            v.fill <= 1000,
            v.sealed == (self.valve_phase() is Sealed),
    {
        CoolantGaugeVisualState {
            fill: (self.pressure / 100_000) as u64,
            sealed: match self.phase {
                ValvePhase::Sealed { .. } => true,
                _ => false,
            },
        }
    }

    /// What one frame of `tick` does, from `before` to `after`.
    pub open spec fn ticked(before: Self, after: Self, keys: KeyInput, delta_micros: u64, outcome: Option<MinigameOutcome>) -> bool {
        &&& after.feed() == before.feed()
        &&& ({
            let step = valve_step(
                before.line_pressure(),
                before.line_rate(),
                before.valve_phase(),
                keys.held@.contains(before.feed()),
                delta_micros as int,
            );
            &&& after.line_pressure() == step.0
            &&& after.line_rate() == step.1
            &&& after.valve_phase() == step.2
            &&& after.cue() == match step.3 {
                Some(c) => Some(c),
                None => before.cue(),
            }
            &&& outcome == step.4
        })
    }

    /// One frame, with the feed key held or not: see `valve_step`.
    pub fn tick(&mut self, keys: &KeyInput, delta_micros: u64) -> (outcome: Option<MinigameOutcome>)
        requires
            old(self).well_formed(),
            delta_micros <= MAX_STEP_MICROS,
        ensures
            final(self).well_formed(),
            Self::ticked(*old(self), *final(self), *keys, delta_micros, outcome),
    {
        let feeding = keys.pressed(self.feed_key);
        match self.phase {
            ValvePhase::Regulating => {
                let (p, r) = self.drive(feeding, delta_micros);
                if p > PRESSURE_MAX as i128 {
                    self.rupture();
                } else {
                    self.pressure = p as i64;
                    self.rate = r;
                    if self.in_band() {
                        self.phase = ValvePhase::Holding { remaining: SEAL_MICROS };
                    }
                }
                None
            },
            ValvePhase::Holding { remaining } => {
                let (p, r) = self.drive(feeding, delta_micros);
                if p > PRESSURE_MAX as i128 {
                    self.rupture();
                } else {
                    self.pressure = p as i64;
                    self.rate = r;
                    if !self.in_band() {
                        self.phase = ValvePhase::Regulating;
                    } else if delta_micros >= remaining {
                        self.pressure = SEALED_PRESSURE;
                        self.rate = 0;
                        self.pending_cue = Some(MinigameAudioCue::CoolantSealed);
                        self.phase = ValvePhase::Sealed { remaining: SEALED_HOLD_MICROS };
                    } else {
                        self.phase = ValvePhase::Holding { remaining: remaining - delta_micros };
                    }
                }
                None
            },
            ValvePhase::Venting { remaining } => {
                if delta_micros >= remaining {
                    self.phase = ValvePhase::Regulating;
                } else {
                    self.phase = ValvePhase::Venting { remaining: remaining - delta_micros };
                }
                None
            },
            ValvePhase::Sealed { remaining } => {
                if delta_micros >= remaining {
                    return Some(MinigameOutcome::Success);
                }
                self.phase = ValvePhase::Sealed { remaining: remaining - delta_micros };
                None
            },
        }
    }
}

/// A line can only seal from inside the band, and a line pushed past the
/// top of the gauge always ruptures and starts again from empty, whatever
/// phase it was worked in.
pub proof fn law_the_line_seals_only_from_the_band(
    pressure: int,
    rate: int,
    phase: ValvePhase,
    feeding: bool,
    delta: int,
)
    ensures
        ({
            let step = valve_step(pressure, rate, phase, feeding, delta);
            let (p, r) = driven(pressure, rate, feeding, delta);
            &&& (step.2 is Sealed && !(phase is Sealed)) ==> (phase is Holding && in_band_at(p))
            &&& ((phase is Regulating || phase is Holding) && p > PRESSURE_MAX) ==> (step.0 == 0
                && step.2 == ValvePhase::Venting { remaining: VENT_MICROS })
            &&& step.4 is Some ==> phase is Sealed
        }),
{
}

/// A sealed line is signed off only once its hold is up: a frame that ends
/// the hold succeeds and leaves the line as it was; a shorter one leaves it
/// sealed with that much less to wait, and succeeds at nothing. The frame
/// that seals the line never signs it off, so a success always comes a full
/// `SEALED_HOLD_MICROS` after the seal at the earliest.
pub proof fn law_a_sealed_line_is_signed_off_when_its_hold_is_up(
    pressure: int,
    rate: int,
    remaining: u64,
    feeding: bool,
    delta: int,
)
    requires
        delta >= 0,
    ensures
        ({
            let step = valve_step(pressure, rate, ValvePhase::Sealed { remaining }, feeding, delta);
            &&& (step.4 == Some(MinigameOutcome::Success)) <==> delta >= remaining
            &&& step.4 is None ==> step.2 == ValvePhase::Sealed {
                remaining: (remaining - delta) as u64,
            }
            &&& step.0 == pressure
            &&& step.1 == rate
            &&& step.3 is None
        }),
        ({
            let step = valve_step(pressure, rate, ValvePhase::Holding { remaining }, feeding, delta);
            &&& step.4 is None
            &&& step.2 is Sealed ==> step.2 == ValvePhase::Sealed { remaining: SEALED_HOLD_MICROS }
        }),
{
}

/// While the line is being worked, a frame that keeps it on the gauge never
/// ends the job. A needle outside the band leaves the line unsealed; one
/// that comes into the band starts the hold; one held in the band counts
/// the hold down, and the frame that runs it out seals the line at
/// `SEALED_PRESSURE`, stills it, and raises the seal sound.
pub proof fn law_the_needle_settles_through_the_band(
    pressure: int,
    rate: int,
    phase: ValvePhase,
    feeding: bool,
    delta: int,
)
    requires
        phase is Regulating || phase is Holding,
        driven(pressure, rate, feeding, delta).0 <= PRESSURE_MAX,
    ensures
        ({
            let step = valve_step(pressure, rate, phase, feeding, delta);
            let (p, r) = driven(pressure, rate, feeding, delta);
            &&& step.4 is None
            &&& !in_band_at(p) ==> (step.2 == ValvePhase::Regulating && step.0 == p && step.1 == r
                && step.3 is None)
            &&& (in_band_at(p) && phase is Regulating) ==> (step.2 == ValvePhase::Holding {
                remaining: SEAL_MICROS,
            } && step.0 == p && step.1 == r && step.3 is None)
            &&& match phase {
                ValvePhase::Holding { remaining } => in_band_at(p) ==> if delta >= remaining {
                    &&& step.2 == ValvePhase::Sealed { remaining: SEALED_HOLD_MICROS }
                    &&& step.0 == SEALED_PRESSURE
                    &&& step.1 == 0
                    &&& step.3 == Some(MinigameAudioCue::CoolantSealed)
                } else {
                    &&& step.2 == ValvePhase::Holding { remaining: (remaining - delta) as u64 }
                    &&& step.0 == p
                    &&& step.1 == r
                    &&& step.3 is None
                },
                _ => true,
            }
        }),
{
}

/// A ruptured line vents for its full time, whatever is done to it: a frame
/// shorter than the vent left keeps it venting with that much less to go and
/// leaves the needle and the rate where they were; the line comes back to be
/// worked only once the frames since the rupture add up to the vent time.
pub proof fn law_a_vent_runs_its_full_time(
    first: CoolantValve,
    second: CoolantValve,
    third: CoolantValve,
    k1: KeyInput,
    k2: KeyInput,
    d1: u64,
    d2: u64,
    o1: Option<MinigameOutcome>,
    o2: Option<MinigameOutcome>,
    remaining: u64,
)
    requires
        first.valve_phase() == (ValvePhase::Venting { remaining }),
        CoolantValve::ticked(first, second, k1, d1, o1),
        CoolantValve::ticked(second, third, k2, d2, o2),
        d1 < remaining,
    ensures
        o1 is None,
        second.valve_phase() == (ValvePhase::Venting { remaining: (remaining - d1) as u64 }),
        second.line_pressure() == first.line_pressure(),
        second.line_rate() == first.line_rate(),
        o2 is None,
        (third.valve_phase() == ValvePhase::Regulating) <==> d1 + d2 >= remaining,
        (third.valve_phase() is Venting) <==> d1 + d2 < remaining,
        third.line_pressure() == first.line_pressure(),
{
}

} // verus!
