//! Damaged signal relay: two loose ends of a snapped pair drift apart, and
//! each press of `A` or `D` pulls them a little closer. Once they
//! meet they are jointed, a zap is raised, and the joint is held for a
//! moment before the job is signed off.
//!
//! Distances are in thousandths of a unit and time in microseconds.

use vstd::prelude::*;

use crate::input::{Key, KeyInput};
use crate::minigames::{MinigameAudioCue, MinigameOutcome};

verus! {

pub const START_SEPARATION: u64 = 170_000;
pub const MAX_SEPARATION: u64 = 280_000;
/// How far the ends drift apart per second.
pub const SPREAD_PER_SECOND: u64 = 82_000;
pub const PULL_PER_PRESS: u64 = 14_000;
/// Ends this close or closer count as together.
pub const CLOSE_ENOUGH_SEPARATION: u64 = 500;
/// How long the joint is held before it is signed off, in microseconds.
pub const JOINT_HOLD_MICROS: u64 = 1_000_000;

#[derive(Debug, Clone, Copy, PartialEq, Eq, Structural)]
pub enum BrokenWirePhase {
    Pulling,
    /// Jointed, with the zap not yet handed to the game.
    JointedArmingZap { remaining: u64 },
    Jointed { remaining: u64 },
}

/// The wire as it is drawn.
#[derive(Debug, Clone, Copy, PartialEq, Eq, Structural)]
pub struct SequenceWireVisualState {
    /// How far apart the ends are, in thousandths of a unit.
    pub separation: u64,
    pub jointed: bool,
}

/// A relay being jointed.
pub struct BrokenWire {
    separation: u64,
    phase: BrokenWirePhase,
}

/// The keys that pull the ends together: `A` and `D`, whatever keys the
/// room was dealt.
pub open spec fn pull_keys() -> (Key, Key) {
    (Key::Letter('A'), Key::Letter('D'))
}

/// How far the ends drift in `delta` microseconds.
pub open spec fn spread(delta: int) -> int {
    SPREAD_PER_SECOND * delta / 1_000_000
}

/// The separation after a frame of pulling: drifted apart (to the cap), then
/// pulled together by each of the two keys that went down (to nothing).
pub open spec fn pulled(separation: int, delta: int, left: bool, right: bool) -> int {
    let drifted = if separation + spread(delta) > MAX_SEPARATION {
        MAX_SEPARATION as int
    } else {
        separation + spread(delta)
    };
    let pulls = (if left { 1int } else { 0int }) + (if right { 1int } else { 0int });
    if drifted - pulls * PULL_PER_PRESS < 0 {
        0
    } else {
        drifted - pulls * PULL_PER_PRESS
    }
}

impl BrokenWire {
    pub closed spec fn gap(&self) -> int {
        self.separation as int
    }

    pub closed spec fn wire_phase(&self) -> BrokenWirePhase {
        self.phase
    }

    /// Ends at their starting gap, pulled with `A` and `D`.
    pub fn new() -> (game: Self)
        ensures
            game.gap() == START_SEPARATION,
            game.wire_phase() == BrokenWirePhase::Pulling,
    {
        BrokenWire {
            separation: START_SEPARATION,
            phase: BrokenWirePhase::Pulling,
        }
    }

    pub fn phase(&self) -> (p: BrokenWirePhase)
        ensures
            p == self.wire_phase(),
    {
        self.phase
    }

    pub fn title(&self) -> (s: &'static str)
        ensures
            s@ == "Damaged Signal Relay"@,
    {
        "Damaged Signal Relay"
    }

    pub fn instructions(&self) -> (s: &'static str)
        ensures
            s@ == "Consult the repair manual."@,
    {
        "Consult the repair manual."
    }

    pub fn status(&self) -> (s: &'static str)
        ensures
            s@ == match self.wire_phase() {
                BrokenWirePhase::Pulling => "Signal unstable."@,
                BrokenWirePhase::JointedArmingZap { .. } => "Signal stabilizing."@,
                BrokenWirePhase::Jointed { .. } => "Signal stabilized."@,
            },
    {
        match self.phase {
            BrokenWirePhase::Pulling => "Signal unstable.",
            BrokenWirePhase::JointedArmingZap { .. } => "Signal stabilizing.",
            BrokenWirePhase::Jointed { .. } => "Signal stabilized.",
        }
    }

    pub fn visual_state(&self) -> (v: SequenceWireVisualState)
        ensures
            v.separation == self.gap(),
            v.jointed == !(self.wire_phase() is Pulling),
    {
        SequenceWireVisualState {
            separation: self.separation,
            jointed: match self.phase {
                BrokenWirePhase::Pulling => false,
                _ => true,
            },
        }
    }

    /// What `take_audio_cues` hands over and leaves behind.
    pub open spec fn cues_taken(before: Self, after: Self, cues: Seq<MinigameAudioCue>) -> bool {
        &&& after.gap() == before.gap()
        &&& match before.wire_phase() {
            BrokenWirePhase::JointedArmingZap { remaining } => {
                &&& cues == seq![MinigameAudioCue::SequenceZap]
                &&& after.wire_phase() == BrokenWirePhase::Jointed { remaining }
            },
            _ => {
                &&& cues == Seq::<MinigameAudioCue>::empty()
                &&& after.wire_phase() == before.wire_phase()
            },
        }
    }

    /// Hands over the zap raised when the ends met, once.
    pub fn take_audio_cues(&mut self) -> (cues: Vec<MinigameAudioCue>)
        ensures
            Self::cues_taken(*old(self), *final(self), cues@),
    {
        let mut cues: Vec<MinigameAudioCue> = Vec::new();
        match self.phase {
            BrokenWirePhase::JointedArmingZap { remaining } => {
                self.phase = BrokenWirePhase::Jointed { remaining };
                cues.push(MinigameAudioCue::SequenceZap);
            },
            _ => {},
        }
        cues
    }

    /// What one frame of `tick` does, from `before` to `after`.
    pub open spec fn ticked(before: Self, after: Self, keys: KeyInput, delta_micros: u64, outcome: Option<MinigameOutcome>) -> bool {
        &&& match before.wire_phase() {
            BrokenWirePhase::Pulling => {
                let gap = pulled(
                    before.gap(),
                    delta_micros as int,
                    keys.just_pressed@.contains(pull_keys().0),
                    keys.just_pressed@.contains(pull_keys().1),
                );
                &&& outcome is None
                &&& if gap <= CLOSE_ENOUGH_SEPARATION {
                    &&& after.gap() == 0
                    &&& after.wire_phase() == BrokenWirePhase::JointedArmingZap {
                        remaining: JOINT_HOLD_MICROS,
                    }
                } else {
                    &&& after.gap() == gap
                    &&& after.wire_phase() == BrokenWirePhase::Pulling
                }
            },
            BrokenWirePhase::JointedArmingZap { remaining } => if delta_micros >= remaining {
                &&& outcome == Some(MinigameOutcome::Success)
                &&& after.gap() == 0
                &&& after.wire_phase() == before.wire_phase()
            } else {
                &&& outcome is None
                &&& after.gap() == before.gap()
                &&& after.wire_phase() == BrokenWirePhase::JointedArmingZap {
                    remaining: (remaining - delta_micros) as u64,
                }
            },
            BrokenWirePhase::Jointed { remaining } => if delta_micros >= remaining {
                &&& outcome == Some(MinigameOutcome::Success)
                &&& after.gap() == 0
                &&& after.wire_phase() == before.wire_phase()
            } else {
                &&& outcome is None
                &&& after.gap() == before.gap()
                &&& after.wire_phase() == BrokenWirePhase::Jointed {
                    remaining: (remaining - delta_micros) as u64,
                }
            }
        }
    }

    /// One frame. While pulling, the ends drift apart with time and each of
    /// the two keys that went down pulls them together; once they are close
    /// enough they are jointed and held. A held joint is signed off as a
    /// success once its time is up.
    pub fn tick(&mut self, keys: &KeyInput, delta_micros: u64) -> (outcome: Option<MinigameOutcome>)
        ensures
            Self::ticked(*old(self), *final(self), *keys, delta_micros, outcome),
    {
        match self.phase {
            BrokenWirePhase::Pulling => {
                let wide: u128 = delta_micros as u128;
                proof {
                    assert(wide * 82_000 <= 18446744073709551615u128 * 82_000) by (nonlinear_arith)
                        requires
                            wide <= 18446744073709551615u128,
                    ;
                }
                let scaled: u128 = wide * 82_000u128 / 1_000_000u128;
                proof {
                    let product: int = wide * 82_000;
                    assert(product / 1_000_000 <= product) by (nonlinear_arith)
                        requires
                            product >= 0,
                    ;
                    assert(product / 1_000_000 <= wide) by (nonlinear_arith)
                        requires
                            product == wide * 82_000,
                            wide >= 0,
                    ;
                }
                let drift: u64 = scaled as u64;
                let room = if self.separation < MAX_SEPARATION {
                    MAX_SEPARATION - self.separation
                } else {
                    0
                };
                let drifted = if drift >= room {
                    MAX_SEPARATION
                } else {
                    self.separation + drift
                };
                let mut pulls: u64 = 0;
                if keys.just_pressed(Key::Letter('A')) {
                    pulls = pulls + 1;
                }
                if keys.just_pressed(Key::Letter('D')) {
                    pulls = pulls + 1;
                }
                let pull = pulls * PULL_PER_PRESS;
                self.separation = if drifted > pull {
                    drifted - pull
                } else {
                    0
                };
                if self.separation <= CLOSE_ENOUGH_SEPARATION {
                    self.separation = 0;
                    self.phase = BrokenWirePhase::JointedArmingZap { remaining: JOINT_HOLD_MICROS };
                }
                None
            },
            BrokenWirePhase::JointedArmingZap { remaining } => {
                if delta_micros >= remaining {
                    self.separation = 0;
                    return Some(MinigameOutcome::Success);
                }
                self.phase = BrokenWirePhase::JointedArmingZap { remaining: remaining - delta_micros };
                None
            },
            BrokenWirePhase::Jointed { remaining } => {
                if delta_micros >= remaining {
                    self.separation = 0;
                    return Some(MinigameOutcome::Success);
                }
                self.phase = BrokenWirePhase::Jointed { remaining: remaining - delta_micros };
                None
            },
        }
    }
}

/// While the ends are being pulled, only a pull key that went down this frame
/// pulls: a frame in which neither `A` nor `D` went down, whatever keys are
/// held from earlier frames, never brings the ends any closer.
pub proof fn law_a_held_key_does_not_pull(
    before: BrokenWire,
    after: BrokenWire,
    keys: KeyInput,
    delta_micros: u64,
    outcome: Option<MinigameOutcome>,
)
    requires
        BrokenWire::ticked(before, after, keys, delta_micros, outcome),
        before.wire_phase() == BrokenWirePhase::Pulling,
        CLOSE_ENOUGH_SEPARATION < before.gap() <= MAX_SEPARATION,
        !keys.just_pressed@.contains(Key::Letter('A')),
        !keys.just_pressed@.contains(Key::Letter('D')),
    ensures
        after.wire_phase() == BrokenWirePhase::Pulling,
        after.gap() >= before.gap(),
        outcome is None,
{
}

/// In a frame with no time for the ends to drift, each pull key that went
/// down this frame pulls them exactly `PULL_PER_PRESS` closer, and keys
/// merely held pull nothing.
pub proof fn law_each_fresh_tap_pulls_once(
    before: BrokenWire,
    after: BrokenWire,
    keys: KeyInput,
    outcome: Option<MinigameOutcome>,
)
    requires
        BrokenWire::ticked(before, after, keys, 0, outcome),
        before.wire_phase() == BrokenWirePhase::Pulling,
        0 <= before.gap() <= MAX_SEPARATION,
    ensures
        ({
            let taps = (if keys.just_pressed@.contains(Key::Letter('A')) { 1int } else { 0int })
                + (if keys.just_pressed@.contains(Key::Letter('D')) { 1int } else { 0int });
            before.gap() - taps * PULL_PER_PRESS > CLOSE_ENOUGH_SEPARATION ==> (after.gap()
                == before.gap() - taps * PULL_PER_PRESS && after.wire_phase()
                == BrokenWirePhase::Pulling)
        }),
{
    assert(spread(0) == 0);
}

} // verus!
