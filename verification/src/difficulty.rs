//! How big a run is: the number of decks the rocket is dealt, chosen before
//! the run and read when it starts. Each deck cuts into two rooms, so the
//! deck count also decides the room count, and with it how many breaches,
//! panels and room-index lines a run carries.

use vstd::prelude::*;

verus! {

/// One of five tiers, each worth a fixed number of decks, ordered so that a
/// step moves through them in order.
#[derive(Debug, Clone, Copy, PartialEq, Eq, Structural)]
pub enum Difficulty {
    VeryEasy,
    Easy,
    Medium,
    Hard,
    VeryHard,
}

/// The most decks any tier deals.
pub const MAX_DECK_COUNT: usize = 6;

/// The fewest decks any tier deals.
pub const MIN_DECK_COUNT: usize = 2;

/// The position of a tier, easiest first.
pub open spec fn tier(d: Difficulty) -> int {
    match d {
        Difficulty::VeryEasy => 0,
        Difficulty::Easy => 1,
        Difficulty::Medium => 2,
        Difficulty::Hard => 3,
        Difficulty::VeryHard => 4,
    }
}

/// Decks dealt at a tier: two at the easiest, one more per tier.
pub open spec fn decks_at(d: Difficulty) -> int {
    tier(d) + 2
}

/// `value` held inside `low..=high`.
pub open spec fn clamp_int(value: int, low: int, high: int) -> int {
    if value < low {
        low
    } else if value > high {
        high
    } else {
        value
    }
}

/// What the label of each tier reads.
pub open spec fn label_text(d: Difficulty) -> Seq<char> {
    match d {
        Difficulty::VeryEasy => "Very Easy"@,
        Difficulty::Easy => "Easy"@,
        Difficulty::Medium => "Medium"@,
        Difficulty::Hard => "Hard"@,
        Difficulty::VeryHard => "Very Hard"@,
    }
}

impl Default for Difficulty {
    /// A run is Medium until the player picks otherwise.
    fn default() -> (d: Self)
        ensures
            d == Difficulty::Medium,
    {
        Difficulty::Medium
    }
}

impl Difficulty {
    /// Every tier, easiest first.
    pub const ALL: [Difficulty; 5] = [
        Difficulty::VeryEasy,
        Difficulty::Easy,
        Difficulty::Medium,
        Difficulty::Hard,
        Difficulty::VeryHard,
    ];

    /// How many decks the rocket has at this tier. Two rooms per deck, so the
    /// room count a run is built with is always double this.
    pub fn deck_count(self) -> (n: usize)
        ensures
            n == decks_at(self),
            MIN_DECK_COUNT <= n <= MAX_DECK_COUNT,
    {
        match self {
            Difficulty::VeryEasy => 2,
            Difficulty::Easy => 3,
            Difficulty::Medium => 4,
            Difficulty::Hard => 5,
            Difficulty::VeryHard => 6,
        }
    }

    /// How the tier is named on the difficulty screen.
    pub fn label(self) -> (s: &'static str)
        ensures
            s@ == label_text(self),
    {
        match self {
            Difficulty::VeryEasy => "Very Easy",
            Difficulty::Easy => "Easy",
            Difficulty::Medium => "Medium",
            Difficulty::Hard => "Hard",
            Difficulty::VeryHard => "Very Hard",
        }
    }

    /// Where the tier stands in `ALL`.
    pub fn index(self) -> (i: usize)
        ensures
            i == tier(self),
            Self::ALL@[i as int] == self,
    {
        match self {
            Difficulty::VeryEasy => 0,
            Difficulty::Easy => 1,
            Difficulty::Medium => 2,
            Difficulty::Hard => 3,
            Difficulty::VeryHard => 4,
        }
    }

    /// Steps `by` tiers up or down, clamped rather than wrapping at either
    /// end.
    pub fn step(self, by: isize) -> (d: Self)
        ensures
            tier(d) == clamp_int(tier(self) + by, 0, 4),
    {
        let i = self.index();
        let target: usize = if by < 0 {
            if i as isize + by < 0 {
                0
            } else {
                (i as isize + by) as usize
            }
        } else if by > 4 || i as isize + by > 4 {
            4
        } else {
            (i as isize + by) as usize
        };
        let all = Self::ALL;
        all[target]
    }
}

/// Every harder tier deals strictly more decks than an easier one, and the
/// extremes are the crate's minimum and maximum deck counts.
pub proof fn law_decks_rise_with_tier(a: Difficulty, b: Difficulty)
    ensures
        tier(a) < tier(b) ==> decks_at(a) < decks_at(b),
        decks_at(a) == decks_at(b) ==> a == b,
        MIN_DECK_COUNT as int == decks_at(Difficulty::VeryEasy),
        MAX_DECK_COUNT as int == decks_at(Difficulty::VeryHard),
{
}

/// Stepping never leaves the five tiers, stepping by nothing changes
/// nothing, and stepping past either end lands on that end.
pub proof fn law_step_clamps(d: Difficulty, by: int)
    ensures
        0 <= clamp_int(tier(d) + by, 0, 4) <= 4,
        clamp_int(tier(d) + 0, 0, 4) == tier(d),
        tier(d) + by <= 0 ==> clamp_int(tier(d) + by, 0, 4) == 0,
        tier(d) + by >= 4 ==> clamp_int(tier(d) + by, 0, 4) == 4,
{
}

} // verus!
