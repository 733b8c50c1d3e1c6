//! Fouled engine bell: scrub the grime off by wiping left and right in
//! turn. A wipe only cleans if it goes the other way to the last one.

use vstd::prelude::*;

use crate::input::{Key, KeyInput};
use crate::minigames::MinigameOutcome;
use crate::text::{decimal, push_char, push_decimal, push_str};

verus! {

/// How many good scrubs it takes to go from filthy to clean.
pub const STROKES_TO_CLEAN: u64 = 14;

/// How many cells the grime bar in the status line has.
pub const GRIME_CELLS: u64 = 8;

/// Which way a wipe went.
#[derive(Debug, Clone, Copy, PartialEq, Eq, Structural)]
pub enum WipeSide {
    Left,
    Right,
}

/// One engine-cleaning attempt.
pub struct CleanEngine {
    /// Good scrubs still needed; the grime left is this share of
    /// `STROKES_TO_CLEAN`.
    strokes_left: u64,
    /// Which way the last wipe went; none until the first.
    last: Option<WipeSide>,
}

/// The key that wipes left: `A`, whatever keys the room was dealt.
pub open spec fn wipe_left_key() -> Key {
    Key::Letter('A')
}

/// The key that wipes right: `D`, whatever keys the room was dealt.
pub open spec fn wipe_right_key() -> Key {
    Key::Letter('D')
}

/// The grime bar's filled cells for `left` scrubs to go: the grime's share of
/// the bar, rounded up.
pub open spec fn grime_cells(left: int) -> int {
    (left * GRIME_CELLS + STROKES_TO_CLEAN - 1) / (STROKES_TO_CLEAN as int)
}

/// The grime, as a whole percentage, rounded to the nearest.
pub open spec fn grime_percent(left: int) -> int {
    (left * 100 + STROKES_TO_CLEAN / 2) / (STROKES_TO_CLEAN as int)
}

/// `n` copies of a character.
pub open spec fn repeat(c: char, n: nat) -> Seq<char> {
    Seq::new(n, |i: int| c)
}

/// Good scrubs left after one wipe to `side`: it counts only if it goes the
/// other way to the last wipe, or is the first, and never below clean.
pub open spec fn after_wipe(remaining: int, last: Option<WipeSide>, side: WipeSide) -> int {
    let alternated = match last {
        None => true,
        Some(previous) => previous != side,
    };
    if alternated && remaining > 0 {
        remaining - 1
    } else {
        remaining
    }
}

/// Good scrubs left after a run of wipes, one a frame, in order.
pub open spec fn after_wipes(remaining: int, last: Option<WipeSide>, sides: Seq<WipeSide>) -> int
    decreases sides.len(),
{
    if sides.len() == 0 {
        remaining
    } else {
        after_wipes(after_wipe(remaining, last, sides[0]), Some(sides[0]), sides.drop_first())
    }
}

/// Whether a run of wipes changes side every time, starting away from the
/// last wipe.
pub open spec fn alternating(last: Option<WipeSide>, sides: Seq<WipeSide>) -> bool {
    &&& (sides.len() > 0 && last is Some) ==> last.unwrap() != sides[0]
    &&& forall|i: int| 0 <= i < sides.len() - 1 ==> #[trigger] sides[i] != sides[i + 1]
}

/// The status line: a bar of `#` for grime and `_` for clean, and the
/// grime as a percentage.
pub open spec fn clean_status_text(left: int) -> Seq<char> {
    "["@ + repeat('#', grime_cells(left) as nat) + repeat('_', (GRIME_CELLS - grime_cells(left)) as nat)
        + "] Grime: "@ + decimal(grime_percent(left) as nat) + "%"@
}

impl CleanEngine {
    /// Good scrubs still needed.
    pub closed spec fn remaining(&self) -> int {
        self.strokes_left as int
    }

    /// The way the last wipe went.
    pub closed spec fn last_wipe(&self) -> Option<WipeSide> {
        self.last
    }

    /// A filthy engine, wiped left with `A` and right with `D`, as its
    /// instructions say.
    pub fn new() -> (game: Self)
        ensures
            game.remaining() == STROKES_TO_CLEAN,
            game.last_wipe() is None,
    {
        CleanEngine {
            strokes_left: STROKES_TO_CLEAN,
            last: None,
        }
    }

    /// Good scrubs still needed.
    pub fn strokes_left(&self) -> (n: u64)
        ensures
            n == self.remaining(),
    {
        self.strokes_left
    }

    pub fn title(&self) -> (s: &'static str)
        ensures
            s@ == "Fouled Engine Bell"@,
    {
        "Fouled Engine Bell"
    }

    pub fn instructions(&self) -> (s: &'static str)
        ensures
            s@ == "Alternate A and D to scrub the engine clean."@,
    {
        "Alternate A and D to scrub the engine clean."
    }

    /// An eight-cell bar drawn out of text, and the grime left.
    pub fn status(&self) -> (s: String)
        requires
            self.remaining() <= STROKES_TO_CLEAN,
        ensures
            s@ == clean_status_text(self.remaining()),
    {
        let left = self.strokes_left;
        let filled = (left * GRIME_CELLS + STROKES_TO_CLEAN - 1) / STROKES_TO_CLEAN;
        let percent = (left * 100 + STROKES_TO_CLEAN / 2) / STROKES_TO_CLEAN;
        let mut s = String::new();
        push_str(&mut s, "[");
        let mut i: u64 = 0;
        while i < filled
            invariant
                i <= filled <= GRIME_CELLS,
                s@ =~= "["@ + repeat('#', i as nat),
            decreases filled - i,
        {
            push_char(&mut s, '#');
            i = i + 1;
        }
        let mut j: u64 = filled;
        while j < GRIME_CELLS
            invariant
                filled <= j <= GRIME_CELLS,
                s@ =~= "["@ + repeat('#', filled as nat) + repeat('_', (j - filled) as nat),
            decreases GRIME_CELLS - j,
        {
            push_char(&mut s, '_');
            j = j + 1;
        }
        push_str(&mut s, "] Grime: ");
        push_decimal(&mut s, percent);
        push_str(&mut s, "%");
        s
    }

    /// What one frame of `tick` does, from `before` to `after`.
    pub open spec fn ticked(before: Self, after: Self, keys: KeyInput, delta_micros: u64, outcome: Option<MinigameOutcome>) -> bool {
        &&& ({
            let pressed = if keys.just_pressed@.contains(wipe_left_key()) {
                Some(WipeSide::Left)
            } else if keys.just_pressed@.contains(wipe_right_key()) {
                Some(WipeSide::Right)
            } else {
                None::<WipeSide>
            };
            match pressed {
                Some(side) => {
                    &&& after.last_wipe() == Some(side)
                    &&& after.remaining() == after_wipe(before.remaining(), before.last_wipe(), side)
                },
                None => {
                    &&& after.last_wipe() == before.last_wipe()
                    &&& after.remaining() == before.remaining()
                },
            }
        })
        &&& outcome == if after.remaining() == 0 {
            Some(MinigameOutcome::Success)
        } else {
            None
        }
    }

    /// One frame: a wipe this frame (`A` wipes left, `D` right; `A` if both
    /// went down) counts
    /// a scrub only if it goes the other way to the last wipe, or is the
    /// first. The engine is clean, and the job done, once no scrubs are left.
    pub fn tick(&mut self, keys: &KeyInput, delta_micros: u64) -> (outcome: Option<MinigameOutcome>)
        ensures
            Self::ticked(*old(self), *final(self), *keys, delta_micros, outcome),
    {
        let pressed = if keys.just_pressed(Key::Letter('A')) {
            Some(WipeSide::Left)
        } else if keys.just_pressed(Key::Letter('D')) {
            Some(WipeSide::Right)
        } else {
            None
        };
        match pressed {
            Some(side) => {
                let alternated = match self.last {
                    None => true,
                    Some(previous) => previous != side,
                };
                self.last = Some(side);
                if alternated && self.strokes_left > 0 {
                    self.strokes_left = self.strokes_left - 1;
                }
            },
            None => {},
        }
        if self.strokes_left == 0 {
            Some(MinigameOutcome::Success)
        } else {
            None
        }
    }
}

/// Wiping the same side twice in a row counts only the first wipe.
pub proof fn law_a_repeated_wipe_counts_once(remaining: int, last: Option<WipeSide>, side: WipeSide)
    ensures
        after_wipes(remaining, last, seq![side, side]) == after_wipe(remaining, last, side),
{
    reveal_with_fuel(after_wipes, 3);
    assert(seq![side, side].drop_first() =~= seq![side]);
    assert(seq![side].drop_first() =~= Seq::<WipeSide>::empty());
}

/// Wipes that keep changing side each take a scrub off, until the engine is
/// clean: `n` of them leave `remaining - n` scrubs to go, or none.
pub proof fn law_alternating_wipes_clean(remaining: int, last: Option<WipeSide>, sides: Seq<WipeSide>)
    requires
        remaining >= 0,
        alternating(last, sides),
    ensures
        after_wipes(remaining, last, sides) == if remaining > sides.len() {
            remaining - sides.len()
        } else {
            0
        },
    decreases sides.len(),
{
    if sides.len() > 0 {
        let rest = sides.drop_first();
        assert forall|i: int| 0 <= i < rest.len() - 1 implies #[trigger] rest[i] != rest[i + 1] by {
            assert(sides[i + 1] != sides[i + 2]);
        }
        law_alternating_wipes_clean(after_wipe(remaining, last, sides[0]), Some(sides[0]), rest);
    }
}

/// A fresh engine is cleaned by exactly `STROKES_TO_CLEAN` alternating wipes,
/// and not by one fewer.
pub proof fn law_a_full_set_of_wipes_cleans_the_engine(sides: Seq<WipeSide>)
    requires
        alternating(None, sides),
    ensures
        sides.len() >= STROKES_TO_CLEAN ==> after_wipes(STROKES_TO_CLEAN as int, None, sides) == 0,
        sides.len() < STROKES_TO_CLEAN ==> after_wipes(STROKES_TO_CLEAN as int, None, sides) > 0,
{
    law_alternating_wipes_clean(STROKES_TO_CLEAN as int, None, sides);
}

/// A frame in which neither `A` nor `D` went down changes nothing: the grime
/// stays, and so does the side the last wipe went, whatever else is pressed
/// or held and however long the frame.
pub proof fn law_an_idle_frame_changes_nothing(
    before: CleanEngine,
    after: CleanEngine,
    keys: KeyInput,
    delta_micros: u64,
    outcome: Option<MinigameOutcome>,
)
    requires
        CleanEngine::ticked(before, after, keys, delta_micros, outcome),
        !keys.just_pressed@.contains(Key::Letter('A')),
        !keys.just_pressed@.contains(Key::Letter('D')),
    ensures
        after.remaining() == before.remaining(),
        after.last_wipe() == before.last_wipe(),
{
}

/// Idle frames between two wipes to the same side do not let the second
/// count: after `A`, a frame with no wipe, and `A` again, the engine has
/// exactly the scrubs left that the first wipe left it.
pub proof fn law_a_wipe_repeated_across_an_idle_frame_counts_once(
    first: CleanEngine,
    second: CleanEngine,
    third: CleanEngine,
    fourth: CleanEngine,
    wipe: KeyInput,
    idle: KeyInput,
    again: KeyInput,
    d1: u64,
    d2: u64,
    d3: u64,
    o1: Option<MinigameOutcome>,
    o2: Option<MinigameOutcome>,
    o3: Option<MinigameOutcome>,
)
    requires
        CleanEngine::ticked(first, second, wipe, d1, o1),
        CleanEngine::ticked(second, third, idle, d2, o2),
        CleanEngine::ticked(third, fourth, again, d3, o3),
        wipe.just_pressed@.contains(Key::Letter('A')),
        !idle.just_pressed@.contains(Key::Letter('A')),
        !idle.just_pressed@.contains(Key::Letter('D')),
        again.just_pressed@.contains(Key::Letter('A')),
    ensures
        second.last_wipe() == Some(WipeSide::Left),
        third.last_wipe() == Some(WipeSide::Left),
        fourth.remaining() == second.remaining(),
        fourth.last_wipe() == Some(WipeSide::Left),
{
}

/// A wipe the other way to the last one, or the first wipe of all, takes
/// exactly one scrub off a dirty engine and is remembered as the last wipe:
/// `A` wipes left, and `D` (with `A` not down) wipes right.
pub proof fn law_a_wipe_the_other_way_takes_one_scrub_off(
    before: CleanEngine,
    after: CleanEngine,
    keys: KeyInput,
    delta_micros: u64,
    outcome: Option<MinigameOutcome>,
)
    requires
        CleanEngine::ticked(before, after, keys, delta_micros, outcome),
        before.remaining() > 0,
    ensures
        (keys.just_pressed@.contains(Key::Letter('A')) && before.last_wipe() != Some(WipeSide::Left))
            ==> (after.remaining() == before.remaining() - 1 && after.last_wipe() == Some(
            WipeSide::Left,
        )),
        (!keys.just_pressed@.contains(Key::Letter('A')) && keys.just_pressed@.contains(
            Key::Letter('D'),
        ) && before.last_wipe() != Some(WipeSide::Right)) ==> (after.remaining() == before.remaining()
            - 1 && after.last_wipe() == Some(WipeSide::Right)),
        (after.remaining() == 0) <==> (outcome == Some(MinigameOutcome::Success)),
{
}

} // verus!
