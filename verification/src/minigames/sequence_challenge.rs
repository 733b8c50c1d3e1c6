//! Circuit sequencer: tap SPACE, E, SPACE, E in order.

use vstd::prelude::*;

use crate::input::{Key, KeyInput};
use crate::minigames::MinigameOutcome;
use crate::text::{decimal, push_decimal, push_str};

verus! {

/// The keys to tap, in order.
pub open spec fn sequence() -> Seq<Key> {
    seq![Key::Space, Key::Letter('E'), Key::Space, Key::Letter('E')]
}

/// How many keys the sequence is.
pub const SEQUENCE_LEN: usize = 4;

/// The key at a place in the sequence.
fn expected(step: usize) -> (key: Key)
    requires
        step < SEQUENCE_LEN,
    ensures
        key == sequence()[step as int],
{
    if step % 2 == 0 {
        Key::Space
    } else {
        Key::Letter('E')
    }
}

/// A sequencing challenge, `step` keys in.
pub struct SequenceChallenge {
    step: usize,
}

impl SequenceChallenge {
    /// How many keys of the sequence have been tapped.
    pub closed spec fn progress(&self) -> int {
        self.step as int
    }

    pub fn new() -> (game: Self)
        ensures
            game.progress() == 0,
    {
        SequenceChallenge { step: 0 }
    }

    pub fn title(&self) -> (s: &'static str)
        ensures
            s@ == "Circuit Sequencer"@,
    {
        "Circuit Sequencer"
    }

    pub fn instructions(&self) -> (s: &'static str)
        ensures
            s@ == "Tap SPACE, E, SPACE, E in order."@,
    {
        "Tap SPACE, E, SPACE, E in order."
    }

    /// How far along the sequence the taps have got.
    pub fn status(&self) -> (s: String)
        ensures
            s@ == "Sequence: "@ + decimal(self.progress() as nat) + "/4"@,
    {
        let mut s = String::new();
        push_str(&mut s, "Sequence: ");
        push_decimal(&mut s, self.step as u64);
        push_str(&mut s, "/4");
        s
    }

    /// One frame: tapping the next key of the sequence moves it on, and
    /// finishing it is a success. Anything else is ignored.
    pub fn tick(&mut self, keys: &KeyInput) -> (outcome: Option<MinigameOutcome>)
        ensures
            old(self).progress() >= SEQUENCE_LEN ==> outcome == Some(MinigameOutcome::Success)
                && final(self).progress() == old(self).progress(),
            old(self).progress() < SEQUENCE_LEN ==> {
                let tapped = keys.just_pressed@.contains(sequence()[old(self).progress()]);
                &&& final(self).progress() == if tapped {
                    old(self).progress() + 1
                } else {
                    old(self).progress()
                }
                &&& outcome == if final(self).progress() >= SEQUENCE_LEN {
                    Some(MinigameOutcome::Success)
                } else {
                    None
                }
            },
    {
        if self.step >= SEQUENCE_LEN {
            return Some(MinigameOutcome::Success);
        }
        if keys.just_pressed(expected(self.step)) {
            self.step = self.step + 1;
            if self.step >= SEQUENCE_LEN {
                return Some(MinigameOutcome::Success);
            }
        }
        None
    }
}

} // verus!
