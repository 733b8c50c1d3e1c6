//! The challenges a breach opens: what each is called, what a finished one
//! reports, and the pieces of state the game draws them from.

use vstd::prelude::*;

use crate::level::Room;

pub mod broken_wire;
pub mod clean_engine;
pub mod coolant_valve;
pub mod pipe_flow;
pub mod sequence_challenge;
pub mod tap_challenge;
pub mod instance;

verus! {

/// How many kinds of challenge there are.
pub const MINIGAME_COUNT: usize = 4;

/// One kind of challenge.
#[derive(Debug, Clone, Copy, PartialEq, Eq, Structural)]
pub enum MinigameId {
    BrokenWire,
    CoolantValve,
    CleanEngine,
    PipeFlow,
}

/// The challenge at a place in the manual's order.
pub open spec fn minigame_at(i: int) -> MinigameId {
    if i == 0 {
        MinigameId::BrokenWire
    } else if i == 1 {
        MinigameId::CoolantValve
    } else if i == 2 {
        MinigameId::CleanEngine
    } else {
        MinigameId::PipeFlow
    }
}

/// Where a challenge stands in the manual's order.
pub open spec fn minigame_index(id: MinigameId) -> int {
    match id {
        MinigameId::BrokenWire => 0,
        MinigameId::CoolantValve => 1,
        MinigameId::CleanEngine => 2,
        MinigameId::PipeFlow => 3,
    }
}

/// Two different places in the manual's order hold different challenges.
pub proof fn lemma_minigame_at_distinct(i: int, j: int)
    requires
        0 <= i < 4,
        0 <= j < 4,
        i != j,
    ensures
        minigame_at(i) != minigame_at(j),
{
}

/// Every challenge sits at its own place in the manual's order.
pub proof fn lemma_minigame_at_index(id: MinigameId)
    ensures
        0 <= minigame_index(id) < 4,
        minigame_at(minigame_index(id)) == id,
{
}

impl MinigameId {
    /// Every challenge in the game, in the order the manual documents them.
    pub const ALL: [MinigameId; 4] = [
        MinigameId::BrokenWire,
        MinigameId::CoolantValve,
        MinigameId::CleanEngine,
        MinigameId::PipeFlow,
    ];

    /// The challenge at place `i` of `ALL`.
    pub fn at(i: usize) -> (id: MinigameId)
        requires
            i < MINIGAME_COUNT,
        ensures
            id == minigame_at(i as int),
    {
        let all = Self::ALL;
        all[i]
    }
}

/// How a challenge ended.
#[derive(Debug, Clone, Copy, PartialEq, Eq, Structural)]
pub enum MinigameOutcome {
    Success,
    Failure,
    TimedOut,
}

/// A sound a challenge asks the game to play.
#[derive(Debug, Clone, Copy, PartialEq, Eq, Structural)]
pub enum MinigameAudioCue {
    SequenceZap,
    CoolantVent,
    CoolantSealed,
    PipesMadeUp,
}

/// What opens a challenge: which kind, and which room's breach it is behind,
/// which is what its keys are dealt from.
#[derive(Debug, Clone, Copy, PartialEq, Eq, Structural)]
pub struct MinigameConfig {
    pub id: MinigameId,
    pub room: Room,
}

/// A challenge that has been walked into and is waiting for its window.
#[derive(Debug, Clone, Copy, PartialEq, Eq, Structural)]
pub struct PendingMinigame(pub MinigameConfig);

/// A challenge that has finished, and how.
#[derive(Debug, Clone, Copy, PartialEq, Eq, Structural)]
pub struct CompletedMinigame {
    pub id: MinigameId,
    pub outcome: MinigameOutcome,
}

} // verus!
