//! Which challenge each of the rocket's rooms is dealt, and the seed mixing
//! every per-run deal goes through.
//!
//! Every room of the rocket has a breach in it, so there is a job wherever
//! the player goes and the airlock waits on all of them. What is dealt fresh
//! at the start of every run is which challenge each breach opens.

use vstd::prelude::*;

use crate::level::{room_at, Room, MAX_ROOM_COUNT};
use crate::minigames::{minigame_at, MinigameId, MINIGAME_COUNT};

verus! {

/// splitmix64's finaliser: spreads a seed over all 64 bits, so seeds a
/// fraction of a second apart deal unrelated runs.
#[verifier::opaque]
pub open spec fn scramble_spec(seed: u64) -> u64 {
    let z0 = vstd::wrapping::u64_specs::wrapping_add(seed, 0x9e37_79b9_7f4a_7c15u64);
    let z1 = vstd::wrapping::u64_specs::wrapping_mul(z0 ^ (z0 >> 30u64), 0xbf58_476d_1ce4_e5b9u64);
    let z2 = vstd::wrapping::u64_specs::wrapping_mul(z1 ^ (z1 >> 27u64), 0x94d0_49bb_1331_11ebu64);
    z2 ^ (z2 >> 31u64)
}

/// Spreads a seed over all 64 bits (splitmix64's finaliser).
pub fn scramble(seed: u64) -> (z: u64)
    ensures
        z == scramble_spec(seed),
{
    reveal(scramble_spec);
    let mut z = seed.wrapping_add(0x9e37_79b9_7f4a_7c15u64);
    z = (z ^ (z >> 30u64)).wrapping_mul(0xbf58_476d_1ce4_e5b9u64);
    z = (z ^ (z >> 27u64)).wrapping_mul(0x94d0_49bb_1331_11ebu64);
    z ^ (z >> 31u64)
}

/// Where a run's deal of challenges starts: the challenge the first room
/// opens.
pub open spec fn first_minigame(seed: u64) -> int {
    (scramble_spec(scramble_spec(seed)) % (MINIGAME_COUNT as u64)) as int
}

/// The challenge behind the breach in room `room` of a run dealt off `seed`:
/// the challenges in manual order, going round the rocket from a rolling
/// start.
pub open spec fn dealt_minigame(seed: u64, room: int) -> MinigameId {
    minigame_at((first_minigame(seed) + room) % (MINIGAME_COUNT as int))
}

/// Which challenge each room's breach opens this run, by room index.
#[derive(Debug, Clone, PartialEq, Eq)]
pub struct RocketPuzzles {
    pub room_minigames: Vec<MinigameId>,
}

impl Default for RocketPuzzles {
    /// A placeholder dealt over Medium's room count; every run deals its own
    /// before the level is built.
    fn default() -> (puzzles: Self)
        ensures
            puzzles.room_minigames@.len() == 8,
            forall|i: int| 0 <= i < 8 ==> puzzles.room_minigames@[i] == dealt_minigame(0, i),
    {
        Self::from_seed(0, 8)
    }
}

impl RocketPuzzles {
    /// Deals one run: a challenge for every room, round the rocket in order
    /// from a start the seed picks, so no kind stacks up at one end and two
    /// runs start differently.
    pub fn from_seed(seed: u64, room_count: usize) -> (puzzles: Self)
        requires
            room_count <= MAX_ROOM_COUNT,
        ensures
            puzzles.room_minigames@.len() == room_count,
            forall|i: int|
                0 <= i < room_count ==> #[trigger] puzzles.room_minigames@[i] == dealt_minigame(
                    seed,
                    i,
                ),
    {
        let bits = scramble(seed);
        let first = (scramble(bits) % (MINIGAME_COUNT as u64)) as usize;
        let mut room_minigames: Vec<MinigameId> = Vec::new();
        let mut room: usize = 0;
        while room < room_count
            invariant
                room <= room_count <= MAX_ROOM_COUNT,
                first == first_minigame(seed),
                first < MINIGAME_COUNT,
                room_minigames@.len() == room,
                forall|i: int|
                    0 <= i < room ==> #[trigger] room_minigames@[i] == dealt_minigame(seed, i),
            decreases room_count - room,
        {
            room_minigames.push(MinigameId::at((first + room) % MINIGAME_COUNT));
            room = room + 1;
        }
        RocketPuzzles { room_minigames }
    }

    /// Which room each breach stands in and which challenge it opens: one per
    /// room of the rocket, in room order.
    pub fn portal_placements(&self) -> (placements: Vec<(Room, MinigameId)>)
        requires
            self.room_minigames@.len() <= MAX_ROOM_COUNT,
        ensures
            placements@.len() == self.room_minigames@.len(),
            forall|i: int|
                0 <= i < placements@.len() ==> #[trigger] placements@[i] == (
                    room_at(i),
                    self.room_minigames@[i],
                ),
    {
        let mut placements: Vec<(Room, MinigameId)> = Vec::new();
        let mut i: usize = 0;
        while i < self.room_minigames.len()
            invariant
                i <= self.room_minigames@.len() <= MAX_ROOM_COUNT,
                placements@.len() == i,
                forall|j: int|
                    0 <= j < i ==> #[trigger] placements@[j] == (
                        room_at(j),
                        self.room_minigames@[j],
                    ),
            decreases self.room_minigames@.len() - i,
        {
            placements.push((Room::from_index(i), self.room_minigames[i]));
            i = i + 1;
        }
        placements
    }
}

/// Dealing round the rocket spreads the kinds out: no two rooms in a row
/// open the same challenge, a rocket with at least as many rooms as kinds
/// installs every kind somewhere, and every kind can open the first room.
pub proof fn law_deal_spreads_the_challenges(seed: u64, room: int, id: MinigameId, room_count: int)
    requires
        0 <= room,
        MINIGAME_COUNT as int <= room_count,
    ensures
        dealt_minigame(seed, room) != dealt_minigame(seed, room + 1),
        exists|i: int| 0 <= i < room_count && dealt_minigame(seed, i) == id,
{
    let f = first_minigame(seed);
    assert(0 <= f < 4);
    crate::minigames::lemma_minigame_at_distinct((f + room) % 4, (f + room + 1) % 4);
    let target = crate::minigames::minigame_index(id);
    let i = (target - f + 4) % 4;
    assert((f + i) % 4 == target);
    crate::minigames::lemma_minigame_at_index(id);
    assert(dealt_minigame(seed, i) == id);
}

} // verus!
