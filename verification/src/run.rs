//! Dealing a run: everything a run is played against is drawn off one seed
//! when it starts, sized by the difficulty picked for it. And the airlock at
//! the far end, which is the run's way out once the work is done.

use vstd::prelude::*;

use crate::countdown::MissionTimer;
use crate::difficulty::{decks_at, Difficulty, MAX_DECK_COUNT};
use crate::level::{room_at, rooms_of, Level, LevelProgress};
use crate::manual::ManualPage;
use crate::minigame_keys::{dealt_keys, keys_seq, RoomKeys};
use crate::panel::{is_dealt_panel, Panels};
use crate::puzzles::{dealt_minigame, RocketPuzzles};

verus! {

/// What one run is played against.
pub struct RunState {
    /// Which challenge each room's breach opens.
    pub puzzles: RocketPuzzles,
    /// Every room's isolation panel.
    pub panels: Panels,
    /// The keys each room's challenge is worked with.
    pub keys: RoomKeys,
    /// How much of the objective has been done.
    pub progress: LevelProgress,
    /// The launch clock.
    pub timer: MissionTimer,
    /// The page the manual opens on.
    pub manual_page: ManualPage,
}

/// Deals a fresh run of `level` at `difficulty` off `seed`: the challenges,
/// the panels and the keys, every room's drawn off the same seed; nothing
/// done yet; a full clock; and the manual on its first page.
pub fn reset_run_state(seed: u64, level: Level, difficulty: Difficulty) -> (run: RunState)
    ensures
        ({
            let decks = decks_at(difficulty);
            let rooms = rooms_of(decks as nat).len();
            &&& run.progress.total_portals == rooms
            &&& run.progress.completed_portals == 0
            &&& run.puzzles.room_minigames@.len() == rooms
            &&& forall|i: int|
                0 <= i < rooms ==> #[trigger] run.puzzles.room_minigames@[i] == dealt_minigame(
                    seed,
                    i,
                )
            &&& run.panels.all()@.len() == rooms
            &&& forall|i: int|
                0 <= i < rooms ==> is_dealt_panel(#[trigger] run.panels.all()@[i], room_at(i), seed)
            &&& run.keys.dealt()@.len() == rooms
            &&& forall|i: int|
                0 <= i < rooms ==> keys_seq(#[trigger] run.keys.dealt()@[i]) == dealt_keys(seed, i)
            &&& run.timer.elapsed_micros == 0
            &&& run.manual_page.0 == 0
        }),
{
    let decks = difficulty.deck_count();
    let rooms = decks * 2;
    let progress = LevelProgress::new(level, decks);
    RunState {
        puzzles: RocketPuzzles::from_seed(seed, rooms),
        panels: Panels::from_seed(seed, level, decks),
        keys: RoomKeys::from_seed(seed, rooms),
        progress,
        timer: MissionTimer::default(),
        manual_page: ManualPage::default(),
    }
}

/// Whether every panel is set and every breach sealed.
pub open spec fn work_done(panels: Panels, progress: LevelProgress) -> bool {
    &&& forall|i: int| 0 <= i < panels.all()@.len() ==> (#[trigger] panels.all()@[i]).solved
    &&& progress.completed_portals >= progress.total_portals
}

/// The airlock stays locked until all of the work is done: every panel set
/// and every breach sealed.
pub fn airlock_unlocked(panels: &Panels, progress: &LevelProgress) -> (open: bool)
    ensures
        open == work_done(*panels, *progress),
{
    panels.all_solved() && progress.all_portals_completed()
}

/// A freshly dealt run never starts with its airlock open: it always has
/// at least one breach to seal.
pub proof fn law_a_fresh_run_starts_locked(panels: Panels, progress: LevelProgress, decks: nat)
    requires
        2 <= decks <= MAX_DECK_COUNT,
        progress.total_portals == rooms_of(decks).len(),
        progress.completed_portals == 0,
    ensures
        !work_done(panels, progress),
{
}

} // verus!
