use sabotage::level::Room;
use sabotage::minigames::MinigameId;
use sabotage::puzzles::{scramble, RocketPuzzles};

const TEST_ROOM_COUNT: usize = 8;

#[test]
fn every_room_has_a_breach() {
    let puzzles = RocketPuzzles::from_seed(7, TEST_ROOM_COUNT);
    let placements = puzzles.portal_placements();

    assert_eq!(placements.len(), TEST_ROOM_COUNT);
    for index in 0..TEST_ROOM_COUNT {
        let room = Room::from_index(index);
        assert!(
            placements.iter().any(|(at, _)| *at == room),
            "{} has no breach in it",
            room.label()
        );
        assert_eq!(placements[index].1, puzzles.room_minigames[index]);
    }
}

#[test]
fn every_challenge_is_installed_somewhere() {
    for seed in 0..500u64 {
        let puzzles = RocketPuzzles::from_seed(seed, TEST_ROOM_COUNT);
        for minigame in MinigameId::ALL {
            assert!(
                puzzles.room_minigames.contains(&minigame),
                "seed {seed} installs {minigame:?} nowhere"
            );
        }
    }
}

#[test]
fn neighbouring_rooms_open_different_challenges() {
    for seed in 0..500u64 {
        let puzzles = RocketPuzzles::from_seed(seed, TEST_ROOM_COUNT);
        for pair in puzzles.room_minigames.windows(2) {
            assert_ne!(pair[0], pair[1], "seed {seed} put the same challenge in two rooms running");
        }
    }
}

#[test]
fn every_rotation_of_the_challenges_turns_up() {
    for minigame in MinigameId::ALL {
        assert!(
            (0..64u64).any(|seed| RocketPuzzles::from_seed(seed, TEST_ROOM_COUNT).room_minigames[0]
                == minigame),
            "{minigame:?} never opens the first room"
        );
    }
}

#[test]
fn scramble_is_splitmix64_s_finaliser() {
    // Reference values of splitmix64's output for the first two states.
    assert_eq!(scramble(0), 0xe220_a839_7b1d_cdaf);
    assert_eq!(scramble(0x9e37_79b9_7f4a_7c15), 0x6e78_9e6a_a1b9_65f4);
    assert_ne!(scramble(1), scramble(2));
}

#[test]
fn the_deal_goes_round_the_rocket_in_manual_order() {
    let puzzles = RocketPuzzles::from_seed(42, 6);
    let first = MinigameId::ALL
        .iter()
        .position(|id| *id == puzzles.room_minigames[0])
        .unwrap();
    for (room, id) in puzzles.room_minigames.iter().enumerate() {
        assert_eq!(*id, MinigameId::ALL[(first + room) % 4]);
    }
    assert_eq!(RocketPuzzles::default().room_minigames.len(), 8);
    assert_eq!(RocketPuzzles::from_seed(9, 0).room_minigames.len(), 0);
}
