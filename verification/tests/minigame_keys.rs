use sabotage::input::Key;
use sabotage::level::Room;
use sabotage::minigame_keys::{key_letter, letter_pool, MinigameKeys, RoomKeys};

const TEST_ROOM_COUNT: usize = 12;

fn hand(keys: MinigameKeys) -> [Key; 5] {
    [keys.primary, keys.secondary, keys.up, keys.down, keys.action]
}

#[test]
fn a_room_s_five_keys_are_all_different() {
    for seed in 0..200u64 {
        let keys = RoomKeys::from_seed(seed, TEST_ROOM_COUNT);
        for index in 0..TEST_ROOM_COUNT {
            let all = hand(keys.of(Room::from_index(index)));
            for (i, one) in all.iter().enumerate() {
                for other in &all[i + 1..] {
                    assert_ne!(one, other, "room {index} was dealt a key twice");
                }
            }
        }
    }
}

#[test]
fn no_room_is_ever_dealt_the_manual_s_key() {
    for seed in 0..200u64 {
        let keys = RoomKeys::from_seed(seed, TEST_ROOM_COUNT);
        for index in 0..TEST_ROOM_COUNT {
            for key in hand(keys.of(Room::from_index(index))) {
                assert_ne!(key, Key::Letter('M'), "room {index} was dealt the manual's key");
            }
        }
    }
}

#[test]
fn rooms_in_the_same_run_are_dealt_different_keys() {
    let keys = RoomKeys::from_seed(11, TEST_ROOM_COUNT);
    let first = keys.of(Room::from_index(0));
    assert!(
        (1..TEST_ROOM_COUNT).any(|index| keys.of(Room::from_index(index)) != first),
        "every room in the run was dealt the same keys"
    );
}

#[test]
fn seeds_a_moment_apart_give_different_keys() {
    let seed = 1_234_567_890_u64;
    let differ = (1..=8).filter(|step| {
        RoomKeys::from_seed(seed + step, TEST_ROOM_COUNT) != RoomKeys::from_seed(seed, TEST_ROOM_COUNT)
    });
    assert!(differ.count() >= 6, "the pick barely moves between seeds");
}

#[test]
fn every_dealt_key_prints_its_own_letter() {
    let pool = letter_pool();
    assert_eq!(pool.len(), 25);
    for key in pool {
        let letter = key_letter(key);
        assert!(letter.is_ascii_uppercase());
        assert_ne!(letter, 'M', "M was dealt out of the pool that excludes it");
        assert_eq!(key, Key::Letter(letter));
    }
}

#[test]
fn a_room_s_hand_is_the_same_however_it_is_asked_for() {
    let keys = RoomKeys::from_seed(99, 6);
    for index in 0..6 {
        let room = Room::from_index(index);
        assert_eq!(keys.of(room), MinigameKeys::for_room(room, 99));
        for key in hand(keys.of(room)) {
            assert!(matches!(key, Key::Letter(_)));
        }
    }
}
