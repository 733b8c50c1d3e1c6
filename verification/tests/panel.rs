use sabotage::level::{Level, LevelProgress, Room, Side};
use sabotage::panel::{switch_count, Panel, Panels};

const TEST_DECK_COUNT: usize = 4;
const TEST_ROOM_COUNT: usize = TEST_DECK_COUNT * 2;

#[test]
fn every_panel_asks_for_a_workable_combination() {
    for seed in 0..500u64 {
        let panels = Panels::from_seed(seed, Level::Rocket, TEST_DECK_COUNT);
        for panel in panels.iter() {
            assert!(
                panel.combination.iter().any(|up| *up),
                "the panel in {} was spawned already solved",
                panel.room.label()
            );
        }
    }
}

#[test]
fn switch_count_climbs_a_switch_a_deck_up_to_the_cap() {
    for index in 0..TEST_ROOM_COUNT {
        let room = Room::from_index(index);
        assert_eq!(switch_count(room), (3 + room.deck).min(4));
    }
}

#[test]
fn seeds_a_moment_apart_give_different_panels() {
    let seed = 1_234_567_890_u64;
    let differ = (1..=8).filter(|step| {
        Panels::from_seed(seed + step, Level::Rocket, TEST_DECK_COUNT)
            != Panels::from_seed(seed, Level::Rocket, TEST_DECK_COUNT)
    });
    assert!(differ.count() >= 6, "the pick barely moves between seeds");
}

#[test]
fn a_panel_starts_unsolved_and_needs_its_own_combination() {
    let panels = Panels::from_seed(7, Level::Rocket, TEST_DECK_COUNT);
    let panel = panels.of(Room::from_index(0));

    assert!(!panel.solved);
    assert!(!panel.matched(&vec![false; panel.combination.len()]));
    assert!(panel.matched(&panel.combination));
}

#[test]
fn there_is_a_panel_in_every_room_of_the_run() {
    for seed in 0..64u64 {
        let panels = Panels::from_seed(seed, Level::Rocket, TEST_DECK_COUNT);
        for room in Level::Rocket.rooms(TEST_DECK_COUNT) {
            assert_eq!(panels.of(room).room, room);
        }
    }
}

#[test]
fn a_panel_is_built_with_as_many_switches_and_lamps_as_its_difficulty() {
    let panels = Panels::from_seed(3, Level::Rocket, TEST_DECK_COUNT);
    for room in Level::Rocket.rooms(TEST_DECK_COUNT) {
        assert_eq!(panels.of(room).combination.len(), switch_count(room));
        assert!(!panels.of(room).solved, "the lamps are lit on an unsolved panel");
    }
}

#[test]
fn a_press_at_a_switch_throws_that_switch_and_no_other() {
    let mut panels = Panels::from_seed(3, Level::Rocket, TEST_DECK_COUNT);
    let room = Room::from_index(0);
    let mut switches = vec![false; panels.of(room).combination.len()];

    panels.flip_switch(room, &mut switches, 1);

    assert!(switches[1]);
    assert!(switches.iter().enumerate().all(|(i, on)| i == 1 || !on));
}

#[test]
fn setting_the_combination_solves_the_room_and_lights_the_lamps() {
    for seed in 0..24u64 {
        let mut panels = Panels::from_seed(seed, Level::Rocket, TEST_DECK_COUNT);
        let room = Room::from_index(0);
        let combination = panels.of(room).combination.clone();
        let mut switches = vec![false; combination.len()];

        for (index, wanted) in combination.iter().enumerate() {
            if *wanted {
                panels.flip_switch(room, &mut switches, index);
            }
        }

        assert_eq!(switches, combination);
        assert!(panels.of(room).solved, "the panel in {} was set and not solved", room.label());
    }
}

#[test]
fn a_partial_or_wrong_setting_leaves_the_room_unsolved() {
    let room = Room::from_index(0);
    let seed = (0..10_000u64)
        .find(|seed| {
            Panels::from_seed(*seed, Level::Rocket, TEST_DECK_COUNT).of(room).combination
                == vec![true, false, true]
        })
        .expect("no seed deals up-down-up to the first room");

    let mut panels = Panels::from_seed(seed, Level::Rocket, TEST_DECK_COUNT);
    let mut switches = vec![false; 3];
    panels.flip_switch(room, &mut switches, 0);
    assert!(!panels.of(room).solved, "one switch of three solved it");

    let mut panels = Panels::from_seed(seed, Level::Rocket, TEST_DECK_COUNT);
    let mut switches = vec![false; 3];
    for index in 0..3 {
        panels.flip_switch(room, &mut switches, index);
    }
    assert_eq!(switches, vec![true, true, true]);
    assert!(!panels.of(room).solved, "every switch up solved it");
}

#[test]
fn a_solved_panel_cannot_be_thrown_back_out() {
    let room = Room::from_index(0);
    let mut panels = Panels::from_seed(0, Level::Rocket, TEST_DECK_COUNT);
    let combination = panels.of(room).combination.clone();
    let mut switches = vec![false; combination.len()];
    for (index, wanted) in combination.iter().enumerate() {
        if *wanted {
            panels.flip_switch(room, &mut switches, index);
        }
    }
    assert!(panels.of(room).solved);

    panels.flip_switch(room, &mut switches, 0);

    assert_eq!(switches, combination);
    assert!(panels.of(room).solved);
}

#[test]
fn the_combination_is_printed_up_and_down() {
    let panel = Panel { room: Room::from_index(2), combination: vec![true, false, true, true], solved: false };
    assert_eq!(panel.printed_settings(), "UDUU");
    for seed in 0..64u64 {
        let printed = Panel::for_room(Room::from_index(0), seed).printed_settings();
        assert!(printed.chars().count() <= 62);
        assert!(printed.chars().all(|c| c == 'U' || c == 'D'));
    }
}

#[test]
fn the_status_line_counts_panels_and_breaches() {
    let mut panels = Panels::from_seed(5, Level::Rocket, 2);
    let mut progress = LevelProgress::new(Level::Rocket, 2);
    assert_eq!(panels.status(&progress), "Panels set · 0/4     Breaches sealed · 0/4");
    progress.complete_portal();
    panels.solve_all();
    assert!(panels.all_solved());
    assert_eq!(panels.solved_count(), 4);
    assert_eq!(panels.status(&progress), "Panels set · 4/4     Breaches sealed · 1/4");
    progress.completed_portals = 9;
    assert_eq!(panels.status(&progress), "Panels set · 4/4     Breaches sealed · 4/4");

    let none = Panels::from_seed(5, Level::Rocket, 0);
    assert_eq!(none.status(&progress), "Breaches sealed · 4/4");
    let nothing = LevelProgress::new(Level::Rocket, 0);
    assert_eq!(none.status(&nothing), "");
}

#[test]
fn the_top_decks_carry_four_switches() {
    assert_eq!(switch_count(Room { deck: 0, side: Side::Starboard }), 3);
    assert_eq!(switch_count(Room { deck: 5, side: Side::Port }), 4);
}

#[test]
fn the_manual_prints_the_first_panel_still_to_be_set() {
    let mut panels = Panels::from_seed(3, Level::Rocket, TEST_DECK_COUNT);
    assert_eq!(panels.manual_panel(), Some(0));
    panels.solve_all();
    assert_eq!(panels.manual_panel(), Some(TEST_ROOM_COUNT - 1));
}
