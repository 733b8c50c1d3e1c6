use sabotage::difficulty::MAX_DECK_COUNT;
use sabotage::level::{
    deck_index_line, Level, LevelProgress, Room, RoomCodes, Side, MAX_ROOM_COUNT, ROOM_CODE_LEN,
};

#[test]
fn room_codes_are_distinct_markings() {
    for _ in 0..32 {
        let codes = RoomCodes::random();
        let drawn: Vec<&str> = (0..MAX_ROOM_COUNT)
            .map(|index| codes.of(Room::from_index(index)))
            .collect();

        for (index, code) in drawn.iter().enumerate() {
            assert_eq!(code.chars().count(), ROOM_CODE_LEN, "{code:?} is the wrong length");
            assert!(
                code.chars().all(|c| c.is_ascii_uppercase() || c.is_ascii_digit()),
                "{code:?} is not alphanumeric"
            );
            assert!(
                code.chars().any(|c| c.is_ascii_alphabetic())
                    && code.chars().any(|c| c.is_ascii_digit()),
                "{code:?} reads as a word or a number rather than a marking"
            );
            assert!(!drawn[index + 1..].contains(code), "two rooms were stencilled {code:?}");
        }
    }
}

#[test]
fn a_run_opens_inside_the_rocket() {
    assert_eq!(Level::default(), Level::Rocket);
    assert_eq!(Level::Rocket.title(), "Inside Rocket");
}

#[test]
fn the_rocket_carries_a_breach_in_every_room() {
    for decks in 0..=MAX_DECK_COUNT {
        assert_eq!(Level::Rocket.portal_count(decks), decks * 2);
        assert_eq!(Level::Rocket.rooms(decks).len(), decks * 2);
    }
}

#[test]
fn all_obstacles_require_panel_only_when_present() {
    let rocket_progress = LevelProgress::new(Level::Rocket, 3);
    let rocket_room = Level::Rocket.rooms(3)[0];

    assert!(!rocket_progress.all_obstacles_completed(Level::Rocket, 3, rocket_room, false));
    assert!(
        !rocket_progress.all_obstacles_completed(Level::Rocket, 3, rocket_room, true),
        "the panel alone opened the airlock with breaches still outstanding"
    );

    let mut rocket_done = LevelProgress::new(Level::Rocket, 3);
    rocket_done.completed_portals = rocket_done.total_portals;
    assert!(!rocket_done.all_obstacles_completed(Level::Rocket, 3, rocket_room, false));
    assert!(rocket_done.all_obstacles_completed(Level::Rocket, 3, rocket_room, true));

    // A panel in a room the level does not have is not waited on.
    let elsewhere = Room { deck: 5, side: Side::Port };
    assert!(rocket_done.all_obstacles_completed(Level::Rocket, 3, elsewhere, false));
}

#[test]
fn rooms_count_up_the_rocket_port_side_first() {
    let rooms = Level::Rocket.rooms(3);
    let expected = [
        (0, Side::Port),
        (0, Side::Starboard),
        (1, Side::Port),
        (1, Side::Starboard),
        (2, Side::Port),
        (2, Side::Starboard),
    ];
    for (room, (deck, side)) in rooms.iter().zip(expected) {
        assert_eq!(room.deck, deck);
        assert_eq!(room.side, side);
    }
    for index in 0..MAX_ROOM_COUNT {
        assert_eq!(Room::from_index(index).index(), index);
    }
}

#[test]
fn rooms_are_named_by_deck_and_side() {
    assert_eq!(Room::from_index(0).label(), "deck 0, port");
    assert_eq!(Room::from_index(5).label(), "deck 2, starboard");
    assert_eq!(Room { deck: 11, side: Side::Port }.label(), "deck 11, port");
}

#[test]
fn the_level_only_has_the_rooms_its_decks_give_it() {
    assert!(Level::Rocket.has_room(2, Room::from_index(3)));
    assert!(!Level::Rocket.has_room(2, Room::from_index(4)));
}

#[test]
fn sealing_breaches_counts_up_to_the_total() {
    let mut progress = LevelProgress::new(Level::Rocket, 2);
    assert_eq!(progress.total_portals, 4);
    assert_eq!(progress.completed_portals, 0);
    assert!(!progress.complete_portal());
    assert!(!progress.complete_portal());
    assert!(!progress.complete_portal());
    assert!(progress.complete_portal());
    assert!(progress.all_portals_completed());
    assert!(progress.complete_portal());
    assert_eq!(progress.completed_portals, 5);

    let mut saturated = LevelProgress { total_portals: 1, completed_portals: usize::MAX };
    assert!(saturated.complete_portal());
    assert_eq!(saturated.completed_portals, usize::MAX);
}

#[test]
fn the_room_index_lists_both_rooms_of_a_deck_by_code() {
    let codes = RoomCodes::random();
    let line = deck_index_line(&codes, 1);
    let port = codes.of(Room::from_index(2));
    let starboard = codes.of(Room::from_index(3));
    assert_eq!(
        line,
        format!("  #{port}  deck 1, port        #{starboard}  deck 1, starboard")
    );
}


/// The picks that spell `code`, letters then digits as the alphabet runs.
fn picks_for(code: &str) -> Vec<usize> {
    code.chars()
        .map(|c| if c.is_ascii_uppercase() { c as usize - 'A' as usize } else { 26 + c as usize - '0' as usize })
        .collect()
}

fn twelve_codes() -> Vec<String> {
    (0..12).map(|i| format!("Q{}Z{}", i % 10, i / 10)).collect()
}

#[test]
fn drawn_picks_are_spelt_into_codes_in_draw_order() {
    let mut picks = Vec::new();
    for code in twelve_codes() {
        picks.extend(picks_for(&code));
    }
    let codes = RoomCodes::from_draws(&picks).expect("twelve good draws deal every room");
    for (index, code) in twelve_codes().iter().enumerate() {
        assert_eq!(codes.of(Room::from_index(index)), code.as_str());
    }
}

#[test]
fn words_numbers_and_repeats_go_back_in_the_hat() {
    let mut picks = Vec::new();
    picks.extend(picks_for("WORD"));
    picks.extend(picks_for("Q0Z0"));
    picks.extend(picks_for("1234"));
    picks.extend(picks_for("Q0Z0"));
    for code in twelve_codes().iter().skip(1) {
        picks.extend(picks_for(code));
    }
    picks.extend(picks_for("K9K9"));
    picks.push(3);
    let codes = RoomCodes::from_draws(&picks).expect("twelve good draws deal every room");
    for (index, code) in twelve_codes().iter().enumerate() {
        assert_eq!(codes.of(Room::from_index(index)), code.as_str());
    }
}

#[test]
fn too_few_draws_or_a_pick_off_the_alphabet_deal_nothing() {
    let mut picks = Vec::new();
    for code in twelve_codes().iter().take(11) {
        picks.extend(picks_for(code));
    }
    picks.extend(picks_for("1111"));
    assert!(RoomCodes::from_draws(&picks).is_none());

    let mut picks = Vec::new();
    for code in twelve_codes() {
        picks.extend(picks_for(&code));
    }
    picks[5] = 36;
    assert!(RoomCodes::from_draws(&picks).is_none());
}

#[test]
fn rooms_past_the_largest_rocket_still_count_up() {
    let room = Room { deck: 40, side: Side::Starboard };
    assert_eq!(room.index(), 81);
    assert_eq!(Room::from_index(81), room);
    assert_eq!(Room::from_index(3), Room { deck: 1, side: Side::Starboard });
}
