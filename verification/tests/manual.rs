use sabotage::input::{Key, KeyInput};
use sabotage::level::{deck_index_line, Room, RoomCodes, Side};
use sabotage::manual::{
    body_text, manual_controls, page_lines, ManualCommand, ManualNav, ManualPage, PageLine,
    MAX_LINE_CHARS, MAX_PAGE_LINES, PAGE_COUNT,
};
use sabotage::panel::Panel;

const DECKS: usize = 4;

fn press(key: Key) -> KeyInput {
    let mut keys = KeyInput::new();
    keys.press(key);
    keys
}

/// One frame of the manual's controls with `key` pressed.
fn frame(open: &mut bool, page: &mut ManualPage, key: Key) -> KeyInput {
    let mut keys = press(key);
    match manual_controls(*open, false, None, &mut keys, page) {
        ManualCommand::Open => *open = true,
        ManualCommand::Close => *open = false,
        ManualCommand::Stay => {}
    }
    keys
}

fn page_at(index: usize) -> ManualPage {
    let mut page = ManualPage::default();
    page.turn(index as isize);
    page
}

#[test]
fn m_opens_the_manual_and_puts_it_away_again() {
    let mut open = false;
    let mut page = ManualPage::default();

    frame(&mut open, &mut page, Key::Letter('M'));
    assert!(open, "M did not open the manual");

    frame(&mut open, &mut page, Key::Letter('M'));
    assert!(!open, "M did not put the manual away");
}

#[test]
fn the_arrow_keys_turn_pages() {
    let mut open = false;
    let mut page = ManualPage::default();

    frame(&mut open, &mut page, Key::Letter('M'));
    frame(&mut open, &mut page, Key::ArrowRight);
    assert_eq!(page.0, 1);

    frame(&mut open, &mut page, Key::ArrowLeft);
    assert_eq!(page.0, 0);
    assert!(open, "paging closed the manual");
}

#[test]
fn escape_closes_the_manual_without_reaching_the_quit_dialog() {
    let mut open = false;
    let mut page = ManualPage::default();

    frame(&mut open, &mut page, Key::Letter('M'));
    let keys = frame(&mut open, &mut page, Key::Escape);

    assert!(!open, "Escape did not close the manual");
    assert!(!keys.just_pressed(Key::Escape), "Escape was left for the quit dialog to find");
}

#[test]
fn escape_is_left_alone_when_the_manual_is_shut() {
    let mut open = false;
    let mut page = ManualPage::default();

    let keys = frame(&mut open, &mut page, Key::Escape);
    assert!(keys.just_pressed(Key::Escape));
    assert!(!open);
}

#[test]
fn the_nav_buttons_turn_and_close() {
    let mut page = ManualPage::default();
    let mut keys = KeyInput::new();
    assert_eq!(
        manual_controls(true, false, Some(ManualNav::Next), &mut keys, &mut page),
        ManualCommand::Stay
    );
    assert_eq!(page.0, 1);
    assert_eq!(
        manual_controls(true, false, Some(ManualNav::Close), &mut keys, &mut page),
        ManualCommand::Close
    );
    assert_eq!(page.0, 1, "closing lost the reader's place");
    assert_eq!(
        manual_controls(false, true, None, &mut keys, &mut page),
        ManualCommand::Open
    );
}

#[test]
fn a_run_opens_the_manual_on_the_first_page() {
    assert_eq!(ManualPage::default().0, 0);
}

#[test]
fn pages_turn_forwards_and_back() {
    let mut page = ManualPage::default();

    page.turn(1);
    assert_eq!(page.0, 1);
    page.turn(-1);
    assert_eq!(page.0, 0);
}

#[test]
fn the_book_does_not_wrap_at_either_end() {
    let mut page = ManualPage::default();

    page.turn(-1);
    assert_eq!(page.0, 0, "turned back off the front cover");

    for _ in 0..PAGE_COUNT + 3 {
        page.turn(1);
    }
    assert_eq!(page.0, PAGE_COUNT - 1, "turned on past the last page");
}

#[test]
fn the_indicator_counts_from_one() {
    let mut page = ManualPage::default();
    assert_eq!(page.label(), format!("Page 1 / {}", PAGE_COUNT));

    page.turn(1);
    assert_eq!(page.label(), format!("Page 2 / {}", PAGE_COUNT));
}

#[test]
fn every_page_fits_its_box() {
    for index in 0..PAGE_COUNT {
        let page = page_at(index);
        let lines = page_lines(index);
        assert!(!page.heading().is_empty(), "a page with no heading");
        assert!(!lines.is_empty(), "a page with no body");
        assert!(lines.len() <= MAX_PAGE_LINES, "{} runs too long", page.heading());

        for line in &lines {
            if let PageLine::Text(text) = line {
                assert!(
                    text.chars().count() <= MAX_LINE_CHARS,
                    "line too wide for the page: {text:?}"
                );
            }
        }
    }
}

#[test]
fn the_setting_printed_for_the_run_fits_the_page() {
    for seed in 0..64u64 {
        for index in 0..12 {
            let printed = Panel::for_room(Room::from_index(index), seed).printed_settings();
            assert!(
                printed.chars().count() <= MAX_LINE_CHARS,
                "the printed setting is too wide for the page: {printed:?}"
            );
        }
    }
}

#[test]
fn the_room_index_fits_the_page() {
    let codes = RoomCodes::random();

    for deck in 0..6 {
        let line = deck_index_line(&codes, deck);
        assert!(
            line.chars().count() <= MAX_LINE_CHARS,
            "the room index line for deck {deck} is too wide for the page: {line:?}"
        );
    }
}

#[test]
fn the_room_index_lists_every_room_by_its_code() {
    let codes = RoomCodes::random();
    let printed = body_text(&codes, page_at(1), &Panel::for_room(Room::from_index(0), 3), DECKS);

    for index in 0..DECKS * 2 {
        let room = Room::from_index(index);
        assert!(
            printed.contains(&format!("#{}", codes.of(room))),
            "the room index leaves out {}, which the HUD can still name",
            room.label()
        );
    }
}

#[test]
fn the_manual_prints_this_run_s_combination() {
    let panel = Panel::for_room(Room { deck: 1, side: Side::Starboard }, 11);
    let page = (0..PAGE_COUNT)
        .map(page_at)
        .find(|page| page.heading() == "Isolation Panel")
        .expect("the manual has no isolation panel page");

    let body = body_text(&RoomCodes::random(), page, &panel, DECKS);

    assert!(
        !body.contains("\u{0}settings"),
        "the page went out with the slot still on it"
    );
    assert!(
        body.contains(&panel.printed_settings()),
        "the page does not print the run's setting"
    );
    for (index, up) in panel.combination.iter().enumerate() {
        let printed = format!("{}: {}", index + 1, if *up { "UP" } else { "DOWN" });

        assert!(body.contains(&printed), "switch {index} is not printed");
    }
}

#[test]
fn the_setting_line_spells_out_every_switch() {
    let panel = Panel {
        room: Room { deck: 1, side: Side::Port },
        combination: vec![true, false, false, true],
        solved: false,
    };
    let body = body_text(&RoomCodes::random(), page_at(2), &panel, DECKS);
    assert_eq!(body.lines().count(), 8);
    assert_eq!(body.lines().nth(5), Some("UDDU  (1: UP, 2: DOWN, 3: DOWN, 4: UP)"));
}

#[test]
fn the_whole_setting_line_fits_the_page() {
    for seed in 0..64u64 {
        for index in 0..12 {
            let panel = Panel::for_room(Room::from_index(index), seed);
            let body = body_text(&RoomCodes::random(), page_at(2), &panel, DECKS);
            let line = body.lines().nth(5).expect("the page is short");
            assert!(line.chars().count() <= MAX_LINE_CHARS, "too wide: {line:?}");
        }
    }
}

#[test]
fn the_pages_without_a_setting_are_printed_as_written() {
    let panel = Panel::for_room(Room::from_index(0), 11);
    let codes = RoomCodes::random();

    let first = body_text(&codes, ManualPage::default(), &panel, DECKS);
    assert_eq!(first.lines().count(), 7);
    assert!(first.starts_with("The rocket leaves at T-00:00 whether or not it is airworthy.\n"));
    assert!(first.ends_with("\nThe clock does not stop while you have your nose in it."));

    let last = body_text(&codes, page_at(PAGE_COUNT), &panel, DECKS);
    assert!(last.starts_with("The airlock stays locked until all three are signed off:\n\n"));
    assert!(last.ends_with("\nThen get clear. The clock does not wait for the paperwork."));
}

#[test]
fn the_room_index_has_a_line_per_deck() {
    let codes = RoomCodes::random();
    let panel = Panel::for_room(Room::from_index(0), 1);
    for decks in 2..=6 {
        let body = body_text(&codes, page_at(1), &panel, decks);
        assert_eq!(body.lines().count(), 3 + decks);
        assert_eq!(body.lines().nth(3).unwrap(), deck_index_line(&codes, 0));
    }
}
