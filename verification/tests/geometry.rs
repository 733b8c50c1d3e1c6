use sabotage::geometry::{
    clamp_to, climb_ladder, nearest_shut_door, stepped_out, Bounds, Climb, Door, DoorKind, Ladder,
    Point, CLIMB_SPEED, LADDER_CLEARANCE, LADDER_WIDTH, LARGEST_CRATE_SIZE, PLAYER_HEIGHT,
    PLAYER_WIDTH, WALL_THICKNESS,
};

/// A whole number of pixels, in the world's thousandths.
const fn px(pixels: i64) -> i64 {
    pixels * 1000
}

const fn at(x: i64, y: i64) -> Point {
    Point { x: px(x), y: px(y) }
}

const BOUNDS: Bounds = Bounds { min: at(-1000, -500), max: at(1000, 500) };
const HALF_VIEW: Point = at(400, 200);

#[test]
fn follows_the_player_away_from_the_edges() {
    let focus = at(120, -40);
    assert_eq!(clamp_to(focus, HALF_VIEW, BOUNDS), focus);
}

#[test]
fn stops_at_the_edge_of_the_level() {
    assert_eq!(clamp_to(at(980, 480), HALF_VIEW, BOUNDS), at(600, 300));
    assert_eq!(clamp_to(at(-980, -480), HALF_VIEW, BOUNDS), at(-600, -300));
}

#[test]
fn centres_on_an_axis_the_viewport_overflows() {
    let too_wide = at(1200, 200);
    assert_eq!(clamp_to(at(900, 0), too_wide, BOUNDS), at(0, 0));
}

const DECK: i64 = px(-360);

#[test]
fn a_door_stands_on_the_deck_it_is_given() {
    assert_eq!(Door::bulkhead(0, DECK).sill(), DECK);
    assert_eq!(Door::airlock(px(580), DECK).sill(), DECK);
    assert_eq!(Door::bulkhead(0, DECK).lintel(), DECK + px(96));
}

#[test]
fn a_player_up_against_a_door_can_work_it() {
    let door = Door::bulkhead(0, DECK);
    let touching = (WALL_THICKNESS + PLAYER_WIDTH) / 2;
    let standing = Point { x: touching, y: DECK + PLAYER_HEIGHT / 2 };

    assert!(door.in_reach(standing));
    assert!(door.in_reach(Point { x: -touching, y: standing.y }));
}

#[test]
fn a_crate_shoved_against_a_door_does_not_shut_the_player_out() {
    let door = Door::bulkhead(0, DECK);
    let behind_the_crate = WALL_THICKNESS / 2 + LARGEST_CRATE_SIZE + PLAYER_WIDTH / 2;
    let standing = Point { x: behind_the_crate, y: DECK + PLAYER_HEIGHT / 2 };

    assert!(door.in_reach(standing));
    assert!(door.in_reach(Point { x: -behind_the_crate, y: standing.y }));
}

#[test]
fn a_door_across_the_room_is_out_of_reach() {
    let door = Door::bulkhead(0, DECK);
    assert!(!door.in_reach(Point { x: px(400), y: DECK + PLAYER_HEIGHT / 2 }));
}

#[test]
fn a_door_on_another_deck_is_out_of_reach() {
    let door = Door::bulkhead(0, DECK);
    let deck_above = DECK + px(260) + PLAYER_HEIGHT / 2;
    assert!(!door.in_reach(Point { x: 0, y: deck_above }));
}

#[test]
fn the_airlock_is_coloured_apart_from_the_bulkhead_doors() {
    assert_ne!(Door::airlock(0, DECK).look(), Door::bulkhead(0, DECK).look());
    let mut opened = Door::bulkhead(0, DECK);
    opened.open = true;
    assert_ne!(opened.look(), Door::bulkhead(0, DECK).look());
}

#[test]
fn a_press_works_the_nearest_shut_door_in_reach() {
    let standing = Point { x: px(30), y: DECK + PLAYER_HEIGHT / 2 };
    let mut doors = vec![
        Door::bulkhead(px(-60), DECK),
        Door::bulkhead(px(50), DECK),
        Door::bulkhead(px(600), DECK),
    ];
    assert_eq!(nearest_shut_door(&doors, standing, false), Some(1));

    doors[1].open = true;
    assert_eq!(nearest_shut_door(&doors, standing, false), Some(0));

    doors[0].open = true;
    assert_eq!(nearest_shut_door(&doors, standing, false), None);
}

#[test]
fn two_doors_as_near_go_to_the_first() {
    let standing = Point { x: 0, y: DECK + PLAYER_HEIGHT / 2 };
    let doors = vec![Door::bulkhead(px(50), DECK), Door::bulkhead(px(-50), DECK)];
    assert_eq!(nearest_shut_door(&doors, standing, false), Some(0));
}

#[test]
fn only_an_open_airlock_lets_the_player_out() {
    let standing = Point { x: px(560), y: DECK + PLAYER_HEIGHT / 2 };
    let mut doors = vec![Door::bulkhead(px(560), DECK), Door::airlock(px(580), DECK)];
    assert!(!stepped_out(&doors, standing));
    doors[0].open = true;
    assert!(!stepped_out(&doors, standing));
    doors[1].open = true;
    assert!(stepped_out(&doors, standing));
    assert_eq!(doors[1].kind, DoorKind::Airlock);
}

const FOOT: i64 = 0;
const HEAD: i64 = px(260);
const LADDER: Ladder = Ladder { x: 0, foot: FOOT, head: HEAD };

const fn standing_on(deck: i64) -> i64 {
    deck + PLAYER_HEIGHT / 2
}

#[test]
fn the_reach_covers_the_hole_the_ladder_comes_through() {
    let reach = LADDER.reach();
    assert_eq!(reach.width(), LADDER_CLEARANCE);
    assert!(reach.width() >= LADDER_WIDTH);
}

#[test]
fn the_reach_runs_from_one_deck_to_standing_height_on_the_next() {
    let reach = LADDER.reach();
    assert!(reach.contains(Point { x: LADDER.x, y: standing_on(FOOT) }));
    assert!(reach.contains(Point { x: LADDER.x, y: standing_on(HEAD) }));
    assert!(!reach.contains(Point { x: LADDER.x, y: standing_on(HEAD) + px(1) }));
}

#[test]
fn a_player_in_the_next_room_is_not_on_the_ladder() {
    assert!(!LADDER.reach().contains(Point { x: px(300), y: standing_on(FOOT) }));
}

#[test]
fn the_climb_stops_at_the_deck_it_reaches() {
    let reaches = vec![LADDER.reach()];
    let top = Point { x: LADDER.x, y: standing_on(HEAD) };
    assert_eq!(climb_ladder(&reaches, top, false, true, false), Climb::On { vertical_speed: 0 });
}

#[test]
fn up_and_down_work_the_ladder_and_letting_go_of_it_drops_off() {
    let reaches = vec![LADDER.reach()];
    let foot = Point { x: LADDER.x, y: standing_on(FOOT) };
    assert_eq!(
        climb_ladder(&reaches, foot, false, true, false),
        Climb::On { vertical_speed: CLIMB_SPEED }
    );
    assert_eq!(
        climb_ladder(&reaches, foot, true, false, true),
        Climb::On { vertical_speed: -CLIMB_SPEED }
    );
    assert_eq!(climb_ladder(&reaches, foot, true, true, true), Climb::On { vertical_speed: 0 });
    assert_eq!(climb_ladder(&reaches, foot, false, false, false), Climb::Off);
    let aside = Point { x: px(300), y: standing_on(FOOT) };
    assert_eq!(climb_ladder(&reaches, aside, true, true, false), Climb::Off);
}

use sabotage::level::Side;
use sabotage::minigames::{MinigameId, PendingMinigame};
use sabotage::portal::{enter_portal, Portal};
use sabotage::level::Room;

fn breach(x: i64, deck: usize, minigame: MinigameId) -> Portal {
    Portal { at: at(x, 0), room: Room { deck, side: Side::Port }, minigame, used: false }
}

#[test]
fn a_portal_in_a_room_is_walked_into() {
    let mut portals = vec![breach(-200, 0, MinigameId::BrokenWire), breach(200, 1, MinigameId::PipeFlow)];
    let queued = enter_portal(&mut portals, at(190, 10)).expect("the breach did not open");
    assert_eq!(queued.0.id, MinigameId::PipeFlow);
    assert_eq!(queued.0.room, Room { deck: 1, side: Side::Port });
    assert!(portals[1].used);
    assert!(!portals[0].used);

    // Used up: standing in it again opens nothing.
    assert!(enter_portal(&mut portals, at(190, 10)).is_none());
}

#[test]
fn a_breach_further_than_its_radius_is_not_walked_into() {
    let mut portals = vec![breach(0, 0, MinigameId::CoolantValve)];
    assert!(enter_portal(&mut portals, at(43, 0)).is_none());
    assert!(!portals[0].used);
    let queued: Option<PendingMinigame> = enter_portal(&mut portals, at(42, 0));
    assert!(queued.is_some());
}

#[test]
fn the_nearer_of_two_overlapping_breaches_opens() {
    let mut portals = vec![breach(0, 0, MinigameId::CoolantValve), breach(30, 0, MinigameId::CleanEngine)];
    let queued = enter_portal(&mut portals, at(20, 0)).unwrap();
    assert_eq!(queued.0.id, MinigameId::CleanEngine);
}

use sabotage::input::{Key, KeyInput};
use sabotage::player::{jump, move_player, JUMP_SPEED, PLAYER_SPEED};

fn holding(keys: &[Key]) -> KeyInput {
    let mut input = KeyInput::new();
    for key in keys {
        input.press(*key);
    }
    input
}

#[test]
fn a_and_d_run_the_player_and_both_together_stand_still() {
    assert_eq!(move_player(&holding(&[Key::Letter('A')])), -PLAYER_SPEED);
    assert_eq!(move_player(&holding(&[Key::Letter('D')])), PLAYER_SPEED);
    assert_eq!(move_player(&holding(&[Key::Letter('A'), Key::Letter('D')])), 0);
    assert_eq!(move_player(&KeyInput::new()), 0);
}

#[test]
fn only_a_player_on_the_ground_can_jump() {
    assert_eq!(jump(&holding(&[Key::Space]), true), Some(JUMP_SPEED));
    assert_eq!(jump(&holding(&[Key::Letter('W')]), true), Some(JUMP_SPEED));
    assert_eq!(jump(&holding(&[Key::Space]), false), None);
    assert_eq!(jump(&KeyInput::new(), true), None);
}

#[test]
fn the_airlock_cannot_be_worked_until_it_is_unlocked() {
    let standing = Point { x: px(560), y: DECK + PLAYER_HEIGHT / 2 };
    let doors = vec![Door::airlock(px(580), DECK)];
    assert_eq!(nearest_shut_door(&doors, standing, false), None);
    assert_eq!(nearest_shut_door(&doors, standing, true), Some(0));
}
