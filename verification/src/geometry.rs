//! Where things stand in the world, and the decisions that turn on it: how
//! far the camera may follow the player, which door a press works, and when
//! the player is on a ladder and which way they climb.
//!
//! Positions are in thousandths of a pixel, `y` up; speeds in thousandths of
//! a pixel per second.

use vstd::prelude::*;

verus! {

/// How far from the origin anything in the world can stand, either way.
pub const WORLD_LIMIT: i64 = 1_000_000_000_000;

/// How tall the player stands.
pub const PLAYER_HEIGHT: i64 = 64_000;
/// How wide the player is: the figure's own proportions at its height.
pub const PLAYER_WIDTH: i64 = 53_443;
/// How thick the hull and the bulkheads are, and so how wide a door is.
pub const WALL_THICKNESS: i64 = 40_000;
/// How tall a door is.
pub const DOOR_HEIGHT: i64 = 96_000;
/// The biggest crate the level carries.
pub const LARGEST_CRATE_SIZE: i64 = 80_000;
/// Slack on a door's reach, for a player not quite up against it.
pub const REACH_MARGIN: i64 = 8_000;
/// How far off a door's middle a player can work it, sideways: up against
/// it with the biggest crate shoved in between.
pub const DOOR_REACH_X: i64 = 134_721;
/// How far off a door's middle a player can work it, up or down: only from
/// the deck it stands on.
pub const DOOR_REACH_Y: i64 = 80_000;
/// How wide a ladder is drawn.
pub const LADDER_WIDTH: i64 = 48_000;
/// How wide the hole a ladder comes through is, and so its reach.
pub const LADDER_CLEARANCE: i64 = 80_000;
/// How fast the player goes up and down a ladder.
pub const CLIMB_SPEED: i64 = 260_000;

/// A place in the world.
#[derive(Debug, Clone, Copy, PartialEq, Eq, Structural)]
pub struct Point {
    pub x: i64,
    pub y: i64,
}

/// A box in the world, edges included.
#[derive(Debug, Clone, Copy, PartialEq, Eq, Structural)]
pub struct Bounds {
    pub min: Point,
    pub max: Point,
}

/// Whether a place lies inside the world's limits.
pub open spec fn in_world(p: Point) -> bool {
    -WORLD_LIMIT <= p.x <= WORLD_LIMIT && -WORLD_LIMIT <= p.y <= WORLD_LIMIT
}

/// Half of `v`, rounded toward zero.
pub open spec fn halved(v: int) -> int {
    if v >= 0 {
        v / 2
    } else {
        -((-v) / 2)
    }
}

/// `value` held inside `low..=high`, for `low <= high`.
pub open spec fn clamped(value: int, low: int, high: int) -> int {
    if value < low {
        low
    } else if value > high {
        high
    } else {
        value
    }
}

/// Where the camera sits along one axis: on the focus, but never so far
/// that the view shows past the level's edge; and on the level's middle if
/// the view is wider than the level along it.
pub open spec fn axis_view(focus: int, centre: int, slack: int) -> int {
    if slack <= 0 {
        centre
    } else {
        clamped(focus, centre - slack, centre + slack)
    }
}

impl Bounds {
    /// Whether `p` lies inside, edges included.
    pub open spec fn holds(self, p: Point) -> bool {
        self.min.x <= p.x <= self.max.x && self.min.y <= p.y <= self.max.y
    }

    pub fn contains(&self, p: Point) -> (inside: bool)
        ensures
            inside == self.holds(p),
    {
        self.min.x <= p.x && p.x <= self.max.x && self.min.y <= p.y && p.y <= self.max.y
    }

    pub fn width(&self) -> (w: i64)
        requires
            in_world(self.min),
            in_world(self.max),
        ensures
            w == self.max.x - self.min.x,
    {
        self.max.x - self.min.x
    }
}

/// Where the camera sits along one axis: see `axis_view`.
pub fn clamp_axis(focus: i64, centre: i64, slack: i64) -> (at: i64)
    requires
        -2 * WORLD_LIMIT <= centre <= 2 * WORLD_LIMIT,
        slack <= 2 * WORLD_LIMIT,
    ensures
        at == axis_view(focus as int, centre as int, slack as int),
{
    if slack <= 0 {
        centre
    } else if focus < centre - slack {
        centre - slack
    } else if focus > centre + slack {
        centre + slack
    } else {
        focus
    }
}

/// Where the camera sits to follow `focus` with a view `half_view` either
/// side of it, kept inside `bounds`.
pub fn clamp_to(focus: Point, half_view: Point, bounds: Bounds) -> (at: Point)
    requires
        in_world(bounds.min),
        in_world(bounds.max),
        bounds.min.x <= bounds.max.x,
        bounds.min.y <= bounds.max.y,
        0 <= half_view.x <= WORLD_LIMIT,
        0 <= half_view.y <= WORLD_LIMIT,
    ensures
        at.x == axis_view(
            focus.x as int,
            halved(bounds.min.x + bounds.max.x),
            (bounds.max.x - bounds.min.x) / 2 - half_view.x,
        ),
        at.y == axis_view(
            focus.y as int,
            halved(bounds.min.y + bounds.max.y),
            (bounds.max.y - bounds.min.y) / 2 - half_view.y,
        ),
{
    let centre_x = (bounds.min.x + bounds.max.x) / 2;
    let centre_y = (bounds.min.y + bounds.max.y) / 2;
    let slack_x = (bounds.max.x - bounds.min.x) / 2 - half_view.x;
    let slack_y = (bounds.max.y - bounds.min.y) / 2 - half_view.y;
    Point { x: clamp_axis(focus.x, centre_x, slack_x), y: clamp_axis(focus.y, centre_y, slack_y) }
}

/// The camera never shows past the level's edge along an axis the view
/// fits: with the view `half` either side of where it sits, it stays inside
/// the bounds.
pub proof fn law_the_camera_stops_at_the_edge_of_the_level(
    focus: int,
    low: int,
    high: int,
    half: int,
)
    requires
        low <= high,
        0 <= half,
        2 * half <= high - low,
        (low + high) % 2 == 0,
        (high - low) % 2 == 0,
    ensures
        ({
            let at = axis_view(focus, halved(low + high), (high - low) / 2 - half);
            low <= at - half && at + half <= high
        }),
{
}

/// The two kinds of door.
#[derive(Debug, Clone, Copy, PartialEq, Eq, Structural)]
pub enum DoorKind {
    /// A door through a bulkhead between two rooms.
    Bulkhead,
    /// The way out, locked until the run's work is done.
    Airlock,
}

/// How a door is drawn: the airlock in its own colour, a bulkhead door
/// shut or open.
#[derive(Debug, Clone, Copy, PartialEq, Eq, Structural)]
pub enum DoorLook {
    Shut,
    Open,
    Airlock,
}

/// A door: where its middle is, which kind it is, and whether it has been
/// opened.
#[derive(Debug, Clone, Copy, PartialEq, Eq, Structural)]
pub struct Door {
    pub at: Point,
    pub kind: DoorKind,
    pub open: bool,
}

/// Whether a player at `p` can work the door.
pub open spec fn within_reach(door: Door, p: Point) -> bool {
    &&& -DOOR_REACH_X <= p.x - door.at.x <= DOOR_REACH_X
    &&& -DOOR_REACH_Y <= p.y - door.at.y <= DOOR_REACH_Y
}

/// How far a player at `p` is from the door, squared.
pub open spec fn distance_squared(door: Door, p: Point) -> int {
    (p.x - door.at.x) * (p.x - door.at.x) + (p.y - door.at.y) * (p.y - door.at.y)
}

/// Whether a press from `p` could work `door`: it is shut and in reach,
/// and, if it is the airlock, the airlock has been unlocked.
pub open spec fn workable(door: Door, p: Point, airlock_unlocked: bool) -> bool {
    &&& !door.open
    &&& within_reach(door, p)
    &&& door.kind == DoorKind::Airlock ==> airlock_unlocked
}

impl Door {
    /// A shut door of `kind` standing on the deck whose floor is at `deck`.
    pub fn standing_on(x: i64, deck: i64, kind: DoorKind) -> (door: Door)
        requires
            -WORLD_LIMIT <= x <= WORLD_LIMIT,
            -WORLD_LIMIT <= deck <= WORLD_LIMIT,
        ensures
            door == (Door { at: Point { x, y: (deck + DOOR_HEIGHT / 2) as i64 }, kind, open: false }),
    {
        Door { at: Point { x, y: deck + DOOR_HEIGHT / 2 }, kind, open: false }
    }

    pub fn bulkhead(x: i64, deck: i64) -> (door: Door)
        requires
            -WORLD_LIMIT <= x <= WORLD_LIMIT,
            -WORLD_LIMIT <= deck <= WORLD_LIMIT,
        ensures
            door == (Door { at: Point { x, y: (deck + DOOR_HEIGHT / 2) as i64 }, kind: DoorKind::Bulkhead, open: false }),
    {
        Self::standing_on(x, deck, DoorKind::Bulkhead)
    }

    pub fn airlock(x: i64, deck: i64) -> (door: Door)
        requires
            -WORLD_LIMIT <= x <= WORLD_LIMIT,
            -WORLD_LIMIT <= deck <= WORLD_LIMIT,
        ensures
            door == (Door { at: Point { x, y: (deck + DOOR_HEIGHT / 2) as i64 }, kind: DoorKind::Airlock, open: false }),
    {
        Self::standing_on(x, deck, DoorKind::Airlock)
    }

    /// The floor the door stands on.
    pub fn sill(&self) -> (y: i64)
        requires
            in_world(self.at),
        ensures
            y == self.at.y - DOOR_HEIGHT / 2,
    {
        self.at.y - DOOR_HEIGHT / 2
    }

    /// The top of the doorway.
    pub fn lintel(&self) -> (y: i64)
        requires
            in_world(self.at),
        ensures
            y == self.at.y + DOOR_HEIGHT / 2,
    {
        self.sill() + DOOR_HEIGHT
    }

    /// Whether a player at `player` can work the door: up against it, or a
    /// crate's width back, on the deck it stands on.
    pub fn in_reach(&self, player: Point) -> (reachable: bool)
        requires
            in_world(self.at),
            in_world(player),
        ensures
            reachable == within_reach(*self, player),
    {
        let dx = player.x - self.at.x;
        let dy = player.y - self.at.y;
        -DOOR_REACH_X <= dx && dx <= DOOR_REACH_X && -DOOR_REACH_Y <= dy && dy <= DOOR_REACH_Y
    }

    /// How the door is drawn.
    pub fn look(&self) -> (look: DoorLook)
        ensures
            look == match (self.kind, self.open) {
                (DoorKind::Airlock, _) => DoorLook::Airlock,
                (DoorKind::Bulkhead, false) => DoorLook::Shut,
                (DoorKind::Bulkhead, true) => DoorLook::Open,
            },
    {
        match (self.kind, self.open) {
            (DoorKind::Airlock, _) => DoorLook::Airlock,
            (DoorKind::Bulkhead, false) => DoorLook::Shut,
            (DoorKind::Bulkhead, true) => DoorLook::Open,
        }
    }

    /// How far a player at `p` is from the door, squared.
    pub fn distance_squared(&self, p: Point) -> (d: i128)
        requires
            in_world(self.at),
            in_world(p),
        ensures
            d == distance_squared(*self, p),
    {
        let dx = p.x as i128 - self.at.x as i128;
        let dy = p.y as i128 - self.at.y as i128;
        proof {
            assert(0 <= dx * dx <= 4 * WORLD_LIMIT * WORLD_LIMIT && 0 <= dy * dy <= 4 * WORLD_LIMIT
                * WORLD_LIMIT)
                by (nonlinear_arith)
                requires
                    -2 * WORLD_LIMIT <= dx <= 2 * WORLD_LIMIT,
                    -2 * WORLD_LIMIT <= dy <= 2 * WORLD_LIMIT,
            ;
        }
        dx * dx + dy * dy
    }
}

/// The door a press of the use key from `player` works: the nearest shut
/// door in reach, the first of them where two are as near; or none. The
/// airlock only counts once it has been unlocked.
pub fn nearest_shut_door(doors: &Vec<Door>, player: Point, airlock_unlocked: bool) -> (chosen: Option<
    usize,
>)
    requires
        in_world(player),
        forall|i: int| 0 <= i < doors@.len() ==> in_world(#[trigger] doors@[i].at),
    ensures
        match chosen {
            Some(i) => {
                &&& i < doors@.len()
                &&& workable(doors@[i as int], player, airlock_unlocked)
                &&& forall|j: int|
                    0 <= j < doors@.len() && workable(#[trigger] doors@[j], player, airlock_unlocked) ==> distance_squared(
                        doors@[i as int],
                        player,
                    ) <= distance_squared(doors@[j], player)
                &&& forall|j: int|
                    0 <= j < i && workable(#[trigger] doors@[j], player, airlock_unlocked) ==> distance_squared(
                        doors@[i as int],
                        player,
                    ) < distance_squared(doors@[j], player)
            },
            None => forall|j: int| 0 <= j < doors@.len() ==> !workable(#[trigger] doors@[j], player, airlock_unlocked),
        },
{
    let mut best: Option<usize> = None;
    let mut best_distance: i128 = 0;
    let mut i: usize = 0;
    while i < doors.len()
        invariant
            i <= doors@.len(),
            in_world(player),
            forall|k: int| 0 <= k < doors@.len() ==> in_world(#[trigger] doors@[k].at),
            match best {
                Some(b) => {
                    &&& b < i
                    &&& workable(doors@[b as int], player, airlock_unlocked)
                    &&& best_distance == distance_squared(doors@[b as int], player)
                    &&& forall|j: int|
                        0 <= j < i && workable(#[trigger] doors@[j], player, airlock_unlocked) ==> best_distance
                            <= distance_squared(doors@[j], player)
                    &&& forall|j: int|
                        0 <= j < b && workable(#[trigger] doors@[j], player, airlock_unlocked) ==> best_distance
                            < distance_squared(doors@[j], player)
                },
                None => forall|j: int| 0 <= j < i ==> !workable(#[trigger] doors@[j], player, airlock_unlocked),
            },
        decreases doors@.len() - i,
    {
        let door = doors[i];
        let locked = match door.kind {
            DoorKind::Airlock => !airlock_unlocked,
            DoorKind::Bulkhead => false,
        };
        if !door.open && door.in_reach(player) && !locked {
            let d = door.distance_squared(player);
            match best {
                None => {
                    best = Some(i);
                    best_distance = d;
                },
                Some(_) => {
                    if d < best_distance {
                        best = Some(i);
                        best_distance = d;
                    }
                },
            }
        }
        i = i + 1;
    }
    best
}

/// Until the work is done no press opens the airlock, however close the
/// player stands; a bulkhead door is worked the same either way.
pub proof fn law_the_airlock_stays_shut_until_unlocked(door: Door, p: Point)
    ensures
        door.kind == DoorKind::Airlock ==> !workable(door, p, false),
        door.kind == DoorKind::Bulkhead ==> workable(door, p, false) == workable(door, p, true),
{
}

/// Whether a player at `player` has stepped out through an opened airlock.
pub fn stepped_out(doors: &Vec<Door>, player: Point) -> (out: bool)
    requires
        in_world(player),
        forall|i: int| 0 <= i < doors@.len() ==> in_world(#[trigger] doors@[i].at),
    ensures
        out == exists|i: int|
            0 <= i < doors@.len() && (#[trigger] doors@[i]).kind == DoorKind::Airlock
                && doors@[i].open && within_reach(doors@[i], player),
{
    let mut i: usize = 0;
    while i < doors.len()
        invariant
            i <= doors@.len(),
            in_world(player),
            forall|k: int| 0 <= k < doors@.len() ==> in_world(#[trigger] doors@[k].at),
            forall|j: int|
                0 <= j < i ==> !((#[trigger] doors@[j]).kind == DoorKind::Airlock && doors@[j].open
                    && within_reach(doors@[j], player)),
        decreases doors@.len() - i,
    {
        let door = doors[i];
        if door.kind == DoorKind::Airlock && door.open && door.in_reach(player) {
            return true;
        }
        i = i + 1;
    }
    false
}

/// A ladder: where it stands, and the floors it runs between.
#[derive(Debug, Clone, Copy, PartialEq, Eq, Structural)]
pub struct Ladder {
    pub x: i64,
    pub foot: i64,
    pub head: i64,
}

/// Where a player counts as on a ladder: across the hole it comes through,
/// from the floor at its foot to standing height on the floor at its head.
pub open spec fn ladder_reach(ladder: Ladder) -> Bounds {
    Bounds {
        min: Point { x: (ladder.x - LADDER_CLEARANCE / 2) as i64, y: ladder.foot },
        max: Point {
            x: (ladder.x + LADDER_CLEARANCE / 2) as i64,
            y: (ladder.head + PLAYER_HEIGHT / 2) as i64,
        },
    }
}

impl Ladder {
    pub fn reach(&self) -> (reach: Bounds)
        requires
            -WORLD_LIMIT <= self.x <= WORLD_LIMIT,
            -WORLD_LIMIT <= self.head <= WORLD_LIMIT,
        ensures
            reach == ladder_reach(*self),
    {
        Bounds {
            min: Point { x: self.x - LADDER_CLEARANCE / 2, y: self.foot },
            max: Point { x: self.x + LADDER_CLEARANCE / 2, y: self.head + PLAYER_HEIGHT / 2 },
        }
    }
}

/// What a frame of climbing comes to: whether the player is on a ladder,
/// and if so how fast they go up (down, if negative). Off a ladder, gravity
/// has them again and their speed is left to it.
#[derive(Debug, Clone, Copy, PartialEq, Eq, Structural)]
pub enum Climb {
    Off,
    On { vertical_speed: i64 },
}

/// The first of `reaches` holding `at`, if any.
pub open spec fn first_holding(reaches: Seq<Bounds>, at: Point) -> Option<int> {
    if exists|i: int| 0 <= i < reaches.len() && #[trigger] reaches[i].holds(at) {
        Some(choose|i: int|
            0 <= i < reaches.len() && #[trigger] reaches[i].holds(at) && forall|j: int|
                0 <= j < i ==> !(#[trigger] reaches[j].holds(at)))
    } else {
        None
    }
}

/// One frame on the ladders: a player inside a ladder's reach who is on it
/// already, or presses up or down, is on it; up climbs, but not past the
/// top of the reach; down descends; neither, or both, holds them still.
pub fn climb_ladder(
    reaches: &Vec<Bounds>,
    at: Point,
    climbing: bool,
    up: bool,
    down: bool,
) -> (climb: Climb)
    ensures
        match climb {
            Climb::Off => (forall|i: int| 0 <= i < reaches@.len() ==> !(#[trigger] reaches@[i]).holds(at))
                || !(climbing || up || down),
            Climb::On { vertical_speed } => exists|i: int|
                0 <= i < reaches@.len() && (#[trigger] reaches@[i]).holds(at) && (forall|j: int|
                    0 <= j < i ==> !(#[trigger] reaches@[j]).holds(at)) && (climbing || up || down)
                    && vertical_speed == if up && !down && at.y < reaches@[i].max.y {
                    CLIMB_SPEED as int
                } else if down && !up {
                    -CLIMB_SPEED
                } else {
                    0
                },
        },
{
    let mut i: usize = 0;
    while i < reaches.len()
        invariant
            i <= reaches@.len(),
            forall|j: int| 0 <= j < i ==> !(#[trigger] reaches@[j]).holds(at),
        decreases reaches@.len() - i,
    {
        let reach = reaches[i];
        if reach.contains(at) {
            if !(climbing || up || down) {
                return Climb::Off;
            }
            let speed = if up && !down && at.y < reach.max.y {
                CLIMB_SPEED
            } else if down && !up {
                -CLIMB_SPEED
            } else {
                0
            };
            return Climb::On { vertical_speed: speed };
        }
        i = i + 1;
    }
    Climb::Off
}

} // verus!
