//! The isolation panels: a row of switches and the lamps over them, bolted
//! to the wall of every room of the rocket, one panel to a room.
//!
//! Every panel's combination is drawn fresh at the start of every run, and
//! rooms further up the rocket carry more switches. The lamps of a panel
//! come on together, and only once the whole set matches; the setting to
//! match is printed in the repair manual. Once matched, a panel stays solved.

use vstd::prelude::*;

use crate::difficulty::MAX_DECK_COUNT;
use crate::level::{room_at, room_index, rooms_of, Level, LevelProgress, Room};
use crate::puzzles::{scramble, scramble_spec};
use crate::text::{decimal, push_char, push_decimal, push_str};
use vstd::string::StringExecFns;

verus! {

/// How many switches the panel in a room has: three on the bottom deck, one
/// more a deck up to a cap of four.
pub open spec fn switches_in(room: Room) -> int {
    if room.deck >= 1 {
        4
    } else {
        3
    }
}

/// Two to the power `n`.
pub open spec fn two_to(n: nat) -> nat
    decreases n,
{
    if n == 0 {
        1
    } else {
        2 * two_to((n - 1) as nat)
    }
}

/// Two to the powers a panel can need.
pub proof fn lemma_two_to_small()
    ensures
        two_to(0) == 1,
        two_to(1) == 2,
        two_to(2) == 4,
        two_to(3) == 8,
        two_to(4) == 16,
{
    reveal_with_fuel(two_to, 5);
}

/// Whether bit `i` of `pattern` is set.
pub open spec fn bit_set(pattern: int, i: nat) -> bool {
    (pattern / (two_to(i) as int)) % 2 == 1
}

/// The setting a room's panel is dealt off `seed`, as a bit pattern over its
/// switches: anything but all switches down.
pub open spec fn panel_pattern(room: Room, seed: u64) -> int {
    let settings = two_to(switches_in(room) as nat) - 1;
    let bits = scramble_spec(seed ^ scramble_spec(room_index(room) as u64));
    1 + (bits as int) % settings
}

/// The combination a room's panel is dealt off `seed`, switch by switch, left
/// to right: up where the pattern's bit is set.
pub open spec fn panel_combination(room: Room, seed: u64) -> Seq<bool> {
    Seq::new(switches_in(room) as nat, |i: int| bit_set(panel_pattern(room, seed), i as nat))
}

/// How a combination is printed in the manual: `U` for up, `D` for down.
pub open spec fn printed(combination: Seq<bool>) -> Seq<char> {
    combination.map_values(|up: bool| if up {
        'U'
    } else {
        'D'
    })
}

/// How many switches the panel in `room` has.
pub fn switch_count(room: Room) -> (n: usize)
    ensures
        n == switches_in(room),
{
    if room.deck >= 1 {
        4
    } else {
        3
    }
}

/// One room's panel: what it wants, and whether it has been given it.
#[derive(Debug, Clone, PartialEq, Eq)]
pub struct Panel {
    pub room: Room,
    pub combination: Vec<bool>,
    /// Latched: once the switches have been matched the panel stays solved.
    pub solved: bool,
}

/// A panel just dealt for `room` off `seed`.
pub open spec fn is_dealt_panel(panel: Panel, room: Room, seed: u64) -> bool {
    &&& panel.room == room
    &&& panel.combination@ == panel_combination(room, seed)
    &&& !panel.solved
}

impl Panel {
    /// One room's panel, drawn off `seed` mixed with the room, so that every
    /// room's panel is independent of every other's. Never all-down: the
    /// switches start down, and such a panel would be solved before it was
    /// found.
    pub fn for_room(room: Room, seed: u64) -> (panel: Self)
        requires
            room.deck < MAX_DECK_COUNT,
        ensures
            is_dealt_panel(panel, room, seed),
    {
        proof {
            lemma_two_to_small();
        }
        let count = switch_count(room);
        let bits = scramble(seed ^ scramble(room.index() as u64));
        let mut settings: u64 = 1;
        let mut k: usize = 0;
        while k < count
            invariant
                k <= count <= 4,
                count == switches_in(room),
                settings == two_to(k as nat),
            decreases count - k,
        {
            proof {
                lemma_two_to_small();
            }
            settings = settings * 2;
            k = k + 1;
        }
        settings = settings - 1;
        let pattern = 1 + bits % settings;
        let mut combination: Vec<bool> = Vec::new();
        let mut divisor: u64 = 1;
        let mut index: usize = 0;
        while index < count
            invariant
                index <= count <= 4,
                count == switches_in(room),
                divisor == two_to(index as nat),
                pattern == panel_pattern(room, seed),
                combination@ =~= panel_combination(room, seed).take(index as int),
            decreases count - index,
        {
            proof {
                lemma_two_to_small();
            }
            combination.push((pattern / divisor) % 2 == 1);
            divisor = divisor * 2;
            index = index + 1;
        }
        proof {
            assert(panel_combination(room, seed).take(count as int) =~= panel_combination(room, seed));
        }
        Panel { room, combination, solved: false }
    }

    /// Whether a set of switches, left to right, is exactly the combination.
    pub fn matched(&self, switches: &Vec<bool>) -> (m: bool)
        ensures
            m == (switches@ == self.combination@),
    {
        if switches.len() != self.combination.len() {
            return false;
        }
        let mut i: usize = 0;
        while i < switches.len()
            invariant
                switches@.len() == self.combination@.len(),
                i <= switches@.len(),
                forall|j: int| 0 <= j < i ==> switches@[j] == self.combination@[j],
            decreases switches@.len() - i,
        {
            if switches[i] != self.combination[i] {
                return false;
            }
            i = i + 1;
        }
        proof {
            assert(switches@ =~= self.combination@);
        }
        true
    }

    /// The combination as the repair manual prints it: one letter a switch,
    /// `U` for up and `D` for down, left to right as they are mounted.
    pub fn printed_settings(&self) -> (s: String)
        ensures
            s@ == printed(self.combination@),
    {
        let mut s = String::new();
        let mut i: usize = 0;
        while i < self.combination.len()
            invariant
                i <= self.combination@.len(),
                s@ =~= printed(self.combination@.take(i as int)),
            decreases self.combination@.len() - i,
        {
            push_char(
                &mut s,
                if self.combination[i] {
                    'U'
                } else {
                    'D'
                },
            );
            i = i + 1;
        }
        proof {
            assert(self.combination@.take(i as int) =~= self.combination@);
        }
        s
    }
}

/// Every panel asks for a workable setting: at least one switch up, so no
/// panel is solved before it is found, and as many switches as its room's
/// deck calls for.
pub proof fn law_every_panel_asks_for_a_workable_combination(room: Room, seed: u64)
    ensures
        panel_combination(room, seed).len() == switches_in(room),
        exists|i: int| 0 <= i < switches_in(room) && #[trigger] panel_combination(room, seed)[i],
{
    let p = panel_pattern(room, seed);
    let c = panel_combination(room, seed);
    lemma_two_to_small();
    assert(1 <= p < two_to(switches_in(room) as nat));
    if !(p % 2 == 1) && !((p / 2) % 2 == 1) && !((p / 4) % 2 == 1) {
        if switches_in(room) == 3 {
            assert(false);
        } else {
            assert((p / 8) % 2 == 1);
            assert(c[3]);
        }
    } else if p % 2 == 1 {
        assert(c[0]);
    } else if (p / 2) % 2 == 1 {
        assert(c[1]);
    } else {
        assert(c[2]);
    }
}

/// Every room's panel for one run.
#[derive(Debug, Clone, PartialEq, Eq)]
pub struct Panels(Vec<Panel>);

impl Default for Panels {
    /// A placeholder dealt over Medium's four decks; every run deals its own.
    fn default() -> (panels: Self)
        ensures
            panels.all()@.len() == 8,
    {
        Self::from_seed(0, Level::Rocket, 4)
    }
}

/// How many panels in a run are solved.
pub open spec fn count_solved(panels: Seq<Panel>) -> nat
    decreases panels.len(),
{
    if panels.len() == 0 {
        0
    } else {
        count_solved(panels.drop_last()) + if panels.last().solved {
            1nat
        } else {
            0nat
        }
    }
}

/// The first panel in a run that is in `room`.
pub open spec fn first_in(panels: Seq<Panel>, room: Room, at: int) -> bool {
    &&& 0 <= at < panels.len()
    &&& panels[at].room == room
    &&& forall|j: int| 0 <= j < at ==> panels[j].room != room
}

/// What throwing switch `index` of the panel in `room` does, from the
/// panels and switches before to those after: the first panel for the room
/// decides. If it is solved nothing moves; otherwise the switch is thrown
/// and the panel is solved exactly when the switches then match its
/// combination.
pub open spec fn switch_thrown(
    panels_before: Seq<Panel>,
    panels_after: Seq<Panel>,
    room: Room,
    switches_before: Seq<bool>,
    switches_after: Seq<bool>,
    index: int,
) -> bool {
    exists|at: int| #[trigger] first_in(panels_before, room, at) && thrown_at(
        panels_before,
        panels_after,
        switches_before,
        switches_after,
        index,
        at,
    )
}

/// The throw of switch `index` at the panel in place `at`.
pub open spec fn thrown_at(
    panels_before: Seq<Panel>,
    panels_after: Seq<Panel>,
    switches_before: Seq<bool>,
    switches_after: Seq<bool>,
    index: int,
    at: int,
) -> bool {
    if panels_before[at].solved {
        &&& switches_after == switches_before
        &&& panels_after == panels_before
    } else {
        let thrown = switches_before.update(index, !switches_before[index]);
        &&& switches_after == thrown
        &&& panels_after == panels_before.update(
            at,
            Panel {
                room: panels_before[at].room,
                combination: panels_before[at].combination,
                solved: thrown == panels_before[at].combination@,
            },
        )
    }
}

/// The HUD's line on the run's outstanding work.
pub open spec fn status_line(panels: Seq<Panel>, progress: LevelProgress) -> Seq<char> {
    let panel_part = if panels.len() > 0 {
        "Panels set · "@ + decimal(count_solved(panels)) + "/"@ + decimal(panels.len())
    } else {
        Seq::empty()
    };
    if progress.total_portals > 0 {
        let shown = if progress.completed_portals < progress.total_portals {
            progress.completed_portals
        } else {
            progress.total_portals
        };
        let gap = if panel_part.len() > 0 {
            "     "@
        } else {
            Seq::empty()
        };
        panel_part + gap + "Breaches sealed · "@ + decimal(shown as nat) + "/"@ + decimal(
            progress.total_portals as nat,
        )
    } else {
        panel_part
    }
}

impl Panels {
    /// The panels, in room order.
    pub closed spec fn all(&self) -> Vec<Panel> {
        self.0
    }

    /// One panel a room, for every room `level` has at `deck_count` decks.
    pub fn from_seed(seed: u64, level: Level, deck_count: usize) -> (panels: Self)
        requires
            deck_count <= MAX_DECK_COUNT,
        ensures
            panels.all()@.len() == rooms_of(deck_count as nat).len(),
            forall|i: int|
                0 <= i < panels.all()@.len() ==> is_dealt_panel(
                    #[trigger] panels.all()@[i],
                    room_at(i),
                    seed,
                ),
    {
        let rooms = level.rooms(deck_count);
        let mut panels: Vec<Panel> = Vec::new();
        let mut i: usize = 0;
        while i < rooms.len()
            invariant
                rooms@ == rooms_of(deck_count as nat),
                deck_count <= MAX_DECK_COUNT,
                i <= rooms@.len(),
                panels@.len() == i,
                forall|j: int| 0 <= j < i ==> is_dealt_panel(#[trigger] panels@[j], room_at(j), seed),
            decreases rooms@.len() - i,
        {
            let room = rooms[i];
            panels.push(Panel::for_room(room, seed));
            i = i + 1;
        }
        Panels(panels)
    }

    /// Where the panel in `room` is in the run.
    fn position(&self, room: Room) -> (at: usize)
        requires
            exists|i: int| 0 <= i < self.all()@.len() && self.all()@[i].room == room,
        ensures
            first_in(self.all()@, room, at as int),
    {
        let mut i: usize = 0;
        while i < self.0.len()
            invariant
                i <= self.0@.len(),
                forall|j: int| 0 <= j < i ==> self.0@[j].room != room,
                exists|k: int| 0 <= k < self.0@.len() && self.0@[k].room == room,
            decreases self.0@.len() - i,
        {
            if self.0[i].room == room {
                return i;
            }
            i = i + 1;
        }
        proof {
            let k = choose|k: int| 0 <= k < self.0@.len() && self.0@[k].room == room;
            assert(false);
        }
        0
    }

    /// The panel in `room`.
    pub fn of(&self, room: Room) -> (panel: &Panel)
        requires
            exists|i: int| 0 <= i < self.all()@.len() && self.all()@[i].room == room,
        ensures
            exists|at: int| first_in(self.all()@, room, at) && *panel == self.all()@[at],
    {
        let at = self.position(room);
        &self.0[at]
    }

    /// Every panel in play, in room order.
    pub fn iter(&self) -> (panels: &Vec<Panel>)
        ensures
            panels@ == self.all()@,
    {
        &self.0
    }

    /// The panel whose setting the manual prints: the first still to be
    /// set, or, once every one is, the last; none if there are no panels.
    pub fn manual_panel(&self) -> (at: Option<usize>)
        ensures
            match at {
                None => self.all()@.len() == 0,
                Some(i) => {
                    &&& i < self.all()@.len()
                    &&& forall|j: int| 0 <= j < i ==> (#[trigger] self.all()@[j]).solved
                    &&& (!self.all()@[i as int].solved || i == self.all()@.len() - 1)
                },
            },
    {
        let mut i: usize = 0;
        while i < self.0.len()
            invariant
                i <= self.0@.len(),
                forall|j: int| 0 <= j < i ==> (#[trigger] self.0@[j]).solved,
            decreases self.0@.len() - i,
        {
            if !self.0[i].solved {
                return Some(i);
            }
            i = i + 1;
        }
        if self.0.len() == 0 {
            None
        } else {
            Some(self.0.len() - 1)
        }
    }

    /// Whether every panel in play has been set. The airlock waits on this
    /// the same way it waits on every breach.
    pub fn all_solved(&self) -> (done: bool)
        ensures
            done == forall|i: int| 0 <= i < self.all()@.len() ==> (#[trigger] self.all()@[i]).solved,
    {
        let mut i: usize = 0;
        while i < self.0.len()
            invariant
                i <= self.0@.len(),
                forall|j: int| 0 <= j < i ==> (#[trigger] self.0@[j]).solved,
            decreases self.0@.len() - i,
        {
            if !self.0[i].solved {
                return false;
            }
            i = i + 1;
        }
        true
    }

    /// Signs off every panel at once, as a scripted ending does.
    pub fn solve_all(&mut self)
        ensures
            final(self).all()@.len() == old(self).all()@.len(),
            forall|i: int|
                0 <= i < final(self).all()@.len() ==> {
                    &&& (#[trigger] final(self).all()@[i]).solved
                    &&& final(self).all()@[i].room == old(self).all()@[i].room
                    &&& final(self).all()@[i].combination == old(self).all()@[i].combination
                },
    {
        let mut i: usize = 0;
        while i < self.0.len()
            invariant
                i <= self.0@.len(),
                self.0@.len() == old(self).0@.len(),
                forall|j: int|
                    0 <= j < self.0@.len() ==> {
                        &&& (j < i ==> (#[trigger] self.0@[j]).solved)
                        &&& self.0@[j].room == old(self).0@[j].room
                        &&& self.0@[j].combination == old(self).0@[j].combination
                    },
            decreases self.0@.len() - i,
        {
            self.0[i].solved = true;
            i = i + 1;
        }
    }

    /// How many panels have been set.
    pub fn solved_count(&self) -> (n: usize)
        ensures
            n == count_solved(self.all()@),
    {
        let mut n: usize = 0;
        let mut i: usize = 0;
        while i < self.0.len()
            invariant
                i <= self.0@.len(),
                n == count_solved(self.0@.take(i as int)),
                n <= i,
            decreases self.0@.len() - i,
        {
            proof {
                assert(self.0@.take(i + 1).drop_last() =~= self.0@.take(i as int));
            }
            if self.0[i].solved {
                n = n + 1;
            }
            i = i + 1;
        }
        proof {
            assert(self.0@.take(i as int) =~= self.0@);
        }
        n
    }

    /// The HUD's line on the run's outstanding work: panels set and breaches
    /// sealed, each as a count out of its total.
    pub fn status(&self, progress: &LevelProgress) -> (line: String)
        ensures
            line@ == status_line(self.all()@, *progress),
    {
        let mut line = String::new();
        if self.0.len() > 0 {
            push_str(&mut line, "Panels set · ");
            push_decimal(&mut line, self.solved_count() as u64);
            push_str(&mut line, "/");
            push_decimal(&mut line, self.0.len() as u64);
        }
        let ghost panel_part = line@;
        if progress.total_portals > 0 {
            if self.0.len() > 0 {
                push_str(&mut line, "     ");
            }
            push_str(&mut line, "Breaches sealed · ");
            let shown = if progress.completed_portals < progress.total_portals {
                progress.completed_portals
            } else {
                progress.total_portals
            };
            push_decimal(&mut line, shown as u64);
            push_str(&mut line, "/");
            push_decimal(&mut line, progress.total_portals as u64);
        }
        proof {
            reveal_strlit("Panels set · ");
            if self.0.len() > 0 {
                assert(panel_part.len() > 0);
            } else {
                assert(panel_part =~= Seq::<char>::empty());
            }
            assert(line@ =~= status_line(self.all()@, *progress));
        }
        line
    }

    /// Throws switch `index` of the panel in `room`, whose switches stand as
    /// `switches`, and latches the panel solved if that makes the switches
    /// match its combination. A solved panel is locked: its switches no
    /// longer throw.
    pub fn flip_switch(&mut self, room: Room, switches: &mut Vec<bool>, index: usize)
        requires
            exists|i: int| 0 <= i < old(self).all()@.len() && old(self).all()@[i].room == room,
            index < old(switches)@.len(),
        ensures
            final(self).all()@.len() == old(self).all()@.len(),
            switch_thrown(
                old(self).all()@,
                final(self).all()@,
                room,
                old(switches)@,
                final(switches)@,
                index as int,
            ),
    {
        let at = self.position(room);
        if self.0[at].solved {
            return;
        }
        let flipped = !switches[index];
        switches.set(index, flipped);
        let matched = self.0[at].matched(switches);
        self.0[at].solved = matched;
    }
}

/// A solved panel stays solved whatever is thrown at it, and the only
/// throws that solve a panel are the ones that leave its switches set to the
/// combination.
pub proof fn law_a_solved_panel_stays_solved(panel: Panel, switches: Seq<bool>, index: int)
    requires
        0 <= index < switches.len(),
    ensures
        ({
            let thrown = switches.update(index, !switches[index]);
            let after = if panel.solved {
                panel
            } else {
                Panel {
                    room: panel.room,
                    combination: panel.combination,
                    solved: thrown == panel.combination@,
                }
            };
            &&& panel.solved ==> after.solved
            &&& (!panel.solved && after.solved) ==> thrown == panel.combination@
        }),
{
}

/// A solved panel is locked: a throw at it moves none of its switches and
/// leaves every panel as it was. No throw ever unsolves a panel, and a throw
/// solves one only by leaving its switches set to the combination.
pub proof fn law_a_solved_panel_is_locked(
    panels_before: Seq<Panel>,
    panels_after: Seq<Panel>,
    room: Room,
    switches_before: Seq<bool>,
    switches_after: Seq<bool>,
    index: int,
)
    requires
        switch_thrown(panels_before, panels_after, room, switches_before, switches_after, index),
    ensures
        panels_after.len() == panels_before.len(),
        forall|j: int|
            0 <= j < panels_before.len() && #[trigger] panels_before[j].solved ==> panels_after[j].solved,
        forall|at: int|
            #[trigger] first_in(panels_before, room, at) && panels_before[at].solved ==> switches_after
                == switches_before && panels_after == panels_before,
        forall|at: int|
            #[trigger] first_in(panels_before, room, at) && !panels_before[at].solved
                && panels_after[at].solved ==> switches_after == panels_before[at].combination@,
{
    let at = choose|at: int| #[trigger] first_in(panels_before, room, at) && thrown_at(
        panels_before,
        panels_after,
        switches_before,
        switches_after,
        index,
        at,
    );
    assert forall|other: int| #[trigger] first_in(panels_before, room, other) implies other == at by {
        if other < at {
            assert(panels_before[other].room != room);
        } else if at < other {
            assert(panels_before[at].room != room);
        }
    }
}

/// Throwing a switch of an unsolved panel inverts that switch and no other:
/// up goes down and down goes up.
pub proof fn law_a_throw_inverts_exactly_one_switch(
    panels_before: Seq<Panel>,
    panels_after: Seq<Panel>,
    room: Room,
    switches_before: Seq<bool>,
    switches_after: Seq<bool>,
    index: int,
    at: int,
)
    requires
        switch_thrown(panels_before, panels_after, room, switches_before, switches_after, index),
        first_in(panels_before, room, at),
        !panels_before[at].solved,
        0 <= index < switches_before.len(),
    ensures
        switches_after.len() == switches_before.len(),
        switches_after[index] == !switches_before[index],
        forall|j: int|
            0 <= j < switches_before.len() && j != index ==> #[trigger] switches_after[j]
                == switches_before[j],
{
    lemma_first_in_is_unique(panels_before, room, at);
}

/// Throwing the same switch of a panel twice, when the first throw does not
/// solve it, leaves the switches as they were.
pub proof fn law_two_throws_of_a_switch_undo_each_other(
    p0: Seq<Panel>,
    p1: Seq<Panel>,
    p2: Seq<Panel>,
    room: Room,
    s0: Seq<bool>,
    s1: Seq<bool>,
    s2: Seq<bool>,
    index: int,
    at: int,
)
    requires
        switch_thrown(p0, p1, room, s0, s1, index),
        switch_thrown(p1, p2, room, s1, s2, index),
        first_in(p0, room, at),
        !p0[at].solved,
        !p1[at].solved,
        0 <= index < s0.len(),
    ensures
        s2 == s0,
{
    lemma_first_in_is_unique(p0, room, at);
    assert(p1.len() == p0.len());
    assert forall|j: int| 0 <= j < at implies p1[j].room != room by {
        assert(p1[j] == p0[j]);
    }
    assert(first_in(p1, room, at));
    lemma_first_in_is_unique(p1, room, at);
    assert(s2 =~= s0);
}

/// Only one place holds the first panel for a room.
proof fn lemma_first_in_is_unique(panels: Seq<Panel>, room: Room, at: int)
    requires
        first_in(panels, room, at),
    ensures
        forall|other: int| #[trigger] first_in(panels, room, other) ==> other == at,
{
    assert forall|other: int| #[trigger] first_in(panels, room, other) implies other == at by {
        if other < at {
            assert(panels[other].room != room);
        } else if at < other {
            assert(panels[at].room != room);
        }
    }
}

} // verus!
