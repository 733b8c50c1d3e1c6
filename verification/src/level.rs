//! The rocket a run is played in: its decks, the two rooms the bulkhead cuts
//! each deck into, the code stencilled in every room, and how much of the
//! run's breach objective has been sealed.

use vstd::prelude::*;

use crate::chance::draw_below;
use crate::difficulty::MAX_DECK_COUNT;
use crate::text::{decimal, push_char, push_decimal, push_str, two_digits, push_two_digits, digit_char};

verus! {

/// How many rooms the bulkhead cuts each deck into.
pub const ROOMS_PER_DECK: usize = 2;

/// Rooms in the largest rocket any tier deals.
pub const MAX_ROOM_COUNT: usize = 12;

/// How many characters a room code is: four, so it reads as a plate
/// marking rather than a name.
pub const ROOM_CODE_LEN: usize = 4;

/// How many draws `RoomCodes::random` makes at most. The drawing has to stop
/// somewhere to be known to finish, where drawing until every room has a
/// code would in principle go on for ever. The budget is far beyond anything
/// a real draw comes near (about one draw in four is thrown back); should it
/// ever run out, the codes are dealt from the picks spelling `A0` and each
/// room's place instead.
pub const CODE_DRAW_BUDGET: u64 = 1_000_000;

/// Which side of the bulkhead a room is on.
#[derive(Debug, Clone, Copy, PartialEq, Eq, Structural)]
pub enum Side {
    Port,
    Starboard,
}

/// One room of the rocket: the stretch of a deck on one side of the
/// bulkhead. Deck 0 is the one the player is dropped onto.
#[derive(Debug, Clone, Copy, PartialEq, Eq, Structural)]
pub struct Room {
    pub deck: usize,
    pub side: Side,
}

/// Which scene a run is in. There is one: the inside of the rocket.
#[derive(Debug, Clone, Copy, PartialEq, Eq, Structural)]
pub enum Level {
    Rocket,
}

/// How much of the run's breach objective has been sealed.
#[derive(Debug, Clone, Copy, PartialEq, Eq, Structural)]
pub struct LevelProgress {
    pub total_portals: usize,
    pub completed_portals: usize,
}

/// The place of a room, counting up the rocket a deck at a time, port side
/// first.
pub open spec fn room_index(room: Room) -> int {
    room.deck * 2 + match room.side {
        Side::Port => 0int,
        Side::Starboard => 1int,
    }
}

/// The room at a place in the rocket.
pub open spec fn room_at(index: int) -> Room {
    Room {
        deck: (index / 2) as usize,
        side: if index % 2 == 0 {
            Side::Port
        } else {
            Side::Starboard
        },
    }
}

/// How a side is named to the player.
pub open spec fn side_name(side: Side) -> Seq<char> {
    match side {
        Side::Port => "port"@,
        Side::Starboard => "starboard"@,
    }
}

/// How a room is named in anything the player reads: "deck 1, port".
pub open spec fn room_label(room: Room) -> Seq<char> {
    "deck "@ + decimal(room.deck as nat) + ", "@ + side_name(room.side)
}

/// The rooms of a rocket with `deck_count` decks, in room order.
pub open spec fn rooms_of(deck_count: nat) -> Seq<Room> {
    Seq::new(deck_count * 2, |i: int| room_at(i))
}

impl Side {
    /// How the side is named to the player.
    pub fn name(self) -> (s: &'static str)
        ensures
            s@ == side_name(self),
    {
        match self {
            Side::Port => "port",
            Side::Starboard => "starboard",
        }
    }
}

impl Room {
    /// The `index`th room, counting up the rocket a deck at a time.
    pub fn from_index(index: usize) -> (room: Self)
        ensures
            room == room_at(index as int),
    {
        Room {
            deck: index / 2,
            side: if index % 2 == 0 {
                Side::Port
            } else {
                Side::Starboard
            },
        }
    }

    /// Which room of the rocket this is; the inverse of `from_index`.
    pub fn index(self) -> (i: usize)
        requires
            self.deck <= (usize::MAX - 1) / 2,
        ensures
            i == room_index(self),
            self.deck < MAX_DECK_COUNT ==> i < MAX_ROOM_COUNT,
    {
        self.deck * 2 + match self.side {
            Side::Port => 0,
            Side::Starboard => 1,
        }
    }

    /// How the room is named in anything the player reads.
    pub fn label(self) -> (s: String)
        ensures
            s@ == room_label(self),
    {
        let mut s = String::new();
        push_str(&mut s, "deck ");
        push_decimal(&mut s, self.deck as u64);
        push_str(&mut s, ", ");
        push_str(&mut s, self.side.name());
        proof {
            assert(s@ =~= room_label(self));
        }
        s
    }
}

/// Counting rooms up the rocket and reading the count back are inverses.
pub proof fn law_room_index_round_trip(room: Room, index: int)
    requires
        0 <= index <= usize::MAX,
    ensures
        room_at(room_index(room)) == room,
        room_index(room_at(index)) == index,
{
}

impl Default for Level {
    /// Every run is the rocket.
    fn default() -> (level: Self)
        ensures
            level == Level::Rocket,
    {
        Level::Rocket
    }
}

impl Level {
    /// How the level is named to the player.
    pub fn title(self) -> (s: &'static str)
        ensures
            s@ == "Inside Rocket"@,
    {
        match self {
            Level::Rocket => "Inside Rocket",
        }
    }

    /// The level a run goes on to after this one: there is none after the
    /// rocket.
    pub fn next(self) -> (next: Option<Level>)
        ensures
            next is None,
    {
        match self {
            Level::Rocket => None,
        }
    }

    /// The rooms the level is divided into when the rocket has `deck_count`
    /// decks.
    pub fn rooms(self, deck_count: usize) -> (rooms: Vec<Room>)
        requires
            deck_count <= MAX_DECK_COUNT,
        ensures
            rooms@ == rooms_of(deck_count as nat),
    {
        let mut rooms: Vec<Room> = Vec::new();
        let count = deck_count * 2;
        let mut i: usize = 0;
        while i < count
            invariant
                count == deck_count * 2,
                i <= count,
                rooms@ =~= rooms_of(deck_count as nat).take(i as int),
            decreases count - i,
        {
            rooms.push(Room::from_index(i));
            i = i + 1;
        }
        rooms
    }

    /// Whether `room` is one of the level's rooms at `deck_count` decks.
    pub fn has_room(self, deck_count: usize, room: Room) -> (present: bool)
        ensures
            present == rooms_of(deck_count as nat).contains(room),
    {
        proof {
            if room.deck < deck_count {
                assert(rooms_of(deck_count as nat)[room_index(room)] == room);
            }
        }
        room.deck < deck_count
    }

    /// How many breaches the level puts up: one in every room.
    pub fn portal_count(self, deck_count: usize) -> (n: usize)
        requires
            deck_count <= MAX_DECK_COUNT,
        ensures
            n == rooms_of(deck_count as nat).len(),
    {
        deck_count * 2
    }
}

impl LevelProgress {
    /// A run's progress before anything has been sealed.
    pub fn new(level: Level, deck_count: usize) -> (progress: Self)
        requires
            deck_count <= MAX_DECK_COUNT,
        ensures
            progress.total_portals == rooms_of(deck_count as nat).len(),
            progress.completed_portals == 0,
    {
        LevelProgress { total_portals: level.portal_count(deck_count), completed_portals: 0 }
    }

    /// Books one breach as sealed and says whether that was the last.
    pub fn complete_portal(&mut self) -> (all_done: bool)
        ensures
            final(self).total_portals == old(self).total_portals,
            final(self).completed_portals == if old(self).completed_portals == usize::MAX {
                usize::MAX as int
            } else {
                old(self).completed_portals + 1
            },
            all_done == (final(self).completed_portals >= final(self).total_portals),
    {
        self.completed_portals = self.completed_portals.saturating_add(1);
        self.all_portals_completed()
    }

    /// Whether every breach has been sealed.
    pub fn all_portals_completed(&self) -> (done: bool)
        ensures
            done == (self.completed_portals >= self.total_portals),
    {
        self.completed_portals >= self.total_portals
    }

    /// The run is clear when every obstacle on the level has been worked:
    /// the panel, if its room is on the level, and every breach.
    pub fn all_obstacles_completed(
        &self,
        level: Level,
        deck_count: usize,
        panel_room: Room,
        panel_solved: bool,
    ) -> (clear: bool)
        ensures
            clear == ((rooms_of(deck_count as nat).contains(panel_room) ==> panel_solved)
                && self.completed_portals >= self.total_portals),
    {
        let panel_done = if level.has_room(deck_count, panel_room) {
            panel_solved
        } else {
            true
        };
        panel_done && self.all_portals_completed()
    }
}

/// Sealing breaches one at a time never loses one, and sealing as many as
/// the level has finishes the objective.
pub proof fn law_sealing_every_breach_completes_the_run(
    before: LevelProgress,
    after: LevelProgress,
)
    requires
        before.completed_portals < usize::MAX,
        after.total_portals == before.total_portals,
        after.completed_portals == before.completed_portals + 1,
    ensures
        after.completed_portals > before.completed_portals,
        before.completed_portals + 1 >= before.total_portals ==> after.completed_portals
            >= after.total_portals,
        before.completed_portals >= before.total_portals ==> after.completed_portals
            >= after.total_portals,
{
}

// ---------------------------------------------------------------------------
// Room codes
// ---------------------------------------------------------------------------

/// A character a room code may use: an upper-case letter or a digit.
pub open spec fn is_code_char(c: char) -> bool {
    ('A' <= c && c <= 'Z') || ('0' <= c && c <= '9')
}

/// What a room code has to be: four letters and digits with at least one of
/// each, so it reads as a marking rather than a word or a number.
pub open spec fn is_marking(code: Seq<char>) -> bool {
    &&& code.len() == ROOM_CODE_LEN
    &&& forall|i: int| 0 <= i < code.len() ==> is_code_char(#[trigger] code[i])
    &&& exists|i: int| 0 <= i < code.len() && 'A' <= #[trigger] code[i] && code[i] <= 'Z'
    &&& exists|i: int| 0 <= i < code.len() && '0' <= #[trigger] code[i] && code[i] <= '9'
}

/// The character at a place in the code alphabet: the letters, then the
/// digits.
pub open spec fn alphabet_char(i: int) -> char {
    if i < 26 {
        (65 + i) as char
    } else {
        (48 + i - 26) as char
    }
}

/// The codes stencilled by each room's hatch, one per room of the largest
/// rocket, in room order — what the manual's room index lists the rooms
/// under. Drawn when a run starts rather than written down, so they cannot be
/// learnt once and the manual left shut.
#[derive(Debug, PartialEq, Eq)]
pub struct RoomCodes(Vec<String>);

/// The codes a set of room codes holds, in room order.
pub open spec fn codes_view(codes: Seq<String>) -> Seq<Seq<char>> {
    codes.map_values(|s: String| s@)
}

/// Every code is a marking and no two rooms share one.
pub open spec fn codes_well_formed(codes: Seq<Seq<char>>) -> bool {
    &&& codes.len() == MAX_ROOM_COUNT
    &&& forall|i: int| 0 <= i < codes.len() ==> is_marking(#[trigger] codes[i])
    &&& forall|i: int, j: int|
        0 <= i < j < codes.len() ==> #[trigger] codes[i] != #[trigger] codes[j]
}

/// The character for a place in the code alphabet.
fn alphabet(i: usize) -> (c: char)
    requires
        i < 36,
    ensures
        c == alphabet_char(i as int),
        is_code_char(c),
        i < 26 <==> ('A' <= c && c <= 'Z'),
        i >= 26 <==> ('0' <= c && c <= '9'),
{
    if i < 26 {
        let b: u8 = 65u8 + (i as u8);
        b as char
    } else {
        let b: u8 = 48u8 + ((i - 26) as u8);
        b as char
    }
}

/// Whether `code` is already among `codes`.
fn already_drawn(codes: &Vec<String>, code: &String) -> (found: bool)
    ensures
        found == codes_view(codes@).contains(code@),
{
    let mut i: usize = 0;
    while i < codes.len()
        invariant
            i <= codes@.len(),
            forall|j: int| 0 <= j < i ==> codes@[j]@ != code@,
        decreases codes@.len() - i,
    {
        if codes[i] == *code {
            proof {
                assert(codes_view(codes@)[i as int] == code@);
            }
            return true;
        }
        i = i + 1;
    }
    proof {
        if codes_view(codes@).contains(code@) {
            let k = choose|k: int|
                0 <= k < codes_view(codes@).len() && codes_view(codes@)[k] == code@;
            assert(codes@[k]@ == code@);
        }
    }
    false
}

/// The code a draw of picks spells, one alphabet place a character.
pub open spec fn spelt(group: Seq<usize>) -> Seq<char> {
    group.map_values(|p: usize| alphabet_char(p as int))
}

/// Whether every pick names a place in the code alphabet.
pub open spec fn picks_in_alphabet(picks: Seq<usize>) -> bool {
    forall|i: int| 0 <= i < picks.len() ==> #[trigger] picks[i] < 36
}

/// The codes kept once `code` is drawn after `before`: it goes back in the
/// hat if every room already has a code, if it is all letters or all digits,
/// or if it repeats a code already kept; otherwise it is kept, after the
/// others.
pub open spec fn kept_after(before: Seq<Seq<char>>, code: Seq<char>) -> Seq<Seq<char>> {
    if before.len() < MAX_ROOM_COUNT && is_marking(code) && !before.contains(code) {
        before.push(code)
    } else {
        before
    }
}

/// The codes kept from the first `draws` draws of four picks each, in the
/// order they were drawn.
pub open spec fn kept_codes(picks: Seq<usize>, draws: nat) -> Seq<Seq<char>>
    decreases draws,
{
    if draws == 0 {
        Seq::empty()
    } else {
        kept_after(
            kept_codes(picks, (draws - 1) as nat),
            spelt(picks.subrange(ROOM_CODE_LEN * (draws - 1), ROOM_CODE_LEN * draws)),
        )
    }
}

/// The codes a run of picks deals, four picks a draw: every room's, if the
/// picks all name alphabet places and the draws keep a code for every room;
/// none otherwise. Picks left over after the last whole draw are not used.
pub open spec fn codes_from_draws(picks: Seq<usize>) -> Option<Seq<Seq<char>>> {
    let kept = kept_codes(picks, picks.len() / (ROOM_CODE_LEN as nat));
    if picks_in_alphabet(picks) && kept.len() == MAX_ROOM_COUNT {
        Some(kept)
    } else {
        None
    }
}

/// Codes kept from a draw depend only on the picks those draws used.
proof fn lemma_kept_codes_use_only_their_draws(a: Seq<usize>, b: Seq<usize>, draws: nat)
    requires
        ROOM_CODE_LEN * draws <= a.len(),
        ROOM_CODE_LEN * draws <= b.len(),
        forall|i: int| 0 <= i < ROOM_CODE_LEN * draws ==> a[i] == b[i],
    ensures
        kept_codes(a, draws) == kept_codes(b, draws),
    decreases draws,
{
    if draws > 0 {
        lemma_kept_codes_use_only_their_draws(a, b, (draws - 1) as nat);
        let lo = ROOM_CODE_LEN * (draws - 1);
        let hi = ROOM_CODE_LEN * draws;
        assert(a.subrange(lo, hi) =~= b.subrange(lo, hi));
    }
}

/// The four codes of picks of one code, in the order they go in.
pub open spec fn fallback_picks(index: int) -> Seq<usize> {
    seq![0usize, 26usize, (26 + index / 10) as usize, (26 + index % 10) as usize]
}

/// Every kept code is a marking, no two are alike, and every room has at
/// most one.
pub open spec fn kept_well(codes: Seq<Seq<char>>) -> bool {
    &&& codes.len() <= MAX_ROOM_COUNT
    &&& forall|i: int| 0 <= i < codes.len() ==> is_marking(#[trigger] codes[i])
    &&& forall|i: int, j: int|
        0 <= i < j < codes.len() ==> #[trigger] codes[i] != #[trigger] codes[j]
}

/// Spells the draw of four picks at `start` and keeps it among `codes`,
/// unless it goes back in the hat.
fn keep_draw(codes: &mut Vec<String>, picks: &Vec<usize>, start: usize)
    requires
        start + ROOM_CODE_LEN <= picks@.len(),
        forall|i: int| start <= i < start + ROOM_CODE_LEN ==> #[trigger] picks@[i] < 36,
        kept_well(codes_view(old(codes)@)),
    ensures
        codes_view(final(codes)@) == kept_after(
            codes_view(old(codes)@),
            spelt(picks@.subrange(start as int, start + ROOM_CODE_LEN)),
        ),
        kept_well(codes_view(final(codes)@)),
{
    let ghost group = picks@.subrange(start as int, start + ROOM_CODE_LEN);
    let count = picks.len();
    let mut code = String::new();
    let mut letters: bool = false;
    let mut digits: bool = false;
    let mut k: usize = 0;
    while k < ROOM_CODE_LEN
        invariant
            k <= ROOM_CODE_LEN,
            count == picks@.len(),
            start + ROOM_CODE_LEN <= picks@.len(),
            group == picks@.subrange(start as int, start + ROOM_CODE_LEN),
            forall|i: int| start <= i < start + ROOM_CODE_LEN ==> #[trigger] picks@[i] < 36,
            code@ == spelt(group.take(k as int)),
            forall|i: int| 0 <= i < k ==> is_code_char(#[trigger] code@[i]),
            letters == exists|i: int| 0 <= i < k && 'A' <= #[trigger] code@[i] && code@[i] <= 'Z',
            digits == exists|i: int| 0 <= i < k && '0' <= #[trigger] code@[i] && code@[i] <= '9',
        decreases ROOM_CODE_LEN - k,
    {
        let pick = picks[start + k];
        assert(picks@[start + k] < 36);
        let c = alphabet(pick);
        let ghost before = code@;
        push_char(&mut code, c);
        proof {
            assert(group[k as int] == pick);
            assert(spelt(group.take(k + 1)) =~= spelt(group.take(k as int)).push(c));
            assert(code@[k as int] == c);
            assert forall|i: int| 0 <= i < k implies code@[i] == before[i] by {}
        }
        if pick < 26 {
            letters = true;
        } else {
            digits = true;
        }
        k = k + 1;
    }
    proof {
        assert(group.take(ROOM_CODE_LEN as int) =~= group);
        if is_marking(code@) {
            assert(letters && digits);
        }
    }
    let ghost before = codes_view(codes@);
    if codes.len() < MAX_ROOM_COUNT && letters && digits && !already_drawn(&codes, &code) {
        let ghost old_codes = codes@;
        codes.push(code);
        proof {
            assert(codes_view(codes@) =~= before.push(code@));
            let v = codes_view(codes@);
            assert forall|i: int, j: int| 0 <= i < j < v.len() implies #[trigger] v[i] != #[trigger] v[j] by {
                if j == v.len() - 1 {
                    assert(v[i] == before[i]);
                }
            }
        }
    }
}

/// Spells the four picks for the code `A0` and the room's place as two
/// digits, for when the draw runs out of budget.
fn push_fallback_picks(picks: &mut Vec<usize>, index: usize)
    requires
        index < 100,
    ensures
        final(picks)@ == old(picks)@ + fallback_picks(index as int),
{
    picks.push(0);
    picks.push(26);
    picks.push(26 + index / 10);
    picks.push(26 + index % 10);
    proof {
        assert(final(picks)@ =~= old(picks)@ + fallback_picks(index as int));
    }
}

impl RoomCodes {
    /// Every room's code.
    pub closed spec fn codes(&self) -> Seq<Seq<char>> {
        codes_view(self.0@)
    }

    #[verifier::type_invariant]
    closed spec fn well_formed(self) -> bool {
        codes_well_formed(codes_view(self.0@))
    }

    /// Draws a distinct marking for every room of the largest rocket, four
    /// picks of the code alphabet a code, by `rand`. Which codes come back
    /// is chance; whatever they are, they are the codes `from_draws` deals
    /// from some run of picks. Should the draw ever run out of its budget,
    /// the codes are dealt from the picks that spell `A0` and each room's
    /// place.
    pub fn random() -> (codes: Self)
        ensures
            codes_well_formed(codes.codes()),
            exists|picks: Seq<usize>| codes_from_draws(picks) == Some(codes.codes()),
    {
        let mut picks: Vec<usize> = Vec::new();
        let mut codes: Vec<String> = Vec::new();
        let mut draws: u64 = 0;
        while codes.len() < MAX_ROOM_COUNT && draws < CODE_DRAW_BUDGET
            invariant
                draws <= CODE_DRAW_BUDGET,
                picks@.len() == ROOM_CODE_LEN * draws,
                picks_in_alphabet(picks@),
                codes_view(codes@) == kept_codes(picks@, draws as nat),
                kept_well(codes_view(codes@)),
            decreases CODE_DRAW_BUDGET - draws,
        {
            let start = picks.len();
            let ghost earlier = picks@;
            let mut k: usize = 0;
            while k < ROOM_CODE_LEN
                invariant
                    k <= ROOM_CODE_LEN,
                    start == earlier.len(),
                    picks@.len() == start + k,
                    picks_in_alphabet(picks@),
                    forall|i: int| 0 <= i < start ==> #[trigger] picks@[i] == earlier[i],
                decreases ROOM_CODE_LEN - k,
            {
                let pick = draw_below(36);
                picks.push(pick);
                k = k + 1;
            }
            proof {
                lemma_kept_codes_use_only_their_draws(earlier, picks@, draws as nat);
                assert(kept_codes(picks@, (draws + 1) as nat) == kept_after(
                    kept_codes(picks@, draws as nat),
                    spelt(picks@.subrange(start as int, start + ROOM_CODE_LEN)),
                ));
            }
            keep_draw(&mut codes, &picks, start);
            draws = draws + 1;
        }
        if codes.len() < MAX_ROOM_COUNT {
            picks = Vec::new();
            codes = Vec::new();
            let mut i: usize = 0;
            while i < MAX_ROOM_COUNT
                invariant
                    i <= MAX_ROOM_COUNT,
                    picks@.len() == ROOM_CODE_LEN * i,
                    picks_in_alphabet(picks@),
                    forall|j: int| 0 <= j < i ==> #[trigger] picks@.subrange(
                        ROOM_CODE_LEN * j,
                        ROOM_CODE_LEN * j + ROOM_CODE_LEN,
                    ) == fallback_picks(j),
                    codes_view(codes@) == kept_codes(picks@, i as nat),
                    codes@.len() == i,
                    forall|j: int| 0 <= j < i ==> #[trigger] codes_view(codes@)[j] == spelt(fallback_picks(j)),
                    kept_well(codes_view(codes@)),
                decreases MAX_ROOM_COUNT - i,
            {
                let start = picks.len();
                let ghost earlier = picks@;
                push_fallback_picks(&mut picks, i);
                let ghost group = fallback_picks(i as int);
                let ghost code = spelt(group);
                proof {
                    assert forall|j: int| 0 <= j < picks@.len() implies #[trigger] picks@[j] < 36 by {
                        if j >= start {
                            assert(picks@[j] == group[j - start]);
                        } else {
                            assert(picks@[j] == earlier[j]);
                        }
                    }
                    assert(picks@.subrange(start as int, start + ROOM_CODE_LEN) =~= group);
                    assert forall|j: int| 0 <= j < i implies #[trigger] picks@.subrange(
                        ROOM_CODE_LEN * j,
                        ROOM_CODE_LEN * j + ROOM_CODE_LEN,
                    ) == fallback_picks(j) by {
                        assert(picks@.subrange(ROOM_CODE_LEN * j, ROOM_CODE_LEN * j + ROOM_CODE_LEN)
                            =~= earlier.subrange(ROOM_CODE_LEN * j, ROOM_CODE_LEN * j + ROOM_CODE_LEN));
                    }
                    lemma_kept_codes_use_only_their_draws(earlier, picks@, i as nat);
                    assert(code[0] == 'A');
                    assert(code[1] == '0');
                    assert(code[2] == alphabet_char(26 + i / 10));
                    assert(code[3] == alphabet_char(26 + i % 10));
                    assert forall|j: int| 0 <= j < code.len() implies is_code_char(#[trigger] code[j]) by {}
                    assert('A' <= code[0] && code[0] <= 'Z');
                    assert('0' <= code[1] && code[1] <= '9');
                    assert(is_marking(code));
                    let before = codes_view(codes@);
                    if before.contains(code) {
                        let j = choose|j: int| 0 <= j < before.len() && before[j] == code;
                        let other = spelt(fallback_picks(j));
                        assert(other[2] == code[2] && other[3] == code[3]);
                        assert(other[2] == alphabet_char(26 + j / 10));
                        assert(other[3] == alphabet_char(26 + j % 10));
                        assert(j / 10 == i / 10);
                        assert(j % 10 == i % 10);
                        assert(false);
                    }
                }
                keep_draw(&mut codes, &picks, start);
                proof {
                    assert(codes_view(codes@) =~= kept_codes(picks@, (i + 1) as nat));
                }
                i = i + 1;
            }
        }
        proof {
            let v = codes_view(codes@);
            assert(codes_from_draws(picks@) == Some(v));
        }
        RoomCodes(codes)
    }

    /// The codes a run of picks deals, four picks a draw and each pick a
    /// place in the code alphabet (the letters, then the digits). A draw
    /// that spells all letters or all digits, or a code already kept, goes
    /// back in the hat; the others are kept in the order they were drawn
    /// until every room of the largest rocket has one. There are none if a
    /// pick is outside the alphabet or the picks run out first.
    pub fn from_draws(picks: &Vec<usize>) -> (codes: Option<RoomCodes>)
        ensures
            match codes {
                Some(c) => codes_from_draws(picks@) == Some(c.codes()),
                None => codes_from_draws(picks@) is None,
            },
    {
        let mut i: usize = 0;
        while i < picks.len()
            invariant
                i <= picks@.len(),
                forall|j: int| 0 <= j < i ==> #[trigger] picks@[j] < 36,
            decreases picks@.len() - i,
        {
            if picks[i] >= 36 {
                return None;
            }
            i = i + 1;
        }
        let draws = picks.len() / ROOM_CODE_LEN;
        assert(picks@.len() <= usize::MAX);
        let mut codes: Vec<String> = Vec::new();
        let mut g: usize = 0;
        while g < draws
            invariant
                g <= draws,
                picks@.len() <= usize::MAX,
                draws == picks@.len() / (ROOM_CODE_LEN as nat),
                picks_in_alphabet(picks@),
                codes_view(codes@) == kept_codes(picks@, g as nat),
                kept_well(codes_view(codes@)),
            decreases draws - g,
        {
            assert(ROOM_CODE_LEN * g + ROOM_CODE_LEN <= picks@.len()) by (nonlinear_arith)
                requires
                    g < draws,
                    draws == picks@.len() / 4,
                    ROOM_CODE_LEN == 4,
            ;
            keep_draw(&mut codes, picks, ROOM_CODE_LEN * g);
            g = g + 1;
        }
        if codes.len() == MAX_ROOM_COUNT {
            Some(RoomCodes(codes))
        } else {
            None
        }
    }

    /// The code stencilled by this room's hatch, without its `#`.
    pub fn of(&self, room: Room) -> (code: &str)
        requires
            room.deck < MAX_DECK_COUNT,
        ensures
            code@ == self.codes()[room_index(room)],
            is_marking(code@),
    {
        proof {
            use_type_invariant(self);
        }
        let i = room.index();
        self.0[i].as_str()
    }
}

/// `s` followed by spaces out to `width` characters, or unchanged if it is
/// already that long.
pub open spec fn padded(s: Seq<char>, width: nat) -> Seq<char> {
    if s.len() >= width {
        s
    } else {
        s + Seq::new((width - s.len()) as nat, |i: int| ' ')
    }
}

/// One deck's worth of the manual's room index: both its rooms, code first.
pub open spec fn index_line(codes: Seq<Seq<char>>, deck: nat) -> Seq<char> {
    let port = Room { deck: deck as usize, side: Side::Port };
    let starboard = Room { deck: deck as usize, side: Side::Starboard };
    "  #"@ + codes[room_index(port)] + "  "@ + padded(room_label(port), 20) + "#"@
        + codes[room_index(starboard)] + "  "@ + room_label(starboard)
}

/// Appends spaces to `s` until it is `width` characters long.
fn pad_to(s: &mut String, width: usize)
    ensures
        final(s)@ == padded(old(s)@, width as nat),
{
    let ghost start = s@;
    let mut len = s.as_str().unicode_len();
    while len < width
        invariant
            len == s@.len(),
            start.len() <= len,
            start.len() >= width ==> len == start.len(),
            start.len() < width ==> len <= width,
            s@ =~= start + Seq::new((len - start.len()) as nat, |i: int| ' '),
        decreases width - len,
    {
        push_char(s, ' ');
        len = len + 1;
    }
    proof {
        if start.len() >= width {
            assert(len == start.len());
            assert(Seq::new((len - start.len()) as nat, |i: int| ' ') =~= Seq::<char>::empty());
            assert(s@ =~= start);
        } else {
            assert(len == width);
        }
    }
}

/// One deck's worth of the manual's room index: both its rooms, code first,
/// built from the same room list the level is so the codes in the manual
/// cannot drift from the codes on the rooms.
pub fn deck_index_line(codes: &RoomCodes, deck: usize) -> (line: String)
    requires
        deck < MAX_DECK_COUNT,
    ensures
        line@ == index_line(codes.codes(), deck as nat),
{
    let port = Room { deck, side: Side::Port };
    let starboard = Room { deck, side: Side::Starboard };
    let mut line = String::new();
    push_str(&mut line, "  #");
    push_str(&mut line, codes.of(port));
    push_str(&mut line, "  ");
    let ghost before = line@;
    let label = port.label();
    let mut padded_label = label;
    pad_to(&mut padded_label, 20);
    push_str(&mut line, padded_label.as_str());
    push_str(&mut line, "#");
    push_str(&mut line, codes.of(starboard));
    push_str(&mut line, "  ");
    let other = starboard.label();
    push_str(&mut line, other.as_str());
    proof {
        assert(line@ =~= index_line(codes.codes(), deck as nat));
    }
    line
}

} // verus!
