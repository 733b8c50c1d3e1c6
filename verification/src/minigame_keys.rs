//! Which keys work each room's breach challenge.
//!
//! Every room draws its own five keys, independent of every other room's,
//! from the letters of the keyboard less `M`, which is the manual's own key.

use vstd::prelude::*;

use crate::input::Key;
use crate::level::{room_at, room_index, Room, MAX_ROOM_COUNT};
use crate::difficulty::MAX_DECK_COUNT;
use crate::puzzles::{scramble, scramble_spec};

verus! {

/// The keys one room's challenge is worked with. Which of the five a given
/// challenge reads depends on which challenge the room was dealt.
#[derive(Debug, Clone, Copy, PartialEq, Eq, Structural)]
pub struct MinigameKeys {
    pub primary: Key,
    pub secondary: Key,
    pub up: Key,
    pub down: Key,
    pub action: Key,
}

/// The letters a room's keys are drawn from: the alphabet without `M`.
pub open spec fn key_pool() -> Seq<Key> {
    seq![
        Key::Letter('A'), Key::Letter('B'), Key::Letter('C'), Key::Letter('D'),
        Key::Letter('E'), Key::Letter('F'), Key::Letter('G'), Key::Letter('H'),
        Key::Letter('I'), Key::Letter('J'), Key::Letter('K'), Key::Letter('L'),
        Key::Letter('N'), Key::Letter('O'), Key::Letter('P'), Key::Letter('Q'),
        Key::Letter('R'), Key::Letter('S'), Key::Letter('T'), Key::Letter('U'),
        Key::Letter('V'), Key::Letter('W'), Key::Letter('X'), Key::Letter('Y'),
        Key::Letter('Z'),
    ]
}

/// The keys drawn, without putting any back, `n` at a time from `pool`: each
/// draw rolls the bits on and takes the key at `bits % pool.len()`.
pub open spec fn draw_keys(bits: u64, pool: Seq<Key>, n: nat) -> Seq<Key>
    decreases n,
{
    if n == 0 || pool.len() == 0 {
        Seq::empty()
    } else {
        let rolled = scramble_spec(bits);
        let at = (rolled % (pool.len() as u64)) as int;
        seq![pool[at]] + draw_keys(rolled, pool.remove(at), (n - 1) as nat)
    }
}

/// The bits a room's draw starts from: the run's seed mixed with the room.
pub open spec fn room_bits(seed: u64, room: int) -> u64 {
    scramble_spec(seed ^ scramble_spec(room as u64))
}

/// The five keys a room is dealt, in the order primary, secondary, up, down,
/// action.
pub open spec fn dealt_keys(seed: u64, room: int) -> Seq<Key> {
    draw_keys(room_bits(seed, room), key_pool(), 5)
}

/// A room's keys as a sequence, in the order they are dealt.
pub open spec fn keys_seq(keys: MinigameKeys) -> Seq<Key> {
    seq![keys.primary, keys.secondary, keys.up, keys.down, keys.action]
}

/// The letters a room's keys are drawn from, in alphabetical order.
pub fn letter_pool() -> (keys: Vec<Key>)
    ensures
        keys@ == key_pool(),
{
    let keys = vec![
        Key::Letter('A'), Key::Letter('B'), Key::Letter('C'), Key::Letter('D'),
        Key::Letter('E'), Key::Letter('F'), Key::Letter('G'), Key::Letter('H'),
        Key::Letter('I'), Key::Letter('J'), Key::Letter('K'), Key::Letter('L'),
        Key::Letter('N'), Key::Letter('O'), Key::Letter('P'), Key::Letter('Q'),
        Key::Letter('R'), Key::Letter('S'), Key::Letter('T'), Key::Letter('U'),
        Key::Letter('V'), Key::Letter('W'), Key::Letter('X'), Key::Letter('Y'),
        Key::Letter('Z'),
    ];
    proof {
        assert(keys@ =~= key_pool());
    }
    keys
}

/// Rolls the bits on and takes one key out of the pool.
fn draw(bits: &mut u64, pool: &mut Vec<Key>) -> (key: Key)
    requires
        old(pool)@.len() > 0,
    ensures
        *final(bits) == scramble_spec(*old(bits)),
        key == old(pool)@[(scramble_spec(*old(bits)) % (old(pool)@.len() as u64)) as int],
        final(pool)@ == old(pool)@.remove(
            (scramble_spec(*old(bits)) % (old(pool)@.len() as u64)) as int,
        ),
{
    *bits = scramble(*bits);
    let at = (*bits % (pool.len() as u64)) as usize;
    pool.remove(at)
}

/// The single letter a key prints as in the manual.
pub fn key_letter(key: Key) -> (letter: char)
    requires
        key_pool().contains(key),
    ensures
        key == Key::Letter(letter),
        letter != 'M',
        'A' <= letter <= 'Z',
{
    match key {
        Key::Letter(c) => c,
        _ => {
            proof {
                let i = choose|i: int| 0 <= i < key_pool().len() && key_pool()[i] == key;
                assert(false);
            }
            'A'
        }
    }
}

impl MinigameKeys {
    /// One room's five keys, drawn without repeats from the letter pool and
    /// mixed with the room, so two rooms dealt the same challenge do not
    /// share a keyboard.
    pub fn for_room(room: Room, seed: u64) -> (keys: Self)
        requires
            room.deck < MAX_DECK_COUNT,
        ensures
            keys_seq(keys) == dealt_keys(seed, room_index(room)),
    {
        let mut bits = scramble(seed ^ scramble(room.index() as u64));
        let mut letters = letter_pool();
        proof {
            reveal_with_fuel(draw_keys, 6);
        }
        let ghost b0 = bits;
        let ghost p0 = letters@;
        let primary = draw(&mut bits, &mut letters);
        let ghost b1 = bits;
        let ghost p1 = letters@;
        let secondary = draw(&mut bits, &mut letters);
        let ghost b2 = bits;
        let ghost p2 = letters@;
        let up = draw(&mut bits, &mut letters);
        let ghost b3 = bits;
        let ghost p3 = letters@;
        let down = draw(&mut bits, &mut letters);
        let ghost b4 = bits;
        let ghost p4 = letters@;
        let action = draw(&mut bits, &mut letters);
        let keys = MinigameKeys { primary, secondary, up, down, action };
        proof {
            assert(p1.len() == 24 && p2.len() == 23 && p3.len() == 22 && p4.len() == 21);
            assert(draw_keys(b4, p4, 1) =~= seq![action]);
            assert(draw_keys(b3, p3, 2) =~= seq![down, action]);
            assert(draw_keys(b2, p2, 3) =~= seq![up, down, action]);
            assert(draw_keys(b1, p1, 4) =~= seq![secondary, up, down, action]);
            assert(draw_keys(b0, p0, 5) =~= keys_seq(keys));
        }
        keys
    }
}

/// Keys drawn without putting any back are all different, and every one of
/// them came out of the pool.
pub proof fn lemma_drawn_keys_distinct(bits: u64, pool: Seq<Key>, n: nat)
    requires
        pool.no_duplicates(),
        pool.len() <= u64::MAX,
    ensures
        draw_keys(bits, pool, n).no_duplicates(),
        n <= pool.len() ==> draw_keys(bits, pool, n).len() == n,
        forall|k: Key| draw_keys(bits, pool, n).contains(k) ==> pool.contains(k),
    decreases n,
{
    if n == 0 || pool.len() == 0 {
    } else {
        let rolled = scramble_spec(bits);
        let at = (rolled % (pool.len() as u64)) as int;
        assert(0 <= at < pool.len());
        let rest = pool.remove(at);
        assert forall|a: int, b: int| 0 <= a < b < rest.len() implies rest[a] != rest[b] by {
            let ia = if a < at { a } else { a + 1 };
            let ib = if b < at { b } else { b + 1 };
            assert(rest[a] == pool[ia]);
            assert(rest[b] == pool[ib]);
        }
        assert(rest.no_duplicates());
        lemma_drawn_keys_distinct(rolled, rest, (n - 1) as nat);
        let tail = draw_keys(rolled, rest, (n - 1) as nat);
        assert forall|k: Key| rest.contains(k) implies pool.contains(k) && k != pool[at] by {
            let j = choose|j: int| 0 <= j < rest.len() && rest[j] == k;
            let ij = if j < at { j } else { j + 1 };
            assert(pool[ij] == k);
        }
        let all = seq![pool[at]] + tail;
        assert(all == draw_keys(bits, pool, n));
        assert forall|a: int, b: int| 0 <= a < b < all.len() implies all[a] != all[b] by {
            if a == 0 {
                assert(all[b] == tail[b - 1]);
                assert(tail.contains(tail[b - 1]));
                assert(rest.contains(tail[b - 1]));
                assert(tail[b - 1] != pool[at]);
            } else {
                assert(all[a] == tail[a - 1]);
                assert(all[b] == tail[b - 1]);
            }
        }
        assert forall|k: Key| all.contains(k) implies pool.contains(k) by {
            let j = choose|j: int| 0 <= j < all.len() && all[j] == k;
            if j > 0 {
                assert(tail[j - 1] == k);
                assert(tail.contains(k));
            }
        }
    }
}

/// No room is ever dealt a key twice, nor the manual's own `M`, nor anything
/// but a letter key.
pub proof fn law_a_room_s_keys_are_distinct_letters(seed: u64, room: int)
    ensures
        dealt_keys(seed, room).len() == 5,
        dealt_keys(seed, room).no_duplicates(),
        forall|k: Key| #[trigger] dealt_keys(seed, room).contains(k) ==> key_pool().contains(k),
        !dealt_keys(seed, room).contains(Key::Letter('M')),
{
    let pool = key_pool();
    assert(pool.no_duplicates()) by {
        assert forall|a: int, b: int| 0 <= a < b < pool.len() implies pool[a] != pool[b] by {}
    }
    lemma_drawn_keys_distinct(room_bits(seed, room), pool, 5);
    if dealt_keys(seed, room).contains(Key::Letter('M')) {
        assert(pool.contains(Key::Letter('M')));
        let i = choose|i: int| 0 <= i < pool.len() && pool[i] == Key::Letter('M');
        assert(false);
    }
}

/// Every room's keys for one run, in room order.
#[derive(Debug, Clone, PartialEq, Eq)]
pub struct RoomKeys(Vec<MinigameKeys>);

impl Default for RoomKeys {
    /// A placeholder dealt over Medium's room count; every run deals its own.
    fn default() -> (keys: Self)
        ensures
            keys.dealt()@.len() == 8,
    {
        Self::from_seed(0, 8)
    }
}

impl RoomKeys {
    /// The keys dealt, by room index.
    pub closed spec fn dealt(&self) -> Vec<MinigameKeys> {
        self.0
    }

    /// One hand of keys for every room of a rocket with `room_count` rooms.
    pub fn from_seed(seed: u64, room_count: usize) -> (keys: Self)
        requires
            room_count <= MAX_ROOM_COUNT,
        ensures
            keys.dealt()@.len() == room_count,
            forall|i: int|
                0 <= i < room_count ==> keys_seq(#[trigger] keys.dealt()@[i]) == dealt_keys(seed, i),
    {
        let mut dealt: Vec<MinigameKeys> = Vec::new();
        let mut i: usize = 0;
        while i < room_count
            invariant
                i <= room_count <= MAX_ROOM_COUNT,
                dealt@.len() == i,
                forall|j: int| 0 <= j < i ==> keys_seq(#[trigger] dealt@[j]) == dealt_keys(seed, j),
            decreases room_count - i,
        {
            let room = Room::from_index(i);
            dealt.push(MinigameKeys::for_room(room, seed));
            i = i + 1;
        }
        RoomKeys(dealt)
    }

    /// How many rooms have keys dealt.
    pub fn room_count(&self) -> (n: usize)
        ensures
            n == self.dealt()@.len(),
    {
        self.0.len()
    }

    /// The keys the challenge in `room` is worked with.
    pub fn of(&self, room: Room) -> (keys: MinigameKeys)
        requires
            room.deck < MAX_DECK_COUNT,
            room_index(room) < self.dealt()@.len(),
        ensures
            keys == self.dealt()@[room_index(room)],
    {
        self.0[room.index()]
    }
}

} // verus!
