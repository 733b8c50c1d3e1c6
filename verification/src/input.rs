//! The keyboard as the rules read it: which keys went down this frame and
//! which are being held. The game fills one of these from its input device
//! every frame and hands it to whatever is listening.

use vstd::prelude::*;

verus! {

/// A key on the keyboard that something in the game listens for.
#[derive(Debug, Clone, Copy, PartialEq, Eq, Structural)]
pub enum Key {
    /// A letter key, named by its upper-case letter.
    Letter(char),
    Space,
    Enter,
    Escape,
    Backspace,
    ArrowLeft,
    ArrowRight,
}

/// One frame of keyboard input.
pub struct KeyInput {
    /// Keys that went down this frame.
    pub just_pressed: Vec<Key>,
    /// Keys that are down, whether or not they went down this frame.
    pub held: Vec<Key>,
}

impl KeyInput {
    /// A frame in which nothing is pressed.
    pub fn new() -> (input: Self)
        ensures
            input.just_pressed@ == Seq::<Key>::empty(),
            input.held@ == Seq::<Key>::empty(),
    {
        KeyInput { just_pressed: Vec::new(), held: Vec::new() }
    }

    /// Whether `key` went down this frame.
    pub fn just_pressed(&self, key: Key) -> (down: bool)
        ensures
            down == self.just_pressed@.contains(key),
    {
        let mut i: usize = 0;
        while i < self.just_pressed.len()
            invariant
                i <= self.just_pressed@.len(),
                forall|j: int| 0 <= j < i ==> self.just_pressed@[j] != key,
            decreases self.just_pressed@.len() - i,
        {
            if self.just_pressed[i] == key {
                return true;
            }
            i = i + 1;
        }
        false
    }

    /// Whether `key` is being held.
    pub fn pressed(&self, key: Key) -> (down: bool)
        ensures
            down == self.held@.contains(key),
    {
        let mut i: usize = 0;
        while i < self.held.len()
            invariant
                i <= self.held@.len(),
                forall|j: int| 0 <= j < i ==> self.held@[j] != key,
            decreases self.held@.len() - i,
        {
            if self.held[i] == key {
                return true;
            }
            i = i + 1;
        }
        false
    }

    /// Whether anything at all went down this frame.
    pub fn any_just_pressed(&self) -> (any: bool)
        ensures
            any == (self.just_pressed@.len() > 0),
    {
        self.just_pressed.len() > 0
    }

    /// Puts `key` down. A key already held is not pressed again, so it does
    /// not count as going down this frame.
    pub fn press(&mut self, key: Key)
        ensures
            old(self).held@.contains(key) ==> final(self).held@ == old(self).held@
                && final(self).just_pressed@ == old(self).just_pressed@,
            !old(self).held@.contains(key) ==> final(self).held@ == old(self).held@.push(key)
                && final(self).just_pressed@ == old(self).just_pressed@.push(key),
    {
        if !self.pressed(key) {
            self.held.push(key);
            self.just_pressed.push(key);
        }
    }

    /// Takes `key` out of this frame's fresh presses, so nothing later in the
    /// frame reads it as having gone down; it stays held.
    pub fn clear_just_pressed(&mut self, key: Key)
        ensures
            final(self).held@ == old(self).held@,
            final(self).just_pressed@ == old(self).just_pressed@.filter(|k: Key| k != key),
    {
        let ghost pred = |k: Key| k != key;
        let mut kept: Vec<Key> = Vec::new();
        let mut i: usize = 0;
        while i < self.just_pressed.len()
            invariant
                i <= self.just_pressed@.len(),
                pred == (|k: Key| k != key),
                kept@ == self.just_pressed@.take(i as int).filter(pred),
            decreases self.just_pressed@.len() - i,
        {
            let k = self.just_pressed[i];
            proof {
                reveal_with_fuel(Seq::filter, 1);
                assert(self.just_pressed@.take(i + 1).drop_last() =~= self.just_pressed@.take(
                    i as int,
                ));
            }
            assert(self.just_pressed@.take(i + 1).last() == k);
            assert(pred(k) == (k != key));
            if k != key {
                kept.push(k);
            }
            i = i + 1;
        }
        proof {
            assert(self.just_pressed@.take(i as int) =~= self.just_pressed@);
        }
        self.just_pressed = kept;
    }
}

} // verus!
