//! How the keyboard drives the player: running left and right, and jumping
//! off the ground.
//!
//! Speeds are in thousandths of a pixel per second, `y` up.

use vstd::prelude::*;

use crate::input::{Key, KeyInput};

verus! {

/// How fast the player runs.
pub const PLAYER_SPEED: i64 = 400_000;
/// How fast the player leaves the ground on a jump.
pub const JUMP_SPEED: i64 = 900_000;

/// The way the held keys run the player: `A` left, `D` right, both or
/// neither standing still.
pub open spec fn direction_of(left: bool, right: bool) -> int {
    (if right {
        1int
    } else {
        0int
    }) - (if left {
        1int
    } else {
        0int
    })
}

/// The player's running speed this frame.
pub fn move_player(keys: &KeyInput) -> (speed: i64)
    ensures
        speed == direction_of(keys.held@.contains(Key::Letter('A')), keys.held@.contains(Key::Letter('D')))
            * PLAYER_SPEED,
{
    let mut direction: i64 = 0;
    if keys.pressed(Key::Letter('A')) {
        direction = direction - 1;
    }
    if keys.pressed(Key::Letter('D')) {
        direction = direction + 1;
    }
    direction * PLAYER_SPEED
}

/// A jump: Space or `W` going down this frame launches a player who is on
/// the ground; in the air nothing happens.
pub fn jump(keys: &KeyInput, grounded: bool) -> (launch: Option<i64>)
    ensures
        launch == if grounded && (keys.just_pressed@.contains(Key::Space)
            || keys.just_pressed@.contains(Key::Letter('W'))) {
            Some(JUMP_SPEED)
        } else {
            None
        },
{
    if grounded && (keys.just_pressed(Key::Space) || keys.just_pressed(Key::Letter('W'))) {
        Some(JUMP_SPEED)
    } else {
        None
    }
}

} // verus!
