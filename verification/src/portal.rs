//! The breaches: walking into one opens the challenge behind it, once.

use vstd::prelude::*;

use crate::geometry::{in_world, Point};
use crate::level::Room;
use crate::minigames::{MinigameConfig, MinigameId, PendingMinigame};

verus! {

/// How close the player has to come to a breach's middle to walk into it,
/// in thousandths of a pixel.
pub const PORTAL_RADIUS: i64 = 42_000;

/// The radius, squared.
pub const PORTAL_RADIUS_SQUARED: i128 = 1_764_000_000;

/// A breach in the hull: where it is, whose room it is in, which challenge
/// is behind it, and whether it has been walked into already.
#[derive(Debug, Clone, Copy, PartialEq, Eq, Structural)]
pub struct Portal {
    pub at: Point,
    pub room: Room,
    pub minigame: MinigameId,
    pub used: bool,
}

/// How far the player at `p` is from the breach's middle, squared.
pub open spec fn portal_distance(portal: Portal, p: Point) -> int {
    (p.x - portal.at.x) * (p.x - portal.at.x) + (p.y - portal.at.y) * (p.y - portal.at.y)
}

/// Whether the player at `p` walks into the breach: it is still open, and
/// they are within its radius.
pub open spec fn enterable(portal: Portal, p: Point) -> bool {
    !portal.used && portal_distance(portal, p) <= PORTAL_RADIUS * PORTAL_RADIUS
}

fn distance(portal: &Portal, p: Point) -> (d: i128)
    requires
        in_world(portal.at),
        in_world(p),
    ensures
        d == portal_distance(*portal, p),
{
    let dx = p.x as i128 - portal.at.x as i128;
    let dy = p.y as i128 - portal.at.y as i128;
    proof {
        assert(0 <= dx * dx <= 4 * 1_000_000_000_000int * 1_000_000_000_000int && 0 <= dy * dy <= 4
            * 1_000_000_000_000int * 1_000_000_000_000int) by (nonlinear_arith)
            requires
                -2_000_000_000_000 <= dx <= 2_000_000_000_000,
                -2_000_000_000_000 <= dy <= 2_000_000_000_000,
        ;
    }
    dx * dx + dy * dy
}

/// Walking into a breach: the nearest open breach the player is within
/// reach of (the first, where two are as near) is used up, and the challenge
/// behind it is queued for its room. None, if the player is at no breach.
pub fn enter_portal(portals: &mut Vec<Portal>, player: Point) -> (queued: Option<PendingMinigame>)
    requires
        in_world(player),
        forall|i: int| 0 <= i < old(portals)@.len() ==> in_world(#[trigger] old(portals)@[i].at),
    ensures
        final(portals)@.len() == old(portals)@.len(),
        match queued {
            None => {
                &&& final(portals)@ == old(portals)@
                &&& forall|j: int|
                    0 <= j < old(portals)@.len() ==> !enterable(#[trigger] old(portals)@[j], player)
            },
            Some(p) => exists|i: int|
                {
                    &&& 0 <= i < old(portals)@.len()
                    &&& enterable(old(portals)@[i], player)
                    &&& forall|j: int|
                        0 <= j < old(portals)@.len() && enterable(#[trigger] old(portals)@[j], player)
                            ==> portal_distance(old(portals)@[i], player) <= portal_distance(
                            old(portals)@[j],
                            player,
                        )
                    &&& forall|j: int|
                        0 <= j < i && enterable(#[trigger] old(portals)@[j], player)
                            ==> portal_distance(old(portals)@[i], player) < portal_distance(
                            old(portals)@[j],
                            player,
                        )
                    &&& p == PendingMinigame(
                        MinigameConfig { id: old(portals)@[i].minigame, room: old(portals)@[i].room },
                    )
                    &&& final(portals)@ == old(portals)@.update(
                        i,
                        Portal { used: true, ..old(portals)@[i] },
                    )
                },
        },
{
    let mut best: Option<usize> = None;
    let mut best_distance: i128 = 0;
    let mut i: usize = 0;
    while i < portals.len()
        invariant
            i <= portals@.len(),
            portals@ == old(portals)@,
            in_world(player),
            forall|k: int| 0 <= k < portals@.len() ==> in_world(#[trigger] portals@[k].at),
            match best {
                Some(b) => {
                    &&& b < i
                    &&& enterable(portals@[b as int], player)
                    &&& best_distance == portal_distance(portals@[b as int], player)
                    &&& forall|j: int|
                        0 <= j < i && enterable(#[trigger] portals@[j], player) ==> best_distance
                            <= portal_distance(portals@[j], player)
                    &&& forall|j: int|
                        0 <= j < b && enterable(#[trigger] portals@[j], player) ==> best_distance
                            < portal_distance(portals@[j], player)
                },
                None => forall|j: int| 0 <= j < i ==> !enterable(#[trigger] portals@[j], player),
            },
        decreases portals@.len() - i,
    {
        let portal = portals[i];
        if !portal.used {
            let d = distance(&portal, player);
            if d <= PORTAL_RADIUS_SQUARED {
                match best {
                    None => {
                        best = Some(i);
                        best_distance = d;
                    },
                    Some(_) => {
                        if d < best_distance {
                            best = Some(i);
                            best_distance = d;
                        }
                    },
                }
            }
        }
        i = i + 1;
    }
    match best {
        None => None,
        Some(b) => {
            let portal = portals[b];
            portals.set(b, Portal { used: true, ..portal });
            Some(PendingMinigame(MinigameConfig { id: portal.minigame, room: portal.room }))
        },
    }
}

/// A breach is walked into once: after it has opened its challenge, it
/// never opens another.
pub proof fn law_a_breach_opens_its_challenge_once(portal: Portal, p: Point)
    ensures
        !enterable(Portal { used: true, ..portal }, p),
{
}

} // verus!
