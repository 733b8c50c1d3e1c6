//! Which drawing the player's character shows: its pose, picked from what the
//! player is doing, and for the two poses that move, which of their two
//! frames is up.
//!
//! Speeds are in thousandths of a pixel per second and time in
//! microseconds. The frame cycle keeps time the way a repeating timer does:
//! time carries over, and every full frame length that passes in a tick
//! turns the cycle over once.

use vstd::prelude::*;

verus! {

/// How long each of the two walk frames is held.
pub const WALK_FRAME_MICROS: u64 = 120_000;
/// How long each of the two climb frames is held: a climb is slower.
pub const CLIMB_FRAME_MICROS: u64 = 180_000;
/// Below this speed the character is treated as standing still.
pub const WALKING_SPEED: i64 = 5_000;
/// How many frames a moving pose cycles through.
pub const CYCLE_FRAMES: usize = 2;

/// Which drawing the character is showing. The jump frame covers falling
/// too.
#[derive(Debug, Clone, Copy, PartialEq, Eq, Structural)]
pub enum Pose {
    Idle,
    Walking,
    Airborne,
    Climbing,
}

/// One of the character's drawings: the still ones, or a frame of one of
/// the two cycles.
#[derive(Debug, Clone, Copy, PartialEq, Eq, Structural)]
pub enum Frame {
    Idle,
    Jump,
    Walk(usize),
    Climb(usize),
}

/// Whether a speed is fast enough to count as going somewhere.
pub open spec fn moving_at(speed: int) -> bool {
    speed > WALKING_SPEED || speed < -WALKING_SPEED
}

/// The pose for what the player is doing: climbing beats everything, then
/// being off the ground, then moving along.
pub open spec fn pose_of(climbing: bool, grounded: bool, horizontal_speed: int) -> Pose {
    if climbing {
        Pose::Climbing
    } else if !grounded {
        Pose::Airborne
    } else if moving_at(horizontal_speed) {
        Pose::Walking
    } else {
        Pose::Idle
    }
}

/// How long one frame of a pose's cycle is held.
pub open spec fn frame_length(pose: Pose) -> int {
    match pose {
        Pose::Climbing => CLIMB_FRAME_MICROS as int,
        _ => WALK_FRAME_MICROS as int,
    }
}

/// Whether a pose works through a cycle of frames.
pub open spec fn cycles(pose: Pose) -> bool {
    pose is Walking || pose is Climbing
}

impl Pose {
    /// The pose for what the player is doing.
    pub fn of(climbing: bool, grounded: bool, horizontal_speed: i64) -> (pose: Pose)
        ensures
            pose == pose_of(climbing, grounded, horizontal_speed as int),
    {
        if climbing {
            Pose::Climbing
        } else if !grounded {
            Pose::Airborne
        } else if horizontal_speed > WALKING_SPEED || horizontal_speed < -WALKING_SPEED {
            Pose::Walking
        } else {
            Pose::Idle
        }
    }

    /// How long one frame of this pose's cycle is held.
    pub fn frame_micros(self) -> (micros: u64)
        ensures
            micros == frame_length(self),
    {
        match self {
            Pose::Climbing => CLIMB_FRAME_MICROS,
            _ => WALK_FRAME_MICROS,
        }
    }
}

/// The character's pose and where it is in its cycle.
pub struct PlayerAnimation {
    pose: Pose,
    step: usize,
    elapsed: u64,
    duration: u64,
}

impl PlayerAnimation {
    pub closed spec fn current_pose(&self) -> Pose {
        self.pose
    }

    /// Which frame of the cycle is up.
    pub closed spec fn current_step(&self) -> int {
        self.step as int
    }

    /// Time run into the current frame.
    pub closed spec fn into_frame(&self) -> int {
        self.elapsed as int
    }

    /// How long a frame of the current cycle is held.
    pub closed spec fn frame_held(&self) -> int {
        self.duration as int
    }

    /// The cycle is on one of its frames, partway into it, and keeps its
    /// pose's time.
    pub open spec fn well_formed(&self) -> bool {
        &&& 0 <= self.current_step() < CYCLE_FRAMES
        &&& 0 <= self.into_frame() < self.frame_held()
        &&& self.frame_held() == frame_length(self.current_pose())
    }

    /// Standing, on the first frame, with the clock at the walk's rate.
    pub fn new() -> (animation: Self)
        ensures
            animation.well_formed(),
            animation.current_pose() == Pose::Idle,
            animation.current_step() == 0,
            animation.into_frame() == 0,
    {
        PlayerAnimation { pose: Pose::Idle, step: 0, elapsed: 0, duration: WALK_FRAME_MICROS }
    }

    pub fn pose(&self) -> (pose: Pose)
        ensures
            pose == self.current_pose(),
    {
        self.pose
    }

    pub fn step(&self) -> (step: usize)
        ensures
            step == self.current_step(),
    {
        self.step
    }

    /// The pose's cycle, if it is one that moves at all.
    pub fn cycle(&self) -> (cycle: Option<Pose>)
        ensures
            cycle == if cycles(self.current_pose()) {
                Some(self.current_pose())
            } else {
                None
            },
    {
        match self.pose {
            Pose::Walking => Some(Pose::Walking),
            Pose::Climbing => Some(Pose::Climbing),
            Pose::Idle | Pose::Airborne => None,
        }
    }

    /// The drawing to show right now.
    pub fn frame(&self) -> (frame: Frame)
        ensures
            frame == match self.current_pose() {
                Pose::Walking => Frame::Walk(self.current_step() as usize),
                Pose::Climbing => Frame::Climb(self.current_step() as usize),
                Pose::Airborne => Frame::Jump,
                Pose::Idle => Frame::Idle,
            },
    {
        match self.pose {
            Pose::Walking => Frame::Walk(self.step),
            Pose::Climbing => Frame::Climb(self.step),
            Pose::Airborne => Frame::Jump,
            Pose::Idle => Frame::Idle,
        }
    }

    /// Switches pose, restarting the cycle whenever a new one is taken up
    /// so a stride, or a climb, always begins on its first frame.
    pub fn set_pose(&mut self, pose: Pose)
        requires
            old(self).well_formed(),
        ensures
            final(self).well_formed(),
            final(self).current_pose() == pose,
            pose == old(self).current_pose() ==> {
                &&& final(self).current_step() == old(self).current_step()
                &&& final(self).into_frame() == old(self).into_frame()
            },
            pose != old(self).current_pose() ==> {
                &&& final(self).current_step() == 0
                &&& final(self).into_frame() == 0
            },
    {
        if self.pose == pose {
            return;
        }
        self.pose = pose;
        self.step = 0;
        self.duration = pose.frame_micros();
        self.elapsed = 0;
    }

    /// Runs the cycle on `delta_micros`, if the pose has one and the
    /// character is `moving`: every full frame length that passes turns the
    /// cycle over once, and what is left over carries into the next frame.
    pub fn advance(&mut self, delta_micros: u64, moving: bool)
        requires
            old(self).well_formed(),
        ensures
            final(self).well_formed(),
            final(self).current_pose() == old(self).current_pose(),
            if cycles(old(self).current_pose()) && moving {
                let total = old(self).into_frame() + delta_micros;
                &&& final(self).current_step() == (old(self).current_step() + total
                    / old(self).frame_held()) % (CYCLE_FRAMES as int)
                &&& final(self).into_frame() == total % old(self).frame_held()
            } else {
                &&& final(self).current_step() == old(self).current_step()
                &&& final(self).into_frame() == old(self).into_frame()
            },
    {
        if self.cycle().is_none() || !moving {
            return;
        }
        let total: u128 = self.elapsed as u128 + delta_micros as u128;
        let duration: u128 = self.duration as u128;
        let times: u128 = total / duration;
        let left: u128 = total % duration;
        let turned: u128 = (self.step as u128 + times % 2) % 2;
        proof {
            assert((self.step + times % 2) % 2 == (self.step + times) % 2) by (nonlinear_arith)
                requires
                    0 <= self.step,
                    0 <= times,
            ;
        }
        self.step = turned as usize;
        self.elapsed = left as u64;
    }
}

} // verus!
