use sabotage::player_animation::{
    Frame, PlayerAnimation, Pose, CLIMB_FRAME_MICROS, WALKING_SPEED, WALK_FRAME_MICROS,
};

/// The player's running speed, in thousandths of a pixel per second.
const PLAYER_SPEED: i64 = 400_000;

fn walk_for(micros: u64) -> usize {
    let mut animation = PlayerAnimation::new();
    animation.set_pose(Pose::Walking);
    animation.advance(micros, true);
    animation.step()
}

#[test]
fn pose_follows_what_the_player_is_doing() {
    assert_eq!(Pose::of(false, true, 0), Pose::Idle);
    assert_eq!(Pose::of(false, true, PLAYER_SPEED), Pose::Walking);
    assert_eq!(Pose::of(false, true, -PLAYER_SPEED), Pose::Walking);
    assert_eq!(Pose::of(false, false, PLAYER_SPEED), Pose::Airborne);
    assert_eq!(Pose::of(false, false, 0), Pose::Airborne);
}

#[test]
fn climbing_beats_being_off_the_ground() {
    assert_eq!(Pose::of(true, false, 0), Pose::Climbing);
    assert_eq!(Pose::of(true, false, PLAYER_SPEED), Pose::Climbing);
    assert_eq!(Pose::of(true, true, 0), Pose::Climbing);
}

#[test]
fn a_gentle_nudge_does_not_count_as_walking() {
    assert_eq!(Pose::of(false, true, WALKING_SPEED / 2), Pose::Idle);
}

#[test]
fn the_walk_cycle_alternates_and_wraps() {
    assert_eq!(walk_for(WALK_FRAME_MICROS / 2), 0);
    assert_eq!(walk_for(WALK_FRAME_MICROS * 3 / 2), 1);
    assert_eq!(walk_for(WALK_FRAME_MICROS * 5 / 2), 0);
    assert_eq!(walk_for(WALK_FRAME_MICROS * 203 / 2), 1);
}

#[test]
fn the_climb_cycle_runs_at_its_own_rate() {
    let mut animation = PlayerAnimation::new();
    animation.set_pose(Pose::Climbing);

    animation.advance(WALK_FRAME_MICROS * 6 / 5, true);
    assert_eq!(animation.step(), 0);

    animation.advance(CLIMB_FRAME_MICROS, true);
    assert_eq!(animation.step(), 1);
}

#[test]
fn resting_on_a_ladder_does_not_work_the_climb() {
    let mut animation = PlayerAnimation::new();
    animation.set_pose(Pose::Climbing);
    animation.advance(CLIMB_FRAME_MICROS * 3, false);

    assert_eq!(animation.step(), 0);
}

#[test]
fn only_the_moving_poses_advance_a_cycle() {
    for pose in [Pose::Idle, Pose::Airborne] {
        let mut animation = PlayerAnimation::new();
        animation.set_pose(pose);
        animation.advance(WALK_FRAME_MICROS * 3, true);
        assert_eq!(animation.step(), 0);
    }
}

#[test]
fn every_stride_starts_on_its_first_frame() {
    let mut animation = PlayerAnimation::new();
    animation.set_pose(Pose::Walking);
    animation.advance(WALK_FRAME_MICROS * 3 / 2, true);
    assert_eq!(animation.step(), 1);

    animation.set_pose(Pose::Idle);
    animation.set_pose(Pose::Walking);
    assert_eq!(animation.step(), 0);
}

#[test]
fn the_frame_shown_follows_the_pose() {
    let mut animation = PlayerAnimation::new();
    assert_eq!(animation.frame(), Frame::Idle);
    animation.set_pose(Pose::Airborne);
    assert_eq!(animation.frame(), Frame::Jump);
    animation.set_pose(Pose::Walking);
    animation.advance(WALK_FRAME_MICROS, true);
    assert_eq!(animation.frame(), Frame::Walk(1));
    animation.set_pose(Pose::Climbing);
    assert_eq!(animation.frame(), Frame::Climb(0));
    assert_eq!(animation.cycle(), Some(Pose::Climbing));
}
