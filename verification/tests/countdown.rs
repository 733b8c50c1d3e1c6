use sabotage::countdown::{
    clock_tone, format_remaining, tick_countdown, ClockTone, MissionTimer, MISSION_MICROS,
};
use sabotage::flow::{Flow, PlayingState};

#[test]
fn shows_minutes_and_seconds() {
    assert_eq!(format_remaining(120_000_000), "T-02:00");
    assert_eq!(format_remaining(65_400_000), "T-01:06");
    assert_eq!(format_remaining(9_000_000), "T-00:09");
}

#[test]
fn only_reads_zero_once_the_clock_is_out() {
    assert_eq!(format_remaining(200_000), "T-00:01");
    assert_eq!(format_remaining(0), "T-00:00");
    assert_eq!(format_remaining(-1_000_000), "T-00:00");
}

#[test]
fn the_clock_goes_hot_then_critical() {
    assert_eq!(clock_tone(MISSION_MICROS), ClockTone::Calm);
    assert_eq!(clock_tone(30_000_001), ClockTone::Calm);
    assert_eq!(clock_tone(30_000_000), ClockTone::Warning);
    assert_eq!(clock_tone(10_000_001), ClockTone::Warning);
    assert_eq!(clock_tone(10_000_000), ClockTone::Urgent);
    assert_eq!(clock_tone(0), ClockTone::Urgent);
}

#[test]
fn the_run_is_over_when_the_clock_runs_out() {
    let mut timer = MissionTimer::default();
    assert_eq!(format_remaining(timer.remaining() as i64), "T-02:30");

    let (flow, text, tone) = tick_countdown(&mut timer, 140_000_000);
    assert_eq!(flow, Flow::Stay);
    assert_eq!(text, "T-00:10");
    assert_eq!(tone, ClockTone::Urgent);

    let (flow, text, _) = tick_countdown(&mut timer, 20_000_000);
    assert_eq!(flow, Flow::Playing(PlayingState::GameOver));
    assert_eq!(text, "T-00:00");
    assert!(timer.finished());
    assert_eq!(timer.remaining(), 0);
}
