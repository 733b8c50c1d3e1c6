use sabotage::input::{Key, KeyInput};
use sabotage::minigame_keys::{MinigameKeys, RoomKeys};
use sabotage::level::Room;
use sabotage::level::Side;
use sabotage::minigames::broken_wire::{BrokenWire, BrokenWirePhase, START_SEPARATION};
use sabotage::minigames::clean_engine::{CleanEngine, STROKES_TO_CLEAN};
use sabotage::minigames::coolant_valve::{CoolantValve, ValvePhase, SEALED_PRESSURE};
use sabotage::minigames::instance::{
    new_minigame, open_minigame, run_active_minigame, ActiveMinigame, Minigame, MinigameFrame,
    MinigameVisualState,
};
use sabotage::minigames::{
    MinigameAudioCue, MinigameConfig, MinigameId, MinigameOutcome, PendingMinigame,
};

const KEYS: MinigameKeys = MinigameKeys {
    primary: Key::Letter('A'),
    secondary: Key::Letter('D'),
    up: Key::Letter('W'),
    down: Key::Letter('S'),
    action: Key::Space,
};

const FRAME: u64 = 16_667;

/// One frame's worth of input with a single key freshly pressed.
fn press(key: Key) -> KeyInput {
    let mut keys = KeyInput::new();
    keys.press(key);
    keys
}

/// One frame with `key` held down but not freshly pressed.
fn hold(key: Key) -> KeyInput {
    KeyInput { just_pressed: Vec::new(), held: vec![key] }
}

fn scrub(game: &mut CleanEngine, key: Key) -> Option<MinigameOutcome> {
    game.tick(&press(key), FRAME)
}

#[test]
fn starts_filthy_and_unfinished() {
    let mut game = CleanEngine::new();
    assert_eq!(game.strokes_left(), STROKES_TO_CLEAN);
    assert_eq!(game.tick(&KeyInput::new(), 0), None);
}

#[test]
fn alternating_wipes_remove_grime() {
    let mut game = CleanEngine::new();
    let before = game.strokes_left();

    scrub(&mut game, Key::Letter('A'));
    scrub(&mut game, Key::Letter('D'));

    assert!(game.strokes_left() < before);
}

#[test]
fn wiping_the_same_side_twice_only_counts_once() {
    let mut game = CleanEngine::new();

    scrub(&mut game, Key::Letter('A'));
    let after_first = game.strokes_left();
    scrub(&mut game, Key::Letter('A'));

    assert_eq!(game.strokes_left(), after_first);
}

#[test]
fn enough_alternating_wipes_finishes_the_job() {
    let mut game = CleanEngine::new();
    let mut key = Key::Letter('A');
    let mut outcome = None;

    for _ in 0..100 {
        outcome = scrub(&mut game, key);
        key = if key == Key::Letter('A') { Key::Letter('D') } else { Key::Letter('A') };
        if outcome.is_some() {
            break;
        }
    }

    assert_eq!(outcome, Some(MinigameOutcome::Success));
    assert_eq!(game.strokes_left(), 0);
}

#[test]
fn exactly_fourteen_alternating_wipes_clean_the_engine() {
    let mut game = CleanEngine::new();
    for stroke in 0..STROKES_TO_CLEAN {
        let key = if stroke % 2 == 0 { Key::Letter('A') } else { Key::Letter('D') };
        let outcome = scrub(&mut game, key);
        if stroke + 1 < STROKES_TO_CLEAN {
            assert_eq!(outcome, None, "finished early at stroke {stroke}");
        } else {
            assert_eq!(outcome, Some(MinigameOutcome::Success));
        }
    }
}

#[test]
fn the_grime_bar_empties_as_the_engine_is_scrubbed() {
    let mut game = CleanEngine::new();
    assert_eq!(game.status(), "[########] Grime: 100%");

    scrub(&mut game, Key::Letter('A'));
    assert_eq!(game.status(), "[########] Grime: 93%");

    for stroke in 1..7 {
        let key = if stroke % 2 == 0 { Key::Letter('A') } else { Key::Letter('D') };
        scrub(&mut game, key);
    }
    assert_eq!(game.strokes_left(), 7);
    assert_eq!(game.status(), "[####____] Grime: 50%");
}

#[test]
fn a_fresh_line_is_flat_and_unsealed() {
    let valve = CoolantValve::new(KEYS);
    assert_eq!(valve.pressure(), 0);
    assert_eq!(valve.phase(), ValvePhase::Regulating);
    assert_eq!(valve.status(), "0 PSI. Line unsealed.");
    assert!(!valve.in_band());
}

#[test]
fn feeding_raises_the_pressure_and_letting_go_bleeds_it() {
    let mut valve = CoolantValve::new(KEYS);
    assert_eq!(valve.tick(&hold(Key::Space), 100_000), None);
    // 13 PSI/s after a tenth of a second, less drag, carried for that tenth.
    assert_eq!(valve.pressure(), 962_000);
    assert_eq!(valve.status(), "1 PSI. Line unsealed.");

    for _ in 0..10 {
        valve.tick(&hold(Key::Space), 100_000);
    }
    let fed = valve.pressure();
    for _ in 0..30 {
        valve.tick(&KeyInput::new(), 100_000);
    }
    assert!(valve.pressure() < fed, "the line did not bleed back");
}

#[test]
fn a_line_driven_past_the_top_ruptures_and_vents() {
    let mut valve = CoolantValve::new(KEYS);
    let mut vented = false;
    for _ in 0..200 {
        valve.tick(&hold(Key::Space), 50_000);
        if let ValvePhase::Venting { .. } = valve.phase() {
            vented = true;
            break;
        }
    }
    assert!(vented, "the line never ruptured");
    assert_eq!(valve.pressure(), 0);
    assert_eq!(valve.status(), "Over-pressure. Line venting.");
    assert_eq!(valve.take_audio_cues(), vec![MinigameAudioCue::CoolantVent]);
    assert_eq!(valve.take_audio_cues(), Vec::<MinigameAudioCue>::new());

    // Venting ignores the feed until it has run its course.
    valve.tick(&hold(Key::Space), 1_200_000);
    assert_eq!(valve.phase(), ValvePhase::Regulating);
    assert_eq!(valve.pressure(), 0);
}

#[test]
fn holding_the_needle_in_the_band_seals_the_line() {
    let mut valve = CoolantValve::new(KEYS);
    let mut outcome = None;
    let mut sealed = false;
    let mut sealed_ting = false;
    for _ in 0..2000 {
        let input = if valve.pressure() < 58_000_000 { hold(Key::Space) } else { KeyInput::new() };
        outcome = valve.tick(&input, 50_000);
        if valve.take_audio_cues() == vec![MinigameAudioCue::CoolantSealed] {
            sealed_ting = true;
        }
        if let ValvePhase::Sealed { .. } = valve.phase() {
            if !sealed {
                sealed = true;
                assert_eq!(valve.pressure(), SEALED_PRESSURE);
                assert_eq!(valve.status(), "Pressure held. Line sealed.");
                assert!(valve.visual_state().sealed);
                assert_eq!(outcome, None, "sealing finished the challenge in the same frame");
            }
        }
        if outcome.is_some() {
            break;
        }
    }
    assert!(sealed && sealed_ting);
    assert_eq!(outcome, Some(MinigameOutcome::Success));
}

#[test]
fn the_holding_readout_counts_down_in_tenths() {
    let mut valve = CoolantValve::new(KEYS);
    let mut frames = 0;
    while !matches!(valve.phase(), ValvePhase::Holding { .. }) && frames < 200 {
        valve.tick(&hold(Key::Space), 50_000);
        frames += 1;
    }
    assert!(matches!(valve.phase(), ValvePhase::Holding { remaining: 6_000_000 }));
    let status = valve.status();
    assert!(status.ends_with(" PSI. Holding — 6.0s"), "{status}");
}

#[test]
fn the_relay_drifts_apart_and_is_pulled_together() {
    let mut wire = BrokenWire::new();
    assert_eq!(wire.status(), "Signal unstable.");
    assert_eq!(wire.visual_state().separation, START_SEPARATION);

    // A frame with nothing pressed lets the ends drift.
    wire.tick(&KeyInput::new(), 100_000);
    assert_eq!(wire.visual_state().separation, START_SEPARATION + 8_200);

    // Both hands at once pull twice as hard.
    let mut both = KeyInput::new();
    both.press(Key::Letter('A'));
    both.press(Key::Letter('D'));
    wire.tick(&both, 0);
    assert_eq!(wire.visual_state().separation, START_SEPARATION + 8_200 - 28_000);
}

#[test]
fn a_jointed_relay_zaps_once_and_is_signed_off_after_its_hold() {
    let mut wire = BrokenWire::new();
    let mut frames = 0;
    while wire.phase() == BrokenWirePhase::Pulling && frames < 1000 {
        let key = if frames % 2 == 0 { Key::Letter('A') } else { Key::Letter('D') };
        assert_eq!(wire.tick(&press(key), FRAME), None);
        frames += 1;
    }
    assert!(matches!(wire.phase(), BrokenWirePhase::JointedArmingZap { .. }));
    assert_eq!(wire.status(), "Signal stabilizing.");
    assert!(wire.visual_state().jointed);
    assert_eq!(wire.visual_state().separation, 0);
    assert_eq!(wire.take_audio_cues(), vec![MinigameAudioCue::SequenceZap]);
    assert_eq!(wire.take_audio_cues(), Vec::<MinigameAudioCue>::new());
    assert_eq!(wire.status(), "Signal stabilized.");

    assert_eq!(wire.tick(&KeyInput::new(), 500_000), None);
    assert_eq!(wire.tick(&KeyInput::new(), 500_000), Some(MinigameOutcome::Success));
}

#[test]
fn every_challenge_can_be_opened() {
    for id in [
        MinigameId::BrokenWire,
        MinigameId::CoolantValve,
        MinigameId::CleanEngine,
        MinigameId::PipeFlow,
    ] {
        let game = new_minigame(id, KEYS);

        assert_eq!(game.id(), id);
        assert!(!game.title().is_empty(), "{id:?} has no title");
        assert!(!game.status().is_empty(), "{id:?} has no status");
        let expected = if id == MinigameId::CleanEngine {
            "Alternate A and D to scrub the engine clean."
        } else {
            "Consult the repair manual."
        };
        assert_eq!(game.instructions(), expected);
    }
}

#[test]
fn each_challenge_is_drawn_its_own_way() {
    assert!(matches!(
        new_minigame(MinigameId::BrokenWire, KEYS).visual_state(),
        MinigameVisualState::BrokenWires(_)
    ));
    assert!(matches!(
        new_minigame(MinigameId::CoolantValve, KEYS).visual_state(),
        MinigameVisualState::CoolantGauge(_)
    ));
    match new_minigame(MinigameId::CleanEngine, KEYS).visual_state() {
        MinigameVisualState::Text(text) => assert_eq!(text, "[########] Grime: 100%"),
        _ => panic!("the engine bell has no art of its own"),
    }
    assert!(matches!(
        new_minigame(MinigameId::PipeFlow, KEYS).visual_state(),
        MinigameVisualState::PipeRun(_)
    ));
}

#[test]
fn a_queued_challenge_is_opened_with_its_room_s_keys() {
    let room_keys = RoomKeys::from_seed(7, 4);
    let room = Room { deck: 1, side: Side::Port };
    let pending = PendingMinigame(MinigameConfig { id: MinigameId::CoolantValve, room });
    let shown = open_minigame(Some(pending), None, &room_keys).expect("nothing opened");
    assert_eq!(shown.id, MinigameId::CoolantValve);
    assert_eq!(shown.game.id(), MinigameId::CoolantValve);
    assert_eq!(shown.game.title(), "Coolant Pressure Regulator");

    let kept = open_minigame(None, Some(shown), &room_keys).expect("the open one was dropped");
    assert_eq!(kept.id, MinigameId::CoolantValve);

    assert!(open_minigame(None, None, &room_keys).is_none());
}

#[test]
fn with_nothing_open_play_goes_back_to_running() {
    let mut active: Option<ActiveMinigame> = None;
    assert!(matches!(
        run_active_minigame(&mut active, &KeyInput::new(), FRAME),
        MinigameFrame::NothingOpen
    ));
    assert!(active.is_none());
}

#[test]
fn a_finished_challenge_is_closed_with_its_result() {
    let mut active = Some(ActiveMinigame {
        id: MinigameId::CleanEngine,
        game: new_minigame(MinigameId::CleanEngine, KEYS),
    });
    let mut finished = None;
    for stroke in 0..STROKES_TO_CLEAN {
        let key = if stroke % 2 == 0 { Key::Letter('A') } else { Key::Letter('D') };
        match run_active_minigame(&mut active, &press(key), FRAME) {
            MinigameFrame::Finished(done) => {
                finished = Some(done);
                break;
            }
            MinigameFrame::Running { cues, visual, status } => {
                assert!(cues.is_empty());
                assert!(matches!(visual, MinigameVisualState::Text(_)));
                assert!(status.starts_with('['));
            }
            MinigameFrame::NothingOpen => panic!("the challenge vanished"),
        }
    }
    let done = finished.expect("the engine was never cleaned");
    assert_eq!(done.id, MinigameId::CleanEngine);
    assert_eq!(done.outcome, MinigameOutcome::Success);
    assert!(active.is_none());
}

#[test]
fn a_running_challenge_hands_over_its_sounds() {
    let mut active = Some(ActiveMinigame {
        id: MinigameId::CoolantValve,
        game: new_minigame(MinigameId::CoolantValve, KEYS),
    });
    let mut vented = false;
    for _ in 0..200 {
        match run_active_minigame(&mut active, &hold(Key::Space), 50_000) {
            MinigameFrame::Running { cues, status, .. } => {
                if cues == vec![MinigameAudioCue::CoolantVent] {
                    vented = true;
                    assert_eq!(status, "Over-pressure. Line venting.");
                    break;
                }
            }
            _ => panic!("the valve closed while being overfed"),
        }
    }
    assert!(vented);
    match &active {
        Some(ActiveMinigame { game: Minigame::CoolantValve(valve), .. }) => {
            assert!(matches!(valve.phase(), ValvePhase::Venting { .. }));
        }
        _ => panic!("the valve was not kept open"),
    }
}

use sabotage::minigames::sequence_challenge::SequenceChallenge;
use sabotage::minigames::tap_challenge::{TapChallenge, GOAL_TAPS, TIME_LIMIT_MICROS};

#[test]
fn enough_taps_before_the_clock_bypass_the_relay() {
    let mut game = TapChallenge::new();
    assert_eq!(game.status(), "Pulses: 0/14   Time: 8.0s");
    for tap in 1..GOAL_TAPS {
        assert_eq!(game.tick(&press(Key::Space), 100_000), None, "finished at tap {tap}");
    }
    assert_eq!(game.status(), "Pulses: 13/14   Time: 6.7s");
    assert_eq!(game.tick(&press(Key::Space), 100_000), Some(MinigameOutcome::Success));
}

#[test]
fn the_tap_clock_running_out_is_a_failure() {
    let mut game = TapChallenge::new();
    assert_eq!(game.tick(&KeyInput::new(), TIME_LIMIT_MICROS - 1), None);
    assert_eq!(game.tick(&KeyInput::new(), 1), Some(MinigameOutcome::Failure));
}

#[test]
fn the_sequence_moves_on_only_for_its_next_key() {
    let mut game = SequenceChallenge::new();
    assert_eq!(game.status(), "Sequence: 0/4");
    assert_eq!(game.tick(&press(Key::Letter('E'))), None);
    assert_eq!(game.status(), "Sequence: 0/4");
    assert_eq!(game.tick(&press(Key::Space)), None);
    assert_eq!(game.tick(&press(Key::Letter('E'))), None);
    assert_eq!(game.tick(&press(Key::Space)), None);
    assert_eq!(game.status(), "Sequence: 3/4");
    assert_eq!(game.tick(&press(Key::Letter('E'))), Some(MinigameOutcome::Success));
}

#[test]
fn the_engine_scrubs_on_a_and_d_whatever_keys_the_room_was_dealt() {
    let dealt = MinigameKeys {
        primary: Key::Letter('L'),
        secondary: Key::Letter('N'),
        up: Key::Letter('W'),
        down: Key::Letter('S'),
        action: Key::Space,
    };
    let mut game = new_minigame(MinigameId::CleanEngine, dealt);
    game.tick(&press(Key::Letter('L')), FRAME);
    assert_eq!(game.status(), "[########] Grime: 100%");
    game.tick(&press(Key::Letter('A')), FRAME);
    assert_eq!(game.status(), "[########] Grime: 93%");
    game.tick(&press(Key::Letter('D')), FRAME);
    assert_eq!(game.status(), "[#######_] Grime: 86%");
}

#[test]
fn the_relay_is_pulled_on_a_and_d() {
    let mut wire = BrokenWire::new();
    wire.tick(&press(Key::Letter('L')), 0);
    assert_eq!(wire.visual_state().separation, START_SEPARATION);
    wire.tick(&press(Key::Letter('A')), 0);
    assert!(wire.visual_state().separation < START_SEPARATION);
}

#[test]
fn the_needle_never_leaves_the_gauge() {
    let mut valve = CoolantValve::new(KEYS);
    for _ in 0..2_000 {
        valve.tick(&hold(Key::Space), FRAME);
        assert!(valve.pressure() >= 0 && valve.pressure() <= 100_000_000);
    }
    for _ in 0..2_000 {
        valve.tick(&KeyInput::new(), FRAME);
        assert!(valve.pressure() >= 0 && valve.pressure() <= 100_000_000);
    }
}
