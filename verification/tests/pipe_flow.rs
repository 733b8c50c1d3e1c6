use sabotage::input::{Key, KeyInput};
use sabotage::minigame_keys::MinigameKeys;
use sabotage::minigames::pipe_flow::{
    deal, turn, Coupling, PipeFlow, PipePiece, RunPhase, INLET_TILE, LOCKED_HOLD_MICROS,
    PIPE_TILES,
};
use sabotage::minigames::{MinigameAudioCue, MinigameOutcome};

const SEEDS: u64 = 500;

const DUMMY_KEYS: MinigameKeys = MinigameKeys {
    primary: Key::Letter('A'),
    secondary: Key::Letter('D'),
    up: Key::Letter('W'),
    down: Key::Letter('S'),
    action: Key::Space,
};

fn press(key: Key) -> KeyInput {
    let mut keys = KeyInput::new();
    keys.press(key);
    keys
}

#[test]
fn every_piece_has_two_openings_however_it_is_turned() {
    for piece in [PipePiece::Straight, PipePiece::Elbow] {
        for quarters in 0..4 {
            let openings = turn(piece.seated(), quarters);
            assert_eq!(
                openings.count_ones(),
                2,
                "{piece:?} at {quarters} quarter turns opens onto {openings:04b}"
            );
        }
    }
}

#[test]
fn every_board_dealt_can_be_made_up() {
    for seed in 0..SEEDS {
        let dealt = deal(seed);
        assert!(
            PipeFlow::over(dealt.made_up.clone(), DUMMY_KEYS).flowing(),
            "seed {seed} dealt a run whose own answer does not carry the feed"
        );
        for (index, (board, made_up)) in dealt.board.iter().zip(&dealt.made_up).enumerate() {
            assert_eq!(board.piece, made_up.piece, "seed {seed} needs coupling {index} swapped, not turned");
        }
    }
}

#[test]
fn the_answer_can_be_turned_in_with_the_wrench() {
    for seed in 0..64 {
        let dealt = deal(seed);
        let mut run = PipeFlow::from_seed(seed, DUMMY_KEYS);

        for index in 0..PIPE_TILES {
            // The run stops taking input the moment it is made up.
            if matches!(run.phase(), RunPhase::Locked { .. }) {
                break;
            }
            while run.cursor() != index {
                run.tick(&press(Key::Letter('D')), 0);
            }
            for _ in 0..4 {
                if run.couplings()[index].quarters == dealt.made_up[index].quarters {
                    break;
                }
                run.tick(&press(Key::Space), 0);
            }
        }

        assert!(run.flowing(), "seed {seed} could not be worked to its answer");
    }
}

#[test]
fn no_board_is_dealt_already_made_up() {
    for seed in 0..SEEDS {
        assert!(
            !PipeFlow::from_seed(seed, DUMMY_KEYS).flowing(),
            "seed {seed} dealt a run that was already made up"
        );
    }
    assert!(!PipeFlow::new(DUMMY_KEYS).flowing());
}

#[test]
fn the_wrench_reaches_every_coupling() {
    let mut run = PipeFlow::from_seed(7, DUMMY_KEYS);
    let mut seen = [false; PIPE_TILES];

    for _ in 0..PIPE_TILES {
        seen[run.cursor()] = true;
        run.tick(&press(Key::Letter('D')), 0);
    }

    assert!(seen.iter().all(|seen| *seen), "D does not reach every coupling");
    assert_eq!(run.cursor(), 0, "D does not wrap round to the start");

    run.tick(&press(Key::Letter('A')), 0);
    assert_eq!(run.cursor(), PIPE_TILES - 1, "A does not wrap back off the start");
}

#[test]
fn a_made_up_run_is_held_before_it_is_signed_off() {
    const SEED: u64 = 11;

    let mut board = deal(SEED).made_up;
    board[INLET_TILE] = board[INLET_TILE].turned();
    let mut run = PipeFlow::over(board, DUMMY_KEYS);
    assert_eq!(run.cursor(), INLET_TILE);
    assert!(!run.flowing(), "the board was set up already made up");

    for _ in 0..3 {
        run.tick(&press(Key::Space), 0);
    }

    assert!(run.flowing(), "the board never came good");
    assert!(matches!(run.phase(), RunPhase::Locked { .. }));
    assert_eq!(run.take_audio_cues(), vec![MinigameAudioCue::PipesMadeUp], "making the run up raised no cue");
    assert!(run.take_audio_cues().is_empty());
    assert!(
        run.tick(&KeyInput::new(), LOCKED_HOLD_MICROS / 2).is_none(),
        "the run was signed off before it had been held"
    );
    assert_eq!(run.tick(&KeyInput::new(), LOCKED_HOLD_MICROS), Some(MinigameOutcome::Success));
}

#[test]
fn the_status_line_says_how_far_the_feed_gets() {
    let made_up = deal(3).made_up;
    let run = PipeFlow::over(made_up.clone(), DUMMY_KEYS);
    assert_eq!(run.status(), "Line made up. Feed running.");
    let visual = run.visual_state();
    assert!(visual.drained);
    assert_eq!(visual.tiles.len(), PIPE_TILES);

    // A straight standing north-south at the inlet takes no feed at all.
    let mut blocked = made_up.clone();
    blocked[0] = Coupling { piece: PipePiece::Straight, quarters: 1 };
    let run = PipeFlow::over(blocked, DUMMY_KEYS);
    assert_eq!(run.status(), "Feed stalled at coupling 1/8.");
    assert!(!run.visual_state().drained);
    assert!(run.visual_state().tiles.iter().all(|tile| !tile.flowing));
    assert_eq!(run.title(), "Feed Line Coupling");
    assert_eq!(run.instructions(), "Consult the repair manual.");
}

#[test]
fn turning_a_coupling_four_times_brings_it_back() {
    let mut c = Coupling { piece: PipePiece::Elbow, quarters: 3 };
    let start = c.openings();
    for _ in 0..4 {
        c = c.turned();
    }
    assert_eq!(c.openings(), start);
    assert_eq!(PipePiece::opening_onto(0b1010), Some(PipePiece::Straight));
    assert_eq!(PipePiece::opening_onto(0b0011), Some(PipePiece::Elbow));
    assert_eq!(PipePiece::opening_onto(0b0111), None);
}

#[test]
fn turns_add_up_round_the_circle() {
    for faces in 0..16u8 {
        for a in 0..9u8 {
            assert_eq!(turn(faces, a), turn(faces, a % 4));
            assert_eq!(turn(faces, a).count_ones(), faces.count_ones());
            for b in 0..9u8 {
                assert_eq!(turn(turn(faces, a), b), turn(faces, (a % 4 + b % 4) % 4));
            }
        }
    }
}
