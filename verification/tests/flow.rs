use sabotage::difficulty::Difficulty;
use sabotage::flow::{
    animate_splash, back_to_menu, difficulty_screen_action, fade_alpha, game_over_action,
    leave_launchpad, menu_action, mission_complete_action, mission_complete_label,
    open_quit_dialog, quit_dialog_action, react_to_minigame_result, skip_splash,
    DifficultyAction, Flow, GameState, MenuButton, PlayingState, QuitChoice,
};
use sabotage::input::{Key, KeyInput};
use sabotage::level::{Level, LevelProgress};
use sabotage::minigames::{CompletedMinigame, MinigameId, MinigameOutcome};
use sabotage::settings::Settings;

fn press(key: Key) -> KeyInput {
    let mut keys = KeyInput::new();
    keys.press(key);
    keys
}

#[test]
fn stepping_up_moves_settings_and_the_readout() {
    let mut settings = Settings::default();
    assert_eq!(settings.difficulty, Difficulty::Medium);

    settings.step_difficulty(1);

    assert_eq!(settings.difficulty, Difficulty::Hard);
    assert_eq!(settings.difficulty.label(), Difficulty::Hard.label());
}

#[test]
fn start_moves_to_the_launchpad() {
    assert_eq!(
        difficulty_screen_action(Some(DifficultyAction::Start), &KeyInput::new()),
        Flow::Game(GameState::Launchpad)
    );
    assert_eq!(
        difficulty_screen_action(None, &press(Key::Enter)),
        Flow::Game(GameState::Launchpad)
    );
}

#[test]
fn back_returns_to_the_menu() {
    assert_eq!(
        difficulty_screen_action(Some(DifficultyAction::Back), &KeyInput::new()),
        Flow::Game(GameState::Menu)
    );
    assert_eq!(
        difficulty_screen_action(Some(DifficultyAction::Start), &press(Key::Escape)),
        Flow::Game(GameState::Menu)
    );
    assert_eq!(difficulty_screen_action(None, &KeyInput::new()), Flow::Stay);
}

#[test]
fn the_game_opens_on_its_splash_and_a_run_opens_running() {
    assert_eq!(GameState::default(), GameState::Splash);
    assert_eq!(PlayingState::default(), PlayingState::Running);
}

#[test]
fn the_menu_plays_or_quits() {
    assert_eq!(
        menu_action(Some(MenuButton::Play), &KeyInput::new()),
        Flow::Game(GameState::Launchpad)
    );
    assert_eq!(menu_action(None, &press(Key::Space)), Flow::Game(GameState::Launchpad));
    assert_eq!(menu_action(Some(MenuButton::Quit), &KeyInput::new()), Flow::Exit);
    assert_eq!(menu_action(Some(MenuButton::Play), &press(Key::Escape)), Flow::Exit);
    assert_eq!(menu_action(None, &KeyInput::new()), Flow::Stay);
}

#[test]
fn keep_playing_goes_back_to_what_was_up() {
    let resume = open_quit_dialog(false, &press(Key::Escape), PlayingState::Minigame);
    assert_eq!(resume, Some(PlayingState::Minigame));
    assert_eq!(
        quit_dialog_action(None, &press(Key::Escape), resume),
        Flow::Playing(PlayingState::Minigame)
    );
    assert_eq!(
        quit_dialog_action(Some(QuitChoice::KeepPlaying), &KeyInput::new(), None),
        Flow::Playing(PlayingState::Running)
    );
    assert_eq!(open_quit_dialog(false, &KeyInput::new(), PlayingState::Running), None);
    assert_eq!(
        open_quit_dialog(true, &KeyInput::new(), PlayingState::Running),
        Some(PlayingState::Running)
    );
}

#[test]
fn quit_to_menu_leaves_the_run() {
    assert_eq!(
        quit_dialog_action(Some(QuitChoice::ToMenu), &KeyInput::new(), None),
        Flow::Game(GameState::Menu)
    );
    assert_eq!(quit_dialog_action(None, &press(Key::Enter), None), Flow::Game(GameState::Menu));
    assert_eq!(quit_dialog_action(None, &KeyInput::new(), None), Flow::Stay);
}

#[test]
fn the_end_screens_go_back_to_the_menu() {
    assert_eq!(game_over_action(true, &KeyInput::new()), Flow::Game(GameState::Menu));
    assert_eq!(game_over_action(false, &press(Key::Enter)), Flow::Game(GameState::Menu));
    assert_eq!(game_over_action(false, &KeyInput::new()), Flow::Stay);

    assert_eq!(mission_complete_label(Level::Rocket), "Back to Menu");
    assert_eq!(
        mission_complete_action(false, &press(Key::Escape), Level::Rocket),
        Flow::Game(GameState::Menu)
    );
    assert_eq!(mission_complete_action(false, &KeyInput::new(), Level::Rocket), Flow::Stay);
}

#[test]
fn the_side_screens_go_back_with_escape_or_backspace() {
    assert_eq!(back_to_menu(false, &press(Key::Backspace)), Flow::Game(GameState::Menu));
    assert_eq!(back_to_menu(true, &KeyInput::new()), Flow::Game(GameState::Menu));
    assert_eq!(back_to_menu(false, &press(Key::Enter)), Flow::Stay);
    assert_eq!(leave_launchpad(&press(Key::Escape)), Flow::Game(GameState::Menu));
    assert_eq!(leave_launchpad(&press(Key::Space)), Flow::Stay);
}

#[test]
fn the_splash_fades_in_holds_and_fades_out() {
    assert_eq!(fade_alpha(0), 0);
    assert_eq!(fade_alpha(2_000_000), 500);
    assert_eq!(fade_alpha(4_100_000), 1000);
    assert_eq!(fade_alpha(4_950_000), 500);
    assert_eq!(fade_alpha(6_000_000), 0);
    assert_eq!(animate_splash(5_699_999), Flow::Stay);
    assert_eq!(animate_splash(5_700_000), Flow::Game(GameState::Menu));
    assert_eq!(skip_splash(&press(Key::Letter('Q')), false), Flow::Game(GameState::Menu));
    assert_eq!(skip_splash(&KeyInput::new(), true), Flow::Game(GameState::Menu));
    assert_eq!(skip_splash(&KeyInput::new(), false), Flow::Stay);
}

#[test]
fn a_won_challenge_seals_a_breach_and_a_lost_one_ends_the_run() {
    let mut progress = LevelProgress::new(Level::Rocket, 2);
    let won = CompletedMinigame { id: MinigameId::PipeFlow, outcome: MinigameOutcome::Success };
    assert_eq!(react_to_minigame_result(Some(won), &mut progress), Flow::Stay);
    assert_eq!(progress.completed_portals, 1);

    let lost = CompletedMinigame { id: MinigameId::PipeFlow, outcome: MinigameOutcome::Failure };
    assert_eq!(
        react_to_minigame_result(Some(lost), &mut progress),
        Flow::Playing(PlayingState::GameOver)
    );
    assert_eq!(progress.completed_portals, 1);

    assert_eq!(react_to_minigame_result(None, &mut progress), Flow::Stay);
}
