//! How the screens hand over to one another: the game's states, and what
//! each screen does with a button press or a key.
//!
//! Every decision here takes what was pressed this frame (the button the
//! pointer pressed, if any, and the keyboard) and says where play goes next.

use vstd::prelude::*;

use crate::input::{Key, KeyInput};
use crate::level::{Level, LevelProgress};
use crate::minigames::{CompletedMinigame, MinigameOutcome};

verus! {

/// The screen the game is on.
#[derive(Debug, Clone, Copy, PartialEq, Eq, Hash, Structural)]
pub enum GameState {
    Splash,
    Menu,
    Options,
    Credits,
    Difficulty,
    /// The pad the player boards the rocket from.
    Launchpad,
    Playing,
}

/// What is up over a run in progress.
#[derive(Debug, Clone, Copy, PartialEq, Eq, Hash, Structural)]
pub enum PlayingState {
    Running,
    /// A challenge opened by walking into one of the rocket's breaches.
    Minigame,
    ConfirmQuit,
    GameOver,
    /// The run finished successfully.
    MissionComplete,
}

impl Default for GameState {
    /// The game opens on its splash.
    fn default() -> (state: Self)
        ensures
            state == GameState::Splash,
    {
        GameState::Splash
    }
}

impl Default for PlayingState {
    /// A run opens running.
    fn default() -> (state: Self)
        ensures
            state == PlayingState::Running,
    {
        PlayingState::Running
    }
}

/// Where play goes after a frame on some screen.
#[derive(Debug, Clone, Copy, PartialEq, Eq, Structural)]
pub enum Flow {
    /// Nothing changes.
    Stay,
    /// On to another screen.
    Game(GameState),
    /// Within a run, on to another overlay (or none).
    Playing(PlayingState),
    /// On to the next level of the run.
    NextLevel(Level),
    /// The program closes.
    Exit,
}

/// The main menu's buttons.
#[derive(Debug, Clone, Copy, PartialEq, Eq, Structural)]
pub enum MenuButton {
    Play,
    Quit,
}

/// The confirm-quit dialog's buttons.
#[derive(Debug, Clone, Copy, PartialEq, Eq, Structural)]
pub enum QuitChoice {
    ToMenu,
    KeepPlaying,
}

/// The difficulty screen's buttons.
#[derive(Debug, Clone, Copy, PartialEq, Eq, Structural)]
pub enum DifficultyAction {
    Back,
    Start,
}

/// Whether `key` went down this frame.
pub open spec fn went_down(keys: KeyInput, key: Key) -> bool {
    keys.just_pressed@.contains(key)
}

/// The menu's choice: the button pressed, overridden by Enter or Space
/// (play), overridden by Escape (quit).
pub open spec fn menu_choice(clicked: Option<MenuButton>, keys: KeyInput) -> Option<MenuButton> {
    if went_down(keys, Key::Escape) {
        Some(MenuButton::Quit)
    } else if went_down(keys, Key::Enter) || went_down(keys, Key::Space) {
        Some(MenuButton::Play)
    } else {
        clicked
    }
}

/// The dialog's choice: the button pressed, overridden by Enter (to the
/// menu), overridden by Escape (keep playing).
pub open spec fn quit_choice(clicked: Option<QuitChoice>, keys: KeyInput) -> Option<QuitChoice> {
    if went_down(keys, Key::Escape) {
        Some(QuitChoice::KeepPlaying)
    } else if went_down(keys, Key::Enter) {
        Some(QuitChoice::ToMenu)
    } else {
        clicked
    }
}

/// The difficulty screen's choice: the button pressed, overridden by Enter
/// or Space (start), overridden by Escape (back).
pub open spec fn difficulty_choice(clicked: Option<DifficultyAction>, keys: KeyInput) -> Option<
    DifficultyAction,
> {
    if went_down(keys, Key::Escape) {
        Some(DifficultyAction::Back)
    } else if went_down(keys, Key::Enter) || went_down(keys, Key::Space) {
        Some(DifficultyAction::Start)
    } else {
        clicked
    }
}

/// The main menu: Play goes to the launch pad, Quit closes the game.
pub fn menu_action(clicked: Option<MenuButton>, keys: &KeyInput) -> (flow: Flow)
    ensures
        flow == match menu_choice(clicked, *keys) {
            Some(MenuButton::Play) => Flow::Game(GameState::Launchpad),
            Some(MenuButton::Quit) => Flow::Exit,
            None => Flow::Stay,
        },
{
    let mut chosen = clicked;
    if keys.just_pressed(Key::Enter) || keys.just_pressed(Key::Space) {
        chosen = Some(MenuButton::Play);
    }
    if keys.just_pressed(Key::Escape) {
        chosen = Some(MenuButton::Quit);
    }
    match chosen {
        Some(MenuButton::Play) => Flow::Game(GameState::Launchpad),
        Some(MenuButton::Quit) => Flow::Exit,
        None => Flow::Stay,
    }
}

/// Asking to abort the run, with the HUD's quit button or Escape: the
/// overlay that was up is kept to go back to.
pub fn open_quit_dialog(clicked: bool, keys: &KeyInput, playing: PlayingState) -> (resume: Option<
    PlayingState,
>)
    ensures
        resume == if clicked || went_down(*keys, Key::Escape) {
            Some(playing)
        } else {
            None
        },
{
    if clicked || keys.just_pressed(Key::Escape) {
        Some(playing)
    } else {
        None
    }
}

/// The confirm-quit dialog: to the menu, or back to whatever was up when it
/// opened (running, if that was never kept).
pub fn quit_dialog_action(
    clicked: Option<QuitChoice>,
    keys: &KeyInput,
    resume: Option<PlayingState>,
) -> (flow: Flow)
    ensures
        flow == match quit_choice(clicked, *keys) {
            Some(QuitChoice::ToMenu) => Flow::Game(GameState::Menu),
            Some(QuitChoice::KeepPlaying) => Flow::Playing(
                match resume {
                    Some(state) => state,
                    None => PlayingState::Running,
                },
            ),
            None => Flow::Stay,
        },
{
    let mut chosen = clicked;
    if keys.just_pressed(Key::Enter) {
        chosen = Some(QuitChoice::ToMenu);
    }
    if keys.just_pressed(Key::Escape) {
        chosen = Some(QuitChoice::KeepPlaying);
    }
    match chosen {
        Some(QuitChoice::ToMenu) => Flow::Game(GameState::Menu),
        Some(QuitChoice::KeepPlaying) => Flow::Playing(
            match resume {
                Some(state) => state,
                None => PlayingState::Running,
            },
        ),
        None => Flow::Stay,
    }
}

/// The game-over screen: its button, Enter or Escape go back to the menu.
pub fn game_over_action(clicked: bool, keys: &KeyInput) -> (flow: Flow)
    ensures
        flow == if clicked || went_down(*keys, Key::Enter) || went_down(*keys, Key::Escape) {
            Flow::Game(GameState::Menu)
        } else {
            Flow::Stay
        },
{
    if clicked || keys.just_pressed(Key::Enter) || keys.just_pressed(Key::Escape) {
        Flow::Game(GameState::Menu)
    } else {
        Flow::Stay
    }
}

/// What the mission-complete button reads: on to the next level if there is
/// one, else back to the menu.
pub fn mission_complete_label(level: Level) -> (s: &'static str)
    ensures
        s@ == "Back to Menu"@,
{
    match level.next() {
        Some(_) => "Next Level",
        None => "Back to Menu",
    }
}

/// The mission-complete screen: its button, Enter or Escape carry on to the
/// next level, or back to the menu after the last.
pub fn mission_complete_action(clicked: bool, keys: &KeyInput, level: Level) -> (flow: Flow)
    ensures
        flow == if clicked || went_down(*keys, Key::Enter) || went_down(*keys, Key::Escape) {
            Flow::Game(GameState::Menu)
        } else {
            Flow::Stay
        },
{
    if clicked || keys.just_pressed(Key::Enter) || keys.just_pressed(Key::Escape) {
        match level.next() {
            Some(next) => Flow::NextLevel(next),
            None => Flow::Game(GameState::Menu),
        }
    } else {
        Flow::Stay
    }
}

/// The options and credits screens: the back button, Escape or Backspace go
/// back to the menu.
pub fn back_to_menu(clicked: bool, keys: &KeyInput) -> (flow: Flow)
    ensures
        flow == if clicked || went_down(*keys, Key::Escape) || went_down(*keys, Key::Backspace) {
            Flow::Game(GameState::Menu)
        } else {
            Flow::Stay
        },
{
    if clicked || keys.just_pressed(Key::Escape) || keys.just_pressed(Key::Backspace) {
        Flow::Game(GameState::Menu)
    } else {
        Flow::Stay
    }
}

/// The launch pad: Escape goes back to the menu.
pub fn leave_launchpad(keys: &KeyInput) -> (flow: Flow)
    ensures
        flow == if went_down(*keys, Key::Escape) {
            Flow::Game(GameState::Menu)
        } else {
            Flow::Stay
        },
{
    if keys.just_pressed(Key::Escape) {
        Flow::Game(GameState::Menu)
    } else {
        Flow::Stay
    }
}

/// The difficulty screen: Start goes to the launch pad, Back to the menu.
pub fn difficulty_screen_action(clicked: Option<DifficultyAction>, keys: &KeyInput) -> (flow: Flow)
    ensures
        flow == match difficulty_choice(clicked, *keys) {
            Some(DifficultyAction::Start) => Flow::Game(GameState::Launchpad),
            Some(DifficultyAction::Back) => Flow::Game(GameState::Menu),
            None => Flow::Stay,
        },
{
    let mut chosen = clicked;
    if keys.just_pressed(Key::Enter) || keys.just_pressed(Key::Space) {
        chosen = Some(DifficultyAction::Start);
    }
    if keys.just_pressed(Key::Escape) {
        chosen = Some(DifficultyAction::Back);
    }
    match chosen {
        Some(DifficultyAction::Start) => Flow::Game(GameState::Launchpad),
        Some(DifficultyAction::Back) => Flow::Game(GameState::Menu),
        None => Flow::Stay,
    }
}

/// The splash: any key or mouse button skips straight to the menu.
pub fn skip_splash(keys: &KeyInput, mouse_pressed: bool) -> (flow: Flow)
    ensures
        flow == if keys.just_pressed@.len() > 0 || mouse_pressed {
            Flow::Game(GameState::Menu)
        } else {
            Flow::Stay
        },
{
    if keys.any_just_pressed() || mouse_pressed {
        Flow::Game(GameState::Menu)
    } else {
        Flow::Stay
    }
}

/// How long the splash fades in, holds, and fades out.
pub const SPLASH_FADE_IN_MICROS: u64 = 4_000_000;
pub const SPLASH_HOLD_MICROS: u64 = 200_000;
pub const SPLASH_FADE_OUT_MICROS: u64 = 1_500_000;
pub const SPLASH_MICROS: u64 = 5_700_000;

/// How opaque the splash is, in thousandths, `elapsed` microseconds in:
/// rising over the fade-in, full through the hold, falling over the
/// fade-out, and clear after.
pub open spec fn splash_alpha(elapsed: int) -> int {
    if elapsed < SPLASH_FADE_IN_MICROS {
        elapsed * 1000 / (SPLASH_FADE_IN_MICROS as int)
    } else if elapsed < SPLASH_FADE_IN_MICROS + SPLASH_HOLD_MICROS {
        1000
    } else if elapsed < SPLASH_MICROS {
        1000 - (elapsed - SPLASH_FADE_IN_MICROS - SPLASH_HOLD_MICROS) * 1000
            / (SPLASH_FADE_OUT_MICROS as int)
    } else {
        0
    }
}

/// The splash's opacity, in thousandths, `elapsed_micros` in.
pub fn fade_alpha(elapsed_micros: u64) -> (alpha: u64)
    ensures
        alpha == splash_alpha(elapsed_micros as int),
        alpha <= 1000,
{
    if elapsed_micros < SPLASH_FADE_IN_MICROS {
        elapsed_micros * 1000 / SPLASH_FADE_IN_MICROS
    } else if elapsed_micros < SPLASH_FADE_IN_MICROS + SPLASH_HOLD_MICROS {
        1000
    } else if elapsed_micros < SPLASH_MICROS {
        1000 - (elapsed_micros - SPLASH_FADE_IN_MICROS - SPLASH_HOLD_MICROS) * 1000
            / SPLASH_FADE_OUT_MICROS
    } else {
        0
    }
}

/// The splash moves on to the menu once it has played out.
pub fn animate_splash(elapsed_micros: u64) -> (flow: Flow)
    ensures
        flow == if elapsed_micros >= SPLASH_MICROS {
            Flow::Game(GameState::Menu)
        } else {
            Flow::Stay
        },
{
    if elapsed_micros >= SPLASH_MICROS {
        Flow::Game(GameState::Menu)
    } else {
        Flow::Stay
    }
}

/// A finished challenge's result: a success seals its breach and play
/// carries on; anything else ends the run.
pub fn react_to_minigame_result(
    completed: Option<CompletedMinigame>,
    progress: &mut LevelProgress,
) -> (flow: Flow)
    ensures
        match completed {
            None => flow == Flow::Stay && *final(progress) == *old(progress),
            Some(done) => match done.outcome {
                MinigameOutcome::Success => {
                    &&& flow == Flow::Stay
                    &&& final(progress).total_portals == old(progress).total_portals
                    &&& final(progress).completed_portals == if old(progress).completed_portals
                        == usize::MAX {
                        usize::MAX as int
                    } else {
                        old(progress).completed_portals + 1
                    }
                },
                _ => flow == Flow::Playing(PlayingState::GameOver) && *final(progress) == *old(
                    progress,
                ),
            },
        },
{
    match completed {
        None => Flow::Stay,
        Some(done) => match done.outcome {
            MinigameOutcome::Success => {
                progress.complete_portal();
                Flow::Stay
            },
            MinigameOutcome::Failure | MinigameOutcome::TimedOut => Flow::Playing(
                PlayingState::GameOver,
            ),
        },
    }
}

} // verus!
