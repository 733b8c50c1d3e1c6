//! The rules of "Sabotage at T-Minus": how a run is dealt, how its rooms,
//! panels, keys and breach challenges behave, and how the screens around a
//! run hand over to one another. Everything here is plain data and integer
//! arithmetic; drawing, physics and input devices live with the game that
//! uses this crate.

pub mod difficulty;
pub mod input;
pub mod text;
pub mod chance;
pub mod level;
pub mod minigames;
pub mod puzzles;
pub mod minigame_keys;
pub mod panel;
pub mod flow;
pub mod settings;
pub mod countdown;
pub mod player_animation;
pub mod manual;
pub mod run;
pub mod credits;
pub mod geometry;
pub mod portal;
pub mod player;
