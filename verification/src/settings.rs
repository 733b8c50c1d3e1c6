//! What the player has set: the two volume levels, edited on the options
//! screen, and the difficulty, picked before a run.
//!
//! A volume is kept in tenths of full volume, so a press of `-` or `+`
//! moves it by exactly one tenth and it can never drift off the scale.

use vstd::prelude::*;

use crate::difficulty::{clamp_int, tier, Difficulty};
use crate::text::{decimal, push_decimal, push_str};

verus! {

/// Full volume, in tenths.
pub const FULL_VOLUME: u8 = 10;

/// How much one press of a `-` or `+` button moves a level, in tenths.
pub const VOLUME_STEP: i8 = 1;

/// The player's settings.
#[derive(Debug, Clone, Copy, PartialEq, Eq, Structural)]
pub struct Settings {
    /// The music's level, in tenths of full volume.
    pub music_volume: u8,
    /// The sound effects' level, in tenths of full volume.
    pub sfx_volume: u8,
    pub difficulty: Difficulty,
}

impl Default for Settings {
    /// The music sits under the action rather than over it by default.
    fn default() -> (settings: Self)
        ensures
            settings.music_volume == 4,
            settings.sfx_volume == 7,
            settings.difficulty == Difficulty::Medium,
    {
        Settings { music_volume: 4, sfx_volume: 7, difficulty: Difficulty::Medium }
    }
}

impl Settings {
    /// Moves the difficulty `by` tiers, held at either end.
    pub fn step_difficulty(&mut self, by: isize)
        ensures
            tier(final(self).difficulty) == clamp_int(tier(old(self).difficulty) + by, 0, 4),
            final(self).music_volume == old(self).music_volume,
            final(self).sfx_volume == old(self).sfx_volume,
    {
        self.difficulty = self.difficulty.step(by);
    }
}

/// One of the two volume levels.
#[derive(Debug, Clone, Copy, PartialEq, Eq, Structural)]
pub enum VolumeChannel {
    Music,
    Sfx,
}

/// A channel's level in some settings.
pub open spec fn level_of(channel: VolumeChannel, settings: Settings) -> int {
    match channel {
        VolumeChannel::Music => settings.music_volume as int,
        VolumeChannel::Sfx => settings.sfx_volume as int,
    }
}

/// What a level is shown as: its percentage.
pub open spec fn percent_text(level: int) -> Seq<char> {
    decimal((level * 10) as nat) + "%"@
}

impl VolumeChannel {
    /// Both channels, in the order the options screen lists them.
    pub const ALL: [VolumeChannel; 2] = [VolumeChannel::Music, VolumeChannel::Sfx];

    pub fn label(self) -> (s: &'static str)
        ensures
            s@ == match self {
                VolumeChannel::Music => "Music"@,
                VolumeChannel::Sfx => "Sound"@,
            },
    {
        match self {
            VolumeChannel::Music => "Music",
            VolumeChannel::Sfx => "Sound",
        }
    }

    /// This channel's level.
    pub fn get(self, settings: &Settings) -> (level: u8)
        ensures
            level == level_of(self, *settings),
    {
        match self {
            VolumeChannel::Music => settings.music_volume,
            VolumeChannel::Sfx => settings.sfx_volume,
        }
    }

    /// Moves this channel's level by `delta` tenths, held between silence
    /// and full volume; the other channel and the difficulty are left alone.
    pub fn adjust(self, settings: &mut Settings, delta: i8)
        ensures
            level_of(self, *final(settings)) == clamp_int(
                level_of(self, *old(settings)) + delta,
                0,
                FULL_VOLUME as int,
            ),
            self == VolumeChannel::Music ==> final(settings).sfx_volume == old(settings).sfx_volume,
            self == VolumeChannel::Sfx ==> final(settings).music_volume == old(
                settings,
            ).music_volume,
            final(settings).difficulty == old(settings).difficulty,
    {
        let level = self.get(settings) as i16 + delta as i16;
        let held: u8 = if level < 0 {
            0
        } else if level > FULL_VOLUME as i16 {
            FULL_VOLUME
        } else {
            level as u8
        };
        match self {
            VolumeChannel::Music => settings.music_volume = held,
            VolumeChannel::Sfx => settings.sfx_volume = held,
        }
    }
}

/// The readout beside a volume track: the level as a whole percentage.
pub fn percent_label(level: u8) -> (s: String)
    ensures
        s@ == percent_text(level as int),
{
    let mut s = String::new();
    push_decimal(&mut s, level as u64 * 10);
    push_str(&mut s, "%");
    s
}

/// A level stepped up and then back down (or down and then up) is where it
/// started, unless the first step ran it into an end of the scale.
pub proof fn law_a_volume_step_can_be_taken_back(level: int, delta: int)
    requires
        0 <= level <= FULL_VOLUME,
        0 <= level + delta <= FULL_VOLUME,
    ensures
        clamp_int(clamp_int(level + delta, 0, FULL_VOLUME as int) - delta, 0, FULL_VOLUME as int)
            == level,
{
}

/// However often a level is stepped, it stays between silence and full.
pub proof fn law_a_volume_stays_on_the_scale(level: int, delta: int)
    ensures
        0 <= clamp_int(level + delta, 0, FULL_VOLUME as int) <= FULL_VOLUME,
{
}

} // verus!
