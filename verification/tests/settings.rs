use sabotage::settings::{percent_label, Settings, VolumeChannel, FULL_VOLUME, VOLUME_STEP};

#[test]
fn the_music_sits_under_the_action_by_default() {
    let settings = Settings::default();
    assert_eq!(VolumeChannel::Music.get(&settings), 4);
    assert_eq!(VolumeChannel::Sfx.get(&settings), 7);
    assert_eq!(percent_label(VolumeChannel::Music.get(&settings)), "40%");
}

#[test]
fn a_step_moves_one_channel_and_is_held_on_the_scale() {
    let mut settings = Settings::default();
    VolumeChannel::Sfx.adjust(&mut settings, VOLUME_STEP);
    assert_eq!(settings.sfx_volume, 8);
    assert_eq!(settings.music_volume, 4);

    for _ in 0..5 {
        VolumeChannel::Sfx.adjust(&mut settings, VOLUME_STEP);
    }
    assert_eq!(settings.sfx_volume, FULL_VOLUME);
    assert_eq!(percent_label(settings.sfx_volume), "100%");

    for _ in 0..20 {
        VolumeChannel::Music.adjust(&mut settings, -VOLUME_STEP);
    }
    assert_eq!(settings.music_volume, 0);
    assert_eq!(percent_label(settings.music_volume), "0%");
}

#[test]
fn a_step_up_and_back_down_is_where_it_started() {
    let mut settings = Settings::default();
    VolumeChannel::Music.adjust(&mut settings, VOLUME_STEP);
    VolumeChannel::Music.adjust(&mut settings, -VOLUME_STEP);
    assert_eq!(settings, Settings::default());
}

#[test]
fn the_channels_are_labelled() {
    assert_eq!(VolumeChannel::ALL.map(|c| c.label()), ["Music", "Sound"]);
}
