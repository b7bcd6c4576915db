use turbotanks::{Settings, VideoMode};

#[test]
fn game_loads_settings() {}

#[test]
fn default_settings_are_120_fps_at_desktop_resolution() {
    let settings = Settings::default();
    assert_eq!(settings.framerate_limit, 120);
    assert_eq!(settings.resolution, None);
}

#[test]
fn new_keeps_what_was_loaded() {
    let loaded = Settings {
        framerate_limit: 60,
        resolution: Some((1920, 1080)),
    };
    let settings = Settings::new(Some(loaded));
    assert_eq!(settings.framerate_limit, 60);
    assert_eq!(settings.resolution, Some((1920, 1080)));
}

#[test]
fn new_falls_back_to_default_when_nothing_was_loaded() {
    let settings = Settings::new(None);
    assert_eq!(settings, Settings::default());
    assert_eq!(settings.framerate_limit, 120);
    assert_eq!(settings.resolution, None);
}

#[test]
fn stored_resolution_gives_a_32_bit_mode() {
    let settings = Settings {
        framerate_limit: 60,
        resolution: Some((1920, 1080)),
    };
    let desktop = VideoMode {
        width: 2560,
        height: 1440,
        bits_per_pixel: 24,
    };
    assert_eq!(
        settings.get_resolution(desktop),
        VideoMode {
            width: 1920,
            height: 1080,
            bits_per_pixel: 32
        }
    );
}

#[test]
fn missing_resolution_gives_the_desktop_mode() {
    let desktop = VideoMode {
        width: 2560,
        height: 1440,
        bits_per_pixel: 24,
    };
    assert_eq!(Settings::default().get_resolution(desktop), desktop);
}
