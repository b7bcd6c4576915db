//! The settings record that configures a run of the game.

use vstd::prelude::*;

verus! {

/// A video mode: width and height in pixels and depth in bits per pixel.
#[derive(Clone, Copy, Debug, PartialEq, Eq, Structural)]
pub struct VideoMode {
    pub width: u32,
    pub height: u32,
    pub bits_per_pixel: u32,
}

/// A struct containing the relevant settings for configuring a run of
/// Turbo Tanks.
#[derive(Clone, Copy, Debug, PartialEq, Eq)]
pub struct Settings {
    pub framerate_limit: u32,
    /// The initial resolution of the game. None corresponds to the
    /// default desktop resolution.
    pub resolution: Option<(u32, u32)>,
}

/// The settings of a game that was given none: 120 frames per second at the
/// desktop's resolution.
pub open spec fn default_settings() -> Settings {
    Settings { framerate_limit: 120, resolution: None }
}

/// The video mode that `settings` ask for on a machine whose desktop runs in
/// `desktop`: the stored resolution at 32 bits per pixel, or the desktop's
/// own mode where none is stored.
pub open spec fn resolution_of(settings: Settings, desktop: VideoMode) -> VideoMode {
    match settings.resolution {
        Some(res) => VideoMode { width: res.0, height: res.1, bits_per_pixel: 32 },
        None => desktop,
    }
}

impl Settings {
    /// Create a new Settings object from what was loaded from the settings
    /// file. Will return default settings if nothing could be loaded.
    pub fn new(loaded: Option<Settings>) -> (settings: Settings)
        ensures
            settings == (match loaded {
                Some(s) => s,
                None => default_settings(),
            }),
    {
        match loaded {
            Some(s) => s,
            None => Settings::default(),
        }
    }

    /// Get the video mode corresponding to the given resolution, falling
    /// back to the desktop's mode.
    pub fn get_resolution(&self, desktop: VideoMode) -> (mode: VideoMode)
        ensures
            mode == resolution_of(*self, desktop),
    {
        match self.resolution {
            Some(res) => VideoMode { width: res.0, height: res.1, bits_per_pixel: 32 },
            None => desktop,
        }
    }
}

impl Default for Settings {
    fn default() -> (settings: Settings)
        ensures
            settings == default_settings(),
    {
        Settings { framerate_limit: 120, resolution: None }
    }
}

} // verus!
