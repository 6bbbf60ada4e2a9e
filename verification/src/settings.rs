use vstd::prelude::*;

verus! {

/// The settings' plugin: it starts the settings' resources from the file.
pub struct SettingsPlugin;

/// The game's camera and zoom plugin.
pub struct SetupPlugin;

/// Marks the main camera.
pub struct MainCamera;

/// Size of the game window, in pixels.
#[derive(Clone, Copy, PartialEq, Eq, Debug, Structural)]
pub struct Resolution {
    pub width: u32,
    pub height: u32,
}

impl Resolution {
    /// A resolution of `width` by `height` pixels.
    pub fn new(width: u32, height: u32) -> (r: Self)
        ensures
            r.width == width,
            r.height == height,
    {
        Self { width, height }
    }

}

impl Default for Resolution {
    /// Full HD, 1920 by 1080.
    fn default() -> (r: Self)
        ensures
            r.width == 1920,
            r.height == 1080,
    {
        Self { width: 1920, height: 1080 }
    }
}

/// Number of resolutions that the settings offer.
pub const RESOLUTION_COUNT: usize = 16;

/// The resolutions that the settings offer, in the order of the menu.
pub open spec fn resolution_list() -> Seq<Resolution> {
    seq![
        Resolution { width: 800, height: 600 },
        Resolution { width: 1024, height: 768 },
        Resolution { width: 1152, height: 864 },
        Resolution { width: 1176, height: 664 },
        Resolution { width: 1280, height: 720 },
        Resolution { width: 1280, height: 768 },
        Resolution { width: 1280, height: 800 },
        Resolution { width: 1280, height: 960 },
        Resolution { width: 1280, height: 1024 },
        Resolution { width: 1360, height: 768 },
        Resolution { width: 1366, height: 768 },
        Resolution { width: 1440, height: 900 },
        Resolution { width: 1600, height: 900 },
        Resolution { width: 1600, height: 1024 },
        Resolution { width: 1680, height: 1050 },
        Resolution { width: 1920, height: 1080 },
    ]
}

/// The resolutions that the settings offer, in the order of the menu.
pub fn resolutions() -> (r: [Resolution; 16])
    ensures
        r@ == resolution_list(),
{
    let r = [
        Resolution { width: 800, height: 600 },
        Resolution { width: 1024, height: 768 },
        Resolution { width: 1152, height: 864 },
        Resolution { width: 1176, height: 664 },
        Resolution { width: 1280, height: 720 },
        Resolution { width: 1280, height: 768 },
        Resolution { width: 1280, height: 800 },
        Resolution { width: 1280, height: 960 },
        Resolution { width: 1280, height: 1024 },
        Resolution { width: 1360, height: 768 },
        Resolution { width: 1366, height: 768 },
        Resolution { width: 1440, height: 900 },
        Resolution { width: 1600, height: 900 },
        Resolution { width: 1600, height: 1024 },
        Resolution { width: 1680, height: 1050 },
        Resolution { width: 1920, height: 1080 },
    ];
    assert(r@ =~= resolution_list());
    r
}

/// Whether the window waits for the display's refresh.
#[derive(Clone, Copy, PartialEq, Eq, Debug, Structural)]
pub struct VSync(pub bool);

/// Whether the window covers the whole screen.
#[derive(Clone, Copy, PartialEq, Eq, Debug, Structural)]
pub struct FullScreen(pub bool);

/// Whether the tile grid is drawn over the world.
#[derive(Clone, Copy, PartialEq, Eq, Debug, Structural)]
pub struct ShowTileGrid(pub bool);

/// How frames are handed to the display.
#[derive(Clone, Copy, PartialEq, Eq, Debug, Structural)]
pub enum PresentMode {
    /// Wait for the display's refresh.
    Fifo,
    /// Show each frame at once.
    Immediate,
}

/// How the window is shown.
#[derive(Clone, Copy, PartialEq, Eq, Debug, Structural)]
pub enum WindowMode {
    Windowed,
    Fullscreen,
}

impl VSync {
    /// The present mode that this setting asks for.
    pub fn as_present_mode(&self) -> (r: PresentMode)
        ensures
            r == (if self.0 {
                PresentMode::Fifo
            } else {
                PresentMode::Immediate
            }),
    {
        match self.0 {
            true => PresentMode::Fifo,
            false => PresentMode::Immediate,
        }
    }
}

impl FullScreen {
    /// The window mode that this setting asks for.
    pub fn as_window_mode(&self) -> (r: WindowMode)
        ensures
            r == (if self.0 {
                WindowMode::Fullscreen
            } else {
                WindowMode::Windowed
            }),
    {
        match self.0 {
            true => WindowMode::Fullscreen,
            false => WindowMode::Windowed,
        }
    }
}

} // verus!
