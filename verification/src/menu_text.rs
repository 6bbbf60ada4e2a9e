use crate::settings::{FullScreen, Resolution, ShowTileGrid, VSync};
use vstd::prelude::*;

verus! {

/// Keys of the interface strings, looked up in the chosen language.
#[derive(Clone, Copy, PartialEq, Eq, Debug, Structural)]
pub enum UIStringKey {
    On,
    Off,
    Vsync,
    LightSmoothness,
    Fullscreen,
    FullscreenResolution,
    TileGrid,
    Legacy,
    Round,
    Round2,
}

/// A value put into a localized text's pattern.
#[derive(Clone, Copy, PartialEq, Eq, Debug, Structural)]
pub enum TextArg {
    /// Another interface string, looked up in the chosen language.
    Key(UIStringKey),
    /// A number.
    Number(u32),
}

/// A text shown in the chosen language: the string of `key` followed, as the
/// pattern `format` says, by the arguments.
pub struct LocalizedText {
    pub key: UIStringKey,
    pub format: &'static str,
    pub args: Vec<TextArg>,
}

/// How smoothly light is spread over tiles. The lighting code that defines
/// the levels is not part of this library; these three, in this order, are
/// assumed from the interface strings that name them.
#[derive(Clone, Copy, PartialEq, Eq, Debug, Structural)]
pub enum LightSmoothness {
    Legacy,
    Round,
    Round2,
}

/// The number of a smoothness level.
pub open spec fn smoothness_number(l: LightSmoothness) -> u8 {
    match l {
        LightSmoothness::Legacy => 0,
        LightSmoothness::Round => 1,
        LightSmoothness::Round2 => 2,
    }
}

/// The level with a given number.
pub open spec fn smoothness_of(n: u8) -> LightSmoothness {
    if n == 0 {
        LightSmoothness::Legacy
    } else if n == 1 {
        LightSmoothness::Round
    } else {
        LightSmoothness::Round2
    }
}

/// The string key that names a level.
pub open spec fn smoothness_name(l: LightSmoothness) -> UIStringKey {
    match l {
        LightSmoothness::Legacy => UIStringKey::Legacy,
        LightSmoothness::Round => UIStringKey::Round,
        LightSmoothness::Round2 => UIStringKey::Round2,
    }
}

impl LightSmoothness {
    /// Number of levels.
    pub fn length() -> (r: u8)
        ensures
            r == 3,
    {
        3
    }

    /// The level numbered `value`.
    pub fn new(value: u8) -> (r: Self)
        requires
            value < 3,
        ensures
            r == smoothness_of(value),
            smoothness_number(r) == value,
    {
        match value {
            0 => LightSmoothness::Legacy,
            1 => LightSmoothness::Round,
            _ => LightSmoothness::Round2,
        }
    }

    /// The number of this level.
    pub fn to_u8(&self) -> (r: u8)
        ensures
            r == smoothness_number(*self),
            r < 3,
    {
        match self {
            LightSmoothness::Legacy => 0,
            LightSmoothness::Round => 1,
            LightSmoothness::Round2 => 2,
        }
    }

    /// The string key that names this level.
    pub fn name(&self) -> (r: UIStringKey)
        ensures
            r == smoothness_name(*self),
    {
        match self {
            LightSmoothness::Legacy => UIStringKey::Legacy,
            LightSmoothness::Round => UIStringKey::Round,
            LightSmoothness::Round2 => UIStringKey::Round2,
        }
    }
}

/// Moves to the next smoothness level (after the last comes the first);
/// `index` remembers the number of the new level.
pub fn light_smoothness_clicked(index: &mut u8, light_smoothness: &mut LightSmoothness)
    ensures
        *final(index) == (smoothness_number(*old(light_smoothness)) + 1) % 3,
        *final(light_smoothness) == smoothness_of(*final(index)),
{
    *index = (light_smoothness.to_u8() + 1) % LightSmoothness::length();
    *light_smoothness = LightSmoothness::new(*index);
}

/// Three clicks on the light smoothness button come back to the level where
/// they started, and the number remembered is always that of the level shown.
pub proof fn law_smoothness_cycle(l: LightSmoothness)
    ensures
        ({
            let n1 = ((smoothness_number(l) + 1) % 3) as u8;
            let n2 = ((smoothness_number(smoothness_of(n1)) + 1) % 3) as u8;
            let n3 = ((smoothness_number(smoothness_of(n2)) + 1) % 3) as u8;
            smoothness_of(n3) == l
        }),
        forall|n: u8| n < 3 ==> #[trigger] smoothness_number(smoothness_of(n)) == n,
{
}

/// The "on" or "off" key for a switch.
pub open spec fn status_key(on: bool) -> UIStringKey {
    if on {
        UIStringKey::On
    } else {
        UIStringKey::Off
    }
}

/// A text made of a key and arguments, in the pattern "{} {}".
fn key_with_args(key: UIStringKey, args: Vec<TextArg>) -> (r: LocalizedText)
    ensures
        r.key == key,
        r.format@ == "{} {}"@,
        r.args@ == args@,
{
    LocalizedText { key, format: "{} {}", args }
}

/// The label of the vertical sync button: "VSync" and the switch's state.
pub fn vsync_btn_text(vsync: bool) -> (r: LocalizedText)
    ensures
        r.key == UIStringKey::Vsync,
        r.format@ == "{} {}"@,
        r.args@ == seq![TextArg::Key(status_key(vsync))],
{
    let status = if vsync {
        UIStringKey::On
    } else {
        UIStringKey::Off
    };
    let mut args: Vec<TextArg> = Vec::new();
    args.push(TextArg::Key(status));
    key_with_args(UIStringKey::Vsync, args)
}

/// The label of the light smoothness button: its name and the level's name.
pub fn light_smoothness_btn_text(light_smoothness: LightSmoothness) -> (r: LocalizedText)
    ensures
        r.key == UIStringKey::LightSmoothness,
        r.format@ == "{} {}"@,
        r.args@ == seq![TextArg::Key(smoothness_name(light_smoothness))],
{
    let mut args: Vec<TextArg> = Vec::new();
    args.push(TextArg::Key(light_smoothness.name()));
    key_with_args(UIStringKey::LightSmoothness, args)
}

/// The label of the full screen button: its name and the switch's state.
pub fn fullscreen_btn_text(fullscreen: bool) -> (r: LocalizedText)
    ensures
        r.key == UIStringKey::Fullscreen,
        r.format@ == "{} {}"@,
        r.args@ == seq![TextArg::Key(status_key(fullscreen))],
{
    let status = if fullscreen {
        UIStringKey::On
    } else {
        UIStringKey::Off
    };
    let mut args: Vec<TextArg> = Vec::new();
    args.push(TextArg::Key(status));
    key_with_args(UIStringKey::Fullscreen, args)
}

/// The label of the full screen resolution button: its name and the
/// resolution as width x height.
pub fn resolution_btn_text(resolution: &Resolution) -> (r: LocalizedText)
    ensures
        r.key == UIStringKey::FullscreenResolution,
        r.format@ == "{} {}x{}"@,
        r.args@ == seq![TextArg::Number(resolution.width), TextArg::Number(resolution.height)],
{
    let mut args: Vec<TextArg> = Vec::new();
    args.push(TextArg::Number(resolution.width));
    args.push(TextArg::Number(resolution.height));
    LocalizedText { key: UIStringKey::FullscreenResolution, format: "{} {}x{}", args }
}

/// The label of the tile grid button: its name and the switch's state.
pub fn update_toggle_tile_grid_button_text(show_tile_grid: &ShowTileGrid) -> (r: LocalizedText)
    ensures
        r.key == UIStringKey::TileGrid,
        r.format@ == "{} {}"@,
        r.args@ == seq![TextArg::Key(status_key(show_tile_grid.0))],
{
    let status = if show_tile_grid.0 {
        UIStringKey::On
    } else {
        UIStringKey::Off
    };
    let mut args: Vec<TextArg> = Vec::new();
    args.push(TextArg::Key(status));
    key_with_args(UIStringKey::TileGrid, args)
}

/// When the vertical sync setting has changed, the button's label is written
/// anew; otherwise it stays.
pub fn update_vsync_button_text(vsync: &VSync, changed: bool, text: &mut LocalizedText)
    ensures
        changed ==> {
            &&& final(text).key == UIStringKey::Vsync
            &&& final(text).format@ == "{} {}"@
            &&& final(text).args@ == seq![TextArg::Key(status_key(vsync.0))]
        },
        !changed ==> *final(text) == *old(text),
{
    if changed {
        *text = vsync_btn_text(vsync.0);
    }
}

/// When the light smoothness has changed, the button's label is written
/// anew; otherwise it stays.
pub fn update_light_smoothness_button_text(
    light_smoothness: &LightSmoothness,
    changed: bool,
    text: &mut LocalizedText,
)
    ensures
        changed ==> {
            &&& final(text).key == UIStringKey::LightSmoothness
            &&& final(text).format@ == "{} {}"@
            &&& final(text).args@ == seq![TextArg::Key(smoothness_name(*light_smoothness))]
        },
        !changed ==> *final(text) == *old(text),
{
    if changed {
        *text = light_smoothness_btn_text(*light_smoothness);
    }
}

/// When the resolution has changed, the resolution button's label is written
/// anew; otherwise it stays.
pub fn update_fullscreen_resolution_button_text(resolution: &Resolution, changed: bool, text: &mut LocalizedText)
    ensures
        changed ==> {
            &&& final(text).key == UIStringKey::FullscreenResolution
            &&& final(text).format@ == "{} {}x{}"@
            &&& final(text).args@ == seq![TextArg::Number(resolution.width), TextArg::Number(resolution.height)]
        },
        !changed ==> *final(text) == *old(text),
{
    if changed {
        *text = resolution_btn_text(resolution);
    }
}

/// When the full screen setting has changed, the full screen button's label
/// is written anew; otherwise it stays.
pub fn update_resolution_button_text(fullscreen: &FullScreen, changed: bool, text: &mut LocalizedText)
    ensures
        changed ==> {
            &&& final(text).key == UIStringKey::Fullscreen
            &&& final(text).format@ == "{} {}"@
            &&& final(text).args@ == seq![TextArg::Key(status_key(fullscreen.0))]
        },
        !changed ==> *final(text) == *old(text),
{
    if changed {
        *text = fullscreen_btn_text(fullscreen.0);
    }
}

} // verus!
