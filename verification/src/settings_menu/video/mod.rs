pub mod resolution;

use super::{GameState, MenuState, SettingsMenuState};
use crate::settings::{PresentMode, VSync};
use vstd::prelude::*;

verus! {

/// Marks the video page.
pub struct VideoMenu;

/// The "resolution" button leads to the resolution page.
pub fn resolution_clicked() -> (r: GameState)
    ensures
        r == GameState::Menu(MenuState::Settings(SettingsMenuState::Resolution)),
{
    GameState::Menu(MenuState::Settings(SettingsMenuState::Resolution))
}

/// The "back" button of the video page leads to the settings menu.
pub fn back_clicked() -> (r: GameState)
    ensures
        r == GameState::Menu(MenuState::Settings(SettingsMenuState::Main)),
{
    GameState::Menu(MenuState::Settings(SettingsMenuState::Main))
}

/// Switches vertical sync on or off; returns the present mode that the
/// window must now use.
pub fn vsync_clicked(vsync: &mut VSync) -> (r: PresentMode)
    ensures
        final(vsync).0 == !old(vsync).0,
        r == (if final(vsync).0 {
            PresentMode::Fifo
        } else {
            PresentMode::Immediate
        }),
{
    vsync.0 = !vsync.0;
    vsync.as_present_mode()
}

} // verus!
