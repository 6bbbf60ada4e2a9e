//! The settings menu of the title screen and where its buttons lead.

pub mod interface;
pub mod video;

use vstd::prelude::*;

verus! {

/// The pages of the settings menu.
#[derive(Clone, Copy, PartialEq, Eq, Debug, Structural)]
pub enum SettingsMenuState {
    Main,
    Interface,
    Video,
    Resolution,
}

/// The screens of the title menu.
#[derive(Clone, Copy, PartialEq, Eq, Debug, Structural)]
pub enum MenuState {
    Main,
    Settings(SettingsMenuState),
}

/// The states of the game.
#[derive(Clone, Copy, PartialEq, Eq, Debug, Structural)]
pub enum GameState {
    WorldLoading,
    InGame,
    Menu(MenuState),
}

/// The event that takes the menu one page back.
#[derive(Clone, Copy, PartialEq, Eq, Debug, Structural)]
pub struct Back;

/// Marks the settings menu's main page.
pub struct SettingsMenu;

/// Marks a "back" button.
pub struct BackButton;

/// Marks an "apply" button.
pub struct ApplyButton;

/// The settings menu's pages and buttons.
pub struct SettingsMenuPlugin;

/// The "interface" button leads to the interface page.
pub fn interface_clicked() -> (r: GameState)
    ensures
        r == GameState::Menu(MenuState::Settings(SettingsMenuState::Interface)),
{
    GameState::Menu(MenuState::Settings(SettingsMenuState::Interface))
}

/// The "video" button leads to the video page.
pub fn video_clicked() -> (r: GameState)
    ensures
        r == GameState::Menu(MenuState::Settings(SettingsMenuState::Video)),
{
    GameState::Menu(MenuState::Settings(SettingsMenuState::Video))
}

/// The "cursor" button has no page yet: it does nothing.
pub fn cursor_clicked() {
}

/// The "back" button of the settings menu leads to the title menu.
pub fn back_clicked() -> (r: GameState)
    ensures
        r == GameState::Menu(MenuState::Main),
{
    GameState::Menu(MenuState::Main)
}

} // verus!
