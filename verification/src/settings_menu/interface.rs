use super::{GameState, MenuState, SettingsMenuState};
use crate::settings::ShowTileGrid;
use vstd::prelude::*;

verus! {

/// Marks the interface page.
pub struct InterfaceMenu;

/// The "back" button of the interface page leads to the settings menu.
pub fn back_clicked() -> (r: GameState)
    ensures
        r == GameState::Menu(MenuState::Settings(SettingsMenuState::Main)),
{
    GameState::Menu(MenuState::Settings(SettingsMenuState::Main))
}

/// Switches the tile grid on or off.
pub fn toggle_tile_grid_clicked(show_tile_grid: &mut ShowTileGrid)
    ensures
        final(show_tile_grid).0 == !old(show_tile_grid).0,
{
    show_tile_grid.0 = !show_tile_grid.0;
}

} // verus!
