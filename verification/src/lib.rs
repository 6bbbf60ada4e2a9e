//! Game rules of a 2D sandbox game: world cells and chunks, tiles and their
//! neighbours, inventory slots, settings and menus, with their contracts.

pub mod visibility;
pub mod world;
pub mod inventory;
pub mod sprites;
mod random;
pub mod particles;
pub mod chunks;
pub mod collision;
pub mod settings;
pub mod menu_text;
pub mod settings_menu;
pub mod ui;
pub mod player;
pub mod ingame_settings;
