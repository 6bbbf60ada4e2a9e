use terra::ui::{update_slot_background_image, update_slot_index_text, update_slot_size, SlotIndexStyle, SlotSize};
use terra::ingame_settings::{select_tab, SelectedTab};
use terra::inventory::{put_item, take_item, Inventory, Item, ItemStack, PickaxeType, Slot};
use terra::menu_text::{
    update_fullscreen_resolution_button_text, update_light_smoothness_button_text,
    update_resolution_button_text, update_vsync_button_text, fullscreen_btn_text, light_smoothness_btn_text, light_smoothness_clicked, resolution_btn_text,
    update_toggle_tile_grid_button_text, vsync_btn_text, LightSmoothness, TextArg, UIStringKey,
};
use terra::particles::{get_particle_index, random_particle_index, Particle};
use terra::player::{update_movement_animation_index, update_use_item_animation_index, use_item, FaceDirection};
use terra::settings::{resolutions, FullScreen, PresentMode, Resolution, ShowTileGrid, VSync, WindowMode};
use terra::settings_menu::video::resolution::{apply_clicked, fullscreen_clicked, fullscreen_resolution_clicked};
use terra::settings_menu::video::{resolution_clicked, vsync_clicked};
use terra::settings_menu::{back_clicked, cursor_clicked, Back, interface_clicked, video_clicked, GameState, MenuState, SettingsMenuState};
use terra::sprites::{get_tile_sprite_index, get_wall_sprite_index, tile_sprite_index, wall_sprite_index};
use terra::ui::{hotbar_slot_label, inventory_slot_index, toggle_extra_ui, toggle_ui, update_item_amount, update_item_amount_text, ExtraUiVisibility, ToggleExtraUiEvent, UiVisibility};
use terra::visibility::{BoolValue, Cursor, IsVisible, Toggle, Ui};
use terra::world::{BlockType, Neighbors, TilePos, TreeType};

fn n(top: bool, bottom: bool, left: bool, right: bool) -> Neighbors {
    Neighbors { top, bottom, left, right }
}

#[test]
fn visibility_flags() {
    let mut v = IsVisible::<Ui>::visible();
    assert!(v.value());
    assert!(!(!IsVisible::<Ui>::visible()));
    assert!(!IsVisible::<Ui>::hidden());
    v.toggle();
    assert!(!v.value());
    v.toggle();
    assert!(v.value());
    assert!(!IsVisible::<Ui>::hidden().value());
    assert!(*IsVisible::<Ui>::visible());
}

#[test]
fn visibility_flags_copy_and_compare() {
    let a = IsVisible::<Cursor>::visible();
    let b = a;
    let mut c = a.clone();
    assert!(a == b);
    assert!(c == a);
    c.toggle();
    assert!(c != a);
    assert!(c == IsVisible::<Cursor>::hidden());
}

#[test]
fn label_updates_follow_changes() {
    let mut text = vsync_btn_text(false);
    update_vsync_button_text(&VSync(true), false, &mut text);
    assert_eq!(text.args, vec![TextArg::Key(UIStringKey::Off)]);
    update_vsync_button_text(&VSync(true), true, &mut text);
    assert_eq!(text.args, vec![TextArg::Key(UIStringKey::On)]);
    update_resolution_button_text(&FullScreen(true), true, &mut text);
    assert_eq!(text.key, UIStringKey::Fullscreen);
    update_fullscreen_resolution_button_text(&Resolution::new(800, 600), true, &mut text);
    assert_eq!(text.args, vec![TextArg::Number(800), TextArg::Number(600)]);
    update_light_smoothness_button_text(&LightSmoothness::Legacy, true, &mut text);
    assert_eq!(text.key, UIStringKey::LightSmoothness);
    assert_eq!(text.args, vec![TextArg::Key(UIStringKey::Legacy)]);
}

#[test]
fn particle_looks_are_distinct() {
    let all = [Particle::Dirt, Particle::Stone, Particle::Grass, Particle::Wood];
    let mut seen = Vec::new();
    for p in all {
        for v in 0..3u8 {
            let i = get_particle_index(p, v);
            assert!(!seen.contains(&i));
            seen.push(i);
        }
    }
}

#[test]
fn swing_animation() {
    let mut index = 1usize;
    assert!(update_use_item_animation_index(&mut index, true, true));
    assert_eq!(index, 2);
    assert!(!update_use_item_animation_index(&mut index, true, true));
    assert_eq!(index, 0);
    assert!(update_use_item_animation_index(&mut index, false, true));
    assert_eq!(index, 0);
}

#[test]
fn tile_sprites() {
    assert_eq!(tile_sprite_index(n(true, true, true, true), 1), 17);
    assert_eq!(tile_sprite_index(n(false, false, false, false), 2), 58);
    assert_eq!(tile_sprite_index(n(false, false, true, false), 2), 28);
    assert_eq!(tile_sprite_index(n(true, true, false, true), 1), 0);
    assert_eq!(tile_sprite_index(n(false, true, true, true), 2), 2);
    let mut seen = [false; 2];
    for _ in 0..200 {
        let r = get_tile_sprite_index(n(true, false, false, false));
        assert!(r == 54 || r == 55);
        seen[(r - 54) as usize] = true;
    }
    assert!(seen[0] && seen[1]);
}

#[test]
fn wall_sprites() {
    assert_eq!(wall_sprite_index(n(true, true, true, true), 2), 15);
    assert_eq!(wall_sprite_index(n(true, true, true, false), 2), 17);
    assert_eq!(wall_sprite_index(n(false, false, true, true), 1), 58);
    for _ in 0..20 {
        let r = get_wall_sprite_index(n(false, false, false, false));
        assert!(r == 48 || r == 49);
    }
}

#[test]
fn particles() {
    assert_eq!(Particle::get_by_block(BlockType::Tree(TreeType::Forest)), Some(Particle::Wood));
    assert_eq!(Particle::get_by_block(BlockType::Grass), Some(Particle::Grass));
    assert_eq!(get_particle_index(Particle::Wood, 2), 207);
    assert_eq!(get_particle_index(Particle::Stone, 0), 1);
    let mut seen = [false; 3];
    for _ in 0..300 {
        let r = random_particle_index(Particle::Grass);
        assert!(r == 2 || r == 102 || r == 202);
        seen[r / 100] = true;
    }
    assert!(seen[0] && seen[1] && seen[2]);
}

#[test]
fn inventory_take_and_put() {
    let mut inv = Inventory::new();
    let pick = ItemStack { item: Item::Pickaxe(PickaxeType::Copper), stack: 1 };
    let dirt = ItemStack { item: Item::Block(BlockType::Dirt), stack: 7 };
    inv.set_item(Slot::Index(3), pick);
    inv.set_item(Slot::Index(4), dirt);
    assert_eq!(take_item(true, &mut inv, &vec![3]), 0);
    assert!(inv.get_item(Slot::MouseItem).is_none());
    assert_eq!(take_item(false, &mut inv, &vec![3]), 1);
    assert_eq!(inv.get_item(Slot::MouseItem), Some(pick));
    assert!(inv.get_item(Slot::Index(3)).is_none());
    assert_eq!(take_item(false, &mut inv, &vec![4]), 0);
    assert_eq!(put_item(true, &mut inv, &vec![4]), 0);
    assert_eq!(inv.get_item(Slot::MouseItem), Some(pick));
    assert_eq!(inv.get_item(Slot::Index(4)), Some(dirt));
    assert_eq!(put_item(false, &mut inv, &vec![4]), 1);
    assert_eq!(inv.get_item(Slot::Index(4)), Some(pick));
    assert_eq!(inv.get_item(Slot::MouseItem), Some(dirt));
    assert_eq!(put_item(false, &mut inv, &vec![3]), 1);
    assert_eq!(inv.get_item(Slot::Index(3)), Some(dirt));
    assert!(!inv.item_exists(Slot::MouseItem));
    assert_eq!(put_item(false, &mut inv, &vec![5]), 0);
    assert_eq!(inv.get_item(Slot::Index(99)), None);
}

#[test]
fn take_then_put_restores() {
    let mut inv = Inventory::new();
    let dirt = ItemStack { item: Item::Block(BlockType::Dirt), stack: 2 };
    inv.set_item(Slot::Index(0), dirt);
    take_item(false, &mut inv, &vec![0]);
    put_item(false, &mut inv, &vec![0]);
    assert_eq!(inv.get_item(Slot::Index(0)), Some(dirt));
    assert!(inv.get_item(Slot::MouseItem).is_none());
}

#[test]
fn consume_items() {
    let mut inv = Inventory::new();
    inv.set_item(Slot::Index(1), ItemStack { item: Item::Block(BlockType::Stone), stack: 2 });
    inv.consume_item(1);
    assert_eq!(inv.get_item(Slot::Index(1)).unwrap().stack, 1);
    inv.consume_item(1);
    assert!(inv.get_item(Slot::Index(1)).is_none());
    inv.consume_item(1);
    inv.consume_item(500);
    assert!(inv.get_item(Slot::Index(1)).is_none());
}

#[test]
fn using_items() {
    let mut inv = Inventory::new();
    let cursor = TilePos { x: 7, y: 8 };
    assert!(use_item(true, cursor, &inv).is_none());
    inv.set_item(Slot::Index(0), ItemStack { item: Item::Pickaxe(PickaxeType::Copper), stack: 1 });
    assert!(use_item(true, cursor, &inv).is_none());
    inv.set_item(Slot::Index(0), ItemStack { item: Item::Block(BlockType::Grass), stack: 1 });
    let ev = use_item(true, cursor, &inv).unwrap();
    assert_eq!(ev.block, BlockType::Grass);
    assert_eq!(ev.tile_pos, cursor);
    assert_eq!(ev.inventory_item_index, 0);
    assert!(use_item(false, cursor, &inv).is_none());
}

#[test]
fn settings_switches() {
    let mut v = VSync(true);
    assert_eq!(v.as_present_mode(), PresentMode::Fifo);
    assert_eq!(vsync_clicked(&mut v), PresentMode::Immediate);
    assert!(!v.0);
    let mut f = FullScreen(false);
    assert_eq!(f.as_window_mode(), WindowMode::Windowed);
    fullscreen_clicked(&mut f);
    assert_eq!(f.as_window_mode(), WindowMode::Fullscreen);
    let r = Resolution::new(1280, 720);
    assert_eq!(apply_clicked(&f, &r), (WindowMode::Fullscreen, r, Back));
    let mut g = ShowTileGrid(false);
    terra::settings_menu::interface::toggle_tile_grid_clicked(&mut g);
    assert!(g.0);
}

#[test]
fn resolution_cycle() {
    let list = resolutions();
    let mut index = 0usize;
    let mut res = Resolution::default();
    fullscreen_resolution_clicked(&mut index, &mut res);
    assert_eq!(index, 0);
    assert_eq!(res, Resolution::new(800, 600));
    for _ in 0..16 {
        fullscreen_resolution_clicked(&mut index, &mut res);
    }
    assert_eq!(res, Resolution::new(800, 600));
    let mut odd = Resolution::new(1, 1);
    let mut i = 7usize;
    fullscreen_resolution_clicked(&mut i, &mut odd);
    assert_eq!(i, 8);
    assert_eq!(odd, list[8]);
    let mut last = list[15];
    let mut far = usize::MAX;
    fullscreen_resolution_clicked(&mut far, &mut last);
    assert_eq!(far, 0);
    assert_eq!(last, list[0]);
}

#[test]
fn menu_navigation() {
    assert_eq!(interface_clicked(), GameState::Menu(MenuState::Settings(SettingsMenuState::Interface)));
    assert_eq!(video_clicked(), GameState::Menu(MenuState::Settings(SettingsMenuState::Video)));
    assert_eq!(back_clicked(), GameState::Menu(MenuState::Main));
    assert_eq!(resolution_clicked(), GameState::Menu(MenuState::Settings(SettingsMenuState::Resolution)));
    assert_eq!(terra::settings_menu::video::back_clicked(), GameState::Menu(MenuState::Settings(SettingsMenuState::Main)));
    assert_eq!(terra::settings_menu::interface::back_clicked(), GameState::Menu(MenuState::Settings(SettingsMenuState::Main)));
    assert_eq!(terra::settings_menu::video::resolution::back_clicked(), GameState::Menu(MenuState::Settings(SettingsMenuState::Video)));
    cursor_clicked();
}

#[test]
fn button_texts() {
    let t = vsync_btn_text(true);
    assert_eq!(t.key, UIStringKey::Vsync);
    assert_eq!(t.format, "{} {}");
    assert_eq!(t.args, vec![TextArg::Key(UIStringKey::On)]);
    assert_eq!(fullscreen_btn_text(false).args, vec![TextArg::Key(UIStringKey::Off)]);
    let r = resolution_btn_text(&Resolution::new(1366, 768));
    assert_eq!(r.format, "{} {}x{}");
    assert_eq!(r.args, vec![TextArg::Number(1366), TextArg::Number(768)]);
    assert_eq!(light_smoothness_btn_text(LightSmoothness::Round).args, vec![TextArg::Key(UIStringKey::Round)]);
    assert_eq!(update_toggle_tile_grid_button_text(&ShowTileGrid(true)).key, UIStringKey::TileGrid);
}

#[test]
fn light_smoothness_cycle() {
    let mut index = 0u8;
    let mut l = LightSmoothness::Round2;
    light_smoothness_clicked(&mut index, &mut l);
    assert_eq!(l, LightSmoothness::Legacy);
    light_smoothness_clicked(&mut index, &mut l);
    light_smoothness_clicked(&mut index, &mut l);
    assert_eq!(l, LightSmoothness::Round2);
    assert_eq!(index, 2);
}

#[test]
fn ui_toggles() {
    let mut e = ExtraUiVisibility::default();
    assert_eq!(toggle_extra_ui(true, &mut e), Some(ToggleExtraUiEvent(true)));
    assert_eq!(toggle_extra_ui(false, &mut e), None);
    assert!(e.0);
    let mut u = UiVisibility::default();
    toggle_ui(true, &mut u);
    assert!(!u.0);
    toggle_ui(false, &mut u);
    assert!(!u.0);
    assert_eq!(hotbar_slot_label(9), 0);
    assert_eq!(hotbar_slot_label(15), 6);
    assert_eq!(hotbar_slot_label(0), 1);
    assert_eq!(inventory_slot_index(2, 3), 23);
    let mut seen = [false; 50];
    for row in 0..5 {
        for column in 0..10 {
            let i = inventory_slot_index(row, column);
            assert!(i < 50);
            assert!(!seen[i]);
            seen[i] = true;
            assert_eq!(i < 10, row == 0);
        }
    }
    assert!(seen.iter().all(|s| *s));
    let mut inv = Inventory::new();
    inv.set_item(Slot::Index(2), ItemStack { item: Item::Block(BlockType::Dirt), stack: 5 });
    assert_eq!(update_item_amount(&inv, 2), 5);
    assert_eq!(update_item_amount(&inv, 3), 0);
    assert_eq!(update_item_amount(&inv, 300), 0);
    assert!(update_item_amount_text(2));
    assert!(!update_item_amount_text(1));
}

#[test]
fn player_bits() {
    assert_eq!(update_movement_animation_index(12, true), 0);
    assert_eq!(update_movement_animation_index(3, true), 4);
    assert_eq!(update_movement_animation_index(3, false), 3);
    assert_eq!(update_movement_animation_index(20, true), 8);
    assert_eq!(update_movement_animation_index(100, false), 100);
    let mut far = 7usize;
    assert!(update_use_item_animation_index(&mut far, true, true));
    assert_eq!(far, 2);
    assert!(!FaceDirection::default().is_left());
    assert!(FaceDirection::Left.is_left());
}

#[test]
fn tabs() {
    let mut tab = SelectedTab::default();
    assert!(!select_tab(&mut tab, SelectedTab::General));
    assert!(select_tab(&mut tab, SelectedTab::Video));
    assert_eq!(tab, SelectedTab::Video);
}

#[test]
fn hotbar_slot_looks() {
    let mut inv = Inventory::new();
    inv.selected_slot = 2;
    assert_eq!(update_slot_size(&inv, 2, false), SlotSize::HotbarSelected);
    assert_eq!(update_slot_size(&inv, 3, false), SlotSize::Hotbar);
    assert_eq!(update_slot_size(&inv, 2, true), SlotSize::Inventory);
    assert!(update_slot_background_image(&inv, 2, false));
    assert!(!update_slot_background_image(&inv, 2, true));
    assert!(!update_slot_background_image(&inv, 1, false));
    assert_eq!(update_slot_index_text(&inv, 2, true), SlotIndexStyle::Highlighted);
    assert_eq!(update_slot_index_text(&inv, 4, true), SlotIndexStyle::Dimmed);
    assert_eq!(update_slot_index_text(&inv, 2, false), SlotIndexStyle::Normal);
    inv.set_item(Slot::MouseItem, ItemStack { item: Item::Block(BlockType::Dirt), stack: 1 });
    assert_eq!(update_slot_index_text(&inv, 2, true), SlotIndexStyle::Dimmed);
}
