use crate::inventory::{item_in, Inventory, Item, Slot};
use crate::world::{BlockPlaceEvent, TilePos};
use vstd::prelude::*;

verus! {

/// Number of frames of the walking animation.
pub const WALKING_ANIMATION_MAX_INDEX: usize = 13;

/// The player.
pub struct Player;

/// The player's plugin.
pub struct PlayerPlugin;

/// Whether the player stands on the ground.
#[derive(Clone, Copy, PartialEq, Eq, Debug, Structural)]
pub struct GroundDetection {
    pub on_ground: bool,
}

/// Which way the player looks.
#[derive(Clone, Copy, PartialEq, Eq, Debug, Structural)]
pub enum FaceDirection {
    Left,
    Right,
}

impl Default for FaceDirection {
    /// The player looks right at first.
    fn default() -> (r: Self)
        ensures
            r == FaceDirection::Right,
    {
        FaceDirection::Right
    }
}

impl FaceDirection {
    /// Whether the player looks left.
    pub fn is_left(&self) -> (r: bool)
        ensures
            r == (*self == FaceDirection::Left),
    {
        match self {
            FaceDirection::Left => true,
            FaceDirection::Right => false,
        }
    }
}

/// Moves the walking animation one frame on when its timer has just run out
/// (after the last frame comes the first).
pub fn update_movement_animation_index(index: usize, timer_just_finished: bool) -> (r: usize)
    requires
        timer_just_finished ==> index < usize::MAX,
    ensures
        r == (if timer_just_finished {
            ((index + 1) % WALKING_ANIMATION_MAX_INDEX as int) as usize
        } else {
            index
        }),
        timer_just_finished ==> r < WALKING_ANIMATION_MAX_INDEX,
{
    if timer_just_finished {
        (index + 1) % WALKING_ANIMATION_MAX_INDEX
    } else {
        index
    }
}

/// Number of frames of the item swing animation.
pub const USE_ITEM_ANIMATION_FRAMES_COUNT: usize = 3;

/// Moves the item swing animation one frame on when its timer has just run
/// out (after the last frame comes the first); the swing stops once it is
/// back at its first frame. Returns whether the swing still plays.
pub fn update_use_item_animation_index(index: &mut usize, timer_just_finished: bool, playing: bool) -> (r:
    bool)
    requires
        timer_just_finished ==> *old(index) < usize::MAX,
    ensures
        *final(index) == (if timer_just_finished {
            ((*old(index) + 1) % USE_ITEM_ANIMATION_FRAMES_COUNT as int) as usize
        } else {
            *old(index)
        }),
        r == (playing && !(timer_just_finished && *final(index) == 0)),
{
    if timer_just_finished {
        *index = (*index + 1) % USE_ITEM_ANIMATION_FRAMES_COUNT;
        if *index == 0 {
            return false;
        }
    }
    playing
}

/// While the left mouse button is held and the selected slot holds a block,
/// asks to place that block at the tile under the cursor, taken from the
/// selected slot; otherwise asks nothing.
pub fn use_item(mouse_left_pressed: bool, cursor_tile: TilePos, inventory: &Inventory) -> (r: Option<
    BlockPlaceEvent,
>)
    ensures
        r == (if mouse_left_pressed {
            match item_in(*inventory, Slot::Index(inventory.selected_slot)) {
                Some(stack) => match stack.item {
                    Item::Block(block) => Some(
                        BlockPlaceEvent {
                            tile_pos: cursor_tile,
                            block,
                            inventory_item_index: inventory.selected_slot,
                        },
                    ),
                    Item::Pickaxe(_) => None,
                },
                None => None,
            }
        } else {
            None
        }),
{
    if mouse_left_pressed {
        let selected_item_index = inventory.selected_slot;
        match inventory.selected_item() {
            Some(item_stack) => match item_stack.item {
                Item::Pickaxe(_) => None,
                Item::Block(block) => Some(
                    BlockPlaceEvent {
                        tile_pos: cursor_tile,
                        block,
                        inventory_item_index: selected_item_index,
                    },
                ),
            },
            None => None,
        }
    } else {
        None
    }
}

} // verus!
