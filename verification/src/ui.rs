use crate::inventory::{item_in, slot_in, Inventory, Slot};
use vstd::prelude::*;

verus! {

/// The in-game interface's plugin.
pub struct PlayerUiPlugin;

/// The interface's plugin.
pub struct UiPlugin;

/// Marks the container of the whole in-game interface.
pub struct MainUiContainer;

/// Asks to show (`true`) or hide the extra interface.
#[derive(Clone, Copy, PartialEq, Eq, Debug, Structural)]
pub struct ToggleExtraUiEvent(pub bool);

/// Whether the extra interface (inventory, settings button) is shown.
#[derive(Clone, Copy, PartialEq, Eq, Debug, Structural)]
pub struct ExtraUiVisibility(pub bool);

/// Whether the in-game interface is shown.
#[derive(Clone, Copy, PartialEq, Eq, Debug, Structural)]
pub struct UiVisibility(pub bool);

impl Default for ExtraUiVisibility {
    /// Hidden at first.
    fn default() -> (r: Self)
        ensures
            !r.0,
    {
        ExtraUiVisibility(false)
    }
}

impl Default for UiVisibility {
    /// Shown at first.
    fn default() -> (r: Self)
        ensures
            r.0,
    {
        UiVisibility(true)
    }
}

/// When escape has just been pressed, the extra interface switches between
/// shown and hidden and the returned event tells the new state; otherwise
/// nothing changes.
pub fn toggle_extra_ui(escape_just_pressed: bool, extra_ui_visibility: &mut ExtraUiVisibility) -> (r:
    Option<ToggleExtraUiEvent>)
    ensures
        escape_just_pressed ==> final(extra_ui_visibility).0 == !old(extra_ui_visibility).0 && r == Some(
            ToggleExtraUiEvent(final(extra_ui_visibility).0),
        ),
        !escape_just_pressed ==> *final(extra_ui_visibility) == *old(extra_ui_visibility) && r is None,
{
    if escape_just_pressed {
        let visibility = !extra_ui_visibility.0;
        extra_ui_visibility.0 = visibility;
        Some(ToggleExtraUiEvent(visibility))
    } else {
        None
    }
}

/// When F11 has just been pressed, the interface switches between shown and
/// hidden.
pub fn toggle_ui(f11_just_pressed: bool, ui_visibility: &mut UiVisibility)
    ensures
        final(ui_visibility).0 == (old(ui_visibility).0 != f11_just_pressed),
{
    if f11_just_pressed {
        ui_visibility.0 = !ui_visibility.0;
    }
}

/// Number of slots in a row of the inventory.
pub const SLOT_COUNT_IN_ROW: usize = 10;

/// The number written on hotbar slot `index`: 1 to 9, then 0 (and so on,
/// round the ten digits, for any index).
pub fn hotbar_slot_label(index: usize) -> (r: usize)
    requires
        index < usize::MAX,
    ensures
        r == (index + 1) % (SLOT_COUNT_IN_ROW as int),
{
    (index + 1) % SLOT_COUNT_IN_ROW
}

/// The inventory slot shown at column `column` of inventory row `row`
/// (the hotbar is row 0).
pub fn inventory_slot_index(row: usize, column: usize) -> (r: usize)
    requires
        row < 5,
        column < SLOT_COUNT_IN_ROW,
    ensures
        r == slot_at(row as int, column as int),
{
    (row * SLOT_COUNT_IN_ROW) + column
}

/// The slot that the inventory shows at a row and a column.
pub open spec fn slot_at(row: int, column: int) -> int {
    row * SLOT_COUNT_IN_ROW + column
}

/// The inventory's five rows of ten show fifty different slots, each below
/// 50, and a slot is a hotbar slot (below 10) exactly when it is shown in
/// row 0.
pub proof fn law_slot_numbering(row: int, column: int, other_row: int, other_column: int)
    requires
        0 <= row < 5,
        0 <= column < SLOT_COUNT_IN_ROW,
        0 <= other_row < 5,
        0 <= other_column < SLOT_COUNT_IN_ROW,
    ensures
        0 <= slot_at(row, column) < 5 * SLOT_COUNT_IN_ROW,
        slot_at(row, column) == slot_at(other_row, other_column) ==> row == other_row && column
            == other_column,
        slot_at(row, column) < SLOT_COUNT_IN_ROW <==> row == 0,
{
}

/// Each of the fifty slots is shown somewhere: slot `i` at row `i / 10`,
/// column `i % 10`.
pub proof fn law_every_slot_shown(i: int)
    requires
        0 <= i < 5 * SLOT_COUNT_IN_ROW,
    ensures
        0 <= i / (SLOT_COUNT_IN_ROW as int) < 5,
        0 <= i % (SLOT_COUNT_IN_ROW as int) < SLOT_COUNT_IN_ROW,
        slot_at(i / (SLOT_COUNT_IN_ROW as int), i % (SLOT_COUNT_IN_ROW as int)) == i,
{
}

/// The amount shown on slot `slot_index`: the size of its stack, or 0.
pub fn update_item_amount(inventory: &Inventory, slot_index: usize) -> (r: u16)
    ensures
        r == (match slot_in(inventory.slots@, slot_index as int) {
            Some(s) => s.stack,
            None => 0,
        }),
{
    if slot_index < inventory.slots.len() {
        match inventory.slots[slot_index] {
            Some(item_stack) => item_stack.stack,
            None => 0,
        }
    } else {
        0
    }
}

/// Whether a slot's amount is written: only for stacks of more than one.
pub fn update_item_amount_text(amount: u16) -> (r: bool)
    ensures
        r == (amount > 1),
{
    amount > 1
}

/// The size at which a hotbar slot is drawn.
#[derive(Clone, Copy, PartialEq, Eq, Debug, Structural)]
pub enum SlotSize {
    /// The size of every slot while the whole inventory is open.
    Inventory,
    /// The larger size of the selected slot while only the hotbar shows.
    HotbarSelected,
    /// The size of the other slots while only the hotbar shows.
    Hotbar,
}

/// How a hotbar slot's number is written.
#[derive(Clone, Copy, PartialEq, Eq, Debug, Structural)]
pub enum SlotIndexStyle {
    /// Larger and white: the selected slot, with nothing on the mouse, while
    /// the inventory is open.
    Highlighted,
    /// Grey: the other slots while the inventory is open.
    Dimmed,
    /// White: every slot while only the hotbar shows.
    Normal,
}

/// The size of hotbar slot `slot_index`.
pub fn update_slot_size(inventory: &Inventory, slot_index: usize, inventory_visible: bool) -> (r: SlotSize)
    ensures
        r == (if inventory_visible {
            SlotSize::Inventory
        } else if slot_index == inventory.selected_slot {
            SlotSize::HotbarSelected
        } else {
            SlotSize::Hotbar
        }),
{
    let selected = slot_index == inventory.selected_slot;
    if inventory_visible {
        SlotSize::Inventory
    } else if selected {
        SlotSize::HotbarSelected
    } else {
        SlotSize::Hotbar
    }
}

/// Whether hotbar slot `slot_index` gets the "selected" background: only the
/// selected slot, and only while the inventory is closed.
pub fn update_slot_background_image(inventory: &Inventory, slot_index: usize, inventory_visible: bool) -> (r:
    bool)
    ensures
        r == (slot_index == inventory.selected_slot && !inventory_visible),
{
    slot_index == inventory.selected_slot && !inventory_visible
}

/// How the number of hotbar slot `slot_index` is written.
pub fn update_slot_index_text(inventory: &Inventory, slot_index: usize, inventory_visible: bool) -> (r:
    SlotIndexStyle)
    ensures
        r == (if inventory_visible {
            if inventory.selected_slot == slot_index && item_in(*inventory, Slot::MouseItem) is None {
                SlotIndexStyle::Highlighted
            } else {
                SlotIndexStyle::Dimmed
            }
        } else {
            SlotIndexStyle::Normal
        }),
{
    if inventory_visible {
        if inventory.selected_slot == slot_index && !inventory.item_exists(Slot::MouseItem) {
            SlotIndexStyle::Highlighted
        } else {
            SlotIndexStyle::Dimmed
        }
    } else {
        SlotIndexStyle::Normal
    }
}

} // verus!
