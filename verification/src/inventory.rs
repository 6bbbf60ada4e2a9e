use crate::world::BlockType;
use vstd::prelude::*;

verus! {

/// Number of slots in the inventory: five rows of ten.
pub const INVENTORY_SIZE: usize = 50;

/// Kinds of pickaxe.
#[derive(Clone, Copy, PartialEq, Eq, Debug, Structural)]
pub enum PickaxeType {
    Copper,
}

/// Something the player can carry.
#[derive(Clone, Copy, PartialEq, Eq, Debug, Structural)]
pub enum Item {
    Pickaxe(PickaxeType),
    Block(BlockType),
}

/// An item with the number of copies held together.
#[derive(Clone, Copy, PartialEq, Eq, Debug, Structural)]
pub struct ItemStack {
    pub item: Item,
    pub stack: u16,
}

/// A place where an item stack can be: an inventory slot, or the stack
/// carried by the mouse.
#[derive(Clone, Copy, PartialEq, Eq, Debug, Structural)]
pub enum Slot {
    Index(usize),
    MouseItem,
}

/// The player's inventory.
pub struct Inventory {
    pub slots: Vec<Option<ItemStack>>,
    pub mouse_item: Option<ItemStack>,
    pub selected_slot: usize,
}

/// The stack in slot `i` of `slots`, `None` outside them.
pub open spec fn slot_in(slots: Seq<Option<ItemStack>>, i: int) -> Option<ItemStack> {
    if 0 <= i < slots.len() {
        slots[i]
    } else {
        None
    }
}

/// What a slot of the inventory holds.
pub open spec fn item_in(inv: Inventory, slot: Slot) -> Option<ItemStack> {
    match slot {
        Slot::Index(i) => slot_in(inv.slots@, i as int),
        Slot::MouseItem => inv.mouse_item,
    }
}

/// Whether a slot names a place of the inventory.
pub open spec fn valid_slot(inv: Inventory, slot: Slot) -> bool {
    match slot {
        Slot::Index(i) => i < inv.slots@.len(),
        Slot::MouseItem => true,
    }
}

/// The slots after one copy is used up from slot `i`: the count drops by one
/// and an emptied slot becomes `None`; nothing changes where slot `i` is empty
/// or outside the slots.
pub open spec fn consumed(slots: Seq<Option<ItemStack>>, i: int) -> Seq<Option<ItemStack>> {
    match slot_in(slots, i) {
        Some(s) => if s.stack <= 1 {
            slots.update(i, None)
        } else {
            slots.update(i, Some(ItemStack { item: s.item, stack: (s.stack - 1) as u16 }))
        },
        None => slots,
    }
}

/// One step of grabbing: a pressed slot that holds a stack gives it to the
/// mouse and becomes empty. The third value counts the grabs.
pub open spec fn take_step(
    state: (Seq<Option<ItemStack>>, Option<ItemStack>, nat),
    i: int,
) -> (Seq<Option<ItemStack>>, Option<ItemStack>, nat) {
    match slot_in(state.0, i) {
        Some(s) => (state.0.update(i, None), Some(s), state.2 + 1),
        None => state,
    }
}

/// Grabbing from each pressed slot in turn.
pub open spec fn take_all(
    slots: Seq<Option<ItemStack>>,
    mouse: Option<ItemStack>,
    pressed: Seq<usize>,
) -> (Seq<Option<ItemStack>>, Option<ItemStack>, nat)
    decreases pressed.len(),
{
    if pressed.len() == 0 {
        (slots, mouse, 0)
    } else {
        take_step(take_all(slots, mouse, pressed.drop_last()), pressed.last() as int)
    }
}

/// One step of putting down the stack `held` that the mouse carried when the
/// press began: the pressed slot receives `held`, and the mouse takes what the
/// slot held before (or nothing). The third value counts the steps.
pub open spec fn put_step(
    state: (Seq<Option<ItemStack>>, Option<ItemStack>, nat),
    held: ItemStack,
    i: int,
) -> (Seq<Option<ItemStack>>, Option<ItemStack>, nat) {
    (state.0.update(i, Some(held)), slot_in(state.0, i), state.2 + 1)
}

/// Putting down `held` into each pressed slot in turn.
pub open spec fn put_all(
    slots: Seq<Option<ItemStack>>,
    mouse: Option<ItemStack>,
    held: ItemStack,
    pressed: Seq<usize>,
) -> (Seq<Option<ItemStack>>, Option<ItemStack>, nat)
    decreases pressed.len(),
{
    if pressed.len() == 0 {
        (slots, mouse, 0)
    } else {
        put_step(put_all(slots, mouse, held, pressed.drop_last()), held, pressed.last() as int)
    }
}

/// Grabbing a stack from a slot and putting it back into the same slot
/// leaves the slots and the mouse as they were.
pub proof fn law_take_then_put(slots: Seq<Option<ItemStack>>, i: usize)
    requires
        i < slots.len(),
        slots[i as int] is Some,
    ensures
        ({
            let t = take_all(slots, None, seq![i]);
            &&& t.1 == slots[i as int]
            &&& t.2 == 1
            &&& put_all(t.0, t.1, t.1.unwrap(), seq![i]).0 == slots
            &&& put_all(t.0, t.1, t.1.unwrap(), seq![i]).1 is None
        }),
{
    let p = seq![i];
    assert(p.drop_last() =~= Seq::<usize>::empty());
    reveal_with_fuel(take_all, 2);
    reveal_with_fuel(put_all, 2);
    let t = take_all(slots, None, p);
    assert(t.0 == slots.update(i as int, None));
    let u = put_all(t.0, t.1, t.1.unwrap(), p);
    assert(u.0 =~= slots);
}

/// Putting the mouse's stack into an empty slot and grabbing it from there
/// again leaves the slots and the mouse as they were.
pub proof fn law_put_then_take(slots: Seq<Option<ItemStack>>, held: ItemStack, i: usize)
    requires
        i < slots.len(),
        slots[i as int] is None,
    ensures
        ({
            let u = put_all(slots, Some(held), held, seq![i]);
            &&& u.1 is None
            &&& take_all(u.0, u.1, seq![i]).0 == slots
            &&& take_all(u.0, u.1, seq![i]).1 == Some(held)
        }),
{
    let p = seq![i];
    assert(p.drop_last() =~= Seq::<usize>::empty());
    reveal_with_fuel(take_all, 2);
    reveal_with_fuel(put_all, 2);
    let u = put_all(slots, Some(held), held, p);
    let t = take_all(u.0, u.1, p);
    assert(t.0 =~= slots);
}

/// Putting the mouse's stack down on a slot swaps the two: the slot now holds
/// the mouse's stack and the mouse carries exactly what the slot held (or
/// nothing, for an empty slot), whatever the two items are; no stack is lost.
pub proof fn law_put_swaps(slots: Seq<Option<ItemStack>>, held: ItemStack, i: usize)
    requires
        i < slots.len(),
    ensures
        ({
            let u = put_all(slots, Some(held), held, seq![i]);
            &&& u.0.len() == slots.len()
            &&& u.0[i as int] == Some(held)
            &&& u.1 == slots[i as int]
            &&& u.2 == 1
            &&& forall|j: int| 0 <= j < slots.len() && j != i ==> #[trigger] u.0[j] == slots[j]
        }),
{
    let p = seq![i];
    assert(p.drop_last() =~= Seq::<usize>::empty());
    reveal_with_fuel(put_all, 2);
}

/// Using up a copy keeps the item and lowers the count by one, or empties the
/// slot when it held the last copy; no other slot changes.
pub proof fn law_consume_one(slots: Seq<Option<ItemStack>>, i: int, j: int)
    requires
        0 <= i < slots.len(),
        slots[i] is Some,
        j != i,
    ensures
        consumed(slots, i).len() == slots.len(),
        slot_in(consumed(slots, i), j) == slot_in(slots, j),
        slots[i].unwrap().stack > 1 ==> consumed(slots, i)[i] == Some(
            ItemStack { item: slots[i].unwrap().item, stack: (slots[i].unwrap().stack - 1) as u16 },
        ),
        slots[i].unwrap().stack <= 1 ==> consumed(slots, i)[i] is None,
{
}

impl Inventory {
    /// An inventory of `INVENTORY_SIZE` empty slots, the first one selected.
    pub fn new() -> (r: Self)
        ensures
            r.slots@.len() == INVENTORY_SIZE,
            forall|i: int| 0 <= i < INVENTORY_SIZE ==> #[trigger] r.slots@[i] is None,
            r.mouse_item is None,
            r.selected_slot == 0,
    {
        let mut slots: Vec<Option<ItemStack>> = Vec::new();
        let mut i: usize = 0;
        while i < INVENTORY_SIZE
            invariant
                i <= INVENTORY_SIZE,
                slots@.len() == i,
                forall|j: int| 0 <= j < i ==> #[trigger] slots@[j] is None,
            decreases INVENTORY_SIZE - i,
        {
            slots.push(None);
            i = i + 1;
        }
        Inventory { slots, mouse_item: None, selected_slot: 0 }
    }

    /// What `slot` holds.
    pub fn get_item(&self, slot: Slot) -> (r: Option<ItemStack>)
        ensures
            r == item_in(*self, slot),
    {
        match slot {
            Slot::Index(i) => if i < self.slots.len() {
                self.slots[i]
            } else {
                None
            },
            Slot::MouseItem => self.mouse_item,
        }
    }

    /// Whether `slot` holds a stack.
    pub fn item_exists(&self, slot: Slot) -> (r: bool)
        ensures
            r == item_in(*self, slot) is Some,
    {
        self.get_item(slot).is_some()
    }

    /// The stack in the selected slot.
    pub fn selected_item(&self) -> (r: Option<ItemStack>)
        ensures
            r == item_in(*self, Slot::Index(self.selected_slot)),
    {
        self.get_item(Slot::Index(self.selected_slot))
    }

    /// Takes the stack out of `slot`, leaving it empty.
    pub fn remove_item(&mut self, slot: Slot) -> (r: Option<ItemStack>)
        ensures
            r == item_in(*old(self), slot),
            final(self).selected_slot == old(self).selected_slot,
            match slot {
                Slot::Index(i) => {
                    &&& final(self).mouse_item == old(self).mouse_item
                    &&& final(self).slots@ == if i < old(self).slots@.len() {
                        old(self).slots@.update(i as int, None)
                    } else {
                        old(self).slots@
                    }
                },
                Slot::MouseItem => {
                    &&& final(self).mouse_item is None
                    &&& final(self).slots@ == old(self).slots@
                },
            },
    {
        match slot {
            Slot::Index(i) => {
                if i < self.slots.len() {
                    let r = self.slots[i];
                    self.slots.set(i, None);
                    r
                } else {
                    None
                }
            },
            Slot::MouseItem => {
                let r = self.mouse_item;
                self.mouse_item = None;
                r
            },
        }
    }

    /// Puts `item` into `slot`, replacing what was there.
    pub fn set_item(&mut self, slot: Slot, item: ItemStack)
        requires
            valid_slot(*old(self), slot),
        ensures
            final(self).selected_slot == old(self).selected_slot,
            match slot {
                Slot::Index(i) => {
                    &&& final(self).mouse_item == old(self).mouse_item
                    &&& final(self).slots@ == old(self).slots@.update(i as int, Some(item))
                },
                Slot::MouseItem => {
                    &&& final(self).mouse_item == Some(item)
                    &&& final(self).slots@ == old(self).slots@
                },
            },
    {
        match slot {
            Slot::Index(i) => {
                self.slots.set(i, Some(item));
            },
            Slot::MouseItem => {
                self.mouse_item = Some(item);
            },
        }
    }

    /// Uses up one copy of the stack in slot `index`.
    pub fn consume_item(&mut self, index: usize)
        ensures
            final(self).slots@ == consumed(old(self).slots@, index as int),
            final(self).mouse_item == old(self).mouse_item,
            final(self).selected_slot == old(self).selected_slot,
    {
        if index < self.slots.len() {
            match self.slots[index] {
                Some(s) => {
                    if s.stack <= 1 {
                        self.slots.set(index, None);
                    } else {
                        self.slots.set(index, Some(ItemStack { item: s.item, stack: s.stack - 1 }));
                    }
                },
                None => {},
            }
        }
    }
}

/// Grabbing with the mouse: when the mouse carries nothing, each slot in
/// `pressed` (in turn) that holds a stack hands it to the mouse and becomes
/// empty. Returns how many grabs happened, one grab sound each; when the mouse
/// already carries a stack, or the inventory has already changed in this
/// frame (`inventory_changed`), nothing happens.
pub fn take_item(inventory_changed: bool, inventory: &mut Inventory, pressed: &Vec<usize>) -> (grabs:
    usize)
    ensures
        final(inventory).selected_slot == old(inventory).selected_slot,
        inventory_changed ==> {
            &&& grabs == 0
            &&& final(inventory).slots@ == old(inventory).slots@
            &&& final(inventory).mouse_item == old(inventory).mouse_item
        },
        !inventory_changed && old(inventory).mouse_item is Some ==> {
            &&& grabs == 0
            &&& final(inventory).slots@ == old(inventory).slots@
            &&& final(inventory).mouse_item == old(inventory).mouse_item
        },
        !inventory_changed && old(inventory).mouse_item is None ==> {
            let r = take_all(old(inventory).slots@, old(inventory).mouse_item, pressed@);
            &&& final(inventory).slots@ == r.0
            &&& final(inventory).mouse_item == r.1
            &&& grabs == r.2
        },
{
    if inventory_changed {
        return 0;
    }
    if inventory.item_exists(Slot::MouseItem) {
        return 0;
    }
    let ghost slots0 = inventory.slots@;
    let ghost mouse0 = inventory.mouse_item;
    let mut grabs: usize = 0;
    let mut k: usize = 0;
    while k < pressed.len()
        invariant
            0 <= k <= pressed@.len(),
            inventory.selected_slot == old(inventory).selected_slot,
            take_all(slots0, mouse0, pressed@.take(k as int)) == (
                inventory.slots@,
                inventory.mouse_item,
                grabs as nat,
            ),
            grabs <= k,
        decreases pressed@.len() - k,
    {
        let index = pressed[k];
        proof {
            assert(pressed@.take(k + 1).drop_last() =~= pressed@.take(k as int));
        }
        match inventory.remove_item(Slot::Index(index)) {
            Some(stack) => {
                inventory.set_item(Slot::MouseItem, stack);
                grabs = grabs + 1;
            },
            None => {},
        }
        k = k + 1;
    }
    proof {
        assert(pressed@.take(pressed@.len() as int) =~= pressed@);
    }
    grabs
}

/// Putting down with the mouse: when the mouse carries a stack `held`, each
/// slot in `pressed` (in turn) receives `held` and the mouse takes what the
/// slot held before, or nothing. Returns how many puts happened, one sound
/// each; when the mouse carries nothing, or the inventory has already changed
/// in this frame (`inventory_changed`), nothing happens.
pub fn put_item(inventory_changed: bool, inventory: &mut Inventory, pressed: &Vec<usize>) -> (puts:
    usize)
    requires
        forall|k: int| 0 <= k < pressed@.len() ==> #[trigger] pressed@[k] < old(inventory).slots@.len(),
    ensures
        final(inventory).selected_slot == old(inventory).selected_slot,
        inventory_changed ==> {
            &&& puts == 0
            &&& final(inventory).slots@ == old(inventory).slots@
            &&& final(inventory).mouse_item == old(inventory).mouse_item
        },
        !inventory_changed && old(inventory).mouse_item is None ==> {
            &&& puts == 0
            &&& final(inventory).slots@ == old(inventory).slots@
            &&& final(inventory).mouse_item is None
        },
        !inventory_changed ==> (old(inventory).mouse_item matches Some(held) ==> {
            let r = put_all(old(inventory).slots@, old(inventory).mouse_item, held, pressed@);
            &&& final(inventory).slots@ == r.0
            &&& final(inventory).mouse_item == r.1
            &&& puts == r.2
        }),
{
    if inventory_changed {
        return 0;
    }
    let held = match inventory.get_item(Slot::MouseItem) {
        Some(h) => h,
        None => {
            return 0;
        },
    };
    let ghost slots0 = inventory.slots@;
    let ghost mouse0 = inventory.mouse_item;
    let mut puts: usize = 0;
    let mut k: usize = 0;
    while k < pressed.len()
        invariant
            0 <= k <= pressed@.len(),
            inventory.selected_slot == old(inventory).selected_slot,
            inventory.slots@.len() == old(inventory).slots@.len(),
            forall|j: int| 0 <= j < pressed@.len() ==> #[trigger] pressed@[j] < old(inventory).slots@.len(),
            put_all(slots0, mouse0, held, pressed@.take(k as int)) == (
                inventory.slots@,
                inventory.mouse_item,
                puts as nat,
            ),
            puts <= k,
        decreases pressed@.len() - k,
    {
        let index = pressed[k];
        proof {
            assert(pressed@.take(k + 1).drop_last() =~= pressed@.take(k as int));
        }
        match inventory.get_item(Slot::Index(index)) {
            Some(item) => {
                inventory.set_item(Slot::MouseItem, item);
            },
            None => {
                inventory.remove_item(Slot::MouseItem);
            },
        }
        inventory.set_item(Slot::Index(index), held);
        puts = puts + 1;
        k = k + 1;
    }
    proof {
        assert(pressed@.take(pressed@.len() as int) =~= pressed@);
    }
    puts
}

} // verus!
