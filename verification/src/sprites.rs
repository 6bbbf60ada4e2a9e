use crate::random::random_in;
use crate::world::Neighbors;
use vstd::prelude::*;

verus! {

/// Index, in a block's sprite sheet, of the sprite that shows a tile with
/// sides `n`; `variant` (1 or 2) picks one of two looks.
pub open spec fn tile_sprite_spec(n: Neighbors, variant: u32) -> u32 {
    let v = variant;
    match (n.top, n.bottom, n.left, n.right) {
        (true, true, true, true) => (v + 16) as u32,
        (false, false, false, false) => (16 * 3 + v + 8) as u32,
        (true, false, false, false) => (16 * 3 + v + 5) as u32,
        (false, true, false, false) => (v + 6) as u32,
        (false, false, true, false) => ((v - 1) * 16 + 12) as u32,
        (false, false, false, true) => ((v - 1) * 16 + 9) as u32,
        (true, true, false, false) => ((v - 1) * 16 + 5) as u32,
        (true, false, true, true) => (16 * 2 + v + 1) as u32,
        (false, true, true, true) => v,
        (false, false, true, true) => (4 * 16 + 5 + v) as u32,
        (false, true, true, false) => (16 * 3 + 1 + (v - 1) * 2) as u32,
        (false, true, false, true) => (16 * 3 + (v - 1) * 2) as u32,
        (true, false, true, false) => (16 * 4 + 1 + (v - 1) * 2) as u32,
        (true, false, false, true) => (16 * 4 + (v - 1) * 2) as u32,
        (true, true, true, false) => ((v - 1) * 16 + 4) as u32,
        (true, true, false, true) => ((v - 1) * 16) as u32,
    }
}

/// Whether the wall sheet has a sprite for sides `n`: every combination but
/// a left side alone or a right side alone.
pub open spec fn wall_sprite_exists(n: Neighbors) -> bool {
    !(n == Neighbors { top: false, bottom: false, left: true, right: false }) && !(n == Neighbors {
        top: false,
        bottom: false,
        left: false,
        right: true,
    })
}

/// Index, in a wall's sprite sheet, of the sprite that shows a wall with
/// sides `n`; `variant` (1 or 2) picks one of two looks.
pub open spec fn wall_sprite_spec(n: Neighbors, variant: u32) -> u32 {
    let v = variant;
    match (n.top, n.bottom, n.left, n.right) {
        (true, true, true, true) => (13 + v) as u32,
        (false, false, false, false) => (13 * 3 + 8 + v) as u32,
        (true, false, false, false) => (13 * 2 + v) as u32,
        (false, true, false, false) => (6 + v) as u32,
        (true, true, false, false) => ((v - 1) * 13 + 5) as u32,
        (false, true, false, true) => (13 * 3 + (v - 1) * 2) as u32,
        (false, true, true, false) => (13 * 3 + 1 + (v - 1) * 2) as u32,
        (true, false, false, true) => (13 * 4 + (v - 1) * 2) as u32,
        (true, false, true, false) => (13 * 4 + 1 + (v - 1) * 2) as u32,
        (false, false, true, true) => (13 * 4 + 5 + v) as u32,
        (false, true, true, true) => (1 + v) as u32,
        (true, true, false, true) => (13 * (v - 1)) as u32,
        (true, true, true, false) => (13 * (v - 1) + 4) as u32,
        (true, false, true, true) => (13 * 2 + v) as u32,
        _ => 0,
    }
}

/// The tile sprite for sides `slope` in look `variant`.
pub fn tile_sprite_index(slope: Neighbors, variant: u32) -> (r: u32)
    requires
        1 <= variant <= 2,
    ensures
        r == tile_sprite_spec(slope, variant),
{
    let rand = variant;
    match (slope.top, slope.bottom, slope.left, slope.right) {
        (true, true, true, true) => rand + 16,
        (false, false, false, false) => 16 * 3 + rand + 8,
        (true, false, false, false) => 16 * 3 + rand + 5,
        (false, true, false, false) => rand + 6,
        (false, false, true, false) => (rand - 1) * 16 + 12,
        (false, false, false, true) => (rand - 1) * 16 + 9,
        (true, true, false, false) => (rand - 1) * 16 + 5,
        (true, false, true, true) => 16 * 2 + rand + 1,
        (false, true, true, true) => rand,
        (false, false, true, true) => 4 * 16 + 5 + rand,
        (false, true, true, false) => 16 * 3 + 1 + (rand - 1) * 2,
        (false, true, false, true) => 16 * 3 + (rand - 1) * 2,
        (true, false, true, false) => 16 * 4 + 1 + (rand - 1) * 2,
        (true, false, false, true) => 16 * 4 + (rand - 1) * 2,
        (true, true, true, false) => (rand - 1) * 16 + 4,
        (true, true, false, true) => (rand - 1) * 16,
    }
}

/// The wall sprite for sides `slope` in look `variant`.
pub fn wall_sprite_index(slope: Neighbors, variant: u32) -> (r: u32)
    requires
        1 <= variant <= 2,
        wall_sprite_exists(slope),
    ensures
        r == wall_sprite_spec(slope, variant),
{
    let rand = variant;
    match (slope.top, slope.bottom, slope.left, slope.right) {
        (true, true, true, true) => 13 + rand,
        (false, false, false, false) => 13 * 3 + 8 + rand,
        (true, false, false, false) => 13 * 2 + rand,
        (false, true, false, false) => 6 + rand,
        (true, true, false, false) => (rand - 1) * 13 + 5,
        (false, true, false, true) => 13 * 3 + (rand - 1) * 2,
        (false, true, true, false) => 13 * 3 + 1 + (rand - 1) * 2,
        (true, false, false, true) => 13 * 4 + (rand - 1) * 2,
        (true, false, true, false) => 13 * 4 + 1 + (rand - 1) * 2,
        (false, false, true, true) => 13 * 4 + 5 + rand,
        (false, true, true, true) => 1 + rand,
        (true, true, false, true) => 13 * (rand - 1),
        (true, true, true, false) => 13 * (rand - 1) + 4,
        (true, false, true, true) => 13 * 2 + rand,
        (false, false, true, false) | (false, false, false, true) => 0,
    }
}

/// The tile sprite for sides `slope`, in one of two looks drawn at random.
pub fn get_tile_sprite_index(slope: Neighbors) -> (r: u32)
    ensures
        r == tile_sprite_spec(slope, 1) || r == tile_sprite_spec(slope, 2),
{
    let rand = random_in(1, 3);
    tile_sprite_index(slope, rand)
}

/// The wall sprite for sides `slope`, in one of two looks drawn at random.
pub fn get_wall_sprite_index(slope: Neighbors) -> (r: u32)
    requires
        wall_sprite_exists(slope),
    ensures
        r == wall_sprite_spec(slope, 1) || r == wall_sprite_spec(slope, 2),
{
    let rand = random_in(1, 3);
    wall_sprite_index(slope, rand)
}

/// The tile sheet, sprite by sprite: for each of the sixteen ways the sides
/// can touch neighbours, the sprite of the first and of the second look.
/// Mirrored corners differ by one (bottom-left is 49 or 51, bottom-right 48
/// or 50; top-left 65 or 67, top-right 64 or 66).
pub proof fn law_tile_sprite_sheet()
    ensures
        tile_sprite_spec(Neighbors { top: true, bottom: true, left: true, right: true }, 1) == 17,
        tile_sprite_spec(Neighbors { top: true, bottom: true, left: true, right: true }, 2) == 18,
        tile_sprite_spec(Neighbors { top: false, bottom: false, left: false, right: false }, 1) == 57,
        tile_sprite_spec(Neighbors { top: false, bottom: false, left: false, right: false }, 2) == 58,
        tile_sprite_spec(Neighbors { top: true, bottom: false, left: false, right: false }, 1) == 54,
        tile_sprite_spec(Neighbors { top: true, bottom: false, left: false, right: false }, 2) == 55,
        tile_sprite_spec(Neighbors { top: false, bottom: true, left: false, right: false }, 1) == 7,
        tile_sprite_spec(Neighbors { top: false, bottom: true, left: false, right: false }, 2) == 8,
        tile_sprite_spec(Neighbors { top: false, bottom: false, left: true, right: false }, 1) == 12,
        tile_sprite_spec(Neighbors { top: false, bottom: false, left: true, right: false }, 2) == 28,
        tile_sprite_spec(Neighbors { top: false, bottom: false, left: false, right: true }, 1) == 9,
        tile_sprite_spec(Neighbors { top: false, bottom: false, left: false, right: true }, 2) == 25,
        tile_sprite_spec(Neighbors { top: true, bottom: true, left: false, right: false }, 1) == 5,
        tile_sprite_spec(Neighbors { top: true, bottom: true, left: false, right: false }, 2) == 21,
        tile_sprite_spec(Neighbors { top: true, bottom: false, left: true, right: true }, 1) == 34,
        tile_sprite_spec(Neighbors { top: true, bottom: false, left: true, right: true }, 2) == 35,
        tile_sprite_spec(Neighbors { top: false, bottom: true, left: true, right: true }, 1) == 1,
        tile_sprite_spec(Neighbors { top: false, bottom: true, left: true, right: true }, 2) == 2,
        tile_sprite_spec(Neighbors { top: false, bottom: false, left: true, right: true }, 1) == 70,
        tile_sprite_spec(Neighbors { top: false, bottom: false, left: true, right: true }, 2) == 71,
        tile_sprite_spec(Neighbors { top: false, bottom: true, left: true, right: false }, 1) == 49,
        tile_sprite_spec(Neighbors { top: false, bottom: true, left: true, right: false }, 2) == 51,
        tile_sprite_spec(Neighbors { top: false, bottom: true, left: false, right: true }, 1) == 48,
        tile_sprite_spec(Neighbors { top: false, bottom: true, left: false, right: true }, 2) == 50,
        tile_sprite_spec(Neighbors { top: true, bottom: false, left: true, right: false }, 1) == 65,
        tile_sprite_spec(Neighbors { top: true, bottom: false, left: true, right: false }, 2) == 67,
        tile_sprite_spec(Neighbors { top: true, bottom: false, left: false, right: true }, 1) == 64,
        tile_sprite_spec(Neighbors { top: true, bottom: false, left: false, right: true }, 2) == 66,
        tile_sprite_spec(Neighbors { top: true, bottom: true, left: true, right: false }, 1) == 4,
        tile_sprite_spec(Neighbors { top: true, bottom: true, left: true, right: false }, 2) == 20,
        tile_sprite_spec(Neighbors { top: true, bottom: true, left: false, right: true }, 1) == 0,
        tile_sprite_spec(Neighbors { top: true, bottom: true, left: false, right: true }, 2) == 16,
{
}

/// No two ways the sides can touch, nor the two looks of one of them, share a
/// tile sprite.
pub proof fn law_tile_sprites_distinct(a: Neighbors, va: u32, b: Neighbors, vb: u32)
    requires
        1 <= va <= 2,
        1 <= vb <= 2,
        a != b || va != vb,
    ensures
        tile_sprite_spec(a, va) != tile_sprite_spec(b, vb),
{
}

/// The wall sheet, sprite by sprite: for each of the fourteen ways the sides
/// can touch that have a wall sprite, the sprite of the first and of the
/// second look.
pub proof fn law_wall_sprite_sheet()
    ensures
        wall_sprite_spec(Neighbors { top: true, bottom: true, left: true, right: true }, 1) == 14,
        wall_sprite_spec(Neighbors { top: true, bottom: true, left: true, right: true }, 2) == 15,
        wall_sprite_spec(Neighbors { top: false, bottom: false, left: false, right: false }, 1) == 48,
        wall_sprite_spec(Neighbors { top: false, bottom: false, left: false, right: false }, 2) == 49,
        wall_sprite_spec(Neighbors { top: true, bottom: false, left: false, right: false }, 1) == 27,
        wall_sprite_spec(Neighbors { top: true, bottom: false, left: false, right: false }, 2) == 28,
        wall_sprite_spec(Neighbors { top: false, bottom: true, left: false, right: false }, 1) == 7,
        wall_sprite_spec(Neighbors { top: false, bottom: true, left: false, right: false }, 2) == 8,
        wall_sprite_spec(Neighbors { top: true, bottom: true, left: false, right: false }, 1) == 5,
        wall_sprite_spec(Neighbors { top: true, bottom: true, left: false, right: false }, 2) == 18,
        wall_sprite_spec(Neighbors { top: false, bottom: true, left: false, right: true }, 1) == 39,
        wall_sprite_spec(Neighbors { top: false, bottom: true, left: false, right: true }, 2) == 41,
        wall_sprite_spec(Neighbors { top: false, bottom: true, left: true, right: false }, 1) == 40,
        wall_sprite_spec(Neighbors { top: false, bottom: true, left: true, right: false }, 2) == 42,
        wall_sprite_spec(Neighbors { top: true, bottom: false, left: false, right: true }, 1) == 52,
        wall_sprite_spec(Neighbors { top: true, bottom: false, left: false, right: true }, 2) == 54,
        wall_sprite_spec(Neighbors { top: true, bottom: false, left: true, right: false }, 1) == 53,
        wall_sprite_spec(Neighbors { top: true, bottom: false, left: true, right: false }, 2) == 55,
        wall_sprite_spec(Neighbors { top: false, bottom: false, left: true, right: true }, 1) == 58,
        wall_sprite_spec(Neighbors { top: false, bottom: false, left: true, right: true }, 2) == 59,
        wall_sprite_spec(Neighbors { top: false, bottom: true, left: true, right: true }, 1) == 2,
        wall_sprite_spec(Neighbors { top: false, bottom: true, left: true, right: true }, 2) == 3,
        wall_sprite_spec(Neighbors { top: true, bottom: true, left: false, right: true }, 1) == 0,
        wall_sprite_spec(Neighbors { top: true, bottom: true, left: false, right: true }, 2) == 13,
        wall_sprite_spec(Neighbors { top: true, bottom: true, left: true, right: false }, 1) == 4,
        wall_sprite_spec(Neighbors { top: true, bottom: true, left: true, right: false }, 2) == 17,
        wall_sprite_spec(Neighbors { top: true, bottom: false, left: true, right: true }, 1) == 27,
        wall_sprite_spec(Neighbors { top: true, bottom: false, left: true, right: true }, 2) == 28,
{
}

} // verus!
