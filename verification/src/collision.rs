use crate::world::{grid_get, WorldData};
use vstd::prelude::*;

verus! {

/// Which sides of the player touch a tile.
#[derive(Clone, Copy, PartialEq, Eq, Debug, Structural)]
pub struct Collisions {
    pub up: bool,
    pub down: bool,
    pub left: bool,
    pub right: bool,
}

/// Whether the grid holds a tile at (row, column).
pub open spec fn solid(world: WorldData, row: int, col: int) -> bool {
    match grid_get(world.tiles, row, col) {
        Some(c) => c.tile is Some,
        None => false,
    }
}

/// Whether row `row` holds a tile in a column from `first` to `last`.
pub open spec fn row_hit(world: WorldData, row: int, first: int, last: int) -> bool {
    exists|c: int| first <= c <= last && #[trigger] solid(world, row, c)
}

/// Whether column `col` holds a tile in a row from `first` up to, not
/// including, `end`.
pub open spec fn col_hit(world: WorldData, col: int, first: int, end: int) -> bool {
    exists|r: int| first <= r < end && #[trigger] solid(world, r, col)
}

/// Whether row `row` holds a tile in a column from `first` to `last`.
fn scan_row(world: &WorldData, row: usize, first: usize, last: usize) -> (r: bool)
    requires
        last < usize::MAX,
    ensures
        r == row_hit(*world, row as int, first as int, last as int),
{
    let mut c: usize = first;
    while c < last + 1
        invariant
            first <= c || c == first,
            last < usize::MAX,
            forall|k: int| first <= k < c ==> !solid(*world, row as int, k),
        decreases last + 1 - c,
    {
        match world.tiles.get(row, c) {
            Some(cell) => {
                if cell.tile.is_some() {
                    assert(solid(*world, row as int, c as int));
                    return true;
                }
            },
            None => {},
        }
        c = c + 1;
    }
    assert forall|k: int| first <= k <= last implies !#[trigger] solid(*world, row as int, k) by {
        assert(k < c);
    }
    false
}

/// Whether column `col` holds a tile in a row from `first` up to `end`.
fn scan_col(world: &WorldData, col: usize, first: usize, end: usize) -> (r: bool)
    ensures
        r == col_hit(*world, col as int, first as int, end as int),
{
    let mut k: usize = first;
    while k < end
        invariant
            first <= k || k == first,
            forall|j: int| first <= j < k ==> !solid(*world, j, col as int),
        decreases end - k,
    {
        match world.tiles.get(k, col) {
            Some(cell) => {
                if cell.tile.is_some() {
                    assert(solid(*world, k as int, col as int));
                    return true;
                }
            },
            None => {},
        }
        k = k + 1;
    }
    assert forall|j: int| first <= j < end implies !#[trigger] solid(*world, j, col as int) by {
        if k > first {
            assert(j < k);
        }
    }
    false
}

/// The sides of the player that touch tiles, the player spanning columns
/// `left` to `right` and rows `top` to `bottom` of the grid: the ground is the
/// row `bottom` from `left` to `right`, the ceiling the row `top`, the left
/// and right sides the columns `left` and `right` from row `top` up to, not
/// including, row `bottom`.
pub fn collision_check(world_data: &WorldData, left: usize, right: usize, top: usize, bottom: usize) -> (r:
    Collisions)
    requires
        right < usize::MAX,
    ensures
        r.down == row_hit(*world_data, bottom as int, left as int, right as int),
        r.up == row_hit(*world_data, top as int, left as int, right as int),
        r.left == col_hit(*world_data, left as int, top as int, bottom as int),
        r.right == col_hit(*world_data, right as int, top as int, bottom as int),
{
    let col_down = scan_row(world_data, bottom, left, right);
    let col_top = scan_row(world_data, top, left, right);
    let col_left = scan_col(world_data, left, top, bottom);
    let col_right = scan_col(world_data, right, top, bottom);
    Collisions { up: col_top, down: col_down, left: col_left, right: col_right }
}

/// What `collision_check` reports, read straight off the grid: a tile in
/// the side column `left` (or `right`) at any row from `top` up to, not
/// including, `bottom` makes that side collide, and a side collides only for
/// such a tile; a tile in row `bottom` (or `top`) at any column from `left`
/// to `right` makes the ground (or the ceiling) collide, and only such a tile
/// does.
pub proof fn law_collision_sides(
    world: WorldData,
    left: usize,
    right: usize,
    top: usize,
    bottom: usize,
    r: Collisions,
    row: int,
    col: int,
)
    requires
        r.down == row_hit(world, bottom as int, left as int, right as int),
        r.up == row_hit(world, top as int, left as int, right as int),
        r.left == col_hit(world, left as int, top as int, bottom as int),
        r.right == col_hit(world, right as int, top as int, bottom as int),
    ensures
        top <= row < bottom && (
            grid_get(world.tiles, row, left as int) is Some && grid_get(world.tiles, row, left as int).unwrap().tile is Some)
            ==> r.left,
        top <= row < bottom && (
            grid_get(world.tiles, row, right as int) is Some && grid_get(world.tiles, row, right as int).unwrap().tile is Some)
            ==> r.right,
        left <= col <= right && (
            grid_get(world.tiles, bottom as int, col) is Some && grid_get(world.tiles, bottom as int, col).unwrap().tile is Some)
            ==> r.down,
        left <= col <= right && (
            grid_get(world.tiles, top as int, col) is Some && grid_get(world.tiles, top as int, col).unwrap().tile is Some)
            ==> r.up,
        r.left ==> exists|k: int|
            top <= k < bottom && (
            grid_get(world.tiles, k, left as int) is Some && grid_get(world.tiles, k, left as int).unwrap().tile is Some),
        r.right ==> exists|k: int|
            top <= k < bottom && (
            grid_get(world.tiles, k, right as int) is Some && grid_get(world.tiles, k, right as int).unwrap().tile is Some),
        r.down ==> exists|k: int|
            left <= k <= right && (
            grid_get(world.tiles, bottom as int, k) is Some && grid_get(world.tiles, bottom as int, k).unwrap().tile is Some),
        r.up ==> exists|k: int|
            left <= k <= right && (
            grid_get(world.tiles, top as int, k) is Some && grid_get(world.tiles, top as int, k).unwrap().tile is Some),
{
    assert(top <= row < bottom && solid(world, row, left as int) ==> col_hit(world, left as int, top as int, bottom as int));
    assert(top <= row < bottom && solid(world, row, right as int) ==> col_hit(world, right as int, top as int, bottom as int));
    assert(left <= col <= right && solid(world, bottom as int, col) ==> row_hit(world, bottom as int, left as int, right as int));
    assert(left <= col <= right && solid(world, top as int, col) ==> row_hit(world, top as int, left as int, right as int));
}

} // verus!
