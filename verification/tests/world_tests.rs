use terra::chunks::{
    despawn_chunks, get_chunk_position_by_camera_fov, spawn_chunk, spawn_chunks, CameraFov,
    ChunkManager, IRect, MAX_CHUNK_X, MAX_CHUNK_Y,
};
use terra::collision::collision_check;
use terra::inventory::{Inventory, Item, ItemStack};
use terra::world::{
    get_chunk_position, get_chunk_tile_position, get_neighboring_pos, handle_block_place, map_size,
    update_neighbors, BlockPlaceEvent, BlockType, Cell, CellGrid, ChunkPos, Neighbors, Tile, TilemapSize, TilePos,
    TreeType, Wall, WallType, WorldData,
};

fn world(rows: usize, cols: usize) -> WorldData {
    WorldData {
        width: cols as u16,
        height: rows as u16,
        tiles: CellGrid::filled(rows, cols, Cell::empty()),
    }
}

fn put_tile(w: &mut WorldData, x: u32, y: u32, block: BlockType) {
    let cell = w.get_cell_mut(TilePos { x, y }).unwrap();
    cell.tile = Some(Tile { tile_type: block, neighbors: Neighbors::none() });
}

fn inventory_with_dirt(count: u16) -> Inventory {
    let mut inv = Inventory::new();
    inv.slots[0] = Some(ItemStack { item: Item::Block(BlockType::Dirt), stack: count });
    inv
}

#[test]
fn grid_reads_what_was_written() {
    let mut w = world(4, 6);
    assert_eq!(w.tiles.nrows(), 4);
    assert_eq!(w.tiles.ncols(), 6);
    assert!(w.get_tile(TilePos { x: 2, y: 3 }).is_none());
    put_tile(&mut w, 2, 3, BlockType::Stone);
    assert_eq!(w.get_tile(TilePos { x: 2, y: 3 }).unwrap().tile_type, BlockType::Stone);
    assert!(w.tile_exists(TilePos { x: 2, y: 3 }));
    assert!(!w.tile_exists(TilePos { x: 3, y: 2 }));
    assert!(w.get_cell_mut(TilePos { x: 6, y: 0 }).is_none());
    assert!(w.get_tile(TilePos { x: 0, y: 4 }).is_none());
}

#[test]
fn tile_mut_changes_only_that_tile() {
    let mut w = world(3, 3);
    put_tile(&mut w, 1, 1, BlockType::Grass);
    {
        let t = w.get_tile_mut(TilePos { x: 1, y: 1 }).unwrap();
        t.neighbors.top = true;
    }
    assert!(w.get_tile(TilePos { x: 1, y: 1 }).unwrap().neighbors.top);
    assert!(w.get_tile_mut(TilePos { x: 0, y: 0 }).is_none());
}

#[test]
fn neighbours_of_a_tile() {
    let mut w = world(5, 5);
    put_tile(&mut w, 1, 2, BlockType::Dirt);
    put_tile(&mut w, 2, 1, BlockType::Dirt);
    let n = w.get_neighbours(TilePos { x: 2, y: 2 });
    assert_eq!(n, Neighbors { top: true, bottom: false, left: true, right: false });
    let n0 = w.get_neighbours(TilePos { x: 0, y: 0 });
    assert_eq!(n0, Neighbors::none());
}

#[test]
fn neighbour_sides_are_mutual() {
    let mut w = world(5, 5);
    put_tile(&mut w, 2, 2, BlockType::Dirt);
    assert!(w.get_neighbours(TilePos { x: 2, y: 3 }).top);
    assert!(w.get_neighbours(TilePos { x: 2, y: 1 }).bottom);
    assert!(w.get_neighbours(TilePos { x: 3, y: 2 }).left);
    assert!(w.get_neighbours(TilePos { x: 1, y: 2 }).right);
}

#[test]
fn chunk_positions() {
    assert_eq!(get_chunk_position(TilePos { x: 24, y: 25 }), ChunkPos { x: 0, y: 1 });
    assert_eq!(get_chunk_position(TilePos { x: 51, y: 74 }), ChunkPos { x: 2, y: 2 });
    assert_eq!(get_chunk_tile_position(TilePos { x: 51, y: 74 }), TilePos { x: 1, y: 0 });
    assert_eq!(get_chunk_tile_position(TilePos { x: 25, y: 25 }), TilePos { x: 0, y: 24 });
}

#[test]
fn place_block_then_read() {
    let mut w = world(30, 30);
    put_tile(&mut w, 5, 6, BlockType::Stone);
    let mut inv = inventory_with_dirt(3);
    let ev = BlockPlaceEvent { tile_pos: TilePos { x: 5, y: 5 }, block: BlockType::Dirt, inventory_item_index: 0 };
    let out = handle_block_place(&mut w, &mut inv, &ev).unwrap();
    let t = w.get_tile(TilePos { x: 5, y: 5 }).unwrap();
    assert_eq!(t.tile_type, BlockType::Dirt);
    assert_eq!(t.neighbors, Neighbors { top: false, bottom: true, left: false, right: false });
    assert_eq!(out.tile, t);
    assert_eq!(out.tile_pos, TilePos { x: 5, y: 5 });
    assert_eq!(out.chunk_pos, ChunkPos { x: 0, y: 0 });
    assert_eq!(out.chunk_tile_pos, TilePos { x: 5, y: 19 });
    assert_eq!(inv.slots[0].unwrap().stack, 2);
    assert!(w.get_tile(TilePos { x: 4, y: 5 }).is_none());
}

#[test]
fn place_block_on_occupied_cell_is_refused() {
    let mut w = world(10, 10);
    put_tile(&mut w, 3, 3, BlockType::Stone);
    let mut inv = inventory_with_dirt(1);
    let ev = BlockPlaceEvent { tile_pos: TilePos { x: 3, y: 3 }, block: BlockType::Dirt, inventory_item_index: 0 };
    assert!(handle_block_place(&mut w, &mut inv, &ev).is_none());
    assert_eq!(w.get_tile(TilePos { x: 3, y: 3 }).unwrap().tile_type, BlockType::Stone);
    assert_eq!(inv.slots[0].unwrap().stack, 1);
}

#[test]
fn last_block_empties_slot() {
    let mut w = world(10, 10);
    let mut inv = inventory_with_dirt(1);
    let ev = BlockPlaceEvent { tile_pos: TilePos { x: 1, y: 1 }, block: BlockType::Dirt, inventory_item_index: 0 };
    assert!(handle_block_place(&mut w, &mut inv, &ev).is_some());
    assert!(inv.slots[0].is_none());
}

#[test]
fn update_neighbors_marks_sides() {
    let mut w = world(10, 10);
    put_tile(&mut w, 4, 5, BlockType::Dirt);
    put_tile(&mut w, 5, 4, BlockType::Dirt);
    let mut inv = inventory_with_dirt(5);
    let ev = BlockPlaceEvent { tile_pos: TilePos { x: 4, y: 4 }, block: BlockType::Stone, inventory_item_index: 0 };
    handle_block_place(&mut w, &mut inv, &ev).unwrap();
    let ups = update_neighbors(&mut w, TilePos { x: 4, y: 4 });
    assert_eq!(ups.len(), 4);
    assert_eq!(ups[0].tile_pos, TilePos { x: 4, y: 5 });
    assert_eq!(ups[1].tile_pos, TilePos { x: 4, y: 3 });
    assert_eq!(ups[2].tile_pos, TilePos { x: 5, y: 4 });
    assert_eq!(ups[3].tile_pos, TilePos { x: 3, y: 4 });
    assert!(w.get_tile(TilePos { x: 4, y: 5 }).unwrap().neighbors.top);
    assert!(w.get_tile(TilePos { x: 5, y: 4 }).unwrap().neighbors.left);
    assert!(ups[0].neighbors.top);
    assert_eq!(ups[2].chunk_tile_pos, TilePos { x: 5, y: 20 });
}

#[test]
fn neighbours_at_the_corner() {
    let ps = get_neighboring_pos(TilePos { x: 0, y: 0 }, &map_size());
    assert_eq!(ps, vec![TilePos { x: 0, y: 1 }, TilePos { x: 1, y: 0 }]);
}

#[test]
fn neighbours_in_a_small_map() {
    let size = TilemapSize { x: 3, y: 3 };
    let corner = get_neighboring_pos(TilePos { x: 2, y: 2 }, &size);
    assert_eq!(corner, vec![TilePos { x: 2, y: 1 }, TilePos { x: 1, y: 2 }]);
    let centre = get_neighboring_pos(TilePos { x: 1, y: 1 }, &size);
    assert_eq!(
        centre,
        vec![TilePos { x: 1, y: 2 }, TilePos { x: 1, y: 0 }, TilePos { x: 2, y: 1 }, TilePos { x: 0, y: 1 }]
    );
}

#[test]
fn camera_chunks() {
    let r = get_chunk_position_by_camera_fov(CameraFov { left: -100, right: 801, top_depth: 399, bottom_depth: 1200 });
    assert_eq!(r, IRect { left: 0, right: 3, top: 2, bottom: 1 });
    let r2 = get_chunk_position_by_camera_fov(CameraFov { left: 450, right: 1_000_000, top_depth: 1_000_000, bottom_depth: 0 });
    assert_eq!(r2, IRect { left: 1, right: MAX_CHUNK_X, top: 0, bottom: MAX_CHUNK_Y });
    let r3 = get_chunk_position_by_camera_fov(CameraFov { left: -401, right: -1, top_depth: 0, bottom_depth: 400 });
    assert_eq!(r3, IRect { left: 0, right: 0, top: 0, bottom: 0 });
}

#[test]
fn spawn_and_despawn_chunks() {
    let mut m = ChunkManager::new();
    let rect = IRect { left: 0, right: 1, top: 0, bottom: 1 };
    let first = spawn_chunks(&mut m, rect);
    assert_eq!(first, vec![ChunkPos { x: 0, y: 0 }, ChunkPos { x: 1, y: 0 }, ChunkPos { x: 0, y: 1 }, ChunkPos { x: 1, y: 1 }]);
    let again = spawn_chunks(&mut m, rect);
    assert!(again.is_empty());
    let moved = IRect { left: 1, right: 2, top: 0, bottom: 1 };
    let more = spawn_chunks(&mut m, moved);
    assert_eq!(more, vec![ChunkPos { x: 2, y: 0 }, ChunkPos { x: 2, y: 1 }]);
    let drawn = m.spawned_chunks.clone();
    let gone = despawn_chunks(&mut m, moved, &drawn);
    let gone_pos: Vec<ChunkPos> = gone.iter().map(|&i| drawn[i]).collect();
    assert_eq!(gone_pos, vec![ChunkPos { x: 0, y: 0 }, ChunkPos { x: 0, y: 1 }]);
    assert!(!m.contains(ChunkPos { x: 0, y: 0 }));
    assert!(m.contains(ChunkPos { x: 1, y: 1 }));
    assert!(m.contains(ChunkPos { x: 2, y: 0 }));
    assert_eq!(m.spawned_chunks.len(), 4);
}

#[test]
fn chunk_layout_shows_placed_tile() {
    let mut w = world(60, 60);
    put_tile(&mut w, 27, 30, BlockType::Tree(TreeType::Forest));
    {
        let cell = w.get_cell_mut(TilePos { x: 26, y: 25 }).unwrap();
        cell.wall = Some(Wall { wall_type: WallType::Stone, neighbors: Neighbors::none() });
    }
    let pos = TilePos { x: 27, y: 30 };
    let layout = spawn_chunk(&w, get_chunk_position(pos));
    assert_eq!(layout.tiles.len(), 1);
    assert_eq!(layout.tiles[0].tile_pos, get_chunk_tile_position(pos));
    assert_eq!(layout.tiles[0].tile.tile_type, BlockType::Tree(TreeType::Forest));
    assert_eq!(layout.walls.len(), 1);
    assert_eq!(layout.walls[0].wall_pos, TilePos { x: 1, y: 24 });
    let other = spawn_chunk(&w, ChunkPos { x: 0, y: 0 });
    assert!(other.tiles.is_empty());
    let negative = spawn_chunk(&w, ChunkPos { x: -3, y: 1 });
    assert!(negative.tiles.is_empty());
    assert_eq!(negative.walls.len(), 0);
}

#[test]
fn collisions_around_the_player() {
    let mut w = world(20, 20);
    put_tile(&mut w, 6, 10, BlockType::Dirt);
    put_tile(&mut w, 4, 7, BlockType::Dirt);
    let c = collision_check(&w, 4, 6, 5, 10);
    assert!(c.down);
    assert!(!c.up);
    assert!(c.left);
    assert!(!c.right);
    let none = collision_check(&w, 10, 12, 0, 3);
    assert!(!none.down && !none.up && !none.left && !none.right);
}
