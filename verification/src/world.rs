use vstd::prelude::*;

verus! {

/// The world's plugin: terrain, chunks and block placement.
pub struct WorldPlugin;

/// Width of the world, in tiles. The world generator that fixes the size is
/// not part of this library; this value is assumed.
pub const WORLD_SIZE_X: u32 = 1750;

/// Height of the world, in tiles (assumed, like the width).
pub const WORLD_SIZE_Y: u32 = 900;

/// Side of a square chunk, in tiles.
pub const CHUNK_SIZE: u32 = 25;

/// Kinds of tree that a tree block can belong to.
#[derive(Clone, Copy, PartialEq, Eq, Debug, Structural)]
pub enum TreeType {
    Forest,
}

/// Kinds of solid block.
#[derive(Clone, Copy, PartialEq, Eq, Debug, Structural)]
pub enum BlockType {
    Dirt,
    Stone,
    Grass,
    Tree(TreeType),
}

/// Kinds of background wall.
#[derive(Clone, Copy, PartialEq, Eq, Debug, Structural)]
pub enum WallType {
    Dirt,
    Stone,
}

/// Which of the four sides of a tile touch another tile.
#[derive(Clone, Copy, PartialEq, Eq, Debug, Structural)]
pub struct Neighbors {
    pub top: bool,
    pub bottom: bool,
    pub left: bool,
    pub right: bool,
}

impl Neighbors {
    /// No side touches a tile.
    pub fn none() -> (r: Self)
        ensures
            !r.top && !r.bottom && !r.left && !r.right,
    {
        Neighbors { top: false, bottom: false, left: false, right: false }
    }

    /// Side by side union of two neighbour sets.
    pub fn or(self, other: Self) -> (r: Self)
        ensures
            r == spec_or(self, other),
    {
        Neighbors {
            top: self.top || other.top,
            bottom: self.bottom || other.bottom,
            left: self.left || other.left,
            right: self.right || other.right,
        }
    }
}

/// Side by side union of two neighbour sets.
pub open spec fn spec_or(a: Neighbors, b: Neighbors) -> Neighbors {
    Neighbors {
        top: a.top || b.top,
        bottom: a.bottom || b.bottom,
        left: a.left || b.left,
        right: a.right || b.right,
    }
}

/// A solid block standing in a cell.
#[derive(Clone, Copy, PartialEq, Eq, Debug, Structural)]
pub struct Tile {
    pub tile_type: BlockType,
    pub neighbors: Neighbors,
}

/// A background wall standing in a cell.
#[derive(Clone, Copy, PartialEq, Eq, Debug, Structural)]
pub struct Wall {
    pub wall_type: WallType,
    pub neighbors: Neighbors,
}

/// One cell of the world: an optional tile in front of an optional wall.
#[derive(Clone, Copy, Debug)]
pub struct Cell {
    pub tile: Option<Tile>,
    pub wall: Option<Wall>,
}

impl Cell {
    /// A cell with neither tile nor wall.
    pub fn empty() -> (r: Self)
        ensures
            r.tile is None,
            r.wall is None,
    {
        Cell { tile: None, wall: None }
    }
}

/// Position of a tile in the world: `x` grows to the right, `y` grows downwards.
#[derive(Clone, Copy, PartialEq, Eq, Debug, Structural)]
pub struct TilePos {
    pub x: u32,
    pub y: u32,
}

/// Position of a chunk, in chunks.
#[derive(Clone, Copy, PartialEq, Eq, Debug, Structural)]
pub struct ChunkPos {
    pub x: i32,
    pub y: i32,
}

/// Size of a tile map, in tiles.
#[derive(Clone, Copy, PartialEq, Eq, Debug, Structural)]
pub struct TilemapSize {
    pub x: u32,
    pub y: u32,
}

/// Size of the whole world map.
pub fn map_size() -> (r: TilemapSize)
    ensures
        r.x == WORLD_SIZE_X,
        r.y == WORLD_SIZE_Y,
{
    TilemapSize { x: WORLD_SIZE_X, y: WORLD_SIZE_Y }
}

impl TilePos {
    /// The position one tile to the left, if there is one.
    pub fn square_west(&self) -> (r: Option<TilePos>)
        ensures
            r == (if self.x > 0 {
                Some(TilePos { x: (self.x - 1) as u32, y: self.y })
            } else {
                None
            }),
    {
        if self.x > 0 {
            Some(TilePos { x: self.x - 1, y: self.y })
        } else {
            None
        }
    }

    /// The position one tile to the right, if it lies inside the map.
    pub fn square_east(&self, map_size: &TilemapSize) -> (r: Option<TilePos>)
        ensures
            r == (if self.x + 1 < map_size.x {
                Some(TilePos { x: (self.x + 1) as u32, y: self.y })
            } else {
                None
            }),
    {
        if self.x < map_size.x && self.x + 1 < map_size.x {
            Some(TilePos { x: self.x + 1, y: self.y })
        } else {
            None
        }
    }

    /// The position one tile up (towards smaller `y`), if there is one.
    pub fn square_south(&self) -> (r: Option<TilePos>)
        ensures
            r == (if self.y > 0 {
                Some(TilePos { x: self.x, y: (self.y - 1) as u32 })
            } else {
                None
            }),
    {
        if self.y > 0 {
            Some(TilePos { x: self.x, y: self.y - 1 })
        } else {
            None
        }
    }

    /// The position one tile down (towards greater `y`), if it lies inside
    /// the map.
    pub fn square_north(&self, map_size: &TilemapSize) -> (r: Option<TilePos>)
        ensures
            r == (if self.y + 1 < map_size.y {
                Some(TilePos { x: self.x, y: (self.y + 1) as u32 })
            } else {
                None
            }),
    {
        if self.y < map_size.y && self.y + 1 < map_size.y {
            Some(TilePos { x: self.x, y: self.y + 1 })
        } else {
            None
        }
    }
}

/// Marks the entity of a chunk at `pos`.
#[derive(Clone, Copy, PartialEq, Eq, Debug, Structural)]
pub struct Chunk {
    pub pos: ChunkPos,
}

/// Marks the tile map of the chunk at `pos`.
#[derive(Clone, Copy, PartialEq, Eq, Debug, Structural)]
pub struct TileChunk {
    pub pos: ChunkPos,
}

/// Marks the wall map of the chunk at `pos`.
#[derive(Clone, Copy, PartialEq, Eq, Debug, Structural)]
pub struct WallChunk {
    pub pos: ChunkPos,
}

/// The cells of the world, row by row.
#[verifier::external_body]
pub struct CellGrid {
    cells: ndarray::Array2<Cell>,
}

/// What the grid holds: the cell at (row, column).
pub uninterp spec fn grid_cells(g: CellGrid) -> Map<(int, int), Cell>;

/// The number of rows and of columns that the grid was made with.
pub uninterp spec fn grid_shape(g: CellGrid) -> (nat, nat);

/// Whether (row, column) lies inside the grid.
pub open spec fn in_grid(g: CellGrid, row: int, col: int) -> bool {
    0 <= row < grid_shape(g).0 && 0 <= col < grid_shape(g).1
}

/// The cell at (row, column), if it lies inside the grid.
pub open spec fn grid_get(g: CellGrid, row: int, col: int) -> Option<Cell> {
    if in_grid(g, row, col) {
        Some(grid_cells(g)[(row, col)])
    } else {
        None
    }
}

impl CellGrid {
    /// A grid of `rows` by `cols` cells, each equal to `cell`.
    ///
    /// Calls `ndarray::Array2::from_elem`, which panics when the product of
    /// the non-zero sides passes `isize::MAX`, and whose `vec!` panics when
    /// the cells' bytes pass `isize::MAX`. A `Cell` is made of a few one-byte
    /// fields, well under 64 bytes, so the bounds below rule out both panics
    /// on 32-bit and 64-bit machines alike. Running out of memory aborts the
    /// process and is left unsaid. The contract claims the shape and that
    /// every cell inside it equals `cell`.
    #[verifier::external_body]
    pub fn filled(rows: usize, cols: usize, cell: Cell) -> (g: Self)
        requires
            rows <= isize::MAX,
            cols <= isize::MAX,
            rows * cols * 64 <= isize::MAX,
        ensures
            grid_shape(g) == (rows as nat, cols as nat),
            forall|r: int, c: int| in_grid(g, r, c) ==> #[trigger] grid_cells(g)[(r, c)] == cell,
    {
        CellGrid { cells: ndarray::Array2::from_elem((rows, cols), cell) }
    }

    /// Number of rows (`ndarray::ArrayBase::nrows`).
    #[verifier::external_body]
    pub fn nrows(&self) -> (r: usize)
        ensures
            r == grid_shape(*self).0,
    {
        self.cells.nrows()
    }

    /// Number of columns (`ndarray::ArrayBase::ncols`).
    #[verifier::external_body]
    pub fn ncols(&self) -> (r: usize)
        ensures
            r == grid_shape(*self).1,
    {
        self.cells.ncols()
    }

    /// The cell at (row, column), or `None` outside the grid
    /// (`ndarray::ArrayBase::get`, the cell copied out).
    #[verifier::external_body]
    pub fn get(&self, row: usize, col: usize) -> (r: Option<Cell>)
        ensures
            r == grid_get(*self, row as int, col as int),
    {
        self.cells.get((row, col)).copied()
    }

    /// A mutable borrow of the cell at (row, column), or `None` outside the
    /// grid (`ndarray::ArrayBase::get_mut`); what is written through the
    /// borrow is what the grid then holds there.
    #[verifier::external_body]
    pub fn get_mut(&mut self, row: usize, col: usize) -> (r: Option<&mut Cell>)
        ensures
            r is Some <==> in_grid(*old(self), row as int, col as int),
            grid_shape(*final(self)) == grid_shape(*old(self)),
            r matches Some(c) ==> *c == grid_cells(*old(self))[(row as int, col as int)]
                && grid_cells(*final(self)) == grid_cells(*old(self)).insert(
                (row as int, col as int),
                *final(c),
            ),
            r is None ==> *final(self) == *old(self),
    {
        self.cells.get_mut((row, col))
    }
}

/// The world: its size and its cells, row `y`, column `x`.
pub struct WorldData {
    pub width: u16,
    pub height: u16,
    pub tiles: CellGrid,
}

/// The cell at a tile position, if the grid holds one there.
pub open spec fn cell_at(world: WorldData, pos: TilePos) -> Option<Cell> {
    grid_get(world.tiles, pos.y as int, pos.x as int)
}

/// The tile at a tile position, if the grid holds one there and it has a tile.
pub open spec fn tile_at(world: WorldData, pos: TilePos) -> Option<Tile> {
    match cell_at(world, pos) {
        Some(cell) => cell.tile,
        None => None,
    }
}

/// Whether a tile position lies inside the world's grid.
pub open spec fn in_world(world: WorldData, pos: TilePos) -> bool {
    in_grid(world.tiles, pos.y as int, pos.x as int)
}

/// Whether the optional position holds a tile.
pub open spec fn tile_at_opt(world: WorldData, pos: Option<TilePos>) -> bool {
    match pos {
        Some(p) => tile_at(world, p) is Some,
        None => false,
    }
}

/// Which sides of `pos` touch a tile of the world; a side past the map's edge
/// touches nothing.
pub open spec fn neighbours_of(world: WorldData, pos: TilePos) -> Neighbors {
    Neighbors {
        left: pos.x > 0 && tile_at(world, TilePos { x: (pos.x - 1) as u32, y: pos.y }) is Some,
        right: pos.x + 1 < WORLD_SIZE_X && tile_at(world, TilePos { x: (pos.x + 1) as u32, y: pos.y }) is Some,
        top: pos.y > 0 && tile_at(world, TilePos { x: pos.x, y: (pos.y - 1) as u32 }) is Some,
        bottom: pos.y + 1 < WORLD_SIZE_Y && tile_at(world, TilePos { x: pos.x, y: (pos.y + 1) as u32 }) is Some,
    }
}

impl WorldData {
    /// A mutable borrow of the cell at `pos`, or `None` outside the grid.
    pub fn get_cell_mut(&mut self, pos: TilePos) -> (r: Option<&mut Cell>)
        ensures
            r is Some <==> in_world(*old(self), pos),
            final(self).width == old(self).width,
            final(self).height == old(self).height,
            grid_shape(final(self).tiles) == grid_shape(old(self).tiles),
            r matches Some(c) ==> Some(*c) == cell_at(*old(self), pos)
                && grid_cells(final(self).tiles) == grid_cells(old(self).tiles).insert(
                (pos.y as int, pos.x as int),
                *final(c),
            ),
            r is None ==> *final(self) == *old(self),
    {
        self.tiles.get_mut(pos.y as usize, pos.x as usize)
    }

    /// The tile at `pos`, if there is one.
    pub fn get_tile(&self, pos: TilePos) -> (r: Option<Tile>)
        ensures
            r == tile_at(*self, pos),
    {
        match self.tiles.get(pos.y as usize, pos.x as usize) {
            Some(cell) => cell.tile,
            None => None,
        }
    }

    /// A mutable borrow of the tile at `pos`, or `None` where there is no tile.
    pub fn get_tile_mut(&mut self, pos: TilePos) -> (r: Option<&mut Tile>)
        ensures
            r is Some <==> tile_at(*old(self), pos) is Some,
            final(self).width == old(self).width,
            final(self).height == old(self).height,
            grid_shape(final(self).tiles) == grid_shape(old(self).tiles),
            r matches Some(t) ==> Some(*t) == tile_at(*old(self), pos)
                && grid_cells(final(self).tiles) == grid_cells(old(self).tiles).insert(
                (pos.y as int, pos.x as int),
                Cell { tile: Some(*final(t)), wall: cell_at(*old(self), pos).unwrap().wall },
            ),
            r is None ==> grid_cells(final(self).tiles) == grid_cells(old(self).tiles),
    {
        if self.get_tile(pos).is_none() {
            return None;
        }
        match self.tiles.get_mut(pos.y as usize, pos.x as usize) {
            Some(cell) => match &mut cell.tile {
                Some(tile) => Some(tile),
                None => None,
            },
            None => None,
        }
    }

    /// Whether there is a tile at an optional position.
    fn tile_exists_opt(&self, pos: Option<TilePos>) -> (r: bool)
        ensures
            r == tile_at_opt(*self, pos),
    {
        match pos {
            Some(p) => self.get_tile(p).is_some(),
            None => false,
        }
    }

    /// Which sides of `pos` touch a tile.
    pub fn get_neighbours(&self, pos: TilePos) -> (r: Neighbors)
        ensures
            r == neighbours_of(*self, pos),
    {
        let size = map_size();
        Neighbors {
            left: self.tile_exists_opt(pos.square_west()),
            right: self.tile_exists_opt(pos.square_east(&size)),
            top: self.tile_exists_opt(pos.square_south()),
            bottom: self.tile_exists_opt(pos.square_north(&size)),
        }
    }

    /// Whether there is a tile at `pos`.
    pub fn tile_exists(&self, pos: TilePos) -> (r: bool)
        ensures
            r == tile_at(*self, pos) is Some,
    {
        self.get_tile(pos).is_some()
    }
}

/// The chunk that holds a tile position.
pub open spec fn chunk_of(pos: TilePos) -> ChunkPos {
    ChunkPos { x: (pos.x / CHUNK_SIZE) as i32, y: (pos.y / CHUNK_SIZE) as i32 }
}

/// Where a tile position lies inside its chunk's tile map, whose rows count
/// upwards: the column is the offset in the chunk, the row is counted from the
/// chunk's bottom edge.
pub open spec fn chunk_tile_of(pos: TilePos) -> TilePos {
    TilePos { x: pos.x % CHUNK_SIZE, y: (CHUNK_SIZE - 1 - pos.y % CHUNK_SIZE) as u32 }
}

/// The chunk that holds a tile position.
pub fn get_chunk_position(pos: TilePos) -> (r: ChunkPos)
    ensures
        r == chunk_of(pos),
{
    ChunkPos { x: (pos.x / CHUNK_SIZE) as i32, y: (pos.y / CHUNK_SIZE) as i32 }
}

/// Where a tile position lies inside its chunk's tile map.
pub fn get_chunk_tile_position(pos: TilePos) -> (r: TilePos)
    ensures
        r == chunk_tile_of(pos),
        r.x < CHUNK_SIZE,
        r.y < CHUNK_SIZE,
{
    TilePos { x: pos.x % CHUNK_SIZE, y: CHUNK_SIZE - 1 - pos.y % CHUNK_SIZE }
}

/// A tile was broken at `coords`.
#[derive(Clone, Copy, Debug)]
pub struct BlockBreakEvent {
    pub coords: TilePos,
}

/// The player asks to place `block` at `tile_pos`, taking it from inventory
/// slot `inventory_item_index`.
#[derive(Clone, Copy, Debug)]
pub struct BlockPlaceEvent {
    pub tile_pos: TilePos,
    pub block: BlockType,
    pub inventory_item_index: usize,
}

/// A tile was placed: its neighbours must look again at their sides.
#[derive(Clone, Copy, Debug)]
pub struct UpdateNeighborsEvent {
    pub tile_pos: TilePos,
    pub chunk_tile_pos: TilePos,
    pub chunk_pos: ChunkPos,
    pub tile: Tile,
}

/// The tile that placing `block` at `pos` puts into the world.
pub open spec fn placed_tile(world: WorldData, pos: TilePos, block: BlockType) -> Tile {
    Tile { tile_type: block, neighbors: neighbours_of(world, pos) }
}

/// Places a block where the player asks: where the cell has no tile yet, the
/// cell receives the new tile (its sides as they touch other tiles), one copy
/// is used up from the inventory slot, and the neighbours are to be updated;
/// where the cell already has a tile, nothing changes.
pub fn handle_block_place(
    world: &mut WorldData,
    inventory: &mut crate::inventory::Inventory,
    event: &BlockPlaceEvent,
) -> (r: Option<UpdateNeighborsEvent>)
    requires
        in_world(*old(world), event.tile_pos),
    ensures
        final(world).width == old(world).width,
        final(world).height == old(world).height,
        grid_shape(final(world).tiles) == grid_shape(old(world).tiles),
        tile_at(*old(world), event.tile_pos) is Some ==> {
            &&& r is None
            &&& grid_cells(final(world).tiles) == grid_cells(old(world).tiles)
            &&& final(inventory).slots@ == old(inventory).slots@
            &&& final(inventory).mouse_item == old(inventory).mouse_item
            &&& final(inventory).selected_slot == old(inventory).selected_slot
        },
        tile_at(*old(world), event.tile_pos) is None ==> {
            let pos = event.tile_pos;
            let tile = placed_tile(*old(world), pos, event.block);
            &&& r == Some(
                UpdateNeighborsEvent {
                    tile_pos: pos,
                    chunk_tile_pos: chunk_tile_of(pos),
                    chunk_pos: chunk_of(pos),
                    tile,
                },
            )
            &&& grid_cells(final(world).tiles) == grid_cells(old(world).tiles).insert(
                (pos.y as int, pos.x as int),
                Cell { tile: Some(tile), wall: cell_at(*old(world), pos).unwrap().wall },
            )
            &&& final(inventory).slots@ == crate::inventory::consumed(
                old(inventory).slots@,
                event.inventory_item_index as int,
            )
            &&& final(inventory).mouse_item == old(inventory).mouse_item
            &&& final(inventory).selected_slot == old(inventory).selected_slot
        },
{
    let map_tile_pos = event.tile_pos;
    let neighbors = world.get_neighbours(map_tile_pos);
    let tile = Tile { tile_type: event.block, neighbors };

    if world.get_tile(map_tile_pos).is_none() {
        match world.get_cell_mut(map_tile_pos) {
            Some(cell) => {
                cell.tile = Some(tile);
            },
            None => {},
        }
        let chunk_pos = get_chunk_position(map_tile_pos);
        let chunk_tile_pos = get_chunk_tile_position(map_tile_pos);
        inventory.consume_item(event.inventory_item_index);
        Some(UpdateNeighborsEvent { tile_pos: map_tile_pos, chunk_tile_pos, chunk_pos, tile })
    } else {
        None
    }
}

/// Placing a block and then reading the world: the cell where the block was
/// placed holds the new tile (its sides as they touched other tiles before),
/// and every other position reads as before.
pub proof fn law_place_then_read(old_world: WorldData, new_world: WorldData, pos: TilePos, block: BlockType)
    requires
        in_world(old_world, pos),
        grid_shape(new_world.tiles) == grid_shape(old_world.tiles),
        grid_cells(new_world.tiles) == grid_cells(old_world.tiles).insert(
            (pos.y as int, pos.x as int),
            Cell { tile: Some(placed_tile(old_world, pos, block)), wall: cell_at(old_world, pos).unwrap().wall },
        ),
    ensures
        tile_at(new_world, pos) == Some(placed_tile(old_world, pos, block)),
        cell_at(new_world, pos).unwrap().wall == cell_at(old_world, pos).unwrap().wall,
        forall|q: TilePos| q != pos ==> #[trigger] tile_at(new_world, q) == tile_at(old_world, q),
{
    assert forall|q: TilePos| q != pos implies #[trigger] tile_at(new_world, q) == tile_at(old_world, q) by {
        assert((q.y as int, q.x as int) != (pos.y as int, pos.x as int));
    }
}

/// The sides that tiles see are mutual: a position next to `p` on some side
/// has, on the side facing `p`, a neighbour exactly when `p` holds a tile
/// (for `p` inside the map).
pub proof fn law_neighbour_sides_mutual(world: WorldData, p: TilePos)
    requires
        p.x < WORLD_SIZE_X,
        p.y < WORLD_SIZE_Y,
    ensures
        p.y + 1 < WORLD_SIZE_Y ==> neighbours_of(world, TilePos { x: p.x, y: (p.y + 1) as u32 }).top
            == (tile_at(world, p) is Some),
        p.y > 0 ==> neighbours_of(world, TilePos { x: p.x, y: (p.y - 1) as u32 }).bottom == (tile_at(
            world,
            p,
        ) is Some),
        p.x + 1 < WORLD_SIZE_X ==> neighbours_of(world, TilePos { x: (p.x + 1) as u32, y: p.y }).left
            == (tile_at(world, p) is Some),
        p.x > 0 ==> neighbours_of(world, TilePos { x: (p.x - 1) as u32, y: p.y }).right == (tile_at(
            world,
            p,
        ) is Some),
{
}

/// The position as a (row, column) key of the grid.
pub open spec fn key_of(pos: TilePos) -> (int, int) {
    (pos.y as int, pos.x as int)
}

/// An optional position as a sequence of zero or one positions.
pub open spec fn opt_seq(o: Option<TilePos>) -> Seq<TilePos> {
    match o {
        Some(p) => seq![p],
        None => seq![],
    }
}

/// The positions that share a side with `pos` inside a map of `size`, in the
/// order down (greater `y`), up, right, left.
pub open spec fn neighbouring_positions_in(pos: TilePos, size: TilemapSize) -> Seq<TilePos> {
    let north = if pos.y + 1 < size.y {
        Some(TilePos { x: pos.x, y: (pos.y + 1) as u32 })
    } else {
        None
    };
    let south = if pos.y > 0 {
        Some(TilePos { x: pos.x, y: (pos.y - 1) as u32 })
    } else {
        None
    };
    let east = if pos.x + 1 < size.x {
        Some(TilePos { x: (pos.x + 1) as u32, y: pos.y })
    } else {
        None
    };
    let west = if pos.x > 0 {
        Some(TilePos { x: (pos.x - 1) as u32, y: pos.y })
    } else {
        None
    };
    opt_seq(north) + opt_seq(south) + opt_seq(east) + opt_seq(west)
}

/// The positions that share a side with `pos` inside the world map.
pub open spec fn neighbouring_positions(pos: TilePos) -> Seq<TilePos> {
    neighbouring_positions_in(pos, TilemapSize { x: WORLD_SIZE_X, y: WORLD_SIZE_Y })
}

/// No two positions of the sequence are the same grid key.
pub open spec fn distinct_keys(ps: Seq<TilePos>) -> bool {
    forall|i: int, j: int|
        0 <= i < ps.len() && 0 <= j < ps.len() && i != j ==> key_of(#[trigger] ps[i]) != key_of(
            #[trigger] ps[j],
        )
}

/// The positions next to `pos` are different from each other and from `pos`.
pub proof fn lemma_neighbouring_distinct(pos: TilePos, size: TilemapSize)
    ensures
        distinct_keys(neighbouring_positions_in(pos, size)),
        forall|i: int|
            0 <= i < neighbouring_positions_in(pos, size).len() ==> key_of(
                #[trigger] neighbouring_positions_in(pos, size)[i],
            ) != key_of(pos),
{
    let ps = neighbouring_positions_in(pos, size);
    assert forall|i: int, j: int|
        0 <= i < ps.len() && 0 <= j < ps.len() && i != j implies key_of(#[trigger] ps[i]) != key_of(
        #[trigger] ps[j],
    ) by {
        let a = ps[i];
        let b = ps[j];
        assert(a.x == pos.x || a.y == pos.y);
        assert(b.x == pos.x || b.y == pos.y);
    }
}

/// The four side neighbours of a tile position that lie inside a map of size
/// `map_size`.
pub fn get_neighboring_pos(pos: TilePos, map_size: &TilemapSize) -> (r: Vec<TilePos>)
    ensures
        r@ == neighbouring_positions_in(pos, *map_size),
{
    let mut r: Vec<TilePos> = Vec::new();
    let north = pos.square_north(map_size);
    let south = pos.square_south();
    let east = pos.square_east(map_size);
    let west = pos.square_west();
    match north {
        Some(p) => r.push(p),
        None => {},
    }
    assert(r@ =~= opt_seq(north));
    match south {
        Some(p) => r.push(p),
        None => {},
    }
    assert(r@ =~= opt_seq(north) + opt_seq(south));
    match east {
        Some(p) => r.push(p),
        None => {},
    }
    assert(r@ =~= opt_seq(north) + opt_seq(south) + opt_seq(east));
    match west {
        Some(p) => r.push(p),
        None => {},
    }
    assert(r@ =~= opt_seq(north) + opt_seq(south) + opt_seq(east) + opt_seq(west));
    r
}

/// What a neighbour of a placed tile must redraw: its position, its chunk,
/// its place in the chunk's tile map, and which of its sides touch tiles.
#[derive(Clone, Copy, Debug)]
pub struct NeighborUpdate {
    pub tile_pos: TilePos,
    pub chunk_pos: ChunkPos,
    pub chunk_tile_pos: TilePos,
    pub neighbors: Neighbors,
}

/// The redraw order for a neighbour at `p`.
pub open spec fn neighbor_update_of(world: WorldData, p: TilePos) -> NeighborUpdate {
    NeighborUpdate {
        tile_pos: p,
        chunk_pos: chunk_of(p),
        chunk_tile_pos: chunk_tile_of(p),
        neighbors: neighbours_of(world, p),
    }
}

/// The cell at `p` once its tile (if any) has added to its sides those that
/// now touch tiles.
pub open spec fn refreshed_cell(world: WorldData, p: TilePos) -> Cell {
    let cell = cell_at(world, p).unwrap();
    match cell.tile {
        Some(t) => Cell {
            tile: Some(
                Tile { tile_type: t.tile_type, neighbors: spec_or(t.neighbors, neighbours_of(world, p)) },
            ),
            wall: cell.wall,
        },
        None => cell,
    }
}

/// The grid's cells once each position of `ps` that holds a tile is refreshed.
pub open spec fn refreshed(world: WorldData, ps: Seq<TilePos>) -> Map<(int, int), Cell>
    decreases ps.len(),
{
    if ps.len() == 0 {
        grid_cells(world.tiles)
    } else {
        let p = ps.last();
        let m = refreshed(world, ps.drop_last());
        if tile_at(world, p) is Some {
            m.insert(key_of(p), refreshed_cell(world, p))
        } else {
            m
        }
    }
}

/// Refreshing a list of distinct positions leaves the cell of a position of
/// the list as its own refresh makes it, and any other cell as it was.
pub proof fn lemma_refreshed_at(world: WorldData, ps: Seq<TilePos>, q: TilePos)
    requires
        distinct_keys(ps),
    ensures
        ps.contains(q) && tile_at(world, q) is Some ==> refreshed(world, ps)[key_of(q)] == refreshed_cell(
            world,
            q,
        ),
        !ps.contains(q) ==> refreshed(world, ps)[key_of(q)] == grid_cells(world.tiles)[key_of(q)],
    decreases ps.len(),
{
    if ps.len() > 0 {
        let init = ps.drop_last();
        assert(distinct_keys(init)) by {
            assert forall|i: int, j: int|
                0 <= i < init.len() && 0 <= j < init.len() && i != j implies key_of(#[trigger] init[i])
                != key_of(#[trigger] init[j]) by {
                assert(init[i] == ps[i] && init[j] == ps[j]);
            }
        }
        lemma_refreshed_at(world, init, q);
        if q == ps.last() {
            assert forall|i: int| 0 <= i < init.len() implies init[i] != q by {
                assert(key_of(ps[i]) != key_of(ps[ps.len() - 1]));
            }
            assert(!init.contains(q));
        } else {
            assert(ps.contains(q) ==> init.contains(q)) by {
                if ps.contains(q) {
                    let i = choose|i: int| 0 <= i < ps.len() && ps[i] == q;
                    assert(i != ps.len() - 1);
                    assert(init[i] == q);
                }
            }
            assert(init.contains(q) ==> ps.contains(q)) by {
                if init.contains(q) {
                    let i = choose|i: int| 0 <= i < init.len() && init[i] == q;
                    assert(ps[i] == q);
                }
            }
            assert(key_of(q) != key_of(ps.last()));
        }
    }
}

/// Placing a tile and then updating its neighbours: each side neighbour that
/// holds a tile ends up with a neighbour on the side that faces the placed
/// tile.
pub proof fn law_update_marks_placed_side(world: WorldData, p: TilePos, q: TilePos)
    requires
        p.x < WORLD_SIZE_X,
        p.y < WORLD_SIZE_Y,
        tile_at(world, p) is Some,
        tile_at(world, q) is Some,
        neighbouring_positions(p).contains(q),
    ensures
        ({
            let t = refreshed(world, neighbouring_positions(p))[key_of(q)].tile.unwrap().neighbors;
            &&& q.y == p.y + 1 ==> t.top
            &&& q.y + 1 == p.y ==> t.bottom
            &&& q.x == p.x + 1 ==> t.left
            &&& q.x + 1 == p.x ==> t.right
        }),
{
    lemma_neighbouring_distinct(p, TilemapSize { x: WORLD_SIZE_X, y: WORLD_SIZE_Y });
    lemma_refreshed_at(world, neighbouring_positions(p), q);
    law_neighbour_sides_mutual(world, p);
}

/// After a tile is placed at `tile_pos`, each side neighbour inside the map
/// that holds a tile adds to its sides those that now touch tiles; the
/// returned list says, for every side neighbour inside the map, what to
/// redraw.
pub fn update_neighbors(world: &mut WorldData, tile_pos: TilePos) -> (r: Vec<NeighborUpdate>)
    ensures
        final(world).width == old(world).width,
        final(world).height == old(world).height,
        grid_shape(final(world).tiles) == grid_shape(old(world).tiles),
        grid_cells(final(world).tiles) == refreshed(*old(world), neighbouring_positions(tile_pos)),
        r@.len() == neighbouring_positions(tile_pos).len(),
        forall|i: int|
            0 <= i < r@.len() ==> #[trigger] r@[i] == neighbor_update_of(
                *old(world),
                neighbouring_positions(tile_pos)[i],
            ),
{
    let ps = get_neighboring_pos(tile_pos, &map_size());
    proof {
        lemma_neighbouring_distinct(tile_pos, TilemapSize { x: WORLD_SIZE_X, y: WORLD_SIZE_Y });
    }
    let ghost w0 = *world;
    let mut updates: Vec<NeighborUpdate> = Vec::new();
    let mut k: usize = 0;
    while k < ps.len()
        invariant
            0 <= k <= ps@.len(),
            ps@ == neighbouring_positions(tile_pos),
            distinct_keys(ps@),
            world.width == w0.width,
            world.height == w0.height,
            grid_shape(world.tiles) == grid_shape(w0.tiles),
            grid_cells(world.tiles) == refreshed(w0, ps@.take(k as int)),
            forall|q: TilePos| (#[trigger] tile_at(*world, q) is Some) == (tile_at(w0, q) is Some),
            forall|j: int|
                k <= j < ps@.len() ==> grid_cells(world.tiles)[key_of(#[trigger] ps@[j])]
                    == grid_cells(w0.tiles)[key_of(ps@[j])],
            updates@.len() == k,
            forall|i: int| 0 <= i < k ==> #[trigger] updates@[i] == neighbor_update_of(w0, ps@[i]),
        decreases ps@.len() - k,
    {
        let p = ps[k];
        let ghost before = *world;
        let neighbors = world.get_neighbours(p);
        assert(neighbours_of(before, p) == neighbours_of(w0, p));
        proof {
            assert(ps@.take(k + 1).drop_last() =~= ps@.take(k as int));
            assert(ps@.take(k + 1).last() == p);
        }
        match world.get_tile_mut(p) {
            Some(tile) => {
                tile.neighbors = tile.neighbors.or(neighbors);
            },
            None => {},
        }
        assert forall|q: TilePos| (#[trigger] tile_at(*world, q) is Some) == (tile_at(w0, q) is Some) by {
            assert(tile_at(before, q) is Some == tile_at(w0, q) is Some);
            if key_of(q) != key_of(p) {
                assert(grid_cells(world.tiles)[key_of(q)] == grid_cells(before.tiles)[key_of(q)]);
            }
        }
        assert forall|j: int|
            k + 1 <= j < ps@.len() implies grid_cells(world.tiles)[key_of(#[trigger] ps@[j])]
            == grid_cells(w0.tiles)[key_of(ps@[j])] by {
            assert(key_of(ps@[j]) != key_of(ps@[k as int]));
        }
        assert(grid_cells(world.tiles) =~= refreshed(w0, ps@.take(k + 1)));
        let chunk_pos = get_chunk_position(p);
        let chunk_tile_pos = get_chunk_tile_position(p);
        updates.push(NeighborUpdate { tile_pos: p, chunk_pos, chunk_tile_pos, neighbors });
        k = k + 1;
    }
    proof {
        assert(ps@.take(ps@.len() as int) =~= ps@);
    }
    updates
}

} // verus!
