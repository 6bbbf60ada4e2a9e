use crate::world::{
    cell_at, chunk_of, chunk_tile_of, grid_cells, grid_get, grid_shape, in_grid, in_world, placed_tile,
    tile_at, Cell, ChunkPos, Tile, TilePos, Wall, WorldData,
    CHUNK_SIZE, WORLD_SIZE_X, WORLD_SIZE_Y,
};
use vstd::prelude::*;

verus! {

/// Side of a chunk, in pixels: 25 tiles of 16 pixels.
pub const CHUNK_SIZE_PX: i64 = 400;

/// Greatest chunk column that the camera may ask for.
pub const MAX_CHUNK_X: i32 = 70;

/// Greatest chunk row that the camera may ask for.
pub const MAX_CHUNK_Y: i32 = 36;

/// A rectangle of chunks; `top <= y <= bottom` and `left <= x <= right`
/// when it is not empty (rows grow downwards).
#[derive(Clone, Copy, PartialEq, Eq, Debug, Structural)]
pub struct IRect {
    pub left: i32,
    pub right: i32,
    pub top: i32,
    pub bottom: i32,
}

/// What the camera sees, in world pixels, rounded outwards to whole pixels:
/// `left` is the left edge rounded down, `right` the right edge rounded up,
/// `top_depth` the depth of the top edge below the world's top (its absolute
/// value) rounded up, `bottom_depth` that of the bottom edge rounded down.
#[derive(Clone, Copy, PartialEq, Eq, Debug, Structural)]
pub struct CameraFov {
    pub left: i64,
    pub right: i64,
    pub top_depth: i64,
    pub bottom_depth: i64,
}

/// `x` saturated into the range of `i32`.
pub open spec fn sat_i32(x: int) -> int {
    if x > i32::MAX {
        i32::MAX as int
    } else if x < i32::MIN {
        i32::MIN as int
    } else {
        x
    }
}

/// `a / b` rounded down (`b > 0`).
pub open spec fn floor_div(a: int, b: int) -> int {
    a / b
}

/// `a / b` rounded up (`b > 0`).
pub open spec fn ceil_div(a: int, b: int) -> int {
    -((-a) / b)
}

/// The chunks that the camera's view touches, kept inside the world.
pub open spec fn chunk_rect_of(fov: CameraFov) -> IRect {
    let left = sat_i32(floor_div(fov.left as int, CHUNK_SIZE_PX as int));
    let right = sat_i32(ceil_div(fov.right as int, CHUNK_SIZE_PX as int));
    let bottom = sat_i32(ceil_div(fov.top_depth as int, CHUNK_SIZE_PX as int));
    let top = sat_i32(floor_div(fov.bottom_depth as int, CHUNK_SIZE_PX as int)) - 1;
    IRect {
        left: (if left < 0 { 0 } else { left }) as i32,
        right: (if right > MAX_CHUNK_X { MAX_CHUNK_X as int } else { right }) as i32,
        bottom: (if bottom > MAX_CHUNK_Y { MAX_CHUNK_Y as int } else { bottom }) as i32,
        top: (if top < 0 { 0 } else { top }) as i32,
    }
}

/// `a / 400` rounded down.
fn floor_div_chunk(a: i64) -> (r: i128)
    ensures
        r == floor_div(a as int, CHUNK_SIZE_PX as int),
{
    let a = a as i128;
    if a >= 0 {
        a / 400
    } else {
        let r = -((-a + 399) / 400);
        assert(r == floor_div(a as int, 400)) by (nonlinear_arith)
            requires
                a < 0,
                r == -((-a + 399) / 400),
        ;
        r
    }
}

/// `a / 400` rounded up.
fn ceil_div_chunk(a: i64) -> (r: i128)
    ensures
        r == ceil_div(a as int, CHUNK_SIZE_PX as int),
{
    let a = a as i128;
    let n = -a;
    let q = if n >= 0 {
        n / 400
    } else {
        let q = -((-n + 399) / 400);
        assert(q == floor_div(n as int, 400)) by (nonlinear_arith)
            requires
                n < 0,
                q == -((-n + 399) / 400),
        ;
        q
    };
    -q
}

/// `x` saturated into the range of `i32`.
fn saturate_i32(x: i128) -> (r: i32)
    ensures
        r == sat_i32(x as int),
{
    if x > i32::MAX as i128 {
        i32::MAX
    } else if x < i32::MIN as i128 {
        i32::MIN
    } else {
        x as i32
    }
}

/// The chunks that the camera's view touches: columns from the left edge
/// (rounded down) to the right edge (rounded up), rows from just above the
/// bottom edge to the top edge (rounded up), kept inside the world.
pub fn get_chunk_position_by_camera_fov(camera_fov: CameraFov) -> (r: IRect)
    requires
        camera_fov.top_depth >= 0,
        camera_fov.bottom_depth >= 0,
    ensures
        r == chunk_rect_of(camera_fov),
{
    let mut rect = IRect {
        left: saturate_i32(floor_div_chunk(camera_fov.left)),
        right: saturate_i32(ceil_div_chunk(camera_fov.right)),
        bottom: saturate_i32(ceil_div_chunk(camera_fov.top_depth)),
        top: saturate_i32(floor_div_chunk(camera_fov.bottom_depth)) - 1,
    };

    if rect.top < 0 {
        rect.top = 0;
    }
    if rect.left < 0 {
        rect.left = 0;
    }
    if rect.right > MAX_CHUNK_X {
        rect.right = MAX_CHUNK_X;
    }
    if rect.bottom > MAX_CHUNK_Y {
        rect.bottom = MAX_CHUNK_Y;
    }
    rect
}

/// Whether a chunk lies inside a rectangle of chunks.
pub open spec fn in_rect(rect: IRect, p: ChunkPos) -> bool {
    rect.left <= p.x <= rect.right && rect.top <= p.y <= rect.bottom
}

/// Whether chunk `a` comes before chunk `b` row by row (by `y`, then `x`).
pub open spec fn before(a: ChunkPos, b: ChunkPos) -> bool {
    a.y < b.y || (a.y == b.y && a.x < b.x)
}

/// No chunk occurs twice.
pub open spec fn no_duplicates(s: Seq<ChunkPos>) -> bool {
    forall|i: int, j: int| 0 <= i < s.len() && 0 <= j < s.len() && i != j ==> s[i] != s[j]
}

/// Each chunk comes before the next, row by row.
pub open spec fn row_major(s: Seq<ChunkPos>) -> bool {
    forall|i: int, j: int| 0 <= i < j < s.len() ==> before(#[trigger] s[i], #[trigger] s[j])
}

/// The chunks that are currently drawn.
pub struct ChunkManager {
    pub spawned_chunks: Vec<ChunkPos>,
}

impl ChunkManager {
    /// No chunk is listed twice.
    pub open spec fn wf(&self) -> bool {
        no_duplicates(self.spawned_chunks@)
    }

    /// The set of drawn chunks.
    pub open spec fn spawned(&self) -> Set<ChunkPos> {
        self.spawned_chunks@.to_set()
    }

    /// A manager with no chunk drawn.
    pub fn new() -> (r: Self)
        ensures
            r.wf(),
            r.spawned_chunks@.len() == 0,
    {
        ChunkManager { spawned_chunks: Vec::new() }
    }

    /// Whether `p` is drawn.
    pub fn contains(&self, p: ChunkPos) -> (r: bool)
        ensures
            r == self.spawned_chunks@.contains(p),
    {
        let mut i: usize = 0;
        while i < self.spawned_chunks.len()
            invariant
                0 <= i <= self.spawned_chunks@.len(),
                forall|j: int| 0 <= j < i ==> self.spawned_chunks@[j] != p,
            decreases self.spawned_chunks@.len() - i,
        {
            let q = self.spawned_chunks[i];
            if q.x == p.x && q.y == p.y {
                return true;
            }
            i = i + 1;
        }
        false
    }
}

/// Chunk `p` is in `rect` and has been visited by a row-by-row walk that now
/// stands at column `x` of row `y`.
pub open spec fn visited(rect: IRect, y: int, x: int, p: ChunkPos) -> bool {
    in_rect(rect, p) && (p.y < y || (p.y == y && p.x < x))
}

/// Marks as drawn each chunk of `rect` that is not drawn yet, and returns
/// those chunks, row by row: they are the ones to draw now.
pub fn spawn_chunks(chunk_manager: &mut ChunkManager, rect: IRect) -> (r: Vec<ChunkPos>)
    requires
        old(chunk_manager).wf(),
    ensures
        final(chunk_manager).wf(),
        final(chunk_manager).spawned_chunks@ == old(chunk_manager).spawned_chunks@ + r@,
        forall|i: int|
            0 <= i < r@.len() ==> in_rect(rect, #[trigger] r@[i]) && !old(
                chunk_manager,
            ).spawned_chunks@.contains(r@[i]),
        forall|p: ChunkPos|
            in_rect(rect, p) && !old(chunk_manager).spawned_chunks@.contains(p) ==> #[trigger] r@.contains(p),
        row_major(r@),
{
    let ghost old_spawned = chunk_manager.spawned_chunks@;
    let mut result: Vec<ChunkPos> = Vec::new();
    let mut y: i64 = rect.top as i64;
    while y <= rect.bottom as i64
        invariant
            rect.top <= y,
            y <= rect.bottom + 1 || y == rect.top,
            chunk_manager.wf(),
            chunk_manager.spawned_chunks@ == old_spawned + result@,
            forall|i: int|
                0 <= i < result@.len() ==> visited(rect, y as int, i32::MIN as int, #[trigger] result@[i])
                    && !old_spawned.contains(result@[i]),
            forall|p: ChunkPos|
                visited(rect, y as int, i32::MIN as int, p) && !old_spawned.contains(p)
                    ==> #[trigger] result@.contains(p),
            row_major(result@),
        decreases rect.bottom - y + 1,
    {
        let mut x: i64 = rect.left as i64;
        while x <= rect.right as i64
            invariant
                rect.top <= y <= rect.bottom,
                rect.left <= x,
                x <= rect.right + 1 || x == rect.left,
                chunk_manager.wf(),
                chunk_manager.spawned_chunks@ == old_spawned + result@,
                forall|i: int|
                    0 <= i < result@.len() ==> visited(rect, y as int, x as int, #[trigger] result@[i])
                        && !old_spawned.contains(result@[i]),
                forall|p: ChunkPos|
                    visited(rect, y as int, x as int, p) && !old_spawned.contains(p)
                        ==> #[trigger] result@.contains(p),
                row_major(result@),
            decreases rect.right - x + 1,
        {
            let chunk_pos = ChunkPos { x: x as i32, y: y as i32 };
            let ghost prev = result@;
            if !chunk_manager.contains(chunk_pos) {
                proof {
                    assert(!old_spawned.contains(chunk_pos)) by {
                        if old_spawned.contains(chunk_pos) {
                            let j = choose|j: int| 0 <= j < old_spawned.len() && old_spawned[j] == chunk_pos;
                            assert(chunk_manager.spawned_chunks@[j] == chunk_pos);
                        }
                    }
                }
                chunk_manager.spawned_chunks.push(chunk_pos);
                result.push(chunk_pos);
                proof {
                    assert(chunk_manager.spawned_chunks@ =~= old_spawned + result@);
                    assert forall|i: int, j: int|
                        0 <= i < chunk_manager.spawned_chunks@.len() && 0 <= j
                            < chunk_manager.spawned_chunks@.len() && i != j implies chunk_manager.spawned_chunks@[i]
                        != chunk_manager.spawned_chunks@[j] by {
                        let n = chunk_manager.spawned_chunks@.len() - 1;
                        if i == n {
                            assert(chunk_manager.spawned_chunks@[j] == (old_spawned + prev)[j]);
                        } else if j == n {
                            assert(chunk_manager.spawned_chunks@[i] == (old_spawned + prev)[i]);
                        }
                    }
                    assert forall|p: ChunkPos|
                        visited(rect, y as int, x + 1, p) && !old_spawned.contains(p) implies #[trigger] result@.contains(
                        p,
                    ) by {
                        if p == chunk_pos {
                            assert(result@[result@.len() - 1] == p);
                        } else {
                            assert(prev.contains(p));
                            let j = choose|j: int| 0 <= j < prev.len() && prev[j] == p;
                            assert(result@[j] == p);
                        }
                    }
                }
            } else {
                proof {
                    assert forall|p: ChunkPos|
                        visited(rect, y as int, x + 1, p) && !old_spawned.contains(p) implies #[trigger] result@.contains(
                        p,
                    ) by {
                        if p == chunk_pos {
                            let j = choose|j: int|
                                0 <= j < chunk_manager.spawned_chunks@.len()
                                    && chunk_manager.spawned_chunks@[j] == chunk_pos;
                            assert(j >= old_spawned.len());
                            assert(result@[j - old_spawned.len()] == p);
                        }
                    }
                }
            }
            x = x + 1;
        }
        proof {
            assert forall|p: ChunkPos|
                visited(rect, y + 1, i32::MIN as int, p) && !old_spawned.contains(p) implies #[trigger] result@.contains(
                p,
            ) by {
                assert(visited(rect, y as int, x as int, p));
            }
        }
        y = y + 1;
    }
    proof {
        assert forall|p: ChunkPos|
            in_rect(rect, p) && !old_spawned.contains(p) implies #[trigger] result@.contains(p) by {
            assert(visited(rect, y as int, i32::MIN as int, p));
        }
    }
    result
}

impl ChunkManager {
    /// Stops listing `p` as drawn.
    pub fn remove(&mut self, p: ChunkPos)
        requires
            old(self).wf(),
        ensures
            final(self).wf(),
            forall|q: ChunkPos|
                #[trigger] final(self).spawned_chunks@.contains(q) == (old(self).spawned_chunks@.contains(q)
                    && q != p),
    {
        let ghost s0 = self.spawned_chunks@;
        let mut i: usize = 0;
        while i < self.spawned_chunks.len()
            invariant
                0 <= i <= self.spawned_chunks@.len(),
                self.spawned_chunks@ == s0,
                s0 == old(self).spawned_chunks@,
                no_duplicates(s0),
                forall|j: int| 0 <= j < i ==> s0[j] != p,
            decreases self.spawned_chunks@.len() - i,
        {
            let q = self.spawned_chunks[i];
            if q.x == p.x && q.y == p.y {
                self.spawned_chunks.remove(i);
                proof {
                    let s1 = self.spawned_chunks@;
                    assert(s1 =~= s0.subrange(0, i as int) + s0.subrange(i + 1, s0.len() as int));
                    assert forall|a: int, b: int|
                        0 <= a < s1.len() && 0 <= b < s1.len() && a != b implies s1[a] != s1[b] by {
                        let a0 = if a < i { a } else { a + 1 };
                        let b0 = if b < i { b } else { b + 1 };
                        assert(s1[a] == s0[a0]);
                        assert(s1[b] == s0[b0]);
                    }
                    assert forall|r: ChunkPos| #[trigger] s1.contains(r) == (s0.contains(r) && r != p) by {
                        if s1.contains(r) {
                            let a = choose|a: int| 0 <= a < s1.len() && s1[a] == r;
                            let a0 = if a < i { a } else { a + 1 };
                            assert(s0[a0] == r);
                            assert(a0 != i);
                        }
                        if s0.contains(r) && r != p {
                            let a0 = choose|a0: int| 0 <= a0 < s0.len() && s0[a0] == r;
                            assert(a0 != i);
                            let a = if a0 < i { a0 } else { a0 - 1 };
                            assert(s1[a] == r);
                        }
                    }
                }
                return;
            }
            i = i + 1;
        }
    }
}

/// Whether chunk `p` lies outside a rectangle of chunks.
pub open spec fn outside(rect: IRect, p: ChunkPos) -> bool {
    (p.x < rect.left || p.x > rect.right) || (p.y > rect.bottom || p.y < rect.top)
}

/// Each drawn chunk of `chunks` (in order) that lies outside `rect` stops
/// being listed as drawn; returns, in increasing order, the indexes in
/// `chunks` of those chunks: they are the ones to take down now.
pub fn despawn_chunks(chunk_manager: &mut ChunkManager, rect: IRect, chunks: &Vec<ChunkPos>) -> (r: Vec<usize>)
    requires
        old(chunk_manager).wf(),
    ensures
        final(chunk_manager).wf(),
        forall|q: ChunkPos|
            #[trigger] final(chunk_manager).spawned_chunks@.contains(q) == (old(
                chunk_manager,
            ).spawned_chunks@.contains(q) && !(outside(rect, q) && chunks@.contains(q))),
        forall|k: int| 0 <= k < r@.len() ==> r@[k] < chunks@.len() && outside(rect, chunks@[#[trigger] r@[k] as int]),
        forall|i: int| 0 <= i < chunks@.len() && outside(rect, #[trigger] chunks@[i]) ==> r@.contains(i as usize),
        forall|a: int, b: int| 0 <= a < b < r@.len() ==> #[trigger] r@[a] < #[trigger] r@[b],
{
    let ghost s0 = chunk_manager.spawned_chunks@;
    let mut result: Vec<usize> = Vec::new();
    let mut i: usize = 0;
    while i < chunks.len()
        invariant
            0 <= i <= chunks@.len(),
            chunk_manager.wf(),
            forall|q: ChunkPos|
                #[trigger] chunk_manager.spawned_chunks@.contains(q) == (s0.contains(q) && !(outside(rect, q)
                    && chunks@.take(i as int).contains(q))),
            forall|k: int| 0 <= k < result@.len() ==> result@[k] < i && outside(rect, chunks@[#[trigger] result@[k] as int]),
            forall|j: int| 0 <= j < i && outside(rect, #[trigger] chunks@[j]) ==> result@.contains(j as usize),
            forall|a: int, b: int| 0 <= a < b < result@.len() ==> #[trigger] result@[a] < #[trigger] result@[b],
        decreases chunks@.len() - i,
    {
        let chunk_pos = chunks[i];
        let ghost prev = result@;
        let ghost m0 = chunk_manager.spawned_chunks@;
        if (chunk_pos.x < rect.left || chunk_pos.x > rect.right) || (chunk_pos.y > rect.bottom
            || chunk_pos.y < rect.top) {
            chunk_manager.remove(chunk_pos);
            result.push(i);
            proof {
                assert forall|j: int| 0 <= j < i + 1 && outside(rect, #[trigger] chunks@[j]) implies result@.contains(
                    j as usize,
                ) by {
                    if j == i {
                        assert(result@[result@.len() - 1] == j as usize);
                    } else {
                        let k = choose|k: int| 0 <= k < prev.len() && prev[k] == j as usize;
                        assert(result@[k] == j as usize);
                    }
                }
            }
        }
        proof {
            assert forall|q: ChunkPos|
                #[trigger] chunk_manager.spawned_chunks@.contains(q) == (s0.contains(q) && !(outside(rect, q)
                    && chunks@.take(i + 1).contains(q))) by {
                let t0 = chunks@.take(i as int);
                let t1 = chunks@.take(i + 1);
                assert(t1 =~= t0.push(chunk_pos));
                if t0.contains(q) {
                    let k = choose|k: int| 0 <= k < t0.len() && t0[k] == q;
                    assert(t1[k] == q);
                }
                if t1.contains(q) && q != chunk_pos {
                    let k = choose|k: int| 0 <= k < t1.len() && t1[k] == q;
                    assert(t0[k] == q);
                }
                assert(chunks@.take(i + 1)[i as int] == chunk_pos);
            }
        }
        i = i + 1;
    }
    proof {
        assert(chunks@.take(chunks@.len() as int) =~= chunks@);
    }
    result
}

/// A tile to draw at `tile_pos` of a chunk's tile map.
#[derive(Clone, Copy, Debug)]
pub struct PlacedTile {
    pub tile_pos: TilePos,
    pub tile: Tile,
}

/// A wall to draw at `wall_pos` of a chunk's wall map.
#[derive(Clone, Copy, Debug)]
pub struct PlacedWall {
    pub wall_pos: TilePos,
    pub wall: Wall,
}

/// What a chunk shows: its tiles and its walls, each with its place in the
/// chunk's maps, in the order in which the chunk is walked (world rows from
/// the top, columns from the left).
pub struct ChunkLayout {
    pub tiles: Vec<PlacedTile>,
    pub walls: Vec<PlacedWall>,
}

/// The world coordinate of a chunk's first tile along one axis; chunks at
/// negative positions start at 0.
pub open spec fn chunk_origin(c: i32) -> int {
    if c < 0 {
        0
    } else {
        c * CHUNK_SIZE
    }
}

/// The world cell shown at `tp` of the maps of `chunk`; the maps' rows count
/// upwards, so row `tp.y` shows world row `CHUNK_SIZE - 1 - tp.y` of the chunk.
pub open spec fn chunk_cell(world: WorldData, chunk: ChunkPos, tp: TilePos) -> Option<Cell> {
    grid_get(
        world.tiles,
        chunk_origin(chunk.y) + (CHUNK_SIZE - 1 - tp.y),
        chunk_origin(chunk.x) + tp.x,
    )
}

/// The place of `tp` in the walk of a chunk.
pub open spec fn walk_index(tp: TilePos) -> int {
    (CHUNK_SIZE - 1 - tp.y) * CHUNK_SIZE + tp.x
}

/// A place inside a chunk's maps.
pub open spec fn in_chunk_map(tp: TilePos) -> bool {
    tp.x < CHUNK_SIZE && tp.y < CHUNK_SIZE
}

/// Whether the world cell at `tp` of `chunk` holds a tile.
pub open spec fn chunk_has_tile(world: WorldData, chunk: ChunkPos, tp: TilePos) -> bool {
    match chunk_cell(world, chunk, tp) {
        Some(c) => c.tile is Some,
        None => false,
    }
}

/// Whether the world cell at `tp` of `chunk` holds a wall.
pub open spec fn chunk_has_wall(world: WorldData, chunk: ChunkPos, tp: TilePos) -> bool {
    match chunk_cell(world, chunk, tp) {
        Some(c) => c.wall is Some,
        None => false,
    }
}

/// The tiles and walls that chunk `chunk_pos` shows: every world cell of the
/// chunk that holds a tile gives one placed tile, and every one that holds a
/// wall one placed wall, in walk order.
///
/// The chunk's first cell is found by multiplying its position by the chunk
/// side in 32-bit floating point. That product is exact only while it stays
/// at most 2^24; beyond it the rounding shifts the chunk onto other cells, in
/// a way that no layout over whole cells describes. The bound below
/// (671088 * 25 = 16777200 < 2^24) keeps the product exact; the world is
/// 70 chunks wide and 36 high, far inside it.
pub fn spawn_chunk(world_data: &WorldData, chunk_pos: ChunkPos) -> (r: ChunkLayout)
    requires
        chunk_pos.x <= 671088,
        chunk_pos.y <= 671088,
    ensures
        forall|i: int|
            0 <= i < r.tiles@.len() ==> {
                let t = #[trigger] r.tiles@[i];
                &&& in_chunk_map(t.tile_pos)
                &&& chunk_cell(*world_data, chunk_pos, t.tile_pos) matches Some(c) && c.tile == Some(t.tile)
            },
        forall|i: int, j: int|
            0 <= i < j < r.tiles@.len() ==> walk_index(#[trigger] r.tiles@[i].tile_pos) < walk_index(
                #[trigger] r.tiles@[j].tile_pos,
            ),
        forall|tp: TilePos|
            in_chunk_map(tp) && #[trigger] chunk_has_tile(*world_data, chunk_pos, tp) ==> exists|i: int|
                0 <= i < r.tiles@.len() && r.tiles@[i].tile_pos == tp,
        forall|i: int|
            0 <= i < r.walls@.len() ==> {
                let w = #[trigger] r.walls@[i];
                &&& in_chunk_map(w.wall_pos)
                &&& chunk_cell(*world_data, chunk_pos, w.wall_pos) matches Some(c) && c.wall == Some(w.wall)
            },
        forall|i: int, j: int|
            0 <= i < j < r.walls@.len() ==> walk_index(#[trigger] r.walls@[i].wall_pos) < walk_index(
                #[trigger] r.walls@[j].wall_pos,
            ),
        forall|tp: TilePos|
            in_chunk_map(tp) && #[trigger] chunk_has_wall(*world_data, chunk_pos, tp) ==> exists|i: int|
                0 <= i < r.walls@.len() && r.walls@[i].wall_pos == tp,
{
    let origin_x: u32 = if chunk_pos.x < 0 { 0 } else { chunk_pos.x as u32 * CHUNK_SIZE };
    let origin_y: u32 = if chunk_pos.y < 0 { 0 } else { chunk_pos.y as u32 * CHUNK_SIZE };
    let mut tiles: Vec<PlacedTile> = Vec::new();
    let mut walls: Vec<PlacedWall> = Vec::new();
    let mut y: u32 = 0;
    while y < CHUNK_SIZE
        invariant
            y <= CHUNK_SIZE,
            origin_x == chunk_origin(chunk_pos.x),
            origin_y == chunk_origin(chunk_pos.y),
            origin_x <= 16777200,
            origin_y <= 16777200,
            forall|i: int|
                0 <= i < tiles@.len() ==> {
                    let t = #[trigger] tiles@[i];
                    &&& in_chunk_map(t.tile_pos)
                    &&& walk_index(t.tile_pos) < y * CHUNK_SIZE
                    &&& chunk_cell(*world_data, chunk_pos, t.tile_pos) matches Some(c) && c.tile == Some(t.tile)
                },
            forall|i: int, j: int|
                0 <= i < j < tiles@.len() ==> walk_index(#[trigger] tiles@[i].tile_pos) < walk_index(
                    #[trigger] tiles@[j].tile_pos,
                ),
            forall|tp: TilePos|
                in_chunk_map(tp) && walk_index(tp) < y * CHUNK_SIZE && #[trigger] chunk_has_tile(
                    *world_data,
                    chunk_pos,
                    tp,
                ) ==> exists|i: int| 0 <= i < tiles@.len() && tiles@[i].tile_pos == tp,
            forall|i: int|
                0 <= i < walls@.len() ==> {
                    let w = #[trigger] walls@[i];
                    &&& in_chunk_map(w.wall_pos)
                    &&& walk_index(w.wall_pos) < y * CHUNK_SIZE
                    &&& chunk_cell(*world_data, chunk_pos, w.wall_pos) matches Some(c) && c.wall == Some(w.wall)
                },
            forall|i: int, j: int|
                0 <= i < j < walls@.len() ==> walk_index(#[trigger] walls@[i].wall_pos) < walk_index(
                    #[trigger] walls@[j].wall_pos,
                ),
            forall|tp: TilePos|
                in_chunk_map(tp) && walk_index(tp) < y * CHUNK_SIZE && #[trigger] chunk_has_wall(
                    *world_data,
                    chunk_pos,
                    tp,
                ) ==> exists|i: int| 0 <= i < walls@.len() && walls@[i].wall_pos == tp,
        decreases CHUNK_SIZE - y,
    {
        let mut x: u32 = 0;
        while x < CHUNK_SIZE
            invariant
                y < CHUNK_SIZE,
                x <= CHUNK_SIZE,
                origin_x == chunk_origin(chunk_pos.x),
                origin_y == chunk_origin(chunk_pos.y),
                origin_x <= 16777200,
                origin_y <= 16777200,
                forall|i: int|
                    0 <= i < tiles@.len() ==> {
                        let t = #[trigger] tiles@[i];
                        &&& in_chunk_map(t.tile_pos)
                        &&& walk_index(t.tile_pos) < y * CHUNK_SIZE + x
                        &&& chunk_cell(*world_data, chunk_pos, t.tile_pos) matches Some(c) && c.tile == Some(t.tile)
                    },
                forall|i: int, j: int|
                    0 <= i < j < tiles@.len() ==> walk_index(#[trigger] tiles@[i].tile_pos) < walk_index(
                        #[trigger] tiles@[j].tile_pos,
                    ),
                forall|tp: TilePos|
                    in_chunk_map(tp) && walk_index(tp) < y * CHUNK_SIZE + x && #[trigger] chunk_has_tile(
                        *world_data,
                        chunk_pos,
                        tp,
                    ) ==> exists|i: int| 0 <= i < tiles@.len() && tiles@[i].tile_pos == tp,
                forall|i: int|
                    0 <= i < walls@.len() ==> {
                        let w = #[trigger] walls@[i];
                        &&& in_chunk_map(w.wall_pos)
                        &&& walk_index(w.wall_pos) < y * CHUNK_SIZE + x
                        &&& chunk_cell(*world_data, chunk_pos, w.wall_pos) matches Some(c) && c.wall == Some(w.wall)
                    },
                forall|i: int, j: int|
                    0 <= i < j < walls@.len() ==> walk_index(#[trigger] walls@[i].wall_pos) < walk_index(
                        #[trigger] walls@[j].wall_pos,
                    ),
                forall|tp: TilePos|
                    in_chunk_map(tp) && walk_index(tp) < y * CHUNK_SIZE + x && #[trigger] chunk_has_wall(
                        *world_data,
                        chunk_pos,
                        tp,
                    ) ==> exists|i: int| 0 <= i < walls@.len() && walls@[i].wall_pos == tp,
            decreases CHUNK_SIZE - x,
        {
            let tile_pos = TilePos { x, y: CHUNK_SIZE - 1 - y };
            let tile_x = origin_x + x;
            let tile_y = origin_y + y;
            let cell_option = world_data.tiles.get(tile_y as usize, tile_x as usize);
            assert(walk_index(tile_pos) == y * CHUNK_SIZE + x);
            assert(cell_option == chunk_cell(*world_data, chunk_pos, tile_pos));
            let ghost tiles0 = tiles@;
            let ghost walls0 = walls@;
            match cell_option {
                Some(cell) => {
                    match cell.tile {
                        Some(tile) => {
                            tiles.push(PlacedTile { tile_pos, tile });
                        },
                        None => {},
                    }
                    match cell.wall {
                        Some(wall) => {
                            walls.push(PlacedWall { wall_pos: tile_pos, wall });
                        },
                        None => {},
                    }
                },
                None => {},
            }
            assert forall|tp: TilePos|
                in_chunk_map(tp) && walk_index(tp) < y * CHUNK_SIZE + x + 1 && #[trigger] chunk_has_tile(
                    *world_data,
                    chunk_pos,
                    tp,
                ) implies exists|i: int| 0 <= i < tiles@.len() && tiles@[i].tile_pos == tp by {
                if walk_index(tp) == y * CHUNK_SIZE + x {
                    assert(tp == tile_pos);
                    assert(tiles@[tiles@.len() - 1].tile_pos == tp);
                } else {
                    let i = choose|i: int| 0 <= i < tiles0.len() && tiles0[i].tile_pos == tp;
                    assert(tiles@[i] == tiles0[i]);
                }
            }
            assert forall|tp: TilePos|
                in_chunk_map(tp) && walk_index(tp) < y * CHUNK_SIZE + x + 1 && #[trigger] chunk_has_wall(
                    *world_data,
                    chunk_pos,
                    tp,
                ) implies exists|i: int| 0 <= i < walls@.len() && walls@[i].wall_pos == tp by {
                if walk_index(tp) == y * CHUNK_SIZE + x {
                    assert(tp == tile_pos);
                    assert(walls@[walls@.len() - 1].wall_pos == tp);
                } else {
                    let i = choose|i: int| 0 <= i < walls0.len() && walls0[i].wall_pos == tp;
                    assert(walls@[i] == walls0[i]);
                }
            }
            x = x + 1;
        }
        y = y + 1;
    }
    ChunkLayout { tiles, walls }
}

/// The chunk of a tile position, at that position's place in the chunk's
/// maps, shows exactly the world cell at the tile position; for a position
/// inside the world, that chunk is one that `spawn_chunk` accepts. So a tile
/// that `handle_block_place` puts at `pos` is drawn by chunk
/// `get_chunk_position(pos)` at `get_chunk_tile_position(pos)`, where
/// `spawn_chunk` draws it too.
pub proof fn law_chunk_shows_cell(world: WorldData, pos: TilePos)
    ensures
        in_chunk_map(chunk_tile_of(pos)),
        chunk_cell(world, chunk_of(pos), chunk_tile_of(pos)) == cell_at(world, pos),
        walk_index(chunk_tile_of(pos)) == (pos.y % CHUNK_SIZE) * CHUNK_SIZE + pos.x % CHUNK_SIZE,
        pos.x < WORLD_SIZE_X && pos.y < WORLD_SIZE_Y ==> chunk_of(pos).x <= 671088 && chunk_of(pos).y
            <= 671088,
{
    let c = chunk_of(pos);
    assert(c.x == pos.x / CHUNK_SIZE);
    assert(c.y == pos.y / CHUNK_SIZE);
    assert(chunk_origin(c.x) + pos.x % CHUNK_SIZE == pos.x);
    assert(chunk_origin(c.y) + (CHUNK_SIZE - 1 - chunk_tile_of(pos).y) == pos.y);
}

/// A block placed by `handle_block_place` is drawn by its chunk: once the
/// cell at `pos` holds the placed tile, the chunk `chunk_of(pos)` shows that
/// tile at `chunk_tile_of(pos)`, which is where the returned event says to
/// draw it.
pub proof fn law_placed_tile_drawn(
    old_world: WorldData,
    new_world: WorldData,
    pos: TilePos,
    block: crate::world::BlockType,
)
    requires
        in_world(old_world, pos),
        grid_shape(new_world.tiles) == grid_shape(old_world.tiles),
        grid_cells(new_world.tiles) == grid_cells(old_world.tiles).insert(
            (pos.y as int, pos.x as int),
            Cell { tile: Some(placed_tile(old_world, pos, block)), wall: cell_at(old_world, pos).unwrap().wall },
        ),
    ensures
        in_chunk_map(chunk_tile_of(pos)),
        chunk_has_tile(new_world, chunk_of(pos), chunk_tile_of(pos)),
        chunk_cell(new_world, chunk_of(pos), chunk_tile_of(pos)).unwrap().tile == Some(
            placed_tile(old_world, pos, block),
        ),
{
    crate::world::law_place_then_read(old_world, new_world, pos, block);
    law_chunk_shows_cell(new_world, pos);
}

/// The chunks asked for by the camera always lie inside the world:
/// columns from 0 to `MAX_CHUNK_X`, rows from 0 to `MAX_CHUNK_Y`.
pub proof fn law_camera_chunks_inside_world(fov: CameraFov)
    ensures
        ({
            let r = chunk_rect_of(fov);
            &&& 0 <= r.left
            &&& r.right <= MAX_CHUNK_X
            &&& 0 <= r.top
            &&& r.bottom <= MAX_CHUNK_Y
        }),
{
}

/// After `spawn_chunks` for `rect`, every chunk of `rect` is drawn, whether it
/// was drawn before or is drawn now, and no chunk is listed twice.
pub proof fn law_spawn_covers_rect(before: Seq<ChunkPos>, spawned: Seq<ChunkPos>, rect: IRect, p: ChunkPos)
    requires
        forall|q: ChunkPos| in_rect(rect, q) && !before.contains(q) ==> #[trigger] spawned.contains(q),
        in_rect(rect, p),
    ensures
        (before + spawned).contains(p),
{
    if before.contains(p) {
        let i = choose|i: int| 0 <= i < before.len() && before[i] == p;
        assert((before + spawned)[i] == p);
    } else {
        assert(spawned.contains(p));
        let i = choose|i: int| 0 <= i < spawned.len() && spawned[i] == p;
        assert((before + spawned)[before.len() + i] == p);
    }
}

/// `despawn_chunks` never takes down a chunk that lies inside the rectangle
/// it was given: such a chunk is drawn afterwards exactly when it was drawn
/// before.
pub proof fn law_despawn_keeps_rect(
    before: Seq<ChunkPos>,
    after: Seq<ChunkPos>,
    chunks: Seq<ChunkPos>,
    rect: IRect,
    p: ChunkPos,
)
    requires
        forall|q: ChunkPos|
            #[trigger] after.contains(q) == (before.contains(q) && !(outside(rect, q) && chunks.contains(q))),
        in_rect(rect, p),
    ensures
        after.contains(p) == before.contains(p),
{
}

/// A chunk counts as outside a rectangle exactly when it is not inside it,
/// whichever axis it leaves the rectangle by.
pub proof fn law_outside_is_not_inside(rect: IRect, p: ChunkPos)
    ensures
        outside(rect, p) <==> !(rect.left <= p.x <= rect.right && rect.top <= p.y <= rect.bottom),
{
}

/// After `despawn_chunks`, no chunk of the list given to it that lies beyond
/// the rectangle (left or right of its columns, above its top row or below
/// its bottom row) is still drawn.
pub proof fn law_despawn_takes_down_leavers(
    before: Seq<ChunkPos>,
    after: Seq<ChunkPos>,
    chunks: Seq<ChunkPos>,
    rect: IRect,
    p: ChunkPos,
)
    requires
        forall|q: ChunkPos|
            #[trigger] after.contains(q) == (before.contains(q) && !(outside(rect, q) && chunks.contains(q))),
        chunks.contains(p),
        p.x < rect.left || p.x > rect.right || p.y < rect.top || p.y > rect.bottom,
    ensures
        !after.contains(p),
{
}

} // verus!
