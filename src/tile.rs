//! Tile records, chunks, and the conversions between world pixels, chunk
//! coordinates and tile coordinates.
use vstd::prelude::*;

verus! {

/// Width and height of one tile, in world pixels.
pub const TILE_SIZE: i32 = 32;

/// Tiles along one side of a chunk.
pub const TILE_PER_CHUNK: i32 = 32;

/// Tiles held by one chunk.
pub const TILE_AREA_PER_CHUNK: usize = 1024;

/// Width and height of one chunk, in world pixels.
pub const CHUNK_PIXELS: i32 = TILE_SIZE * TILE_PER_CHUNK;

/// A point with integer coordinates.
#[derive(Clone, Copy, Debug, PartialEq, Eq, Structural)]
pub struct Coord {
    pub x: i32,
    pub y: i32,
}

/// One tile cell: a foreground block and a background wall.
#[derive(Clone, Copy, Debug, PartialEq, Eq, Structural)]
pub struct Block {
    pub block_id: i16,
    pub wall_id: i8,
}

/// The empty ("air") tile.
pub open spec fn empty_block() -> Block {
    Block { block_id: 0, wall_id: 0 }
}

/// Returns the empty ("air") tile.
pub fn make_empty_block() -> (r: Block)
    ensures
        r == empty_block(),
        r.block_id == 0 && r.wall_id == 0,
{
    Block { block_id: 0, wall_id: 0 }
}

/// Whether every tile of `tiles` is the empty tile.
pub open spec fn all_empty(tiles: Seq<Block>) -> bool {
    forall|t: int| 0 <= t < tiles.len() ==> #[trigger] tiles[t] == empty_block()
}

/// One chunk: `TILE_PER_CHUNK` x `TILE_PER_CHUNK` tiles held in a flat,
/// row-major array, and the chunk's position in world pixels.
pub struct Chunk {
    /// Whether the chunk takes part in simulation; no operation here sets it.
    pub active: bool,
    /// Position of the chunk's corner, in world pixels.
    pub position: Coord,
    /// The tiles; the tile at row `r`, column `c` is at `r * TILE_PER_CHUNK + c`.
    pub tiles: [Block; 1024],
}

/// Whether `c` is a fresh chunk at world position `(x, y)`: inactive, every
/// tile empty.
pub open spec fn is_fresh_chunk_at(c: Chunk, x: int, y: int) -> bool {
    &&& c.position.x == x
    &&& c.position.y == y
    &&& !c.active
    &&& c.tiles@.len() == TILE_AREA_PER_CHUNK
    &&& all_empty(c.tiles@)
}

/// `p` divided by `d`, rounded down.
pub open spec fn floor_div(p: int, d: int) -> int {
    p / d
}

/// Row and column of linear tile index `index`.
pub open spec fn index_to_2d(index: int) -> (int, int) {
    (index / TILE_PER_CHUNK as int, index % TILE_PER_CHUNK as int)
}

/// Why a tile index was refused.
#[derive(Clone, Copy, Debug, PartialEq, Eq, Structural)]
pub enum TileError {
    /// The linear index is negative, or not below `TILE_AREA_PER_CHUNK`.
    OutOfRange,
}

impl Chunk {
    /// A chunk at world position `(x, y)`, inactive, with every tile empty.
    pub fn empty(x: i32, y: i32) -> (r: Chunk)
        ensures
            is_fresh_chunk_at(r, x as int, y as int),
    {
        let tiles: [Block; 1024] = [make_empty_block(); 1024];
        Chunk { active: false, position: Coord { x, y }, tiles }
    }

    /// Splits linear tile index `index` into `(row, column)`.
    pub fn get_2d_index(index: i16) -> (r: Result<(i16, i16), TileError>)
        ensures
            r == (if 0 <= index < TILE_AREA_PER_CHUNK {
                Ok::<(i16, i16), TileError>(
                    (index_to_2d(index as int).0 as i16, index_to_2d(index as int).1 as i16),
                )
            } else {
                Err(TileError::OutOfRange)
            }),
    {
        if index < 0 || index as usize >= TILE_AREA_PER_CHUNK {
            return Err(TileError::OutOfRange);
        }
        let side: i16 = TILE_PER_CHUNK as i16;
        let row: i16 = index / side;
        let col: i16 = index % side;
        Ok((row, col))
    }

    /// The chunk's position in chunk-grid units: its world position divided by
    /// the chunk's width in pixels, rounded down.
    pub fn pixel_to_chunk_position(&self) -> (r: Coord)
        ensures
            r.x == floor_div(self.position.x as int, CHUNK_PIXELS as int),
            r.y == floor_div(self.position.y as int, CHUNK_PIXELS as int),
    {
        Coord {
            x: floor_div_i32(self.position.x, CHUNK_PIXELS),
            y: floor_div_i32(self.position.y, CHUNK_PIXELS),
        }
    }

    /// The chunk's position in tile-grid units: its world position divided by
    /// the tile width in pixels, rounded down.
    pub fn pixel_to_tile_position(&self) -> (r: Coord)
        ensures
            r.x == floor_div(self.position.x as int, TILE_SIZE as int),
            r.y == floor_div(self.position.y as int, TILE_SIZE as int),
    {
        Coord {
            x: floor_div_i32(self.position.x, TILE_SIZE),
            y: floor_div_i32(self.position.y, TILE_SIZE),
        }
    }
}

/// `p / d` rounded down, for a positive divisor.
fn floor_div_i32(p: i32, d: i32) -> (r: i32)
    requires
        d > 0,
    ensures
        r == floor_div(p as int, d as int),
{
    match p.checked_div_euclid(d) {
        Some(q) => q,
        None => {
            proof {
                lemma_floor_div_bounds(p as int, d as int);
            }
            0
        },
    }
}

proof fn lemma_floor_div_bounds(p: int, d: int)
    requires
        d > 0,
        i32::MIN <= p <= i32::MAX,
    ensures
        i32::MIN <= p / d <= i32::MAX,
{
    vstd::arithmetic::div_mod::lemma_div_is_ordered(p, i32::MAX as int, d);
    vstd::arithmetic::div_mod::lemma_div_is_ordered(i32::MIN as int, p, d);
    let lo = i32::MIN as int;
    let hi = i32::MAX as int;
    vstd::arithmetic::div_mod::lemma_fundamental_div_mod(lo, d);
    vstd::arithmetic::div_mod::lemma_fundamental_div_mod(hi, d);
    vstd::arithmetic::div_mod::lemma_mod_bound(lo, d);
    vstd::arithmetic::div_mod::lemma_mod_bound(hi, d);
    assert(lo / d >= lo) by (nonlinear_arith)
        requires
            d >= 1,
            lo < 0,
            lo == d * (lo / d) + lo % d,
            0 <= lo % d < d,
    ;
    assert(hi / d <= hi) by (nonlinear_arith)
        requires
            d >= 1,
            hi > 0,
            hi == d * (hi / d) + hi % d,
            0 <= hi % d < d,
    ;
}

/// The tile index and its `(row, column)` pair determine each other:
/// `row * TILE_PER_CHUNK + column == index`, with the column below
/// `TILE_PER_CHUNK` and the row below `TILE_PER_CHUNK`.
pub proof fn lemma_index_round_trip(index: int)
    requires
        0 <= index < TILE_AREA_PER_CHUNK,
    ensures
        index_to_2d(index).0 == index / TILE_PER_CHUNK as int,
        index_to_2d(index).1 == index % TILE_PER_CHUNK as int,
        index_to_2d(index).0 * TILE_PER_CHUNK + index_to_2d(index).1 == index,
        0 <= index_to_2d(index).0 < TILE_PER_CHUNK,
        0 <= index_to_2d(index).1 < TILE_PER_CHUNK,
{
    vstd::arithmetic::div_mod::lemma_fundamental_div_mod(index, 32);
}

} // verus!
