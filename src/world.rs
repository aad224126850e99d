//! The chunk registry: the fixed grid of chunks that covers the world.
use vstd::prelude::*;
use crate::tile::{Chunk, is_fresh_chunk_at, CHUNK_PIXELS};

verus! {

/// Chunks along each axis of the default world.
pub const X_CHUNKS: i16 = 20;

/// Chunks along the other axis of the default world.
pub const Y_CHUNKS: i16 = 20;

/// Number of chunks in a world of `width` x `height` chunks; a side that is
/// not positive gives an empty world.
pub open spec fn world_len(width: int, height: int) -> int {
    if width > 0 && height > 0 {
        width * height
    } else {
        0
    }
}

/// World position, in pixels, of the chunk created `k`-th in a world
/// `height` chunks tall: grid cell `(k / height, k % height)` times the chunk
/// width.
pub open spec fn world_position(k: int, height: int) -> (int, int) {
    ((k / height) * CHUNK_PIXELS, (k % height) * CHUNK_PIXELS)
}

/// Whether `chunks` is the world of `width` x `height` chunks, created
/// row-major: first over the column `i`, then over the row `j`.
pub open spec fn is_world(chunks: Seq<Chunk>, width: int, height: int) -> bool {
    &&& chunks.len() == world_len(width, height)
    &&& forall|k: int|
        0 <= k < chunks.len() ==> #[trigger] is_fresh_chunk_at(
            chunks[k],
            world_position(k, height).0,
            world_position(k, height).1,
        )
}

/// Whether no two chunks of `chunks` share a position.
pub open spec fn positions_distinct(chunks: Seq<Chunk>) -> bool {
    forall|a: int, b: int|
        0 <= a < chunks.len() && 0 <= b < chunks.len() && a != b ==> #[trigger] chunks[a].position
            != #[trigger] chunks[b].position
}

/// Why the registry refused a request.
#[derive(Clone, Copy, Debug, PartialEq, Eq, Structural)]
pub enum RegistryError {
    /// The world was already created; it is created once.
    AlreadyInitialized,
}

/// Owns every chunk of the world, created once and never removed.
pub struct ChunkRegistry {
    chunks: Vec<Chunk>,
    initialized: bool,
}

impl View for ChunkRegistry {
    type V = Seq<Chunk>;

    closed spec fn view(&self) -> Seq<Chunk> {
        self.chunks@
    }
}

impl ChunkRegistry {
    /// Whether the world has been created.
    pub closed spec fn spec_initialized(&self) -> bool {
        self.initialized
    }

    /// A registry that holds no chunks yet.
    pub fn new() -> (r: ChunkRegistry)
        ensures
            r@.len() == 0,
            !r.spec_initialized(),
    {
        ChunkRegistry { chunks: Vec::new(), initialized: false }
    }

    /// Whether the world has been created.
    pub fn is_initialized(&self) -> (r: bool)
        ensures
            r == self.spec_initialized(),
    {
        self.initialized
    }

    /// Every chunk, in the order of creation.
    pub fn chunks(&self) -> (r: &Vec<Chunk>)
        ensures
            r@ == self@,
    {
        &self.chunks
    }

    /// Creates the world of `width` x `height` chunks: for each `i` in
    /// `[0, width)` and then each `j` in `[0, height)`, a fresh chunk at world
    /// position `(i * CHUNK_PIXELS, j * CHUNK_PIXELS)`. A registry whose world
    /// exists already is left as it is.
    pub fn initialize_world(&mut self, width: i16, height: i16) -> (r: Result<(), RegistryError>)
        ensures
            old(self).spec_initialized() ==> r == Err::<(), RegistryError>(
                RegistryError::AlreadyInitialized,
            ) && final(self)@ == old(self)@ && final(self).spec_initialized(),
            !old(self).spec_initialized() ==> r == Ok::<(), RegistryError>(()) && is_world(
                final(self)@,
                width as int,
                height as int,
            ) && positions_distinct(final(self)@) && final(self).spec_initialized(),
    {
        if self.initialized {
            return Err(RegistryError::AlreadyInitialized);
        }
        let mut chunks: Vec<Chunk> = Vec::new();
        let h: i16 = if height > 0 { height } else { 0 };
        let w: i16 = if width > 0 && height > 0 { width } else { 0 };
        let mut i: i16 = 0;
        while i < w
            invariant
                0 <= i <= w,
                0 <= h,
                w > 0 ==> h == height && w == width,
                w == 0 ==> world_len(width as int, height as int) == 0,
                chunks@.len() == i * h,
                forall|k: int|
                    0 <= k < chunks@.len() ==> #[trigger] is_fresh_chunk_at(
                        chunks@[k],
                        world_position(k, h as int).0,
                        world_position(k, h as int).1,
                    ),
            decreases w - i,
        {
            let mut j: i16 = 0;
            while j < h
                invariant
                    0 <= i < w,
                    0 <= j <= h,
                    w > 0 ==> h == height && w == width,
                    chunks@.len() == i * h + j,
                    forall|k: int|
                        0 <= k < chunks@.len() ==> #[trigger] is_fresh_chunk_at(
                            chunks@[k],
                            world_position(k, h as int).0,
                            world_position(k, h as int).1,
                        ),
                decreases h - j,
            {
                let c = Chunk::empty(i as i32 * CHUNK_PIXELS, j as i32 * CHUNK_PIXELS);
                proof {
                    vstd::arithmetic::div_mod::lemma_fundamental_div_mod_converse(
                        i * h + j,
                        h as int,
                        i as int,
                        j as int,
                    );
                }
                chunks.push(c);
                j = j + 1;
            }
            proof {
                assert((i + 1) * h == i * h + h) by (nonlinear_arith);
            }
            i = i + 1;
        }
        proof {
            lemma_world_positions_distinct(chunks@, width as int, height as int);
        }
        self.chunks = chunks;
        self.initialized = true;
        Ok(())
    }
}

/// Creating a world never places two chunks at one position, so every chunk
/// of the world has a key of its own.
pub proof fn lemma_world_positions_distinct(chunks: Seq<Chunk>, width: int, height: int)
    requires
        is_world(chunks, width, height),
    ensures
        positions_distinct(chunks),
{
    assert forall|a: int, b: int|
        0 <= a < chunks.len() && 0 <= b < chunks.len() && a != b implies #[trigger] chunks[a].position
        != #[trigger] chunks[b].position by {
        assert(is_fresh_chunk_at(chunks[a], world_position(a, height).0, world_position(a, height).1));
        assert(is_fresh_chunk_at(chunks[b], world_position(b, height).0, world_position(b, height).1));
        vstd::arithmetic::div_mod::lemma_fundamental_div_mod(a, height);
        vstd::arithmetic::div_mod::lemma_fundamental_div_mod(b, height);
        if a / height == b / height && a % height == b % height {
            assert(a == b);
        }
    }
}

} // verus!
