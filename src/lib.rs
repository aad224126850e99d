//! Chunk and tile addressing for a 2D tile world.
//!
//! The plane is split into square chunks of `TILE_PER_CHUNK` x `TILE_PER_CHUNK`
//! tiles, each tile `TILE_SIZE` world pixels wide. A chunk stores its tiles in
//! one flat array and its position in world pixels.
pub mod tile;
pub mod world;
pub mod frame;
