use tile_world::tile::{make_empty_block, Block, Chunk, TileError, CHUNK_PIXELS, TILE_AREA_PER_CHUNK, TILE_PER_CHUNK, TILE_SIZE};

#[test]
fn constants_match_the_layout() {
    assert_eq!(TILE_SIZE, 32);
    assert_eq!(TILE_PER_CHUNK, 32);
    assert_eq!(TILE_AREA_PER_CHUNK, 1024);
    assert_eq!(CHUNK_PIXELS, TILE_SIZE * TILE_PER_CHUNK);
}

#[test]
fn empty_block_is_air() {
    let b = make_empty_block();
    assert_eq!(b.block_id, 0);
    assert_eq!(b.wall_id, 0);
    assert_eq!(b, Block { block_id: 0, wall_id: 0 });
}

#[test]
fn empty_chunk_has_every_tile_empty() {
    let c = Chunk::empty(3, -7);
    assert_eq!(c.tiles.len(), 1024);
    assert!(c.tiles.iter().all(|t| *t == make_empty_block()));
    assert!(!c.active);
    assert_eq!(c.position.x, 3);
    assert_eq!(c.position.y, -7);
}

#[test]
fn index_split_round_trips_over_every_slot() {
    for idx in 0i16..1024 {
        let (row, col) = Chunk::get_2d_index(idx).unwrap();
        assert_eq!(row, idx / 32);
        assert_eq!(col, idx % 32);
        assert_eq!(row * 32 + col, idx);
        assert!((0..32).contains(&row));
        assert!((0..32).contains(&col));
    }
}

#[test]
fn index_split_exact_values() {
    assert_eq!(Chunk::get_2d_index(0), Ok((0, 0)));
    assert_eq!(Chunk::get_2d_index(31), Ok((0, 31)));
    assert_eq!(Chunk::get_2d_index(32), Ok((1, 0)));
    assert_eq!(Chunk::get_2d_index(33), Ok((1, 1)));
    assert_eq!(Chunk::get_2d_index(1023), Ok((31, 31)));
}

#[test]
fn index_split_rejects_out_of_range() {
    assert_eq!(Chunk::get_2d_index(1024), Err(TileError::OutOfRange));
    assert_eq!(Chunk::get_2d_index(-1), Err(TileError::OutOfRange));
    assert_eq!(Chunk::get_2d_index(i16::MAX), Err(TileError::OutOfRange));
    assert_eq!(Chunk::get_2d_index(i16::MIN), Err(TileError::OutOfRange));
}

#[test]
fn chunk_position_of_pixel_position() {
    let c = Chunk::empty(1024, 2048);
    let p = c.pixel_to_chunk_position();
    assert_eq!((p.x, p.y), (1, 2));
    assert_eq!((p.x as f32, p.y as f32), (1.0, 2.0));
}

#[test]
fn tile_position_of_pixel_position() {
    let c = Chunk::empty(1024, 2048);
    let p = c.pixel_to_tile_position();
    assert_eq!((p.x, p.y), (32, 64));
    assert_eq!((p.x as f32, p.y as f32), (32.0, 64.0));
}

#[test]
fn positions_round_down() {
    let c = Chunk::empty(1023, 1025);
    let p = c.pixel_to_chunk_position();
    assert_eq!((p.x, p.y), (0, 1));
    let c = Chunk::empty(-1, -1025);
    let p = c.pixel_to_chunk_position();
    assert_eq!((p.x, p.y), (-1, -2));
    let t = c.pixel_to_tile_position();
    assert_eq!((t.x, t.y), (-1, -33));
}

#[test]
fn positions_at_the_integer_limits() {
    let c = Chunk::empty(i32::MIN, i32::MAX);
    let p = c.pixel_to_chunk_position();
    assert_eq!((p.x, p.y), (-2097152, 2097151));
    let t = c.pixel_to_tile_position();
    assert_eq!((t.x, t.y), (-67108864, 67108863));
}
