//! What each frame draws and how the camera moves.
use vstd::prelude::*;
use crate::tile::{Chunk, Coord, CHUNK_PIXELS};

verus! {

/// Pixels the camera moves per frame along an axis whose key is held.
pub const CAMERA_STEP: i32 = 10;

/// A square drawn around a chunk: its center and its side, in world pixels.
#[derive(Clone, Copy, Debug, PartialEq, Eq, Structural)]
pub struct Outline {
    pub center_x: i64,
    pub center_y: i64,
    pub side: i64,
}

/// The square that marks the edge of `chunk`: one chunk wide, centred half a
/// chunk right of and above the chunk's position.
pub fn chunk_outline(chunk: &Chunk) -> (r: Outline)
    ensures
        r.center_x == chunk.position.x + CHUNK_PIXELS / 2,
        r.center_y == chunk.position.y + CHUNK_PIXELS / 2,
        r.side == CHUNK_PIXELS,
{
    let half: i64 = CHUNK_PIXELS as i64 / 2;
    Outline {
        center_x: chunk.position.x as i64 + half,
        center_y: chunk.position.y as i64 + half,
        side: CHUNK_PIXELS as i64,
    }
}

/// Signed step along one axis: forward minus backward.
pub open spec fn axis_step(forward: bool, backward: bool) -> int {
    (if forward { CAMERA_STEP as int } else { 0 }) - (if backward { CAMERA_STEP as int } else { 0 })
}

/// How far the camera moves this frame, given which arrow keys are held.
/// Opposite keys cancel out.
pub fn camera_step(right: bool, up: bool, left: bool, down: bool) -> (r: Coord)
    ensures
        r.x == axis_step(right, left),
        r.y == axis_step(up, down),
{
    let mut dx: i32 = 0;
    let mut dy: i32 = 0;
    if right {
        dx = dx + CAMERA_STEP;
    }
    if up {
        dy = dy + CAMERA_STEP;
    }
    if left {
        dx = dx - CAMERA_STEP;
    }
    if down {
        dy = dy - CAMERA_STEP;
    }
    Coord { x: dx, y: dy }
}

} // verus!
