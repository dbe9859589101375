//! The fixed geometry of a frame and the byte counts that follow from it.

use vstd::prelude::*;

verus! {

/// Width of a frame in pixels.
pub const FRAME_WIDTH: u32 = 320;

/// Height of a frame in pixels.
pub const FRAME_HEIGHT: u32 = 240;

/// Bytes of one frame in grayscale: one per pixel.
pub const GRAY_FRAME_BYTES: u32 = 76_800;

/// Bytes of one frame as the sensor holds it: two per pixel.
pub const RAW_FRAME_BYTES: u32 = 153_600;

/// The byte counts are the ones the geometry gives.
pub proof fn frame_byte_counts()
    ensures
        GRAY_FRAME_BYTES == FRAME_WIDTH * FRAME_HEIGHT,
        RAW_FRAME_BYTES == 2 * GRAY_FRAME_BYTES,
{
}

} // verus!
