//! Geometry of the LED disk: 255 pixels laid out in ten concentric rings,
//! numbered from the outermost ring inward. Ring 0 is the single center
//! pixel with the highest index; ring 9 is the outer rim holding pixels 0
//! through 47. The rendering front end uses the ring index to place a
//! pixel; index 255 addresses no pixel and maps to ring 0 as a safe
//! default.

use vstd::prelude::*;

verus! {

/// Number of concentric rings on the disk.
pub const RING_COUNT: u8 = 10;

/// First pixel index of ring `i`.
pub open spec fn ring_start(i: int) -> int {
    if i == 0 {
        254
    } else if i == 1 {
        248
    } else if i == 2 {
        236
    } else if i == 3 {
        216
    } else if i == 4 {
        192
    } else if i == 5 {
        164
    } else if i == 6 {
        132
    } else if i == 7 {
        92
    } else if i == 8 {
        48
    } else {
        0
    }
}

/// Last pixel index of ring `i`.
pub open spec fn ring_end(i: int) -> int {
    if i == 0 {
        254
    } else {
        ring_start(i - 1) - 1
    }
}

/// The ring a pixel belongs to: the unique ring whose index range holds
/// it, and ring 0 for the out-of-range pixel index 255.
pub open spec fn spec_ring_index(p: int) -> int {
    if p == 255 {
        0
    } else if p >= 254 {
        0
    } else if p >= 248 {
        1
    } else if p >= 236 {
        2
    } else if p >= 216 {
        3
    } else if p >= 192 {
        4
    } else if p >= 164 {
        5
    } else if p >= 132 {
        6
    } else if p >= 92 {
        7
    } else if p >= 48 {
        8
    } else {
        9
    }
}

/// Ring index of a pixel: for a real pixel, the ring whose range contains
/// it; for the unused index 255, ring 0.
pub fn get_pixel_ring_index(pixel: u8) -> (r: u8)
    ensures
        r == spec_ring_index(pixel as int),
        r < RING_COUNT,
        pixel < 255 ==> ring_start(r as int) <= pixel <= ring_end(r as int),
{
    if pixel == 255 {
        0
    } else if pixel >= 254 {
        0
    } else if pixel >= 248 {
        1
    } else if pixel >= 236 {
        2
    } else if pixel >= 216 {
        3
    } else if pixel >= 192 {
        4
    } else if pixel >= 164 {
        5
    } else if pixel >= 132 {
        6
    } else if pixel >= 92 {
        7
    } else if pixel >= 48 {
        8
    } else {
        9
    }
}

} // verus!
