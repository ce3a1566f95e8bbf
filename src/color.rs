//! Quantization of color channels to 8-bit values.
//!
//! A channel `c`, already gamma-corrected, is scaled to a level
//! `floor(c * 255.999)`; for `c` in `[0, 1]` the level lies in `[0, 255]`.
//! Channels outside that range must saturate rather than wrap, so the level
//! is clamped before it becomes a byte.

use vstd::prelude::*;

verus! {

/// The largest byte value a channel can take.
pub const CHANNEL_MAX: i64 = 255;

/// The byte for a channel level: the level itself where it fits, else the
/// nearer end of `[0, 255]`.
pub open spec fn clamp_level(level: int) -> int {
    if level < 0 {
        0
    } else if level > CHANNEL_MAX {
        CHANNEL_MAX as int
    } else {
        level
    }
}

/// Saturating conversion of one channel level to a byte.
pub fn channel_byte(level: i64) -> (r: u8)
    ensures
        r as int == clamp_level(level as int),
{
    if level < 0 {
        0
    } else if level > CHANNEL_MAX {
        255
    } else {
        level as u8
    }
}

/// The three bytes of a pixel, from the levels of its red, green and blue
/// channels.
pub fn rgb_bytes(levels: [i64; 3]) -> (r: [u8; 3])
    ensures
        forall|k: int| 0 <= k < 3 ==> #[trigger] r@[k] as int == clamp_level(levels@[k] as int),
{
    let r = [channel_byte(levels[0]), channel_byte(levels[1]), channel_byte(levels[2])];
    assert forall|k: int| 0 <= k < 3 implies #[trigger] r@[k] as int == clamp_level(levels@[k] as int) by {
        if k == 0 {
        } else if k == 1 {
        } else {
        }
    }
    r
}

} // verus!
