//! What a PNG byte stream says about its own size: the eight-byte
//! signature is followed by the IHDR chunk (four bytes of length, four of
//! type), so the image width and height stand at byte offsets 16 and 20,
//! big-endian.

use vstd::prelude::*;

verus! {

/// The width recorded in the PNG header of `b`.
pub open spec fn spec_png_width(b: Seq<u8>) -> int
    recommends
        b.len() >= 24,
{
    (b[16] as int) * 0x1000000 + (b[17] as int) * 0x10000 + (b[18] as int) * 0x100 + (b[19] as int)
}

/// The height recorded in the PNG header of `b`.
pub open spec fn spec_png_height(b: Seq<u8>) -> int
    recommends
        b.len() >= 24,
{
    (b[20] as int) * 0x1000000 + (b[21] as int) * 0x10000 + (b[22] as int) * 0x100 + (b[23] as int)
}

} // verus!
