use vstd::prelude::*;

verus! {

/// Bytes in the buffer of a region `wh` (width, height): three per pixel.
pub open spec fn buffer_len(wh: (i32, i32)) -> int {
    wh.0 * wh.1 * 3
}

/// Whether a buffer for the region `wh` can exist on this machine.
pub open spec fn has_buffer(wh: (i32, i32)) -> bool {
    0 <= buffer_len(wh) <= usize::MAX
}

/// The height field that asks for top-down rows: the negated height. The one
/// height whose negation does not fit in 32 bits stands for itself.
pub open spec fn top_down(height: i32) -> i32 {
    if height == i32::MIN {
        height
    } else {
        (-height) as i32
    }
}

/// The fixed-size descriptor of a pixel buffer, field for field the bitmap
/// header that the graphics subsystem reads.
#[derive(Clone, Copy, Debug, PartialEq, Eq, Structural)]
pub struct PixelFormat {
    pub header_size: u32,
    pub width: i32,
    /// Negative for top-down rows.
    pub height: i32,
    pub planes: u16,
    pub bit_count: u16,
    pub compression: u32,
    pub size_image: u32,
    pub x_pels_per_meter: i32,
    pub y_pels_per_meter: i32,
    pub colors_used: u32,
    pub colors_important: u32,
}

impl PixelFormat {
    /// The format of every buffer of the region `wh`: 24 bits per pixel, one
    /// plane, uncompressed, no colour table, rows from the top down.
    pub open spec fn of_region(wh: (i32, i32)) -> PixelFormat {
        PixelFormat {
            header_size: 40,
            width: wh.0,
            height: top_down(wh.1),
            planes: 1,
            bit_count: 24,
            compression: 0,
            size_image: 0,
            x_pels_per_meter: 0,
            y_pels_per_meter: 0,
            colors_used: 0,
            colors_important: 0,
        }
    }

    /// Builds the format for the region `wh`.
    pub fn for_region(wh: (i32, i32)) -> (format: PixelFormat)
        ensures
            format == Self::of_region(wh),
    {
        PixelFormat {
            header_size: 40,
            width: wh.0,
            height: negated(wh.1),
            planes: 1,
            bit_count: 24,
            compression: 0,
            size_image: 0,
            x_pels_per_meter: 0,
            y_pels_per_meter: 0,
            colors_used: 0,
            colors_important: 0,
        }
    }
}

/// Negates a height for the format's height field.
pub fn negated(height: i32) -> (r: i32)
    ensures
        r == top_down(height),
{
    if height == i32::MIN {
        height
    } else {
        -height
    }
}

/// The buffer length of the region `wh`, where there is one: the product is
/// taken exactly, and `None` says that it is negative or beyond `usize`.
pub fn region_len(wh: (i32, i32)) -> (len: Option<usize>)
    ensures
        len is Some <==> has_buffer(wh),
        len is Some ==> len.unwrap() == buffer_len(wh),
{
    let w: i64 = wh.0 as i64;
    let h: i64 = wh.1 as i64;
    assert(-0x4000_0000_0000_0000 <= w * h <= 0x4000_0000_0000_0000) by (nonlinear_arith)
        requires
            -0x8000_0000 <= w <= 0x7fff_ffff,
            -0x8000_0000 <= h <= 0x7fff_ffff,
    ;
    let area: i64 = w * h;
    if area < 0 {
        return None;
    }
    let bytes: u64 = (area as u64) * 3;
    if bytes > usize::MAX as u64 {
        None
    } else {
        Some(bytes as usize)
    }
}

} // verus!
