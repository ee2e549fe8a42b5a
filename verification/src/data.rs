use vstd::prelude::*;
use crate::protocol::Request;

verus! {

/// What one capture holds: the pixel bytes, row by row from the top, three
/// bytes per pixel (blue, green, red), and the bitmap that backs them.
pub struct Frame {
    pub pixels: Seq<u8>,
    pub bitmap: isize,
}

/// The result of one capture. It owns its bytes and its bitmap, apart from the
/// manager and from every other capture.
#[derive(Debug)]
pub struct CaptureData {
    bits: Vec<u8>,
    bitmap: isize,
}

impl View for CaptureData {
    type V = Frame;

    closed spec fn view(&self) -> Frame {
        Frame { pixels: self.bits@, bitmap: self.bitmap }
    }
}

impl CaptureData {
    pub(crate) fn assemble(bits: Vec<u8>, bitmap: isize) -> (data: CaptureData)
        ensures
            data@.pixels == bits@,
            data@.bitmap == bitmap,
    {
        CaptureData { bits, bitmap }
    }

    /// The captured bytes: one pixel is three adjacent values, blue, green,
    /// red.
    pub fn get_bits(&self) -> (bits: &[u8])
        ensures
            bits@ == self@.pixels,
    {
        self.bits.as_slice()
    }

    /// The handle of the bitmap that backs the bytes.
    pub fn bitmap(&self) -> (handle: isize)
        ensures
            handle == self@.bitmap,
    {
        self.bitmap
    }

    /// Ends the capture's life: the one request that destroys its bitmap. The
    /// bytes go with the value.
    pub fn release(self) -> (request: Request)
        ensures
            request == (Request::DeleteBitmap { bitmap: self@.bitmap }),
    {
        Request::DeleteBitmap { bitmap: self.bitmap }
    }
}

} // verus!
