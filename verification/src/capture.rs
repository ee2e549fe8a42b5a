use vstd::prelude::*;
use crate::data::{CaptureData, Frame};
use crate::error::CaptureError;
use crate::format::{buffer_len, has_buffer, region_len};
use crate::protocol::{Reply, Request, Step};

verus! {

/// How far a capture has come. Each stage names the request whose answer is
/// awaited; from `Select` on it carries the bitmap that the capture created.
#[derive(Clone, Copy, Debug, PartialEq, Eq, Structural)]
pub enum Stage {
    /// Awaits the bitmap.
    Allocate,
    /// Awaits the selection of the bitmap into the work surface.
    Select(isize),
    /// Awaits the block copy.
    Copy(isize),
    /// Awaits the bytes.
    Read(isize),
    /// Awaits the destruction of the bitmap, after which the capture fails
    /// with the error carried.
    Discard(CaptureError),
}

/// A capture in progress: the geometry and the surfaces that it was begun
/// with, and its stage. A change to the manager does not reach it.
#[derive(Clone, Copy, Debug, PartialEq, Eq)]
pub struct Capture {
    pub source: isize,
    pub work: isize,
    pub top_left: (i32, i32),
    pub region_size: (i32, i32),
    pub stage: Stage,
}

impl Capture {
    /// The capture at another stage.
    pub open spec fn at(self, stage: Stage) -> Capture {
        Capture { stage, ..self }
    }

    /// The decision that follows the answer `reply` to the pending request.
    ///
    /// A bitmap that was created is destroyed on every path that does not
    /// hand it on in a `Frame`. What the selection answers is not looked at.
    /// Bytes are accepted only in the exact length of the region's buffer.
    pub open spec fn after(self, reply: Reply) -> Step<Capture, Frame> {
        match self.stage {
            Stage::Allocate => match reply {
                Reply::Handle(bitmap) => Step::Next(
                    self.at(Stage::Select(bitmap)),
                    Request::SelectBitmap { work: self.work, bitmap },
                ),
                _ => Step::Failed(CaptureError::Allocation),
            },
            Stage::Select(bitmap) => Step::Next(
                self.at(Stage::Copy(bitmap)),
                Request::CopyRegion {
                    work: self.work,
                    source: self.source,
                    top_left: self.top_left,
                    region_size: self.region_size,
                },
            ),
            Stage::Copy(bitmap) => match reply {
                Reply::Done => if has_buffer(self.region_size) {
                    Step::Next(
                        self.at(Stage::Read(bitmap)),
                        Request::ReadPixels {
                            bitmap,
                            len: buffer_len(self.region_size) as usize,
                        },
                    )
                } else {
                    Step::Next(
                        self.at(Stage::Discard(CaptureError::Allocation)),
                        Request::DeleteBitmap { bitmap },
                    )
                },
                _ => Step::Next(
                    self.at(Stage::Discard(CaptureError::Copy)),
                    Request::DeleteBitmap { bitmap },
                ),
            },
            Stage::Read(bitmap) => match reply {
                Reply::Pixels(bytes) => if bytes@.len() == buffer_len(self.region_size) {
                    Step::Done(Frame { pixels: bytes@, bitmap })
                } else {
                    Step::Next(
                        self.at(Stage::Discard(CaptureError::Copy)),
                        Request::DeleteBitmap { bitmap },
                    )
                },
                _ => Step::Next(
                    self.at(Stage::Discard(CaptureError::Copy)),
                    Request::DeleteBitmap { bitmap },
                ),
            },
            Stage::Discard(error) => Step::Failed(error),
        }
    }

    /// Takes the answer to the pending request and decides how the capture
    /// goes on.
    pub fn step(self, reply: Reply) -> (step: Step<Capture, CaptureData>)
        ensures
            step.outcome() == self.after(reply),
    {
        match self.stage {
            Stage::Allocate => match reply {
                Reply::Handle(bitmap) => Step::Next(
                    self.moved_to(Stage::Select(bitmap)),
                    Request::SelectBitmap { work: self.work, bitmap },
                ),
                _ => Step::Failed(CaptureError::Allocation),
            },
            Stage::Select(bitmap) => Step::Next(
                self.moved_to(Stage::Copy(bitmap)),
                Request::CopyRegion {
                    work: self.work,
                    source: self.source,
                    top_left: self.top_left,
                    region_size: self.region_size,
                },
            ),
            Stage::Copy(bitmap) => match reply {
                Reply::Done => match region_len(self.region_size) {
                    Some(len) => Step::Next(
                        self.moved_to(Stage::Read(bitmap)),
                        Request::ReadPixels { bitmap, len },
                    ),
                    None => self.discard(bitmap, CaptureError::Allocation),
                },
                _ => self.discard(bitmap, CaptureError::Copy),
            },
            Stage::Read(bitmap) => match reply {
                Reply::Pixels(bytes) => {
                    let count: usize = bytes.len();
                    match region_len(self.region_size) {
                        Some(len) => if count == len {
                            Step::Done(CaptureData::assemble(bytes, bitmap))
                        } else {
                            self.discard(bitmap, CaptureError::Copy)
                        },
                        None => self.discard(bitmap, CaptureError::Copy),
                    }
                },
                _ => self.discard(bitmap, CaptureError::Copy),
            },
            Stage::Discard(error) => Step::Failed(error),
        }
    }

    fn moved_to(self, stage: Stage) -> (next: Capture)
        ensures
            next == self.at(stage),
    {
        Capture {
            source: self.source,
            work: self.work,
            top_left: self.top_left,
            region_size: self.region_size,
            stage,
        }
    }

    fn discard(self, bitmap: isize, error: CaptureError) -> (step: Step<Capture, CaptureData>)
        ensures
            step == Step::<Capture, CaptureData>::Next(
                self.at(Stage::Discard(error)),
                Request::DeleteBitmap { bitmap },
            ),
    {
        Step::Next(self.moved_to(Stage::Discard(error)), Request::DeleteBitmap { bitmap })
    }
}

} // verus!
