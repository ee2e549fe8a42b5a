use vstd::prelude::*;
use crate::error::CaptureError;
use crate::format::PixelFormat;

verus! {

/// One thing asked of the graphics subsystem. Handles are the subsystem's own
/// numbers, carried as they are.
#[derive(Clone, Copy, Debug, PartialEq, Eq)]
pub enum Request {
    /// The live drawing surface of the window `target` (0: the whole desktop).
    AcquireSurface { target: isize },
    /// An in-memory drawing surface compatible with `source`.
    CreateWorkSurface { source: isize },
    /// A bitmap with pixel memory of the given format, in the colours of
    /// `source`.
    CreateBitmap { source: isize, format: PixelFormat },
    /// Make `bitmap` the drawing target of `work`.
    SelectBitmap { work: isize, bitmap: isize },
    /// Copy the region of `source` at `top_left`, `region_size` wide and high,
    /// to the origin of `work`.
    CopyRegion { work: isize, source: isize, top_left: (i32, i32), region_size: (i32, i32) },
    /// The first `len` bytes of the pixel memory of `bitmap`.
    ReadPixels { bitmap: isize, len: usize },
    /// Give `source` back to the window `target`.
    ReleaseSurface { target: isize, source: isize },
    /// Destroy the in-memory surface `work`.
    DeleteSurface { work: isize },
    /// Destroy `bitmap` and its pixel memory.
    DeleteBitmap { bitmap: isize },
}

/// What the graphics subsystem answered to one request.
#[derive(Debug, PartialEq, Eq)]
pub enum Reply {
    /// The handle that was asked for.
    Handle(isize),
    /// The request was carried out and hands nothing back.
    Done,
    /// The bytes that were asked for.
    Pixels(Vec<u8>),
    /// The request failed.
    Failed,
}

/// Where an operation stands after a decision: it waits in state `S` for the
/// answer to a request, it has produced its `T`, or it has failed.
#[derive(Debug, PartialEq, Eq)]
pub enum Step<S, T> {
    Next(S, Request),
    Done(T),
    Failed(CaptureError),
}

impl<S, T> Step<S, T> {
    /// Where the operation stands once the answers `replies` have come in, one
    /// for each request in turn, `after` being the decision that follows an
    /// answer. Answers beyond the operation's end are not looked at.
    pub open spec fn run(self, after: spec_fn(S, Reply) -> Step<S, T>, replies: Seq<Reply>) -> Step<
        S,
        T,
    >
        decreases replies.len(),
    {
        if replies.len() == 0 {
            self
        } else {
            match self {
                Step::Next(state, _) => after(state, replies[0]).run(after, replies.drop_first()),
                _ => self,
            }
        }
    }

    /// The requests made while the answers `replies` come in, in order: the
    /// one that is pending at first, then the one that follows each answer.
    pub open spec fn asked(
        self,
        after: spec_fn(S, Reply) -> Step<S, T>,
        replies: Seq<Reply>,
    ) -> Seq<Request>
        decreases replies.len(),
    {
        match self {
            Step::Next(state, request) => if replies.len() == 0 {
                seq![request]
            } else {
                seq![request] + after(state, replies[0]).asked(after, replies.drop_first())
            },
            _ => Seq::empty(),
        }
    }
}

impl<S, T: View> Step<S, T> {
    /// The same step with what it produced taken by its view.
    pub open spec fn outcome(self) -> Step<S, T::V> {
        match self {
            Step::Next(state, request) => Step::Next(state, request),
            Step::Done(value) => Step::Done(value@),
            Step::Failed(error) => Step::Failed(error),
        }
    }
}

} // verus!
