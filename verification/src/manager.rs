use vstd::prelude::*;
use crate::capture::{Capture, Stage};
use crate::data::{CaptureData, Frame};
use crate::error::CaptureError;
use crate::format::{has_buffer, region_len, PixelFormat};
use crate::protocol::{Request, Step};
use crate::setup::{Setup, SetupStage};

verus! {

/// What a manager is: the window it captures from, its two surfaces, and the
/// region that the next capture copies.
pub struct ManagerState {
    pub target: isize,
    pub source: isize,
    pub work: isize,
    pub top_left: (i32, i32),
    pub region_size: (i32, i32),
}

impl ManagerState {
    /// The same manager with another region. The surfaces stay.
    pub open spec fn resized(self, top_left: (i32, i32), region_size: (i32, i32)) -> ManagerState {
        ManagerState { top_left, region_size, ..self }
    }

    /// The first step of a capture: the request for a bitmap in the format of
    /// the region, or at once the failure of a region that has no buffer.
    pub open spec fn begin_capture(self) -> Step<Capture, Frame> {
        if has_buffer(self.region_size) {
            Step::Next(
                Capture {
                    source: self.source,
                    work: self.work,
                    top_left: self.top_left,
                    region_size: self.region_size,
                    stage: Stage::Allocate,
                },
                Request::CreateBitmap {
                    source: self.source,
                    format: PixelFormat::of_region(self.region_size),
                },
            )
        } else {
            Step::Failed(CaptureError::Allocation)
        }
    }

    /// The two requests that end the manager's life: the source surface goes
    /// back to its window, the work surface is destroyed.
    pub open spec fn teardown(self) -> (Request, Request) {
        (
            Request::ReleaseSurface { target: self.target, source: self.source },
            Request::DeleteSurface { work: self.work },
        )
    }
}

/// Holds what screen captures of one window need, over any number of
/// captures.
///
/// A manager comes out of [`CaptureManager::new`] and the steps that follow
/// it. Its pixel format describes its region at all times.
#[derive(Debug)]
pub struct CaptureManager {
    top_left: (i32, i32),
    region_size: (i32, i32),
    source: isize,
    work: isize,
    target: isize,
    format: PixelFormat,
}

impl View for CaptureManager {
    type V = ManagerState;

    closed spec fn view(&self) -> ManagerState {
        ManagerState {
            target: self.target,
            source: self.source,
            work: self.work,
            top_left: self.top_left,
            region_size: self.region_size,
        }
    }
}

impl CaptureManager {
    #[verifier::type_invariant]
    spec fn format_describes_region(self) -> bool {
        self.format == PixelFormat::of_region(self.region_size)
    }

    pub(crate) fn assemble(
        target: isize,
        source: isize,
        work: isize,
        top_left: (i32, i32),
        region_size: (i32, i32),
    ) -> (manager: CaptureManager)
        ensures
            manager@ == (ManagerState { target, source, work, top_left, region_size }),
    {
        CaptureManager {
            top_left,
            region_size,
            source,
            work,
            target,
            format: PixelFormat::for_region(region_size),
        }
    }

    /// Begins the setting up of a manager for the window `target` (0: the
    /// whole desktop) and the region at `top_left` of size `region_size`
    /// (width, height). Neither pair is judged here.
    pub fn new(target: isize, top_left: (i32, i32), region_size: (i32, i32)) -> (step: Step<
        Setup,
        CaptureManager,
    >)
        ensures
            step.outcome() == Setup::begin(target, top_left, region_size),
    {
        Step::Next(
            Setup { target, top_left, region_size, stage: SetupStage::Source },
            Request::AcquireSurface { target },
        )
    }

    /// Begins a capture of the current region. The manager is not changed,
    /// and the capture takes nothing from it but a copy of its state.
    pub fn capture(&self) -> (step: Step<Capture, CaptureData>)
        ensures
            step.outcome() == self@.begin_capture(),
    {
        proof {
            use_type_invariant(self);
        }
        match region_len(self.region_size) {
            Some(_) => Step::Next(
                Capture {
                    source: self.source,
                    work: self.work,
                    top_left: self.top_left,
                    region_size: self.region_size,
                    stage: Stage::Allocate,
                },
                Request::CreateBitmap { source: self.source, format: self.format },
            ),
            None => Step::Failed(CaptureError::Allocation),
        }
    }

    /// Moves and resizes the region of the captures to come. Origin, size and
    /// pixel format change together; the surfaces are kept and nothing is
    /// asked of the graphics subsystem.
    pub fn change_size(&mut self, top_left: (i32, i32), region_size: (i32, i32))
        ensures
            final(self)@ == old(self)@.resized(top_left, region_size),
    {
        *self = CaptureManager {
            top_left,
            region_size,
            source: self.source,
            work: self.work,
            target: self.target,
            format: PixelFormat::for_region(region_size),
        };
    }

    /// Ends the manager's life: the two requests that give up its surfaces,
    /// one for each, whether or not a capture was ever made.
    pub fn release(self) -> (requests: (Request, Request))
        ensures
            requests == self@.teardown(),
    {
        (
            Request::ReleaseSurface { target: self.target, source: self.source },
            Request::DeleteSurface { work: self.work },
        )
    }

    /// The origin of the region in the source surface.
    pub fn top_left(&self) -> (top_left: (i32, i32))
        ensures
            top_left == self@.top_left,
    {
        self.top_left
    }

    /// Width and height of the region.
    pub fn region_size(&self) -> (region_size: (i32, i32))
        ensures
            region_size == self@.region_size,
    {
        self.region_size
    }

    /// The format of the buffers that captures yield: always that of the
    /// current region.
    pub fn pixel_format(&self) -> (format: PixelFormat)
        ensures
            format == PixelFormat::of_region(self@.region_size),
    {
        proof {
            use_type_invariant(self);
        }
        self.format
    }
}

} // verus!
