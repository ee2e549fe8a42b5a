use vstd::prelude::*;
use crate::error::CaptureError;
use crate::manager::{CaptureManager, ManagerState};
use crate::protocol::{Reply, Request, Step};

verus! {

/// How far the setting up of a manager has come.
#[derive(Clone, Copy, Debug, PartialEq, Eq, Structural)]
pub enum SetupStage {
    /// Awaits the source surface of the target.
    Source,
    /// Holds the source surface and awaits the work surface.
    Work(isize),
    /// Awaits the release of the source surface, after which the setting up
    /// fails.
    Unwind,
}

/// A manager that is being set up: what it was asked for, and the stage.
#[derive(Clone, Copy, Debug, PartialEq, Eq)]
pub struct Setup {
    pub target: isize,
    pub top_left: (i32, i32),
    pub region_size: (i32, i32),
    pub stage: SetupStage,
}

impl Setup {
    /// The setting up at another stage.
    pub open spec fn at(self, stage: SetupStage) -> Setup {
        Setup { stage, ..self }
    }

    /// The first step of setting up a manager for the window `target`: the
    /// request for its drawing surface.
    pub open spec fn begin(target: isize, top_left: (i32, i32), region_size: (i32, i32)) -> Step<
        Setup,
        ManagerState,
    > {
        Step::Next(
            Setup { target, top_left, region_size, stage: SetupStage::Source },
            Request::AcquireSurface { target },
        )
    }

    /// The decision that follows the answer `reply` to the pending request.
    ///
    /// Without a source surface nothing else is asked for. Without a work
    /// surface the source surface goes back before the failure is reported.
    /// Neither the origin nor the size is looked at.
    pub open spec fn after(self, reply: Reply) -> Step<Setup, ManagerState> {
        match self.stage {
            SetupStage::Source => match reply {
                Reply::Handle(source) => Step::Next(
                    self.at(SetupStage::Work(source)),
                    Request::CreateWorkSurface { source },
                ),
                _ => Step::Failed(CaptureError::Acquisition),
            },
            SetupStage::Work(source) => match reply {
                Reply::Handle(work) => Step::Done(
                    ManagerState {
                        target: self.target,
                        source,
                        work,
                        top_left: self.top_left,
                        region_size: self.region_size,
                    },
                ),
                _ => Step::Next(
                    self.at(SetupStage::Unwind),
                    Request::ReleaseSurface { target: self.target, source },
                ),
            },
            SetupStage::Unwind => Step::Failed(CaptureError::Acquisition),
        }
    }

    /// Takes the answer to the pending request and decides how the setting up
    /// goes on.
    pub fn step(self, reply: Reply) -> (step: Step<Setup, CaptureManager>)
        ensures
            step.outcome() == self.after(reply),
    {
        match self.stage {
            SetupStage::Source => match reply {
                Reply::Handle(source) => Step::Next(
                    self.moved_to(SetupStage::Work(source)),
                    Request::CreateWorkSurface { source },
                ),
                _ => Step::Failed(CaptureError::Acquisition),
            },
            SetupStage::Work(source) => match reply {
                Reply::Handle(work) => Step::Done(
                    CaptureManager::assemble(
                        self.target,
                        source,
                        work,
                        self.top_left,
                        self.region_size,
                    ),
                ),
                _ => Step::Next(
                    self.moved_to(SetupStage::Unwind),
                    Request::ReleaseSurface { target: self.target, source },
                ),
            },
            SetupStage::Unwind => Step::Failed(CaptureError::Acquisition),
        }
    }

    fn moved_to(self, stage: SetupStage) -> (next: Setup)
        ensures
            next == self.at(stage),
    {
        Setup {
            target: self.target,
            top_left: self.top_left,
            region_size: self.region_size,
            stage,
        }
    }
}

} // verus!
