use vstd::prelude::*;

verus! {

/// Why a session could not be set up or a capture could not be made.
#[derive(Clone, Copy, Debug, PartialEq, Eq, Structural)]
pub enum CaptureError {
    /// A drawing surface could not be obtained. Only setting up a manager
    /// fails this way.
    Acquisition,
    /// The bitmap that backs a capture could not be created, or the region
    /// has no buffer length. Only a capture fails this way.
    Allocation,
    /// The block copy from the source surface failed, or did not yield the
    /// whole buffer. Only a capture fails this way.
    Copy,
}

} // verus!
