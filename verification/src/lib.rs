//! Screen capture as a verified session model.
//!
//! A capture session talks to the graphics subsystem of the host: it asks for
//! drawing surfaces, for a bitmap, for a block copy. This library decides what
//! is asked and in which order, what each answer leads to, which error a
//! failure becomes, and what has to be released; the caller performs each
//! [`Request`] and hands the [`Reply`] back. Every decision is a total function
//! with an exact contract.

pub mod error;
pub mod format;
pub mod protocol;
pub mod capture;
pub mod setup;
pub mod manager;
pub mod data;
pub mod laws;

pub use crate::capture::{Capture, Stage};
pub use crate::data::{CaptureData, Frame};
pub use crate::error::CaptureError;
pub use crate::format::{PixelFormat, region_len};
pub use crate::manager::{CaptureManager, ManagerState};
pub use crate::protocol::{Reply, Request, Step};
pub use crate::setup::{Setup, SetupStage};
