use vstd::prelude::*;
use crate::frame::FrameError;

verus! {

/// A capability that was asked for and is not available.
#[derive(Clone, Copy, Debug, PartialEq, Eq, Structural)]
pub enum Capability {
    ValidationLayer,
    DeviceExtension,
}

/// The renderer's failures. All of them are fatal.
#[derive(Clone, Copy, Debug, PartialEq, Eq, Structural)]
pub enum EngineError {
    /// Creating an instance, device, swapchain or pipeline object failed.
    Initialization,
    /// No adapter passed the suitability checks.
    NoSuitableDevice,
    /// A requested layer or extension is missing.
    MissingCapability(Capability),
    /// Acquire, submit or present failed, or the driver's answers broke the
    /// frame protocol.
    Frame(FrameError),
}

} // verus!
