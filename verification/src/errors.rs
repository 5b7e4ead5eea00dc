use vstd::prelude::*;

verus! {

/// Errors that the capture pipeline reports to its caller.
///
/// Failures that happen inside the frame-arrived callback are forwarded to
/// the blocked caller through the hand-off slot, never dropped; resolution
/// errors are a separate type because they are reported before any device or
/// capture resource exists.
#[derive(Clone, Copy, Debug, PartialEq, Eq, Structural)]
pub enum CaptureError {
    /// No compatible adapter or driver was available when creating the device.
    DeviceCreation,
    /// The device could not allocate a texture.
    ResourceAllocation,
    /// A resource copy was requested between textures of different shape.
    CopyMismatch,
    /// A map-for-read was requested on a texture the CPU cannot read.
    InvalidMapTarget,
    /// The frame pool had no frame ready; recoverable, tolerated internally.
    NoFrameAvailable,
    /// No frame arrived before the bounded wait ran out.
    CaptureTimeout,
    /// The encoded image could not be written out.
    Encoding,
}

/// Errors in turning a user selection into a capture target.
#[derive(Clone, Copy, Debug, PartialEq, Eq, Structural)]
pub enum TargetResolutionError {
    /// The display index was zero or larger than the number of displays.
    InvalidDisplayIndex,
    /// No window title contained the query.
    NoWindowMatch,
}

} // verus!
