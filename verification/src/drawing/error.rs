//! What can go wrong while a frame is drawn.

use vstd::prelude::*;
use vstd::std_specs::convert::FromSpecImpl;

verus! {

/// An error that the device reported.
#[derive(Clone, Copy, Debug, PartialEq, Eq, Structural)]
pub enum VulkanError {
    /// A result is not ready yet.
    NotReady,
    /// A wait ran out of time.
    Timeout,
    /// The host has no memory left.
    OutOfHostMemory,
    /// The device has no memory left.
    OutOfDeviceMemory,
    /// The device was lost.
    DeviceLost,
    /// The surface has changed and the swapchain no longer fits it.
    OutOfDate,
    /// The surface is gone.
    SurfaceLost,
    /// The swapchain lost its exclusive hold of the screen.
    FullScreenExclusiveModeLost,
    /// Any other error.
    Other,
}

/// Why a frame was not drawn.
#[derive(Clone, Copy, Debug, PartialEq, Eq, Structural)]
pub enum DrawingError {
    /// The swapchain is stale and has to be rebuilt before the next frame.
    /// This is the one outcome that drawing recovers from.
    ObsoleteSwapchain,
    /// The device failed. Drawing does not recover from this.
    VulkanError(VulkanError),
}

impl DrawingError {
    /// The drawing error that a device error amounts to: a surface that
    /// is out of date makes the swapchain obsolete, and every other
    /// device error is kept as it is.
    pub open spec fn spec_from(value: VulkanError) -> DrawingError {
        if value == VulkanError::OutOfDate {
            DrawingError::ObsoleteSwapchain
        } else {
            DrawingError::VulkanError(value)
        }
    }

    /// Whether drawing can go on once the swapchain is rebuilt.
    pub open spec fn spec_is_recoverable(&self) -> bool {
        *self == DrawingError::ObsoleteSwapchain
    }

    /// Whether drawing can go on once the swapchain is rebuilt.
    #[verifier::when_used_as_spec(spec_is_recoverable)]
    pub fn is_recoverable(&self) -> (b: bool)
        ensures
            b == self.spec_is_recoverable(),
    {
        match self {
            DrawingError::ObsoleteSwapchain => true,
            DrawingError::VulkanError(_) => false,
        }
    }
}

impl From<VulkanError> for DrawingError {
    /// A surface that is out of date makes the swapchain obsolete; every
    /// other device error is kept as it is.
    fn from(value: VulkanError) -> (e: DrawingError) {
        match value {
            VulkanError::OutOfDate => DrawingError::ObsoleteSwapchain,
            _ => DrawingError::VulkanError(value),
        }
    }
}

impl FromSpecImpl<VulkanError> for DrawingError {
    open spec fn obeys_from_spec() -> bool {
        true
    }

    open spec fn from_spec(value: VulkanError) -> DrawingError {
        DrawingError::spec_from(value)
    }
}

/// Only a surface that is out of date is recoverable.
pub proof fn recoverable_iff_out_of_date(value: VulkanError)
    ensures
        DrawingError::spec_from(value).spec_is_recoverable() <==> value == VulkanError::OutOfDate,
{
}

} // verus!
