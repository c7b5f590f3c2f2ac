//! What can end a capture early.

use vstd::prelude::*;

verus! {

/// Why the buffer pool could not hand out a buffer.
#[derive(Clone, Copy, Debug, PartialEq, Eq, Structural)]
pub enum AllocationError {
    /// The memory behind the buffer could not be obtained.
    ResourceExhausted,
}

/// Why a capture produced no image. Each of these ends the frame it occurs on.
#[derive(Clone, Copy, Debug, PartialEq, Eq, Structural)]
pub enum FrameCaptureError {
    /// The compositor offered no shared-memory buffer.
    UnsupportedBufferKind,
    /// The buffer pool could not allocate the selected buffer.
    Allocation(AllocationError),
    /// The captured buffer has a pixel layout with no known conversion.
    UnsupportedPixelFormat,
    /// The compositor reported that the copy failed.
    CaptureFailed,
    /// The connection to the compositor failed while events were dispatched.
    Transport,
}

impl FrameCaptureError {
    /// The text shown to a user for this error.
    pub open spec fn spec_message(self) -> Seq<char> {
        match self {
            FrameCaptureError::UnsupportedBufferKind =>
                "Captured frame doesn't have a compatible buffer type"@,
            FrameCaptureError::Allocation(_) => "Unable to create a buffer for the frame"@,
            FrameCaptureError::UnsupportedPixelFormat => "Frame format unsupported"@,
            FrameCaptureError::CaptureFailed => "Error when capturing frame"@,
            FrameCaptureError::Transport => "Queue dispatch error when capturing frame"@,
        }
    }

    /// The text shown to a user for this error.
    pub fn message(&self) -> (text: String)
        ensures
            text@ == self.spec_message(),
    {
        match self {
            FrameCaptureError::UnsupportedBufferKind =>
                "Captured frame doesn't have a compatible buffer type".to_owned(),
            FrameCaptureError::Allocation(_) => "Unable to create a buffer for the frame".to_owned(),
            FrameCaptureError::UnsupportedPixelFormat => "Frame format unsupported".to_owned(),
            FrameCaptureError::CaptureFailed => "Error when capturing frame".to_owned(),
            FrameCaptureError::Transport => "Queue dispatch error when capturing frame".to_owned(),
        }
    }
}

} // verus!
