use vstd::prelude::*;

verus! {

/// Everything that can go wrong between enumerating content and sending a frame.
#[derive(Clone, Copy, Debug, PartialEq, Eq, Structural)]
pub enum CaptureError {
    /// The host could not list the capturable content.
    ContentUnavailable,
    /// A filter was asked for without a valid source to build it on.
    FilterConstructionError,
    /// The session could not be brought to the running state.
    SessionStartError,
    /// The frame delegate could not be attached to the session.
    DelegateRegistrationError,
    /// The transport could not allocate a sender.
    SenderConstructionError,
    /// A single frame could not be read; that frame is dropped.
    FrameDeliveryError,
}

impl CaptureError {
    /// Whether the error ends the flow it occurred in. Only the loss of a
    /// single frame leaves the session running.
    pub fn is_fatal(&self) -> (fatal: bool)
        ensures
            fatal == (*self != CaptureError::FrameDeliveryError),
    {
        match self {
            CaptureError::FrameDeliveryError => false,
            _ => true,
        }
    }

    /// A short description for logs and user interfaces.
    pub fn message(&self) -> (text: &'static str)
        ensures
            text@ == (match *self {
                CaptureError::ContentUnavailable => "failed to list shareable content"@,
                CaptureError::FilterConstructionError => "no valid source for the content filter"@,
                CaptureError::SessionStartError => "failed to start capture"@,
                CaptureError::DelegateRegistrationError => "failed to attach the stream output"@,
                CaptureError::SenderConstructionError => "failed to create the network sender"@,
                CaptureError::FrameDeliveryError => "failed to read a frame buffer"@,
            }),
    {
        match self {
            CaptureError::ContentUnavailable => "failed to list shareable content",
            CaptureError::FilterConstructionError => "no valid source for the content filter",
            CaptureError::SessionStartError => "failed to start capture",
            CaptureError::DelegateRegistrationError => "failed to attach the stream output",
            CaptureError::SenderConstructionError => "failed to create the network sender",
            CaptureError::FrameDeliveryError => "failed to read a frame buffer",
        }
    }
}

} // verus!
