//! Error taxonomy of the protocol library.

use vstd::prelude::*;

verus! {

/// Everything that can go wrong inside the codec and catalog layers.
///
/// Transport-level failures (timeouts, device errors) belong to the external
/// transport and are reported to the poll loop as receive outcomes, not as
/// values of this type.
#[derive(Clone, Copy, Debug, PartialEq, Eq, Structural)]
pub enum ProtocolError {
    /// A catalog lookup was made with a name that the catalog does not hold.
    UnknownCommand,
    /// An inbound event frame was shorter than its two-byte header.
    FrameTooShort,
    /// A status report buffer was shorter than the five bytes the layout needs.
    BufferTooShort,
}

impl ProtocolError {
    /// A human-readable description of the error.
    pub fn describe(&self) -> (r: &'static str)
        ensures
            r@ == match *self {
                ProtocolError::UnknownCommand => "unknown command name"@,
                ProtocolError::FrameTooShort => "event frame too short"@,
                ProtocolError::BufferTooShort => "report buffer too short"@,
            },
    {
        match *self {
            ProtocolError::UnknownCommand => "unknown command name",
            ProtocolError::FrameTooShort => "event frame too short",
            ProtocolError::BufferTooShort => "report buffer too short",
        }
    }
}

} // verus!
