//! The error taxonomy of the core: every upstream or user failure is
//! classified into one of these variants and surfaced as a short
//! user-facing message; nothing panics on bad external input.
use vstd::prelude::*;

verus! {

/// Why a handshake step or a dispatched action failed.
#[derive(Clone, Copy, Debug, PartialEq, Eq, Structural)]
pub enum CoreError {
    /// The chat has no linked account; the user must authenticate first.
    NotAuthenticated,
    /// A callback carried a request token with no pending authorization
    /// (stale, replayed or forged).
    UnknownToken,
    /// The remote service answered with a non-success status.
    UpstreamRejected,
    /// The remote service answered with a body the core cannot decode,
    /// or the callback-confirmed flag was false.
    ProtocolViolation,
    /// The media upload step of an action failed.
    MediaUploadFailed,
    /// A command string did not have the shape the command requires.
    MalformedCommand,
}

impl CoreError {
    /// The plain-text outcome string shown to the user for this failure.
    pub fn message(&self) -> (r: String)
        ensures
            r@ == self.spec_message(),
    {
        match self {
            CoreError::NotAuthenticated => String::from_str("Please /authenticate first"),
            CoreError::UnknownToken => String::from_str("Unknown or expired authorization"),
            CoreError::UpstreamRejected => String::from_str("The service rejected the request"),
            CoreError::ProtocolViolation => String::from_str("Unexpected answer from the service"),
            CoreError::MediaUploadFailed => String::from_str("Failed to upload media"),
            CoreError::MalformedCommand => String::from_str("Invalid command"),
        }
    }

    pub open spec fn spec_message(self) -> Seq<char> {
        match self {
            CoreError::NotAuthenticated => "Please /authenticate first"@,
            CoreError::UnknownToken => "Unknown or expired authorization"@,
            CoreError::UpstreamRejected => "The service rejected the request"@,
            CoreError::ProtocolViolation => "Unexpected answer from the service"@,
            CoreError::MediaUploadFailed => "Failed to upload media"@,
            CoreError::MalformedCommand => "Invalid command"@,
        }
    }
}

} // verus!
