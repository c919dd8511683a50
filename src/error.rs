//! The closed error taxonomy shared by every operation.
use vstd::prelude::*;
use vstd::string::*;

use crate::text::{hex_digits, push_hex};
use crate::time::{duration_text, Duration};

verus! {

/// Result of an operation of this library.
pub type MediaResult<T> = Result<T, MediaError>;

/// Every failure that an operation of this library can report.
#[derive(Debug, Clone, PartialEq, Eq)]
#[non_exhaustive]
pub enum MediaError {
    /// No adapter exists for the named host platform.
    NotSupported(String),
    /// The operation needs an active media session and none exists.
    NoSession,
    /// An adapter-level failure that no other variant describes.
    Backend {
        /// The platform whose adapter failed.
        platform: String,
        /// What the native layer reported.
        message: String,
    },
    /// A message-bus communication failure.
    DBusError(String),
    /// A native object-model call failed with the given HRESULT.
    ComError(u32),
    /// A call into the opaque native framework failed.
    ObjCError(String),
    /// The dispatcher's deadline passed before the operation completed.
    Timeout(Duration),
    /// An artwork payload is malformed.
    InvalidArtwork(String),
    /// A seek target lies beyond the known track length.
    SeekOutOfRange {
        /// The requested position.
        requested: Duration,
        /// The known length of the track.
        duration: Duration,
    },
    /// The operating system refused the operation.
    PermissionDenied(String),
    /// An argument lies outside its documented range.
    InvalidArgument(String),
}

/// The platform that an error is attributed to.
pub open spec fn error_platform(e: MediaError) -> Seq<char> {
    match e {
        MediaError::NotSupported(p) => p@,
        MediaError::Backend { platform, .. } => platform@,
        MediaError::DBusError(_) => "linux"@,
        MediaError::ComError(_) => "windows"@,
        MediaError::ObjCError(_) => "macos"@,
        _ => "unknown"@,
    }
}

/// Whether an error describes a transient condition that a caller may retry.
pub open spec fn error_is_retryable(e: MediaError) -> bool {
    match e {
        MediaError::Timeout(_) | MediaError::DBusError(_) | MediaError::ComError(_)
        | MediaError::Backend { .. } => true,
        _ => false,
    }
}

/// The human-readable message of an error.
pub open spec fn error_text(e: MediaError) -> Seq<char> {
    match e {
        MediaError::NotSupported(p) => "platform not supported: "@ + p@,
        MediaError::NoSession => "no active media session found"@,
        MediaError::Backend { platform, message } => "backend error on "@ + platform@ + ": "@
            + message@,
        MediaError::DBusError(m) => "D-Bus error: "@ + m@,
        MediaError::ComError(code) => "COM/WinRT initialization failed: HRESULT 0x"@ + hex_digits(
            code as nat,
            8,
        ),
        MediaError::ObjCError(m) => "Objective-C runtime error: "@ + m@,
        MediaError::Timeout(d) => "operation timed out after "@ + duration_text(d.millis as nat),
        MediaError::InvalidArtwork(m) => "invalid artwork data: "@ + m@,
        MediaError::SeekOutOfRange { requested, duration } => "seek position "@ + duration_text(
            requested.millis as nat,
        ) + " is out of range (track duration: "@ + duration_text(duration.millis as nat) + ")"@,
        MediaError::PermissionDenied(m) => "permission denied: "@ + m@,
        MediaError::InvalidArgument(m) => "invalid argument: "@ + m@,
    }
}

/// A `String` holding the text of `s`.
fn owned(s: &str) -> (r: String)
    ensures
        r@ == s@,
{
    String::from_str(s)
}

impl MediaError {
    /// Returns the platform name associated with this error, or `unknown`.
    pub fn platform(&self) -> (r: &str)
        ensures
            r@ == error_platform(*self),
    {
        match self {
            MediaError::NotSupported(p) => p.as_str(),
            MediaError::Backend { platform, .. } => platform.as_str(),
            MediaError::DBusError(_) => "linux",
            MediaError::ComError(_) => "windows",
            MediaError::ObjCError(_) => "macos",
            _ => "unknown",
        }
    }

    /// Returns the HRESULT code of a native object-model failure.
    pub fn hresult(&self) -> (r: Option<u32>)
        ensures
            r == (match *self {
                MediaError::ComError(code) => Some(code),
                _ => None,
            }),
    {
        match self {
            MediaError::ComError(code) => Some(*code),
            _ => None,
        }
    }

    /// Returns true if this error indicates a transient condition.
    pub fn is_retryable(&self) -> (r: bool)
        ensures
            r == error_is_retryable(*self),
    {
        match self {
            MediaError::Timeout(_) | MediaError::DBusError(_) | MediaError::ComError(_)
            | MediaError::Backend { .. } => true,
            _ => false,
        }
    }

    /// Renders the human-readable message of this error.
    pub fn to_string(&self) -> (r: String)
        ensures
            r@ == error_text(*self),
    {
        match self {
            MediaError::NotSupported(p) => owned("platform not supported: ").concat(p.as_str()),
            MediaError::NoSession => owned("no active media session found"),
            MediaError::Backend { platform, message } => owned("backend error on ").concat(
                platform.as_str(),
            ).concat(": ").concat(message.as_str()),
            MediaError::DBusError(m) => owned("D-Bus error: ").concat(m.as_str()),
            MediaError::ComError(code) => {
                let mut out = owned("COM/WinRT initialization failed: HRESULT 0x");
                push_hex(&mut out, *code as u64, 8);
                out
            },
            MediaError::ObjCError(m) => owned("Objective-C runtime error: ").concat(m.as_str()),
            MediaError::Timeout(d) => {
                let t = d.to_string();
                owned("operation timed out after ").concat(t.as_str())
            },
            MediaError::InvalidArtwork(m) => owned("invalid artwork data: ").concat(m.as_str()),
            MediaError::SeekOutOfRange { requested, duration } => {
                let a = requested.to_string();
                let b = duration.to_string();
                owned("seek position ").concat(a.as_str()).concat(
                    " is out of range (track duration: ",
                ).concat(b.as_str()).concat(")")
            },
            MediaError::PermissionDenied(m) => owned("permission denied: ").concat(m.as_str()),
            MediaError::InvalidArgument(m) => owned("invalid argument: ").concat(m.as_str()),
        }
    }
}

} // verus!
