//! The error type shared by every stage of a send.

use rusb::Error as UsbError;
use vstd::prelude::*;

verus! {

/// Makes `rusb::Error` known to the verifier, which reads its fourteen
/// field-less variants from the `rusb` crate itself.
#[verifier::external_type_specification]
pub struct ExUsbError(UsbError);

/// Why a send did not complete.
///
/// `Parse` is raised for bad input, before any device is touched. Every
/// other variant carries one of the transport's failure kinds, one for one.
/// The lookup reports an absent device as `NotFound`, but the transport may
/// give that kind for a write as well: which of the two it was is told by
/// the phase that a failed send names beside the error, not by the error.
#[derive(Debug, Clone, Copy, PartialEq, Eq, Structural)]
pub enum Error {
    Io,
    InvalidParam,
    Access,
    NoDevice,
    NotFound,
    Busy,
    Timeout,
    Overflow,
    Pipe,
    Interrupted,
    NoMem,
    NotSupported,
    BadDescriptor,
    Other,
    Parse,
}

/// The library error that stands for a transport error.
pub open spec fn transport_kind(err: UsbError) -> Error {
    match err {
        UsbError::Io => Error::Io,
        UsbError::InvalidParam => Error::InvalidParam,
        UsbError::Access => Error::Access,
        UsbError::NoDevice => Error::NoDevice,
        UsbError::NotFound => Error::NotFound,
        UsbError::Busy => Error::Busy,
        UsbError::Timeout => Error::Timeout,
        UsbError::Overflow => Error::Overflow,
        UsbError::Pipe => Error::Pipe,
        UsbError::Interrupted => Error::Interrupted,
        UsbError::NoMem => Error::NoMem,
        UsbError::NotSupported => Error::NotSupported,
        UsbError::BadDescriptor => Error::BadDescriptor,
        UsbError::Other => Error::Other,
    }
}

/// The text that `rusb` displays for a transport error.
pub uninterp spec fn transport_text(err: UsbError) -> Seq<char>;

/// Calls `rusb::Error`'s `Display` implementation through `to_string`. The
/// text is a fixed string per variant, so the result is a function of the
/// variant alone; the contract gives that function a name and claims nothing
/// about the characters.
#[verifier::external_body]
fn display_transport(err: UsbError) -> (text: String)
    ensures
        text@ == transport_text(err),
{
    err.to_string()
}

impl Error {
    /// The transport error this value stands for; `Parse` stands for none.
    pub open spec fn spec_transport(self) -> Option<UsbError> {
        match self {
            Error::Io => Some(UsbError::Io),
            Error::InvalidParam => Some(UsbError::InvalidParam),
            Error::Access => Some(UsbError::Access),
            Error::NoDevice => Some(UsbError::NoDevice),
            Error::NotFound => Some(UsbError::NotFound),
            Error::Busy => Some(UsbError::Busy),
            Error::Timeout => Some(UsbError::Timeout),
            Error::Overflow => Some(UsbError::Overflow),
            Error::Pipe => Some(UsbError::Pipe),
            Error::Interrupted => Some(UsbError::Interrupted),
            Error::NoMem => Some(UsbError::NoMem),
            Error::NotSupported => Some(UsbError::NotSupported),
            Error::BadDescriptor => Some(UsbError::BadDescriptor),
            Error::Other => Some(UsbError::Other),
            Error::Parse => None,
        }
    }

    /// What [`Error::message`] returns.
    pub open spec fn text(self) -> Seq<char> {
        match self.spec_transport() {
            Some(err) => transport_text(err),
            None => "Failed to parse"@,
        }
    }

    /// Converts back to the transport's error type.
    pub fn transport(self) -> (err: Option<UsbError>)
        ensures
            err == self.spec_transport(),
    {
        match self {
            Error::Io => Some(UsbError::Io),
            Error::InvalidParam => Some(UsbError::InvalidParam),
            Error::Access => Some(UsbError::Access),
            Error::NoDevice => Some(UsbError::NoDevice),
            Error::NotFound => Some(UsbError::NotFound),
            Error::Busy => Some(UsbError::Busy),
            Error::Timeout => Some(UsbError::Timeout),
            Error::Overflow => Some(UsbError::Overflow),
            Error::Pipe => Some(UsbError::Pipe),
            Error::Interrupted => Some(UsbError::Interrupted),
            Error::NoMem => Some(UsbError::NoMem),
            Error::NotSupported => Some(UsbError::NotSupported),
            Error::BadDescriptor => Some(UsbError::BadDescriptor),
            Error::Other => Some(UsbError::Other),
            Error::Parse => None,
        }
    }

    /// A human-readable description: the transport's own wording for a
    /// transport error, and `"Failed to parse"` for `Parse`.
    pub fn message(&self) -> (text: String)
        ensures
            text@ == self.text(),
    {
        match self.transport() {
            Some(err) => display_transport(err),
            None => "Failed to parse".to_string(),
        }
    }
}

/// Maps a transport error to the library's error, variant for variant.
pub fn from_rusb_error(err: UsbError) -> (kind: Error)
    ensures
        kind == transport_kind(err),
{
    match err {
        UsbError::Io => Error::Io,
        UsbError::InvalidParam => Error::InvalidParam,
        UsbError::Access => Error::Access,
        UsbError::NoDevice => Error::NoDevice,
        UsbError::NotFound => Error::NotFound,
        UsbError::Busy => Error::Busy,
        UsbError::Timeout => Error::Timeout,
        UsbError::Overflow => Error::Overflow,
        UsbError::Pipe => Error::Pipe,
        UsbError::Interrupted => Error::Interrupted,
        UsbError::NoMem => Error::NoMem,
        UsbError::NotSupported => Error::NotSupported,
        UsbError::BadDescriptor => Error::BadDescriptor,
        UsbError::Other => Error::Other,
    }
}

/// Converting a transport error and back loses nothing, and the result is
/// never `Parse`.
pub proof fn law_transport_round_trip(err: UsbError)
    ensures
        transport_kind(err) != Error::Parse,
        transport_kind(err).spec_transport() == Some(err),
        transport_kind(err).text() == transport_text(err),
{
}

/// Every error but `Parse` stands for exactly one transport error.
pub proof fn law_kind_round_trip(kind: Error)
    ensures
        kind.spec_transport() is None <==> kind == Error::Parse,
        kind.spec_transport() matches Some(err) ==> transport_kind(err) == kind,
{
}

} // verus!
