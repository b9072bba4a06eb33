//! Error type shared by the codec, the packet and frame layers and the client
//! decisions.
use std::string::FromUtf8Error;
use vstd::prelude::*;

verus! {

/// Declares `std::string::FromUtf8Error`, the error of `String::from_utf8`:
/// an opaque value that is carried through, with nothing claimed of it.
#[verifier::external_type_specification]
#[verifier::external_body]
pub struct ExFromUtf8Error(FromUtf8Error);

/// What the protocol logic needs to know about a failure of the byte stream.
#[derive(Debug, Clone, Copy, PartialEq, Eq, Structural)]
pub enum IoFailure {
    /// The read or write deadline of the stream expired.
    TimedOut,
    /// The stream is in non-blocking mode and had nothing to offer.
    WouldBlock,
    /// Any other failure of the stream.
    Other,
}

/// The six families an [`Error`] belongs to.
#[derive(Debug, Clone, Copy, PartialEq, Eq, Structural)]
pub enum ErrorKind {
    /// Failure of the underlying byte stream.
    Io,
    /// Malformed input or a packet that may not follow the previous one.
    Protocol,
    /// The peer does not know the command.
    UnknownCommand,
    /// A name, a value or a frame is over its fixed maximum.
    TooLong,
    /// A name field does not hold text.
    Utf8,
    /// Nothing arrived before the deadline while waiting for an event.
    Timeout,
}

/// Errors that may occur while encoding, decoding or talking to the peer.
#[derive(Debug)]
pub enum Error {
    /// Failure of the underlying byte stream.
    Io(IoFailure),
    /// Protocol violation: unexpected packet type or invalid structure.
    Protocol(&'static str),
    /// The remote reported an unknown command.
    UnknownCommand(String),
    /// Too large name, value or frame.
    TooLong(&'static str),
    /// A name field is not valid UTF-8.
    Utf8(FromUtf8Error),
    /// The deadline expired while waiting for an event.
    Timeout,
}

impl Error {
    /// The family this error belongs to.
    pub open spec fn spec_kind(&self) -> ErrorKind {
        match *self {
            Error::Io(_) => ErrorKind::Io,
            Error::Protocol(_) => ErrorKind::Protocol,
            Error::UnknownCommand(_) => ErrorKind::UnknownCommand,
            Error::TooLong(_) => ErrorKind::TooLong,
            Error::Utf8(_) => ErrorKind::Utf8,
            Error::Timeout => ErrorKind::Timeout,
        }
    }

    /// The family this error belongs to.
    #[verifier::when_used_as_spec(spec_kind)]
    pub fn kind(&self) -> (k: ErrorKind)
        ensures
            k == self.spec_kind(),
    {
        match self {
            Error::Io(_) => ErrorKind::Io,
            Error::Protocol(_) => ErrorKind::Protocol,
            Error::UnknownCommand(_) => ErrorKind::UnknownCommand,
            Error::TooLong(_) => ErrorKind::TooLong,
            Error::Utf8(_) => ErrorKind::Utf8,
            Error::Timeout => ErrorKind::Timeout,
        }
    }
}

impl From<IoFailure> for Error {
    fn from(e: IoFailure) -> (r: Error)
        ensures
            r == Error::Io(e),
    {
        Error::Io(e)
    }
}

impl vstd::std_specs::convert::FromSpecImpl<IoFailure> for Error {
    open spec fn obeys_from_spec() -> bool {
        true
    }

    open spec fn from_spec(e: IoFailure) -> Error {
        Error::Io(e)
    }
}

impl From<FromUtf8Error> for Error {
    fn from(e: FromUtf8Error) -> (r: Error)
        ensures
            r == Error::Utf8(e),
    {
        Error::Utf8(e)
    }
}

impl vstd::std_specs::convert::FromSpecImpl<FromUtf8Error> for Error {
    open spec fn obeys_from_spec() -> bool {
        true
    }

    open spec fn from_spec(e: FromUtf8Error) -> Error {
        Error::Utf8(e)
    }
}

} // verus!
