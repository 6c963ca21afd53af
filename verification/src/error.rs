//! Errors of the socket and of the reactor, as plain values.

use vstd::prelude::*;

verus! {

/// The class of a failure, as the operating system reports it.
#[derive(Clone, Copy, Debug, PartialEq, Eq, Structural)]
pub enum ErrorKind {
    NotFound,
    PermissionDenied,
    ConnectionRefused,
    ConnectionReset,
    ConnectionAborted,
    NotConnected,
    AddrInUse,
    AddrNotAvailable,
    BrokenPipe,
    AlreadyExists,
    WouldBlock,
    InvalidInput,
    InvalidData,
    TimedOut,
    WriteZero,
    Interrupted,
    UnexpectedEof,
    Other,
}

/// Why a call on the socket or on the reactor failed.
#[derive(Clone, Copy, Debug, PartialEq, Eq, Structural)]
pub struct Cause {
    pub kind: ErrorKind,
    /// The operating system's error number, where the failure has one.
    pub code: Option<i32>,
}

impl Cause {
    /// A failure of the given class that has no error number.
    pub fn new(kind: ErrorKind) -> (c: Cause)
        ensures
            c == (Cause { kind, code: None }),
    {
        Cause { kind, code: None }
    }

    /// A failure of the given class with the operating system's number for
    /// it.
    pub fn from_raw_os_error(kind: ErrorKind, code: i32) -> (c: Cause)
        ensures
            c == (Cause { kind, code: Some(code) }),
    {
        Cause { kind, code: Some(code) }
    }

    /// Whether the failure is of the class "would block".
    pub open spec fn would_block(&self) -> bool {
        self.kind == ErrorKind::WouldBlock
    }

    /// Whether the failure says no more than that the call would have had
    /// to wait.
    #[verifier::when_used_as_spec(would_block)]
    pub fn is_would_block(&self) -> (b: bool)
        ensures
            b == self.would_block(),
    {
        self.kind == ErrorKind::WouldBlock
    }
}

/// A failure that an operation of this crate reports, by the operation it
/// belongs to.
#[derive(Clone, Copy, Debug, PartialEq, Eq, Structural)]
pub enum Error {
    /// The path could not be bound, or the bound socket could not be
    /// registered with the reactor.
    Bind(Cause),
    /// The connection could not be established.
    Connect(Cause),
    /// A read, a write or a shutdown failed, or the reactor failed on its
    /// behalf. "Would block" from the socket is never reported so.
    Io(Cause),
}

impl Error {
    /// What the socket or the reactor reported.
    pub open spec fn spec_cause(&self) -> Cause {
        match *self {
            Error::Bind(c) => c,
            Error::Connect(c) => c,
            Error::Io(c) => c,
        }
    }

    /// What the socket or the reactor reported.
    #[verifier::when_used_as_spec(spec_cause)]
    pub fn cause(&self) -> (c: Cause)
        ensures
            c == self.spec_cause(),
    {
        match *self {
            Error::Bind(c) => c,
            Error::Connect(c) => c,
            Error::Io(c) => c,
        }
    }
}

} // verus!
