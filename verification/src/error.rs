//! Errors of a transfer.
use vstd::prelude::*;

verus! {

/// `std::io::Error`, which the library only carries from where it occurred to
/// the caller; nothing is claimed of what it holds.
#[verifier::external_type_specification]
#[verifier::external_body]
pub struct ExIoError(std::io::Error);

/// The kinds of error that a transfer tells apart.
#[derive(Debug, Clone, Copy, PartialEq, Eq, Structural)]
pub enum ErrorKind {
    /// The operation would have to wait; it can be tried again.
    WouldBlock,
    /// A write accepted no byte.
    WriteZero,
    /// An argument is not acceptable.
    InvalidInput,
    /// Anything else.
    Other,
}

/// An error of a transfer.
#[derive(Debug)]
pub enum Error {
    /// An error that a reader, a writer or the kernel reported, with its kind.
    Io { kind: ErrorKind, source: std::io::Error },
    /// The start offset lies after the end offset, or the end offset after the
    /// end of the file.
    InvalidOffsetRange,
    /// The start offset lies after the end of the file.
    InvalidOffsetStart,
    /// The end offset lies after the end of the file.
    InvalidOffsetEnd,
    /// The number of bytes to transfer does not fit in a `usize`.
    FileTooLarge,
    /// The writer accepted no byte.
    WriteZero,
    /// More bytes were reported as written than had been read.
    WrittenMoreThanRead,
    /// The size of the pipe could not be determined.
    PipeSizeUnknown,
    /// The write side of the pipe is no longer open.
    WriteSideUnavailable,
    /// A transfer was polled again after it had returned its error.
    PolledAfterError,
    /// The number of instances that share a rate limit would become 0.
    SharedByZero,
}

impl Error {
    /// What [`Error::kind`] returns.
    pub open spec fn spec_kind(self) -> ErrorKind {
        match self {
            Error::Io { kind, .. } => kind,
            Error::InvalidOffsetRange
            | Error::InvalidOffsetStart
            | Error::InvalidOffsetEnd
            | Error::FileTooLarge
            | Error::SharedByZero => ErrorKind::InvalidInput,
            Error::WriteZero => ErrorKind::WriteZero,
            Error::WrittenMoreThanRead
            | Error::PipeSizeUnknown
            | Error::WriteSideUnavailable
            | Error::PolledAfterError => ErrorKind::Other,
        }
    }

    /// What [`Error::message`] returns.
    pub open spec fn spec_message(self) -> Option<Seq<char>> {
        match self {
            Error::Io { .. } | Error::WriteZero => None,
            Error::InvalidOffsetRange => Some("invalid offset range"@),
            Error::InvalidOffsetStart => Some("invalid offset start"@),
            Error::InvalidOffsetEnd => Some("invalid offset end"@),
            Error::FileTooLarge => Some("file size too large"@),
            Error::WrittenMoreThanRead => Some("`has_written` larger than `has_read`"@),
            Error::PipeSizeUnknown => Some("failed to set pipe size, using default size"@),
            Error::WriteSideUnavailable => Some("write side file descriptor is not available"@),
            Error::PolledAfterError => Some("`poll_execute()` called after error returned"@),
            Error::SharedByZero => Some("cannot decrease `shared_by` to 0"@),
        }
    }

    /// Whether the operation that failed can be tried again.
    pub open spec fn is_would_block(self) -> bool {
        self.spec_kind() == ErrorKind::WouldBlock
    }

    /// Returns the kind of the error.
    pub fn kind(&self) -> (kind: ErrorKind)
        ensures
            kind == self.spec_kind(),
    {
        match self {
            Error::Io { kind, .. } => *kind,
            Error::InvalidOffsetRange
            | Error::InvalidOffsetStart
            | Error::InvalidOffsetEnd
            | Error::FileTooLarge
            | Error::SharedByZero => ErrorKind::InvalidInput,
            Error::WriteZero => ErrorKind::WriteZero,
            Error::WrittenMoreThanRead
            | Error::PipeSizeUnknown
            | Error::WriteSideUnavailable
            | Error::PolledAfterError => ErrorKind::Other,
        }
    }

    /// Returns whether the operation that failed can be tried again.
    pub fn would_block(&self) -> (r: bool)
        ensures
            r == self.is_would_block(),
    {
        match self.kind() {
            ErrorKind::WouldBlock => true,
            _ => false,
        }
    }

    /// Returns what the error says, where it is one of this library: an error
    /// from outside speaks for itself, and a refused write has no text of its
    /// own.
    pub fn message(&self) -> (message: Option<&'static str>)
        ensures
            message is Some <==> self.spec_message() is Some,
            message matches Some(m) ==> Some(m@) == self.spec_message(),
    {
        match self {
            Error::Io { .. } | Error::WriteZero => None,
            Error::InvalidOffsetRange => Some("invalid offset range"),
            Error::InvalidOffsetStart => Some("invalid offset start"),
            Error::InvalidOffsetEnd => Some("invalid offset end"),
            Error::FileTooLarge => Some("file size too large"),
            Error::WrittenMoreThanRead => Some("`has_written` larger than `has_read`"),
            Error::PipeSizeUnknown => Some("failed to set pipe size, using default size"),
            Error::WriteSideUnavailable => Some("write side file descriptor is not available"),
            Error::PolledAfterError => Some("`poll_execute()` called after error returned"),
            Error::SharedByZero => Some("cannot decrease `shared_by` to 0"),
        }
    }
}

/// An error from outside keeps its kind, and only such an error can say that an
/// operation would block. What is wrong with an argument is an invalid input, a write
/// that accepted nothing has a kind of its own, and the rest is of no particular kind.
pub proof fn errors_are_of_their_kind(e: Error)
    ensures
        e matches Error::Io { kind, .. } ==> e.spec_kind() == kind && e.spec_message() is None,
        e.is_would_block() <==> e is Io && e->Io_kind == ErrorKind::WouldBlock,
        e !is Io ==> {
            &&& e.spec_kind() == ErrorKind::InvalidInput <==> e is InvalidOffsetRange
                || e is InvalidOffsetStart || e is InvalidOffsetEnd || e is FileTooLarge
                || e is SharedByZero
            &&& e.spec_kind() == ErrorKind::WriteZero <==> e is WriteZero
            &&& e.spec_kind() == ErrorKind::Other <==> e is WrittenMoreThanRead
                || e is PipeSizeUnknown || e is WriteSideUnavailable || e is PolledAfterError
            &&& e.spec_message() is None <==> e is WriteZero
        },
{
}

} // verus!
