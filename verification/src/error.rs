//! Failures of the two kinds of file work: a dialog the user closed, and an
//! I/O operation the operating system refused. Both are surfaced in the
//! status line.

use vstd::prelude::*;

verus! {

/// The kind of an operating-system I/O failure. The program maps the OS
/// error kind to the matching variant before handing the outcome back to
/// the state machine; a kind without a variant of its own becomes `Other`.
#[derive(Clone, Copy, Debug, PartialEq, Eq)]
pub enum IoErrorKind {
    NotFound,
    PermissionDenied,
    ConnectionRefused,
    ConnectionReset,
    ConnectionAborted,
    NotConnected,
    AddrInUse,
    AddrNotAvailable,
    BrokenPipe,
    AlreadyExists,
    WouldBlock,
    InvalidInput,
    InvalidData,
    TimedOut,
    WriteZero,
    Interrupted,
    Unsupported,
    UnexpectedEof,
    OutOfMemory,
    HostUnreachable,
    NetworkUnreachable,
    NetworkDown,
    NotSeekable,
    StorageFull,
    FileTooLarge,
    ResourceBusy,
    ExecutableFileBusy,
    Deadlock,
    TooManyLinks,
    ArgumentListTooLong,
    IsADirectory,
    NotADirectory,
    DirectoryNotEmpty,
    ReadOnlyFilesystem,
    StaleNetworkFileHandle,
    Other,
}

/// What a file operation can fail with: the user closed the dialog, or the
/// I/O itself failed with an OS error kind.
#[derive(Clone, Copy, Debug, PartialEq, Eq)]
pub enum Error {
    DialogClosed,
    IOFailed(IoErrorKind),
}

/// The text the status line shows for an I/O failure kind.
pub open spec fn io_error_text(k: IoErrorKind) -> Seq<char> {
    match k {
        IoErrorKind::NotFound => "entity not found"@,
        IoErrorKind::PermissionDenied => "permission denied"@,
        IoErrorKind::ConnectionRefused => "connection refused"@,
        IoErrorKind::ConnectionReset => "connection reset"@,
        IoErrorKind::ConnectionAborted => "connection aborted"@,
        IoErrorKind::NotConnected => "not connected"@,
        IoErrorKind::AddrInUse => "address in use"@,
        IoErrorKind::AddrNotAvailable => "address not available"@,
        IoErrorKind::BrokenPipe => "broken pipe"@,
        IoErrorKind::AlreadyExists => "entity already exists"@,
        IoErrorKind::WouldBlock => "operation would block"@,
        IoErrorKind::InvalidInput => "invalid input parameter"@,
        IoErrorKind::InvalidData => "invalid data"@,
        IoErrorKind::TimedOut => "timed out"@,
        IoErrorKind::WriteZero => "write zero"@,
        IoErrorKind::Interrupted => "operation interrupted"@,
        IoErrorKind::Unsupported => "unsupported"@,
        IoErrorKind::UnexpectedEof => "unexpected end of file"@,
        IoErrorKind::OutOfMemory => "out of memory"@,
        IoErrorKind::HostUnreachable => "host unreachable"@,
        IoErrorKind::NetworkUnreachable => "network unreachable"@,
        IoErrorKind::NetworkDown => "network down"@,
        IoErrorKind::NotSeekable => "seek on unseekable file"@,
        IoErrorKind::StorageFull => "storage full"@,
        IoErrorKind::FileTooLarge => "file too large"@,
        IoErrorKind::ResourceBusy => "resource busy"@,
        IoErrorKind::ExecutableFileBusy => "executable file busy"@,
        IoErrorKind::Deadlock => "deadlock"@,
        IoErrorKind::TooManyLinks => "too many links"@,
        IoErrorKind::ArgumentListTooLong => "argument list too long"@,
        IoErrorKind::IsADirectory => "is a directory"@,
        IoErrorKind::NotADirectory => "not a directory"@,
        IoErrorKind::DirectoryNotEmpty => "directory not empty"@,
        IoErrorKind::ReadOnlyFilesystem => "read-only filesystem"@,
        IoErrorKind::StaleNetworkFileHandle => "stale network file handle"@,
        IoErrorKind::Other => "i/o error"@,
    }
}

/// The text the status line shows for a failure: a fixed message for a
/// closed dialog, and the OS error kind's message for an I/O failure.
pub open spec fn error_text(e: Error) -> Seq<char> {
    match e {
        Error::DialogClosed => "dialog closed"@,
        Error::IOFailed(k) => io_error_text(k),
    }
}

impl IoErrorKind {
    /// Human-readable description, as shown in the status line.
    pub fn describe(&self) -> (r: String)
        ensures
            r@ == io_error_text(*self),
    {
        match self {
            IoErrorKind::NotFound => String::from_str("entity not found"),
            IoErrorKind::PermissionDenied => String::from_str("permission denied"),
            IoErrorKind::ConnectionRefused => String::from_str("connection refused"),
            IoErrorKind::ConnectionReset => String::from_str("connection reset"),
            IoErrorKind::ConnectionAborted => String::from_str("connection aborted"),
            IoErrorKind::NotConnected => String::from_str("not connected"),
            IoErrorKind::AddrInUse => String::from_str("address in use"),
            IoErrorKind::AddrNotAvailable => String::from_str("address not available"),
            IoErrorKind::BrokenPipe => String::from_str("broken pipe"),
            IoErrorKind::AlreadyExists => String::from_str("entity already exists"),
            IoErrorKind::WouldBlock => String::from_str("operation would block"),
            IoErrorKind::InvalidInput => String::from_str("invalid input parameter"),
            IoErrorKind::InvalidData => String::from_str("invalid data"),
            IoErrorKind::TimedOut => String::from_str("timed out"),
            IoErrorKind::WriteZero => String::from_str("write zero"),
            IoErrorKind::Interrupted => String::from_str("operation interrupted"),
            IoErrorKind::Unsupported => String::from_str("unsupported"),
            IoErrorKind::UnexpectedEof => String::from_str("unexpected end of file"),
            IoErrorKind::OutOfMemory => String::from_str("out of memory"),
            IoErrorKind::HostUnreachable => String::from_str("host unreachable"),
            IoErrorKind::NetworkUnreachable => String::from_str("network unreachable"),
            IoErrorKind::NetworkDown => String::from_str("network down"),
            IoErrorKind::NotSeekable => String::from_str("seek on unseekable file"),
            IoErrorKind::StorageFull => String::from_str("storage full"),
            IoErrorKind::FileTooLarge => String::from_str("file too large"),
            IoErrorKind::ResourceBusy => String::from_str("resource busy"),
            IoErrorKind::ExecutableFileBusy => String::from_str("executable file busy"),
            IoErrorKind::Deadlock => String::from_str("deadlock"),
            IoErrorKind::TooManyLinks => String::from_str("too many links"),
            IoErrorKind::ArgumentListTooLong => String::from_str("argument list too long"),
            IoErrorKind::IsADirectory => String::from_str("is a directory"),
            IoErrorKind::NotADirectory => String::from_str("not a directory"),
            IoErrorKind::DirectoryNotEmpty => String::from_str("directory not empty"),
            IoErrorKind::ReadOnlyFilesystem => String::from_str("read-only filesystem"),
            IoErrorKind::StaleNetworkFileHandle => String::from_str("stale network file handle"),
            IoErrorKind::Other => String::from_str("i/o error"),
        }
    }
}

impl Error {
    /// Human-readable description, as shown in the status line.
    pub fn describe(&self) -> (r: String)
        ensures
            r@ == error_text(*self),
    {
        match self {
            Error::DialogClosed => String::from_str("dialog closed"),
            Error::IOFailed(kind) => kind.describe(),
        }
    }
}

} // verus!
