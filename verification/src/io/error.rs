//! I/O errors: a kind, a message, an OS error code, or a custom error with a
//! kind and a text of its own.

use crate::c_lib::libc::error::{decimal, get_errno, render_i32};
use crate::lib_alloc::heap::Heap;
use vstd::prelude::*;
use vstd::string::*;

verus! {

/// A kind of error.
#[derive(Debug, Clone, Copy, PartialEq, Eq, Structural)]
pub enum ErrorKind {
    /// Resource not found.
    NotFound,
    /// Something is unsupported or deprecated.
    Unsupported,
    /// Permission was denied to perform this operation.
    PermissionDenied,
    /// The requested resource already exists.
    AlreadyExists,
    /// The operation would block, but is requested not to.
    WouldBlock,
    /// Received invalid input.
    InvalidInput,
    /// Data is invalid.
    InvalidData,
    /// Timed out.
    TimedOut,
    /// A write returned `Ok(0)` where bytes had to be written.
    WriteZero,
    /// Could not store data because the storage is full.
    StorageFull,
    /// The reader or writer is not seekable.
    NotSeekable,
    /// The quota was exceeded.
    QuotaExceeded,
    /// The resource is busy.
    ResourceBusy,
    /// Avoided a deadlock.
    Deadlock,
    /// Too many arguments.
    TooManyArguments,
    /// The operation was interrupted.
    Interrupted,
    /// A memory error.
    MemoryError,
    /// End of file, but it was unexpected.
    UnexpectedEof,
    /// The operation was partially successful and needs to be checked later.
    InProgress,
    /// An error that falls into no other category.
    Other,
}

/// The text of an error kind.
pub open spec fn kind_text(kind: ErrorKind) -> Seq<char> {
    match kind {
        ErrorKind::NotFound => "resource not found"@,
        ErrorKind::Unsupported => "unsupported operation"@,
        ErrorKind::PermissionDenied => "permission denied"@,
        ErrorKind::AlreadyExists => "already exists"@,
        ErrorKind::WouldBlock => "non blocking operation must block"@,
        ErrorKind::InvalidInput => "invalid input"@,
        ErrorKind::InvalidData => "invalid data"@,
        ErrorKind::TimedOut => "timed out"@,
        ErrorKind::WriteZero => "write to zeroed reader"@,
        ErrorKind::StorageFull => "storage full"@,
        ErrorKind::NotSeekable => "seek on unseekable reader"@,
        ErrorKind::QuotaExceeded => "quota exceeded"@,
        ErrorKind::ResourceBusy => "resource busy"@,
        ErrorKind::Deadlock => "avoided deadlock"@,
        ErrorKind::TooManyArguments => "too many arguments"@,
        ErrorKind::Interrupted => "interrupted"@,
        ErrorKind::MemoryError => "memory error"@,
        ErrorKind::UnexpectedEof => "unexpected end of file"@,
        ErrorKind::InProgress => "in progress"@,
        ErrorKind::Other => "unknown error"@,
    }
}

impl ErrorKind {
    /// String representation of the kind.
    pub fn as_str(&self) -> (text: &'static str)
        ensures
            text@ == kind_text(*self),
    {
        match self {
            ErrorKind::NotFound => "resource not found",
            ErrorKind::Unsupported => "unsupported operation",
            ErrorKind::PermissionDenied => "permission denied",
            ErrorKind::AlreadyExists => "already exists",
            ErrorKind::WouldBlock => "non blocking operation must block",
            ErrorKind::InvalidInput => "invalid input",
            ErrorKind::InvalidData => "invalid data",
            ErrorKind::TimedOut => "timed out",
            ErrorKind::WriteZero => "write to zeroed reader",
            ErrorKind::StorageFull => "storage full",
            ErrorKind::NotSeekable => "seek on unseekable reader",
            ErrorKind::QuotaExceeded => "quota exceeded",
            ErrorKind::ResourceBusy => "resource busy",
            ErrorKind::Deadlock => "avoided deadlock",
            ErrorKind::TooManyArguments => "too many arguments",
            ErrorKind::Interrupted => "interrupted",
            ErrorKind::MemoryError => "memory error",
            ErrorKind::UnexpectedEof => "unexpected end of file",
            ErrorKind::InProgress => "in progress",
            ErrorKind::Other => "unknown error",
        }
    }
}

impl Default for ErrorKind {
    fn default() -> (kind: ErrorKind)
        ensures
            kind == ErrorKind::Other,
    {
        ErrorKind::Other
    }
}

/// What an error holds.
#[derive(Debug)]
pub enum ErrorData {
    /// An OS error code.
    Os(i32),
    /// A kind and nothing more.
    Simple(ErrorKind),
    /// A kind and a fixed message.
    SimpleMessage(ErrorKind, &'static str),
    /// A kind and the text of a custom error.
    Custom(ErrorKind, String),
}

/// An I/O error.
#[derive(Debug)]
pub struct Error {
    data: ErrorData,
}

/// The kind that an OS error code stands for: none for 0, `Other` for 1, 4 and
/// every code that has no kind of its own.
pub open spec fn spec_decode_os_code(code: i32) -> Option<ErrorKind> {
    if code == 0 {
        None
    } else if code == 2 {
        Some(ErrorKind::InvalidData)
    } else if code == 3 {
        Some(ErrorKind::Interrupted)
    } else if code == 5 {
        Some(ErrorKind::MemoryError)
    } else if code == 6 {
        Some(ErrorKind::InvalidInput)
    } else if code == 7 {
        Some(ErrorKind::Unsupported)
    } else {
        Some(ErrorKind::Other)
    }
}

/// The kind that an OS error code stands for.
pub fn decode_os_code(code: i32) -> (kind: Option<ErrorKind>)
    ensures
        kind == spec_decode_os_code(code),
{
    match code {
        0 => None,
        2 => Some(ErrorKind::InvalidData),
        3 => Some(ErrorKind::Interrupted),
        5 => Some(ErrorKind::MemoryError),
        6 => Some(ErrorKind::InvalidInput),
        7 => Some(ErrorKind::Unsupported),
        _ => Some(ErrorKind::Other),
    }
}

/// The kind of an error: a message error has none, and an OS error has the
/// kind its code stands for.
pub open spec fn spec_kind(data: ErrorData) -> Option<ErrorKind> {
    match data {
        ErrorData::Custom(kind, _) => Some(kind),
        ErrorData::Os(code) => spec_decode_os_code(code),
        ErrorData::Simple(kind) => Some(kind),
        ErrorData::SimpleMessage(_, _) => None,
    }
}

/// The text of an error.
pub open spec fn spec_text(data: ErrorData) -> Seq<char> {
    match data {
        ErrorData::Custom(kind, error) => kind_text(kind) + ": "@ + error@,
        ErrorData::Os(code) => kind_text(
            match spec_decode_os_code(code) {
                Some(kind) => kind,
                None => ErrorKind::Other,
            },
        ) + " (os error "@ + decimal(code as int) + ")"@,
        ErrorData::Simple(kind) => kind_text(kind),
        ErrorData::SimpleMessage(kind, msg) => kind_text(kind) + ": "@ + msg@,
    }
}

impl Error {
    /// What the error holds, in contracts.
    pub closed spec fn data(&self) -> ErrorData {
        self.data
    }

    /// Creates a new custom error with the given kind and text.
    pub fn new(kind: ErrorKind, error: &str) -> (e: Error)
        ensures
            e.data() matches ErrorData::Custom(k, text) && k == kind && text@ == error@,
    {
        Error { data: ErrorData::Custom(kind, String::from_str(error)) }
    }

    /// Creates a new custom error of the kind `Other`.
    pub fn other(error: &str) -> (e: Error)
        ensures
            e.data() matches ErrorData::Custom(k, text) && k == ErrorKind::Other && text@
                == error@,
    {
        Self::new(ErrorKind::Other, error)
    }

    /// Creates an error from a kind and a string literal.
    pub fn from_static_msg(kind: ErrorKind, msg: &'static str) -> (e: Error)
        ensures
            e.data() == ErrorData::SimpleMessage(kind, msg),
    {
        Self { data: ErrorData::SimpleMessage(kind, msg) }
    }

    /// Creates an error that holds a kind and nothing more.
    pub fn from_kind(kind: ErrorKind) -> (e: Error)
        ensures
            e.data() == ErrorData::Simple(kind),
    {
        Error { data: ErrorData::Simple(kind) }
    }

    /// The last OS error of `heap`'s execution context as an error. Call it
    /// right after the call that may have failed.
    pub fn last_os_err(heap: &Heap) -> (e: Error)
        ensures
            e.data() matches ErrorData::Os(code) && code == heap@.errno,
    {
        Self { data: ErrorData::Os(get_errno(heap).0) }
    }

    /// Returns the OS code, which only an error made by `last_os_err` has.
    pub fn os_code(&self) -> (code: Option<i32>)
        ensures
            code == match self.data() {
                ErrorData::Os(v) => Some(v),
                _ => None,
            },
    {
        match self.data {
            ErrorData::Os(v) => Some(v),
            _ => None,
        }
    }

    /// Returns the kind of the error, if available.
    pub fn kind(&self) -> (kind: Option<ErrorKind>)
        ensures
            kind == spec_kind(self.data()),
    {
        match &self.data {
            ErrorData::Custom(kind, _) => Some(*kind),
            ErrorData::Os(code) => decode_os_code(*code),
            ErrorData::Simple(kind) => Some(*kind),
            ErrorData::SimpleMessage(_, _) => None,
        }
    }

    /// Returns a reference to the text of the custom error, if this is one.
    pub fn get_ref(&self) -> (inner: Option<&String>)
        ensures
            match self.data() {
                ErrorData::Custom(_, text) => inner == Some(&text),
                _ => inner is None,
            },
    {
        match &self.data {
            ErrorData::Custom(_, error) => Some(error),
            _ => None,
        }
    }

    /// Returns a mutable reference to the text of the custom error, if this is
    /// one. The kind stays as it is.
    pub fn get_mut(&mut self) -> (inner: Option<&mut String>)
        ensures
            match old(self).data() {
                ErrorData::Custom(kind, text) => inner matches Some(t) && *t == text
                    && final(self).data() == ErrorData::Custom(kind, *final(t)),
                _ => inner is None && final(self).data() == old(self).data(),
            },
    {
        match &mut self.data {
            ErrorData::Custom(_, error) => Some(error),
            _ => None,
        }
    }

    /// Consumes the error, returning the text of the custom error, if this is
    /// one.
    pub fn into_inner(self) -> (inner: Option<String>)
        ensures
            match self.data() {
                ErrorData::Custom(_, text) => inner == Some(text),
                _ => inner is None,
            },
    {
        match self.data {
            ErrorData::Os(_) => None,
            ErrorData::Simple(_) => None,
            ErrorData::SimpleMessage(_, _) => None,
            ErrorData::Custom(_, error) => Some(error),
        }
    }

    /// The text of the error: the kind's text, followed by the custom text or
    /// the message after `": "`, or by the OS code in brackets.
    pub fn message(&self) -> (text: String)
        ensures
            text@ == spec_text(self.data()),
    {
        match &self.data {
            ErrorData::Custom(kind, error) => {
                let mut text = String::from_str(kind.as_str());
                text.append(": ");
                text.append(error.as_str());
                text
            },
            ErrorData::Os(code) => {
                let kind = match decode_os_code(*code) {
                    Some(kind) => kind,
                    None => ErrorKind::Other,
                };
                let digits = render_i32(*code);
                let mut text = String::from_str(kind.as_str());
                text.append(" (os error ");
                text.append(digits.as_str());
                text.append(")");
                text
            },
            ErrorData::Simple(kind) => String::from_str(kind.as_str()),
            ErrorData::SimpleMessage(kind, msg) => {
                let mut text = String::from_str(kind.as_str());
                text.append(": ");
                text.append(msg);
                text
            },
        }
    }

    /// The error of a seek from the end of something endless.
    pub fn unseekable_infinite() -> (e: Error)
        ensures
            e.data() == ErrorData::SimpleMessage(
                ErrorKind::NotSeekable,
                "cannot `SeekFrom::End` because the reader/writer is endless.",
            ),
    {
        Self::from_static_msg(
            ErrorKind::NotSeekable,
            "cannot `SeekFrom::End` because the reader/writer is endless.",
        )
    }

    /// The error of reading something endless to its end.
    pub fn unreadable_infinite() -> (e: Error)
        ensures
            e.data() == ErrorData::SimpleMessage(
                ErrorKind::WouldBlock,
                "cannot read the reader because it would block infinitely.",
            ),
    {
        Self::from_static_msg(
            ErrorKind::WouldBlock,
            "cannot read the reader because it would block infinitely.",
        )
    }

    /// What the error of an early end of file holds.
    pub open spec fn spec_early_eof() -> ErrorData {
        ErrorData::SimpleMessage(ErrorKind::UnexpectedEof, "early EOF")
    }

    /// The error of an early end of file.
    pub fn early_eof() -> (e: Error)
        ensures
            e.data() == Self::spec_early_eof(),
    {
        Self::from_static_msg(ErrorKind::UnexpectedEof, "early EOF")
    }

    /// The error of a write to something that takes no bytes.
    pub fn write_to_empty() -> (e: Error)
        ensures
            e.data() == ErrorData::SimpleMessage(
                ErrorKind::WriteZero,
                "needed a non-empty reader, but `read` returned EOF",
            ),
    {
        Self::from_static_msg(
            ErrorKind::WriteZero,
            "needed a non-empty reader, but `read` returned EOF",
        )
    }
}

} // verus!
