//! What went wrong, and during which step.

use crate::native::{
    ERAR_BAD_ARCHIVE, ERAR_BAD_DATA, ERAR_BAD_PASSWORD, ERAR_ECLOSE, ERAR_ECREATE,
    ERAR_END_ARCHIVE, ERAR_EOPEN, ERAR_EREAD, ERAR_EREFERENCE, ERAR_EWRITE, ERAR_LARGE_DICT,
    ERAR_MISSING_PASSWORD, ERAR_NO_MEMORY, ERAR_SMALL_BUF, ERAR_SUCCESS, ERAR_UNKNOWN_FORMAT,
};
use vstd::prelude::*;

verus! {

/// The outcome of a call into the unpacking library, or of this one's own
/// abort.
#[derive(Debug, Clone, Copy, PartialEq, Eq, Structural)]
pub enum Code {
    /// The call succeeded.
    Success,
    /// There is no further header in the archive.
    EndArchive,
    /// Memory ran out.
    NoMemory,
    /// A header or the data is corrupt.
    BadData,
    /// The file is not a valid archive.
    BadArchive,
    /// The format or its encryption is not known.
    UnknownFormat,
    /// A file could not be opened.
    EOpen,
    /// A file could not be created.
    ECreate,
    /// A file could not be closed.
    EClose,
    /// A file could not be read.
    ERead,
    /// A file could not be written.
    EWrite,
    /// A buffer is too small.
    SmallBuf,
    /// Any other failure.
    Unknown,
    /// A password is needed and none was given.
    MissingPassword,
    /// The source of a file reference could not be opened.
    EReference,
    /// The password is wrong.
    BadPassword,
    /// The archive needs a dictionary larger than the limit.
    LargeDict,
    /// A data sink refused a chunk and so ended the read. No number of the
    /// unpacking library stands for it.
    Aborted,
}

/// The code that a number of the unpacking library stands for.
pub open spec fn code_of(number: int) -> Code {
    if number == ERAR_SUCCESS {
        Code::Success
    } else if number == ERAR_END_ARCHIVE {
        Code::EndArchive
    } else if number == ERAR_NO_MEMORY {
        Code::NoMemory
    } else if number == ERAR_BAD_DATA {
        Code::BadData
    } else if number == ERAR_BAD_ARCHIVE {
        Code::BadArchive
    } else if number == ERAR_UNKNOWN_FORMAT {
        Code::UnknownFormat
    } else if number == ERAR_EOPEN {
        Code::EOpen
    } else if number == ERAR_ECREATE {
        Code::ECreate
    } else if number == ERAR_ECLOSE {
        Code::EClose
    } else if number == ERAR_EREAD {
        Code::ERead
    } else if number == ERAR_EWRITE {
        Code::EWrite
    } else if number == ERAR_SMALL_BUF {
        Code::SmallBuf
    } else if number == ERAR_MISSING_PASSWORD {
        Code::MissingPassword
    } else if number == ERAR_EREFERENCE {
        Code::EReference
    } else if number == ERAR_BAD_PASSWORD {
        Code::BadPassword
    } else if number == ERAR_LARGE_DICT {
        Code::LargeDict
    } else {
        Code::Unknown
    }
}

impl From<i32> for Code {
    fn from(number: i32) -> (code: Code) {
        match number {
            ERAR_SUCCESS => Code::Success,
            ERAR_END_ARCHIVE => Code::EndArchive,
            ERAR_NO_MEMORY => Code::NoMemory,
            ERAR_BAD_DATA => Code::BadData,
            ERAR_BAD_ARCHIVE => Code::BadArchive,
            ERAR_UNKNOWN_FORMAT => Code::UnknownFormat,
            ERAR_EOPEN => Code::EOpen,
            ERAR_ECREATE => Code::ECreate,
            ERAR_ECLOSE => Code::EClose,
            ERAR_EREAD => Code::ERead,
            ERAR_EWRITE => Code::EWrite,
            ERAR_SMALL_BUF => Code::SmallBuf,
            ERAR_MISSING_PASSWORD => Code::MissingPassword,
            ERAR_EREFERENCE => Code::EReference,
            ERAR_BAD_PASSWORD => Code::BadPassword,
            ERAR_LARGE_DICT => Code::LargeDict,
            _ => Code::Unknown,
        }
    }
}

impl vstd::std_specs::convert::FromSpecImpl<i32> for Code {
    open spec fn obeys_from_spec() -> bool {
        true
    }

    open spec fn from_spec(number: i32) -> Code {
        code_of(number as int)
    }
}

/// The step during which an error came up.
#[derive(Debug, Clone, Copy, PartialEq, Eq, Structural)]
pub enum When {
    /// Opening the archive.
    Open,
    /// Reading a header.
    Read,
    /// Processing a file.
    Process,
}

/// An error: what went wrong, and when.
#[derive(Debug, Clone, Copy, PartialEq, Eq, Structural)]
pub struct UnrarError {
    /// What went wrong.
    pub code: Code,
    /// During which step.
    pub when: When,
}

impl UnrarError {
    /// The error of `code` during `when`.
    pub fn from(code: Code, when: When) -> (error: UnrarError)
        ensures
            error.code == code,
            error.when == when,
    {
        UnrarError { code, when }
    }
}

/// The result of a step.
pub type UnrarResult<T> = Result<T, UnrarError>;

} // verus!
