//! What the unpacking library's C interface fixes: its numbers, and the plain
//! values of the records it fills.
//!
//! The numbers are those of libunrar's public header, `dll.hpp`. In the records
//! a wide character (`wchar_t`) is one UTF-32 unit, as on every Unix target, and
//! is held as a `u32`; an `LPARAM` is a signed 64-bit word.

use vstd::prelude::*;

verus! {

/// The archive is one volume of a multipart archive.
pub const ROADF_VOLUME: u32 = 0x0001;

/// The archive has a comment.
pub const ROADF_COMMENT: u32 = 0x0002;

/// The archive is locked.
pub const ROADF_LOCK: u32 = 0x0004;

/// The archive is solid.
pub const ROADF_SOLID: u32 = 0x0008;

/// The volumes follow the new naming scheme.
pub const ROADF_NEWNUMBERING: u32 = 0x0010;

/// The archive carries authenticity information.
pub const ROADF_SIGNED: u32 = 0x0020;

/// The archive has a recovery record.
pub const ROADF_RECOVERY: u32 = 0x0040;

/// The archive's headers are encrypted.
pub const ROADF_ENCHEADERS: u32 = 0x0080;

/// The archive is the first volume of a multipart archive.
pub const ROADF_FIRSTVOLUME: u32 = 0x0100;

/// The call succeeded.
pub const ERAR_SUCCESS: i32 = 0;

/// There is no further header in the archive.
pub const ERAR_END_ARCHIVE: i32 = 10;

/// Memory ran out.
pub const ERAR_NO_MEMORY: i32 = 11;

/// A header or the data is corrupt.
pub const ERAR_BAD_DATA: i32 = 12;

/// The file is not a valid archive.
pub const ERAR_BAD_ARCHIVE: i32 = 13;

/// The format or its encryption is not known.
pub const ERAR_UNKNOWN_FORMAT: i32 = 14;

/// A file could not be opened.
pub const ERAR_EOPEN: i32 = 15;

/// A file could not be created.
pub const ERAR_ECREATE: i32 = 16;

/// A file could not be closed.
pub const ERAR_ECLOSE: i32 = 17;

/// A file could not be read.
pub const ERAR_EREAD: i32 = 18;

/// A file could not be written.
pub const ERAR_EWRITE: i32 = 19;

/// A buffer is too small.
pub const ERAR_SMALL_BUF: i32 = 20;

/// Any other failure.
pub const ERAR_UNKNOWN: i32 = 21;

/// A password is needed and none was given.
pub const ERAR_MISSING_PASSWORD: i32 = 22;

/// The source of a file reference could not be opened.
pub const ERAR_EREFERENCE: i32 = 23;

/// The password is wrong.
pub const ERAR_BAD_PASSWORD: i32 = 24;

/// The archive needs a dictionary larger than the limit.
pub const ERAR_LARGE_DICT: i32 = 25;

/// The volume that comes next was not found.
pub const RAR_VOL_ASK: i64 = 0;

/// The message that a chunk of a file was unpacked.
pub const UCM_PROCESSDATA: u32 = 1;

/// The message that another volume comes next, named in wide characters.
pub const UCM_CHANGEVOLUMEW: u32 = 3;

/// The message that the archive needs a larger dictionary than is supported.
pub const UCM_LARGEDICT: u32 = 5;

/// What opening an archive gave back.
#[derive(Debug)]
pub struct OpenReply {
    /// Whether a handle came back.
    pub handle: bool,
    /// The record's `OpenResult`.
    pub open_result: u32,
    /// The record's `Flags`.
    pub flags: u32,
}

/// The fields of a filled `RARHeaderDataEx` that describe an entry.
#[derive(Debug)]
pub struct HeaderDataEx {
    /// `FileNameW`, the fixed field of wide characters.
    pub filename_w: Vec<u32>,
    /// `Flags`.
    pub flags: u32,
    /// `UnpSize`, the low word of the unpacked size.
    pub unp_size: u32,
    /// `UnpSizeHigh`, the high word of the unpacked size.
    pub unp_size_high: u32,
    /// `FileCRC`.
    pub file_crc: u32,
    /// `FileTime`.
    pub file_time: u32,
    /// `Method`.
    pub method: u32,
    /// `FileAttr`.
    pub file_attr: u32,
}

/// What reading a header gave back.
#[derive(Debug)]
pub struct HeaderReply {
    /// The number that the call returned.
    pub code: i32,
    /// The record that the call filled.
    pub header: HeaderDataEx,
    /// The buffer of [`crate::header::MAX_NAME_WCHARS`] wide characters that was
    /// handed in as `FileNameEx`.
    pub long_name: Vec<u32>,
}

} // verus!
