//! The header of an entry.

use crate::error::{Code, UnrarError, UnrarResult, When};
use crate::flags::{EntryFlags, DIRECTORY, ENCRYPTED, SPLIT_AFTER, SPLIT_BEFORE};
use crate::native::{HeaderDataEx, HeaderReply};
use crate::wide::{read_c_string, to_string_lossy};
use vstd::prelude::*;

verus! {

/// The number of wide characters in the fixed name field of a header.
pub const SHORT_NAME_WCHARS: usize = 1024;

/// The longest entry name that the unpacking library produces, plus its
/// terminator.
///
/// The library clamps a stored name to this many characters before it decodes
/// it, so a buffer of this size cannot be overrun by a name that it can return.
/// The buffer for `FileNameEx` is sized to the ceiling because the alternative
/// is a silent cut: see [`read_header`].
pub const MAX_NAME_WCHARS: usize = 0x10001;

/// Metadata for an entry in a RAR archive.
///
/// It comes from reading a header of an open archive and describes the file
/// that follows, which is to be processed next.
#[derive(Debug)]
pub struct FileHeader {
    /// The path of the entry within the archive.
    pub filename: String,
    /// The flags of the entry.
    pub flags: EntryFlags,
    /// The size of the unpacked file in bytes.
    pub unpacked_size: u64,
    /// The checksum of the file.
    pub file_crc: u32,
    /// The time of the last modification, in the format of MS-DOS.
    pub file_time: u32,
    /// The packing method.
    pub method: u32,
    /// The file attributes.
    pub file_attr: u32,
}

/// The values in a [`FileHeader`].
#[verifier::ext_equal]
pub struct FileHeaderView {
    /// The path of the entry within the archive.
    pub filename: Seq<char>,
    /// The flag word.
    pub flags: u32,
    /// The size of the unpacked file in bytes.
    pub unpacked_size: int,
    /// The checksum of the file.
    pub file_crc: u32,
    /// The time of the last modification.
    pub file_time: u32,
    /// The packing method.
    pub method: u32,
    /// The file attributes.
    pub file_attr: u32,
}

impl View for FileHeader {
    type V = FileHeaderView;

    open spec fn view(&self) -> FileHeaderView {
        FileHeaderView {
            filename: self.filename@,
            flags: self.flags.bits(),
            unpacked_size: self.unpacked_size as int,
            file_crc: self.file_crc,
            file_time: self.file_time,
            method: self.method,
            file_attr: self.file_attr,
        }
    }
}

/// The size whose low and high words are given.
pub open spec fn combined_size(low: u32, high: u32) -> int {
    high * 0x1_0000_0000 + low
}

/// The entry that a record describes, under the given name.
pub open spec fn entry_of(header: HeaderDataEx, filename: Seq<char>) -> FileHeaderView {
    FileHeaderView {
        filename,
        flags: header.flags,
        unpacked_size: combined_size(header.unp_size, header.unp_size_high),
        file_crc: header.file_crc,
        file_time: header.file_time,
        method: header.method,
        file_attr: header.file_attr,
    }
}

/// The name in the fixed field of a record, which may have been cut.
pub open spec fn short_name(header: HeaderDataEx) -> Seq<char> {
    crate::wide::lossy_text(
        crate::wide::c_string(header.filename_w@, SHORT_NAME_WCHARS as nat),
    )
}

/// The name of the entry just read: the one in the long buffer, or the one in
/// the fixed field where the long buffer was left empty.
pub open spec fn full_name(reply: HeaderReply) -> Seq<char> {
    let long = crate::wide::c_string(reply.long_name@, MAX_NAME_WCHARS as nat);
    if long.len() > 0 {
        crate::wide::lossy_text(long)
    } else {
        short_name(reply.header)
    }
}

/// The entry just read.
pub open spec fn entry_read(reply: HeaderReply) -> FileHeaderView {
    entry_of(reply.header, full_name(reply))
}

/// Whether a filled record holds no entry flag that is unknown. Nothing is said
/// of a record that a failed call left behind.
pub open spec fn well_formed(reply: HeaderReply) -> bool {
    crate::error::code_of(reply.code as int) is Success ==> crate::flags::known_entry_flags(
        reply.header.flags,
    )
}

/// `Debug` of `std::path::Path` for the path that `path` spells: the path
/// between double quotes, with escapes for characters that do not print.
pub uninterp spec fn quoted_path(path: Seq<char>) -> Seq<char>;

/// The text for an entry whose quoted path is given.
pub open spec fn display_text(quoted: Seq<char>, directory: bool, split: bool) -> Seq<char> {
    let path = if directory {
        quoted + "/"@
    } else {
        quoted
    };
    if split {
        path + " (partial)"@
    } else {
        path
    }
}

/// Formats a path by `Debug` of `std::path::Path`. Of the text it is said only
/// that the path fixes it.
#[verifier::external_body]
fn path_debug(path: &str) -> (quoted: String)
    ensures
        quoted@ == quoted_path(path@),
{
    format!("{:?}", std::path::Path::new(path))
}

/// A C string decodes to a text without nul characters.
pub(crate) proof fn lemma_name_no_nul(units: Seq<u32>)
    ensures
        forall|i: int|
            0 <= i < crate::wide::until_nul(units).len() ==> crate::wide::lossy_text(
                crate::wide::until_nul(units),
            )[i] != '\0',
{
    crate::wide::lemma_nul_index(units, 0u32);
}

/// The name of an entry just read holds no nul character.
pub(crate) proof fn lemma_full_name_no_nul(reply: HeaderReply)
    ensures
        forall|i: int| 0 <= i < full_name(reply).len() ==> full_name(reply)[i] != '\0',
{
    lemma_name_no_nul(crate::wide::clipped(reply.long_name@, MAX_NAME_WCHARS as nat));
    lemma_name_no_nul(crate::wide::clipped(reply.header.filename_w@, SHORT_NAME_WCHARS as nat));
}

impl FileHeader {
    /// is this entry split across multiple volumes.
    pub fn is_split(&self) -> (split: bool)
        ensures
            split == (crate::flags::has_flag(self@.flags, SPLIT_BEFORE) || crate::flags::has_flag(
                self@.flags,
                SPLIT_AFTER,
            )),
    {
        self.flags.contains(SPLIT_BEFORE) || self.flags.contains(SPLIT_AFTER)
    }

    /// is this entry split across multiple volumes, going on in the next one
    pub fn is_split_after(&self) -> (split: bool)
        ensures
            split == crate::flags::has_flag(self@.flags, SPLIT_AFTER),
    {
        self.flags.contains(SPLIT_AFTER)
    }

    /// is this entry split across multiple volumes, coming from the one before
    ///
    /// In open mode [`List`](crate::List) it seems to be always false: such files
    /// are skipped there.
    pub fn is_split_before(&self) -> (split: bool)
        ensures
            split == crate::flags::has_flag(self@.flags, SPLIT_BEFORE),
    {
        self.flags.contains(SPLIT_BEFORE)
    }

    /// is this entry a directory
    pub fn is_directory(&self) -> (directory: bool)
        ensures
            directory == crate::flags::has_flag(self@.flags, DIRECTORY),
    {
        self.flags.contains(DIRECTORY)
    }

    /// is this entry encrypted
    pub fn is_encrypted(&self) -> (encrypted: bool)
        ensures
            encrypted == crate::flags::has_flag(self@.flags, ENCRYPTED),
    {
        self.flags.contains(ENCRYPTED)
    }

    /// is this entry a file
    pub fn is_file(&self) -> (file: bool)
        ensures
            file == !crate::flags::has_flag(self@.flags, DIRECTORY),
    {
        !self.is_directory()
    }

    /// The entry that `header` describes, under the name in its fixed field.
    pub fn from(header: HeaderDataEx) -> (entry: FileHeader)
        requires
            crate::flags::known_entry_flags(header.flags),
        ensures
            entry@ == entry_of(header, short_name(header)),
    {
        let filename = read_c_string(header.filename_w, SHORT_NAME_WCHARS);
        let flags = EntryFlags::from_bits(header.flags).unwrap();
        FileHeader {
            filename: to_string_lossy(filename.as_slice()),
            flags,
            unpacked_size: unpack_unp_size(header.unp_size, header.unp_size_high),
            file_crc: header.file_crc,
            file_time: header.file_time,
            method: header.method,
            file_attr: header.file_attr,
        }
    }

    /// The text for this entry, given its path in quotes: a directory's path
    /// ends in a slash, and an entry that is split is marked as partial.
    pub fn describe(&self, quoted: String) -> (text: String)
        ensures
            text@ == display_text(
                quoted@,
                crate::flags::has_flag(self@.flags, DIRECTORY),
                crate::flags::has_flag(self@.flags, SPLIT_BEFORE) || crate::flags::has_flag(
                    self@.flags,
                    SPLIT_AFTER,
                ),
            ),
    {
        let mut text = quoted;
        if self.is_directory() {
            text.append("/");
        }
        if self.is_split() {
            text.append(" (partial)");
        }
        text
    }

    /// The text for this entry: its path in quotes, as
    /// [`describe`](FileHeader::describe) goes on from it.
    pub fn to_string(&self) -> (text: String)
        ensures
            text@ == display_text(
                quoted_path(self@.filename),
                crate::flags::has_flag(self@.flags, DIRECTORY),
                crate::flags::has_flag(self@.flags, SPLIT_BEFORE) || crate::flags::has_flag(
                    self@.flags,
                    SPLIT_AFTER,
                ),
            ),
    {
        self.describe(path_debug(self.filename.as_str()))
    }
}

/// The size whose low and high words are given.
pub fn unpack_unp_size(unp_size: u32, unp_size_high: u32) -> (size: u64)
    ensures
        size == combined_size(unp_size, unp_size_high),
{
    let low: u64 = unp_size as u64;
    let high: u64 = unp_size_high as u64;
    assert(low < 0x1_0000_0000 && high < 0x1_0000_0000 ==> (high << 32) | low == high
        * 0x1_0000_0000 + low) by (bit_vector);
    (high << 32) | low
}

/// Turns what reading a header gave back into the entry, or into `None` at the
/// end of the archive.
///
/// The fixed field of the record holds no more than its size of a name, and a
/// longer name comes back in it cut, with nothing to say that it was. So the
/// name is taken from the long buffer. That buffer is empty only where the call
/// declined to fill it: the fixed field, cut or not, is then still better than
/// no name at all.
pub fn read_header(reply: HeaderReply) -> (result: UnrarResult<Option<FileHeader>>)
    requires
        well_formed(reply),
    ensures
        match crate::error::code_of(reply.code as int) {
            Code::Success => result matches Ok(Some(entry)) && entry@ == entry_read(reply),
            Code::EndArchive => result matches Ok(None),
            code => result == Err::<Option<FileHeader>, UnrarError>(
                UnrarError { code, when: When::Read },
            ),
        },
{
    let read_result = Code::from(reply.code);
    match read_result {
        Code::Success => {
            let mut entry = FileHeader::from(reply.header);
            let full = read_c_string(reply.long_name, MAX_NAME_WCHARS);
            if full.len() > 0 {
                entry.filename = to_string_lossy(full.as_slice());
            }
            Ok(Some(entry))
        },
        Code::EndArchive => Ok(None),
        _ => Err(UnrarError::from(read_result, When::Read)),
    }
}

} // verus!
