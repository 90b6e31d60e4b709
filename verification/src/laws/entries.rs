//! What holds of the header of an entry, and of the words and names in it.

use crate::archive::{CursorBeforeFile, CursorBeforeHeader, OpenArchive, OpenMode};
use crate::error::UnrarResult;
use crate::header::FileHeader;
use crate::native::{HeaderDataEx, HeaderReply};
use crate::wide::{FileName, WideName};
use vstd::prelude::*;

verus! {

/// That a character stands for a unit: its own one, or U+FFFD where the unit is the
/// number of no character.
pub open spec fn stands_for(decoded: char, unit: u32) -> bool {
    if unit <= 0xD7FF || 0xE000 <= unit <= 0x10FFFF {
        decoded as u32 == unit
    } else {
        decoded as u32 == 0xFFFD
    }
}

/// The units of a buffer among the first `limit`.
pub open spec fn within(buffer: Seq<u32>, limit: int) -> Seq<u32> {
    if buffer.len() <= limit {
        buffer
    } else {
        buffer.take(limit)
    }
}

/// That `held` is what a buffer holds before its first nul.
pub open spec fn holds_units<T>(buffer: Seq<T>, nul: T, held: Seq<T>) -> bool {
    &&& held.len() <= buffer.len()
    &&& forall|i: int| 0 <= i < held.len() ==> held[i] == #[trigger] buffer[i] && buffer[i] != nul
    &&& held.len() < buffer.len() ==> buffer[held.len() as int] == nul
}

/// That `text` is what a buffer spells before its first nul: one character for each
/// unit, in order.
pub open spec fn spells(buffer: Seq<u32>, text: Seq<char>) -> bool {
    &&& text.len() <= buffer.len()
    &&& forall|i: int|
        0 <= i < text.len() ==> stands_for(text[i], #[trigger] buffer[i]) && buffer[i] != 0
    &&& text.len() < buffer.len() ==> buffer[text.len() as int] == 0
}

/// That a header describes what a record holds, but for the name.
pub open spec fn describes(entry: FileHeader, record: HeaderDataEx) -> bool {
    &&& entry.unpacked_size as int % 0x1_0000_0000 == record.unp_size
    &&& entry.unpacked_size as int / 0x1_0000_0000 == record.unp_size_high
    &&& entry.file_crc == record.file_crc
    &&& entry.file_time == record.file_time
    &&& entry.method == record.method
    &&& entry.file_attr == record.file_attr
    &&& entry.flags.bits() == record.flags
}

/// That a text is the name in what reading a header gave back: the one in the long
/// buffer, or where that is empty the one in the fixed field.
pub open spec fn names(reply: HeaderReply, text: Seq<char>) -> bool {
    let long = within(reply.long_name@, 0x10001);
    if long.len() > 0 && long[0] != 0 {
        spells(long, text)
    } else {
        spells(within(reply.header.filename_w@, 1024), text)
    }
}

/// The C string of a buffer, by its two ends.
pub(crate) proof fn lemma_c_string(buffer: Seq<u32>)
    ensures
        holds_units(buffer, 0, crate::wide::until_nul(buffer)),
        spells(buffer, crate::wide::lossy_text(crate::wide::until_nul(buffer))),
        crate::wide::until_nul(buffer).len() > 0 <==> buffer.len() > 0 && buffer[0] != 0,
{
    crate::wide::lemma_nul_index(buffer, 0u32);
}

/// As [`lemma_c_string`], of units of 16 bits.
pub(crate) proof fn lemma_c_string_16(buffer: Seq<u16>)
    ensures
        holds_units(buffer, 0, crate::wide::until_nul_16(buffer)),
        crate::wide::until_nul_16(buffer).len() > 0 <==> buffer.len() > 0 && buffer[0] != 0,
{
    crate::wide::lemma_nul_index(buffer, 0u16);
}

/// The name and the words of the entry that a reply describes.
pub(crate) proof fn lemma_entry_read(reply: HeaderReply)
    ensures
        names(reply, crate::header::entry_read(reply).filename),
{
    lemma_c_string(within(reply.long_name@, 0x10001));
    lemma_c_string(within(reply.header.filename_w@, 1024));
}

/// A header that was read successfully describes the record, word for word: both
/// halves of the size, the checksum, the time, the method, the attributes and the
/// flags. Its name is the full one. At the end of the archive there is none, and any
/// other number is an error of the step of reading.
pub proof fn law_header_is_read_as_the_record_has_it(
    reply: HeaderReply,
    result: UnrarResult<Option<FileHeader>>,
)
    requires
        call_ensures(crate::header::read_header, (reply,), result),
    ensures
        reply.code == 0 <==> result matches Ok(Some(_)),
        reply.code == 10 <==> result matches Ok(None),
        result matches Ok(Some(entry)) ==> describes(entry, reply.header) && names(
            reply,
            entry.filename@,
        ),
        result matches Err(error) ==> error.when is Read && error.code == crate::error::code_of(
            reply.code as int,
        ),
{
    lemma_entry_read(reply);
}

/// Reading the next header moves the archive before the file that the header
/// describes, and changes nothing else about it.
pub proof fn law_archive_holds_the_header_that_was_read<M: OpenMode>(
    archive: OpenArchive<M, CursorBeforeHeader>,
    reply: HeaderReply,
    result: UnrarResult<Option<OpenArchive<M, CursorBeforeFile>>>,
    entry: &FileHeader,
)
    requires
        call_ensures(
            OpenArchive::<M, CursorBeforeHeader>::read_header,
            (archive, reply),
            result,
        ),
        result matches Ok(Some(before_file)) ==> call_ensures(
            OpenArchive::<M, CursorBeforeFile>::entry,
            (&before_file,),
            entry,
        ),
    ensures
        reply.code == 0 <==> result matches Ok(Some(_)),
        reply.code == 10 <==> result matches Ok(None),
        result matches Ok(Some(before_file)) ==> {
            &&& describes(*entry, reply.header)
            &&& names(reply, entry.filename@)
            &&& *entry == before_file.cursor().header()
            &&& before_file.flags() == archive.flags()
            &&& before_file.damaged() == archive.damaged()
        },
        result matches Err(error) ==> error.when is Read && error.code == crate::error::code_of(
            reply.code as int,
        ),
{
    lemma_entry_read(reply);
}

/// The entry made from a record alone describes it, word for word, under the name in
/// its fixed field.
pub proof fn law_entry_is_made_from_the_record(record: HeaderDataEx, entry: FileHeader)
    requires
        call_ensures(FileHeader::from, (record,), entry),
    ensures
        describes(entry, record),
        spells(within(record.filename_w@, 1024), entry.filename@),
{
    lemma_c_string(within(record.filename_w@, 1024));
}

/// Two records that lead to the same entry agree in every word of it.
pub proof fn law_entry_tells_records_apart(
    first: HeaderDataEx,
    second: HeaderDataEx,
    first_entry: FileHeader,
    second_entry: FileHeader,
)
    requires
        call_ensures(FileHeader::from, (first,), first_entry),
        call_ensures(FileHeader::from, (second,), second_entry),
        first_entry.unpacked_size == second_entry.unpacked_size,
        first_entry.flags == second_entry.flags,
        first_entry.file_crc == second_entry.file_crc,
        first_entry.file_time == second_entry.file_time,
        first_entry.method == second_entry.method,
        first_entry.file_attr == second_entry.file_attr,
    ensures
        first.unp_size == second.unp_size,
        first.unp_size_high == second.unp_size_high,
        first.flags == second.flags,
        first.file_crc == second.file_crc,
        first.file_time == second.file_time,
        first.method == second.method,
        first.file_attr == second.file_attr,
{
}

/// A size is put together from its two words without loss.
pub proof fn law_size_is_put_together(low: u32, high: u32, size: u64)
    requires
        call_ensures(crate::header::unpack_unp_size, (low, high), size),
    ensures
        size as int % 0x1_0000_0000 == low,
        size as int / 0x1_0000_0000 == high,
{
}

/// What an entry tells of itself: each property is a bit of the flag word. It is
/// split where it comes from the volume before or goes on in the next, and it is a
/// file where it is no directory.
pub proof fn law_entry_tells_its_flags(
    entry: &FileHeader,
    split: bool,
    before: bool,
    after: bool,
    directory: bool,
    encrypted: bool,
    file: bool,
)
    requires
        call_ensures(FileHeader::is_split, (entry,), split),
        call_ensures(FileHeader::is_split_before, (entry,), before),
        call_ensures(FileHeader::is_split_after, (entry,), after),
        call_ensures(FileHeader::is_directory, (entry,), directory),
        call_ensures(FileHeader::is_encrypted, (entry,), encrypted),
        call_ensures(FileHeader::is_file, (entry,), file),
    ensures
        before <==> crate::laws::opening::bit(entry.flags.bits(), 0x1),
        after <==> crate::laws::opening::bit(entry.flags.bits(), 0x2),
        encrypted <==> crate::laws::opening::bit(entry.flags.bits(), 0x4),
        directory <==> crate::laws::opening::bit(entry.flags.bits(), 0x20),
        split <==> before || after,
        file <==> !directory,
{
    crate::laws::opening::lemma_bits(entry.flags.bits());
}

/// The text for an entry is its path in quotes, then a slash if and only if it is a
/// directory, then the mark of a part if and only if it is split.
pub proof fn law_text_marks_directories_and_parts(
    entry: &FileHeader,
    quoted: String,
    described: String,
    text: String,
    split: bool,
    directory: bool,
)
    requires
        call_ensures(FileHeader::is_split, (entry,), split),
        call_ensures(FileHeader::is_directory, (entry,), directory),
        call_ensures(FileHeader::describe, (entry, quoted), described),
        call_ensures(FileHeader::to_string, (entry,), text),
    ensures
        ({
            let slash: Seq<char> = if directory {
                seq!['/']
            } else {
                seq![]
            };
            let mark: Seq<char> = if split {
                seq![' ', '(', 'p', 'a', 'r', 't', 'i', 'a', 'l', ')']
            } else {
                seq![]
            };
            &&& described@ == quoted@ + slash + mark
            &&& text@ == crate::header::quoted_path(entry.filename@) + slash + mark
        }),
{
    reveal_strlit("/");
    reveal_strlit(" (partial)");
    assert("/"@ =~= seq!['/']);
    assert(" (partial)"@ =~= seq![' ', '(', 'p', 'a', 'r', 't', 'i', 'a', 'l', ')']);
}

/// A C string is copied out of a buffer up to the first nul among the units that are
/// looked at, or to the end of those.
pub proof fn law_c_string_ends_at_the_first_nul(buffer: Vec<u32>, limit: usize, name: Vec<u32>)
    requires
        call_ensures(crate::wide::read_c_string, (buffer, limit), name),
    ensures
        holds_units(within(buffer@, limit as int), 0, name@),
{
    lemma_c_string(within(buffer@, limit as int));
}

/// Whether a message carries no name: no buffer, or nothing before its first nul.
pub open spec fn nameless(name: Option<WideName<'_>>) -> bool {
    match name {
        Some(WideName::Utf16(buffer)) => buffer@.len() == 0 || buffer@[0] == 0,
        Some(WideName::Utf32(buffer)) => buffer@.len() == 0 || buffer@[0] == 0,
        None => true,
    }
}

/// That `filename` is the whole name that a message carries.
pub open spec fn carries(name: Option<WideName<'_>>, filename: FileName) -> bool {
    match (name, filename) {
        (Some(WideName::Utf16(buffer)), FileName::Units(units)) => holds_units(
            buffer@,
            0,
            units@,
        ),
        (Some(WideName::Utf32(buffer)), FileName::Text(text)) => spells(buffer@, text@),
        _ => false,
    }
}

/// The name that the library makes of a message's buffer is whole, and there is none
/// if and only if the message carries none.
pub(crate) proof fn lemma_message_name(name: Option<WideName<'_>>, filename: FileName)
    ensures
        crate::wide::message_name(name) is None <==> nameless(name),
        crate::wide::message_name(name) == Some(filename@) ==> carries(name, filename),
{
    match name {
        Some(WideName::Utf16(buffer)) => lemma_c_string_16(buffer@),
        Some(WideName::Utf32(buffer)) => lemma_c_string(buffer@),
        None => {},
    }
}

/// The name of a file in a message is read whole, in units of either width, and
/// there is none if and only if the message carries none.
pub proof fn law_message_name_is_read_whole(
    name: Option<WideName<'_>>,
    filename: Option<FileName>,
)
    requires
        call_ensures(crate::wide::read_filename, (name,), filename),
    ensures
        filename is None <==> nameless(name),
        filename matches Some(filename) ==> carries(name, filename),
{
    if let Some(filename) = filename {
        lemma_message_name(name, filename);
    } else {
        lemma_message_name(name, arbitrary());
    }
}

/// Whatever reading a header gave back is taken, if the call failed or gave no
/// unknown flag; and of any entry everything can be asked.
pub proof fn law_header_takes_every_input<M: OpenMode>(
    archive: OpenArchive<M, CursorBeforeHeader>,
    reply: HeaderReply,
    entry: &FileHeader,
    quoted: String,
    name: Option<WideName<'_>>,
    buffer: Vec<u32>,
    limit: usize,
)
    requires
        reply.code == 0 ==> reply.header.flags < 0x40 && !crate::laws::opening::bit(
            reply.header.flags,
            0x8,
        ),
    ensures
        call_requires(crate::header::read_header, (reply,)),
        call_requires(OpenArchive::<M, CursorBeforeHeader>::read_header, (archive, reply)),
        call_requires(FileHeader::is_split, (entry,)),
        call_requires(FileHeader::is_split_before, (entry,)),
        call_requires(FileHeader::is_split_after, (entry,)),
        call_requires(FileHeader::is_directory, (entry,)),
        call_requires(FileHeader::is_encrypted, (entry,)),
        call_requires(FileHeader::is_file, (entry,)),
        call_requires(FileHeader::describe, (entry, quoted)),
        call_requires(FileHeader::to_string, (entry,)),
        call_requires(crate::wide::read_filename, (name,)),
        call_requires(crate::wide::read_c_string, (buffer, limit)),
{
    let flags = reply.header.flags;
    assert(flags < 0x40 && (flags / 0x8) % 2 != 1 ==> flags & !(0x1u32 | 0x2u32 | 0x4u32 | 0x10u32
        | 0x20u32) == 0) by (bit_vector);
}

} // verus!
