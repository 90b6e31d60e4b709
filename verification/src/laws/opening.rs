//! What holds of opening an archive.

use crate::archive::{
    Cursor, CursorBeforeHeader, List, ListSplit, OpenArchive, OpenCall, OpenMode, Process,
    VolumeInfo,
};
use crate::error::{Code, UnrarError, UnrarResult, When};
use crate::flags::{ArchiveFlags, EntryFlags};
use crate::native::OpenReply;
use crate::private::OpenModeValue;
use vstd::prelude::*;

verus! {

/// Whether the bit of the given value is set in a word.
pub open spec fn bit(word: u32, value: u32) -> bool {
    (word / value) % 2 == 1
}

/// The bits of the flags, one by one.
pub(crate) proof fn lemma_bits(word: u32)
    ensures
        word & 0x1 == 0x1 <==> bit(word, 0x1),
        word & 0x2 == 0x2 <==> bit(word, 0x2),
        word & 0x4 == 0x4 <==> bit(word, 0x4),
        word & 0x8 == 0x8 <==> bit(word, 0x8),
        word & 0x20 == 0x20 <==> bit(word, 0x20),
        word & 0x40 == 0x40 <==> bit(word, 0x40),
        word & 0x80 == 0x80 <==> bit(word, 0x80),
        word & 0x100 == 0x100 <==> bit(word, 0x100),
{
    assert(word & 0x1 == 0x1 <==> (word / 0x1) % 2 == 1) by (bit_vector);
    assert(word & 0x2 == 0x2 <==> (word / 0x2) % 2 == 1) by (bit_vector);
    assert(word & 0x4 == 0x4 <==> (word / 0x4) % 2 == 1) by (bit_vector);
    assert(word & 0x8 == 0x8 <==> (word / 0x8) % 2 == 1) by (bit_vector);
    assert(word & 0x20 == 0x20 <==> (word / 0x20) % 2 == 1) by (bit_vector);
    assert(word & 0x40 == 0x40 <==> (word / 0x40) % 2 == 1) by (bit_vector);
    assert(word & 0x80 == 0x80 <==> (word / 0x80) % 2 == 1) by (bit_vector);
    assert(word & 0x100 == 0x100 <==> (word / 0x100) % 2 == 1) by (bit_vector);
}

/// Each number that the unpacking library reports has a code of its own, and all
/// others are unknown.
pub proof fn law_each_number_has_its_code(number: int)
    ensures
        crate::error::code_of(number) is Success <==> number == 0,
        crate::error::code_of(number) is EndArchive <==> number == 10,
        crate::error::code_of(number) is NoMemory <==> number == 11,
        crate::error::code_of(number) is BadData <==> number == 12,
        crate::error::code_of(number) is BadArchive <==> number == 13,
        crate::error::code_of(number) is UnknownFormat <==> number == 14,
        crate::error::code_of(number) is EOpen <==> number == 15,
        crate::error::code_of(number) is ECreate <==> number == 16,
        crate::error::code_of(number) is EClose <==> number == 17,
        crate::error::code_of(number) is ERead <==> number == 18,
        crate::error::code_of(number) is EWrite <==> number == 19,
        crate::error::code_of(number) is SmallBuf <==> number == 20,
        crate::error::code_of(number) is MissingPassword <==> number == 22,
        crate::error::code_of(number) is EReference <==> number == 23,
        crate::error::code_of(number) is BadPassword <==> number == 24,
        crate::error::code_of(number) is LargeDict <==> number == 25,
        !(crate::error::code_of(number) is Aborted),
{
}

/// A code made from a number is the code of that number.
pub proof fn law_code_is_made_from_its_number(number: i32, code: Code)
    requires
        call_ensures(<Code as From<i32>>::from, (number,), code),
    ensures
        code == crate::error::code_of(number as int),
        code is Success <==> number == 0,
        code is EndArchive <==> number == 10,
        !(code is Aborted),
{
}

/// An error keeps its code and the step it came up in.
pub proof fn law_error_keeps_code_and_step(code: Code, when: When, error: UnrarError)
    requires
        call_ensures(UnrarError::from, (code, when), error),
    ensures
        error.code == code,
        error.when == when,
{
}

/// The number that the unpacking library knows each open mode by.
pub proof fn law_open_mode_numbers(mode: OpenModeValue, number: u32)
    requires
        call_ensures(OpenModeValue::as_u32, (mode,), number),
    ensures
        mode is List <==> number == 0,
        mode is Extract <==> number == 1,
        mode is ListIncSplit <==> number == 2,
{
}

/// An archive is opened at the path that was given.
pub proof fn law_opens_the_given_path<M: OpenMode>(filename: &[u8], call: OpenCall)
    requires
        call_ensures(OpenArchive::<M, CursorBeforeHeader>::open, (filename,), call),
    ensures
        call.filename@ == filename@,
{
}

/// An archive is opened for what its type says: a listing can never be processed,
/// and only one of the two listings shows the parts of split files.
pub proof fn law_opens_in_the_mode_of_the_type(
    filename: &[u8],
    processed: OpenCall,
    listed: OpenCall,
    parts_listed: OpenCall,
)
    requires
        call_ensures(OpenArchive::<Process, CursorBeforeHeader>::open, (filename,), processed),
        call_ensures(OpenArchive::<List, CursorBeforeHeader>::open, (filename,), listed),
        call_ensures(OpenArchive::<ListSplit, CursorBeforeHeader>::open, (filename,), parts_listed),
    ensures
        processed.mode is Extract,
        listed.mode is List,
        parts_listed.mode is ListIncSplit,
{
}

/// A password is set if and only if one was given and a handle came back, and it
/// is the one that was given.
pub proof fn law_password_is_the_given_one<M: OpenMode>(
    handle: bool,
    password: Option<&[u8]>,
    to_set: Option<Vec<u8>>,
)
    requires
        call_ensures(
            OpenArchive::<M, CursorBeforeHeader>::password,
            (handle, password),
            to_set,
        ),
    ensures
        to_set is Some <==> handle && password is Some,
        to_set matches Some(set) ==> password matches Some(given) && set@ == given@,
{
}

/// An archive is open if and only if a handle came back and the call reported
/// zero. It starts undamaged, with the flags that came back. Otherwise the error is
/// the one that was reported, of the step of opening.
pub proof fn law_open_iff_handle_and_success<M: OpenMode>(
    reply: OpenReply,
    recover: Option<&mut Option<OpenArchive<M, CursorBeforeHeader>>>,
    reported: i32,
    result: UnrarResult<OpenArchive<M, CursorBeforeHeader>>,
)
    requires
        call_ensures(OpenArchive::<M, CursorBeforeHeader>::new, (reply, recover), result),
        // The word that was reported, read as a signed number.
        (reply.open_result - reported) % 0x1_0000_0000 == 0,
    ensures
        result is Ok <==> reply.handle && reply.open_result == 0,
        result matches Ok(archive) ==> archive.flags() == reply.flags && !archive.damaged(),
        result matches Err(error) ==> error.when is Open && error.code == crate::error::code_of(
            reported as int,
        ),
{
    assert(crate::archive::signed(reply.open_result) == reported);
}

/// Where a handle came back together with an error, the archive can still be had:
/// it takes the place of what the caller offered. In every other case that is left
/// as it was.
pub proof fn law_archive_is_recovered_from_an_error<M: OpenMode>(
    reply: OpenReply,
    slot: &mut Option<OpenArchive<M, CursorBeforeHeader>>,
    result: UnrarResult<OpenArchive<M, CursorBeforeHeader>>,
)
    requires
        call_ensures(OpenArchive::<M, CursorBeforeHeader>::new, (reply, Some(slot)), result),
    ensures
        reply.handle && reply.open_result != 0 ==> {
            &&& result is Err
            &&& *final(slot) matches Some(archive)
            &&& archive.flags() == reply.flags
            &&& !archive.damaged()
        },
        !reply.handle || reply.open_result == 0 ==> *final(slot) == *old(slot),
{
}

/// What an archive tells of itself, from what opening it gave back: each property
/// is one bit of the flag word.
pub proof fn law_archive_tells_its_flags<M: OpenMode>(
    reply: OpenReply,
    recover: Option<&mut Option<OpenArchive<M, CursorBeforeHeader>>>,
    archive: OpenArchive<M, CursorBeforeHeader>,
    comment: bool,
    locked: bool,
    solid: bool,
    recovery: bool,
    encrypted: bool,
    info: VolumeInfo,
)
    requires
        call_ensures(OpenArchive::<M, CursorBeforeHeader>::new, (reply, recover), Ok(archive)),
        call_ensures(OpenArchive::<M, CursorBeforeHeader>::has_comment, (&archive,), comment),
        call_ensures(OpenArchive::<M, CursorBeforeHeader>::is_locked, (&archive,), locked),
        call_ensures(OpenArchive::<M, CursorBeforeHeader>::is_solid, (&archive,), solid),
        call_ensures(
            OpenArchive::<M, CursorBeforeHeader>::has_recovery_record,
            (&archive,),
            recovery,
        ),
        call_ensures(
            OpenArchive::<M, CursorBeforeHeader>::has_encrypted_headers,
            (&archive,),
            encrypted,
        ),
        call_ensures(OpenArchive::<M, CursorBeforeHeader>::volume_info, (&archive,), info),
    ensures
        comment <==> bit(reply.flags, 0x2),
        locked <==> bit(reply.flags, 0x4),
        solid <==> bit(reply.flags, 0x8),
        recovery <==> bit(reply.flags, 0x40),
        encrypted <==> bit(reply.flags, 0x80),
        info is First <==> bit(reply.flags, 0x100),
        info is Subsequent <==> bit(reply.flags, 0x1) && !bit(reply.flags, 0x100),
        info is Single <==> !bit(reply.flags, 0x1) && !bit(reply.flags, 0x100),
{
    lemma_bits(reply.flags);
}

/// What an archive tells of itself does not depend on where its cursor is, nor on
/// whether it is damaged.
pub proof fn law_flags_are_told_from_the_word<M: OpenMode, C: Cursor>(
    archive: OpenArchive<M, C>,
    comment: bool,
    locked: bool,
    solid: bool,
    recovery: bool,
    encrypted: bool,
    info: VolumeInfo,
)
    requires
        call_ensures(OpenArchive::<M, C>::has_comment, (&archive,), comment),
        call_ensures(OpenArchive::<M, C>::is_locked, (&archive,), locked),
        call_ensures(OpenArchive::<M, C>::is_solid, (&archive,), solid),
        call_ensures(OpenArchive::<M, C>::has_recovery_record, (&archive,), recovery),
        call_ensures(OpenArchive::<M, C>::has_encrypted_headers, (&archive,), encrypted),
        call_ensures(OpenArchive::<M, C>::volume_info, (&archive,), info),
    ensures
        comment <==> bit(archive.flags(), 0x2),
        locked <==> bit(archive.flags(), 0x4),
        solid <==> bit(archive.flags(), 0x8),
        recovery <==> bit(archive.flags(), 0x40),
        encrypted <==> bit(archive.flags(), 0x80),
        info is First <==> bit(archive.flags(), 0x100),
        info is Subsequent <==> bit(archive.flags(), 0x1) && !bit(archive.flags(), 0x100),
        info is Single <==> !bit(archive.flags(), 0x1) && !bit(archive.flags(), 0x100),
{
    lemma_bits(archive.flags());
}

/// Healing an archive takes the damage away and nothing else.
pub proof fn law_healing_only_takes_the_damage_away<M: OpenMode, C: Cursor>(
    archive: &mut OpenArchive<M, C>,
)
    requires
        call_ensures(OpenArchive::<M, C>::force_heal, (archive,), ()),
    ensures
        !final(archive).damaged(),
        final(archive).flags() == old(archive).flags(),
        final(archive).cursor() == old(archive).cursor(),
{
}

/// A word is taken for the flags of an archive if and only if only its nine lowest
/// bits are set, and is kept as it is.
pub proof fn law_archive_flags_are_the_known_bits(word: u32, flags: Option<ArchiveFlags>)
    requires
        call_ensures(ArchiveFlags::from_bits, (word,), flags),
    ensures
        flags is Some <==> word < 0x200,
        flags matches Some(flags) ==> flags.bits() == word,
{
    assert(word & !(0x1u32 | 0x2u32 | 0x4u32 | 0x8u32 | 0x10u32 | 0x20u32 | 0x40u32 | 0x80u32
        | 0x100u32) == 0 <==> word < 0x200) by (bit_vector);
}

/// A word is taken for the flags of an entry if and only if none but its six lowest
/// bits are set and the fourth of those is not, and is kept as it is.
pub proof fn law_entry_flags_are_the_known_bits(word: u32, flags: Option<EntryFlags>)
    requires
        call_ensures(EntryFlags::from_bits, (word,), flags),
    ensures
        flags is Some <==> word < 0x40 && !bit(word, 0x8),
        flags matches Some(flags) ==> flags.bits() == word,
{
    assert(word & !(0x1u32 | 0x2u32 | 0x4u32 | 0x10u32 | 0x20u32) == 0 <==> word < 0x40 && (word
        / 0x8) % 2 != 1) by (bit_vector);
}

/// Flags contain another word if and only if adding its bits changes nothing.
pub proof fn law_flags_contain_what_adds_nothing(
    archive: ArchiveFlags,
    in_archive: bool,
    entry: EntryFlags,
    in_entry: bool,
    flag: u32,
)
    requires
        call_ensures(ArchiveFlags::contains, (archive, flag), in_archive),
        call_ensures(EntryFlags::contains, (entry, flag), in_entry),
    ensures
        in_archive <==> archive.bits() | flag == archive.bits(),
        in_entry <==> entry.bits() | flag == entry.bits(),
{
    let first = archive.bits();
    let second = entry.bits();
    assert(first & flag == flag <==> first | flag == first) by (bit_vector);
    assert(second & flag == flag <==> second | flag == second) by (bit_vector);
}

/// Any path that can be a C string can be opened, with any password that can be one.
/// Whatever the call gave back is taken, if it gave no handle or no unknown flag.
pub proof fn law_opening_takes_every_input<M: OpenMode, C: Cursor>(
    filename: &[u8],
    password: &[u8],
    handle: bool,
    reply: OpenReply,
    recover: Option<&mut Option<OpenArchive<M, CursorBeforeHeader>>>,
    archive: &OpenArchive<M, C>,
    number: i32,
)
    requires
        forall|i: int| 0 <= i < filename@.len() ==> filename@[i] != 0,
        forall|i: int| 0 <= i < password@.len() ==> password@[i] != 0,
        reply.handle ==> reply.flags < 0x200,
    ensures
        call_requires(OpenArchive::<M, CursorBeforeHeader>::open, (filename,)),
        call_requires(
            OpenArchive::<M, CursorBeforeHeader>::password,
            (handle, Some(password)),
        ),
        call_requires(OpenArchive::<M, CursorBeforeHeader>::password, (handle, None)),
        call_requires(OpenArchive::<M, CursorBeforeHeader>::new, (reply, recover)),
        call_requires(OpenArchive::<M, C>::is_locked, (archive,)),
        call_requires(OpenArchive::<M, C>::is_solid, (archive,)),
        call_requires(OpenArchive::<M, C>::has_comment, (archive,)),
        call_requires(OpenArchive::<M, C>::has_recovery_record, (archive,)),
        call_requires(OpenArchive::<M, C>::has_encrypted_headers, (archive,)),
        call_requires(OpenArchive::<M, C>::volume_info, (archive,)),
        call_requires(<Code as From<i32>>::from, (number,)),
{
    let flags = reply.flags;
    assert(flags < 0x200 ==> flags & !(0x1u32 | 0x2u32 | 0x4u32 | 0x8u32 | 0x10u32 | 0x20u32
        | 0x40u32 | 0x80u32 | 0x100u32) == 0) by (bit_vector);
}

} // verus!
