//! Open archives.
//!
//! An [`OpenArchive`] is the state of an archive between two calls into the
//! unpacking library. The calls are made by whoever holds the archive's handle:
//! a method hands out the call to make, or takes what a call gave back.

use crate::error::{Code, UnrarError, UnrarResult, When};
use crate::extract::{CallbackData, ExtractAll, ExtractAllWithCallback};
use crate::flags::ArchiveFlags;
use crate::header::FileHeader;
use crate::native::{
    HeaderReply, OpenReply, ROADF_COMMENT, ROADF_ENCHEADERS, ROADF_FIRSTVOLUME, ROADF_LOCK,
    ROADF_RECOVERY, ROADF_SOLID, ROADF_VOLUME,
};
use crate::private;
use crate::process::{Extract, ProcessMode, ReadToSink, Skip, Test, Transaction};
use crate::sink::DataSink;
use vstd::prelude::*;

verus! {

/// Volume information on the file that was *initially* opened.
#[derive(Debug, Clone, Copy, PartialEq, Eq, Structural)]
pub enum VolumeInfo {
    /// the *initially* opened file is a single-part archive
    Single,
    /// the *initially* opened file is the first volume in a multipart archive
    First,
    /// the *initially* opened file is any volume but the first in a multipart archive
    Subsequent,
}

/// Type parameter for [`OpenArchive`] denoting that reading a header must follow
/// next.
#[derive(Debug)]
pub struct CursorBeforeHeader;

/// Type parameter for [`OpenArchive`] denoting that processing a file must
/// follow next.
#[derive(Debug)]
pub struct CursorBeforeFile {
    header: FileHeader,
}

impl CursorBeforeFile {
    /// The name of the file can be handed on as a C string.
    #[verifier::type_invariant]
    spec fn name_has_no_nul(self) -> bool {
        forall|i: int| 0 <= i < self.header.filename@.len() ==> self.header.filename@[i] != '\0'
    }

    /// The header of the file.
    pub closed spec fn header(self) -> FileHeader {
        self.header
    }
}

/// The Cursor trait enables archives to keep track of their state.
pub trait Cursor: private::Sealed {

}

impl Cursor for CursorBeforeHeader {

}

impl Cursor for CursorBeforeFile {

}

/// An OpenMode for processing RAR archive entries.
///
/// Process allows more sophisticated operations than skipping a file.
#[derive(Debug)]
pub struct Process;

/// An OpenMode for listing RAR archive entries.
///
/// List mode will list all entries. The payload itself cannot be processed and
/// instead can only be skipped over. This will yield one header per individual
/// file, regardless of how many parts the file is split across.
#[derive(Debug)]
pub struct List;

/// An OpenMode for listing RAR archive entries.
///
/// ListSplit mode will list all entries. The payload itself cannot be processed
/// and instead can only be skipped over. This will yield one header per
/// individual file per part if the file is split across multiple parts. The
/// [`FileHeader::is_split`] method will return true in that case.
#[derive(Debug)]
pub struct ListSplit;

/// Mode with which the archive should be opened: [`List`], [`ListSplit`] or
/// [`Process`].
pub trait OpenMode: private::Sealed {
    /// What the archive is opened for.
    spec fn opens_for() -> private::OpenModeValue;

    /// What the archive is opened for.
    fn value() -> (value: private::OpenModeValue)
        ensures
            value == Self::opens_for(),
    ;
}

impl OpenMode for Process {
    open spec fn opens_for() -> private::OpenModeValue {
        private::OpenModeValue::Extract
    }

    fn value() -> (value: private::OpenModeValue) {
        private::OpenModeValue::Extract
    }
}

impl OpenMode for List {
    open spec fn opens_for() -> private::OpenModeValue {
        private::OpenModeValue::List
    }

    fn value() -> (value: private::OpenModeValue) {
        private::OpenModeValue::List
    }
}

impl OpenMode for ListSplit {
    open spec fn opens_for() -> private::OpenModeValue {
        private::OpenModeValue::ListIncSplit
    }

    fn value() -> (value: private::OpenModeValue) {
        private::OpenModeValue::ListIncSplit
    }
}

/// An open RAR archive that can be read or processed.
#[derive(Debug)]
pub struct OpenArchive<M: OpenMode, C: Cursor> {
    flags: ArchiveFlags,
    damaged: bool,
    extra: C,
    marker: std::marker::PhantomData<M>,
}

/// A file of an archive that is being processed: the transaction to run, and the
/// archive to go on with once it succeeds.
pub struct Processing<M: OpenMode, PM: ProcessMode> {
    archive: OpenArchive<M, CursorBeforeHeader>,
    transaction: Transaction<PM>,
}

/// The call that opens an archive.
#[derive(Debug)]
pub struct OpenCall {
    /// The archive's path, as a C string without its terminator.
    pub filename: Vec<u8>,
    /// What to open it for.
    pub mode: private::OpenModeValue,
}

/// What happened last while the next header of a listing is fetched.
#[derive(Debug)]
pub enum NextEvent {
    /// The caller asked for the next header.
    Start,
    /// A header was read.
    Header(HeaderReply),
    /// The file that belongs to the header was skipped, with this result.
    Skipped(FileHeader, UnrarResult<()>),
}

/// What to do next while the next header of a listing is fetched.
#[derive(Debug)]
pub enum NextAction {
    /// Read a header.
    ReadHeader,
    /// Run the transaction, which skips the file that belongs to the header.
    SkipFile(FileHeader, Transaction<Skip>),
    /// Give this to the caller: a header, an error, or nothing at the end.
    Yield(Option<Result<FileHeader, UnrarError>>),
}

/// The word that opening an archive reports, read as a signed number.
pub open spec fn signed(word: u32) -> int {
    if word < 0x8000_0000 {
        word as int
    } else {
        word - 0x1_0000_0000
    }
}

/// The code that opening an archive reports.
pub open spec fn open_code(reply: OpenReply) -> Code {
    crate::error::code_of(signed(reply.open_result))
}

/// The volume information that a flag word stands for.
pub open spec fn volume_of(flags: u32) -> VolumeInfo {
    if crate::flags::has_flag(flags, ROADF_FIRSTVOLUME) {
        VolumeInfo::First
    } else if crate::flags::has_flag(flags, ROADF_VOLUME) {
        VolumeInfo::Subsequent
    } else {
        VolumeInfo::Single
    }
}

/// Whether a listing is damaged after the event.
pub open spec fn damaged_after(damaged: bool, event: NextEvent) -> bool {
    match event {
        NextEvent::Start => damaged,
        NextEvent::Header(reply) => match crate::error::code_of(reply.code as int) {
            Code::Success => damaged,
            Code::EndArchive => damaged,
            _ => true,
        },
        NextEvent::Skipped(_, result) => damaged || result is Err,
    }
}

/// That the action is the one that follows the event.
pub open spec fn follows(damaged: bool, event: NextEvent, action: NextAction) -> bool {
    match event {
        NextEvent::Start => if damaged {
            action == NextAction::Yield(None)
        } else {
            action is ReadHeader
        },
        NextEvent::Header(reply) => match crate::error::code_of(reply.code as int) {
            Code::Success => {
                &&& action matches NextAction::SkipFile(header, transaction)
                &&& header@ == crate::header::entry_read(reply)
                &&& transaction.is_start(None, None, ())
            },
            Code::EndArchive => action == NextAction::Yield(None),
            code => action == NextAction::Yield(
                Some(Err(UnrarError { code, when: When::Read })),
            ),
        },
        NextEvent::Skipped(header, result) => action == NextAction::Yield(
            match result {
                Ok(()) => Some(Ok(header)),
                Err(error) => Some(Err(error)),
            },
        ),
    }
}

/// Reads a word as a signed number.
fn as_signed(word: u32) -> (number: i32)
    ensures
        number == signed(word),
{
    assert(word < 0x8000_0000 ==> word as i32 == word) by (bit_vector);
    assert(word >= 0x8000_0000 ==> word as i32 == word - 0x1_0000_0000) by (bit_vector);
    word as i32
}

impl<Mode: OpenMode, C: Cursor> OpenArchive<Mode, C> {
    /// The flag word of the archive.
    pub closed spec fn flags(&self) -> u32 {
        self.flags.bits()
    }

    /// Whether a listing was stopped by an error.
    pub closed spec fn damaged(&self) -> bool {
        self.damaged
    }

    /// What has to follow next.
    pub closed spec fn cursor(&self) -> C {
        self.extra
    }

    /// is the archive locked
    pub fn is_locked(&self) -> (locked: bool)
        ensures
            locked == crate::flags::has_flag(self.flags(), ROADF_LOCK),
    {
        self.flags.contains(ROADF_LOCK)
    }

    /// are the archive headers encrypted
    pub fn has_encrypted_headers(&self) -> (encrypted: bool)
        ensures
            encrypted == crate::flags::has_flag(self.flags(), ROADF_ENCHEADERS),
    {
        self.flags.contains(ROADF_ENCHEADERS)
    }

    /// does the archive have a recovery record
    pub fn has_recovery_record(&self) -> (recovery: bool)
        ensures
            recovery == crate::flags::has_flag(self.flags(), ROADF_RECOVERY),
    {
        self.flags.contains(ROADF_RECOVERY)
    }

    /// does the archive have comments
    pub fn has_comment(&self) -> (comment: bool)
        ensures
            comment == crate::flags::has_flag(self.flags(), ROADF_COMMENT),
    {
        self.flags.contains(ROADF_COMMENT)
    }

    /// is the archive solid (all files in a single compressed block).
    pub fn is_solid(&self) -> (solid: bool)
        ensures
            solid == crate::flags::has_flag(self.flags(), ROADF_SOLID),
    {
        self.flags.contains(ROADF_SOLID)
    }

    /// Volume information on the file that was *initially* opened.
    ///
    /// Note that this value *never* changes from `First` to `Subsequent` by
    /// advancing to a different volume.
    pub fn volume_info(&self) -> (info: VolumeInfo)
        ensures
            info == volume_of(self.flags()),
    {
        if self.flags.contains(ROADF_FIRSTVOLUME) {
            VolumeInfo::First
        } else if self.flags.contains(ROADF_VOLUME) {
            VolumeInfo::Subsequent
        } else {
            VolumeInfo::Single
        }
    }

    /// unsets the `damaged` flag so that a listing will not refuse to yield
    /// elements.
    ///
    /// Normally, when an error is returned during a listing, the archive
    /// remembers this so that subsequent calls to `next` yield `None`
    /// immediately. This is to prevent the same error from recurring over and
    /// over again, leading to endless loops in programs that might not have
    /// considered this. However, maybe there are errors that can be recovered
    /// from? That's where this method might come in handy if you really know
    /// what you're doing.
    pub fn force_heal(&mut self)
        ensures
            !final(self).damaged(),
            final(self).flags() == old(self).flags(),
            final(self).cursor() == old(self).cursor(),
    {
        self.damaged = false;
    }
}

impl<Mode: OpenMode> OpenArchive<Mode, CursorBeforeHeader> {
    /// The call that opens the archive at `filename`.
    pub fn open(filename: &[u8]) -> (call: OpenCall)
        requires
            crate::pathed::no_nul(filename@),
        ensures
            call.filename@ == filename@,
            call.mode == Mode::opens_for(),
    {
        OpenCall { filename: crate::pathed::construct(filename), mode: Mode::value() }
    }

    /// The password to set, as a C string without its terminator, once the call
    /// to open the archive has returned: the given one, but only where a handle
    /// came back.
    pub fn password(handle: bool, password: Option<&[u8]>) -> (to_set: Option<Vec<u8>>)
        requires
            handle ==> (password matches Some(password) ==> crate::pathed::no_nul(password@)),
        ensures
            crate::pathed::opt_bytes(to_set) == (if handle {
                crate::pathed::opt_slice(password)
            } else {
                None
            }),
    {
        match password {
            Some(password) => if handle {
                Some(crate::pathed::construct(password))
            } else {
                None
            },
            None => None,
        }
    }

    /// Turns what opening an archive gave back into the archive. Where a handle
    /// came back together with an error, the archive goes to `recover`, if that
    /// is given, in place of what was there.
    pub fn new(reply: OpenReply, recover: Option<&mut Option<Self>>) -> (result: UnrarResult<Self>)
        requires
            reply.handle ==> crate::flags::known_archive_flags(reply.flags),
        ensures
            match result {
                Ok(archive) => {
                    &&& reply.handle && open_code(reply) is Success
                    &&& archive.flags() == reply.flags
                    &&& !archive.damaged()
                },
                Err(error) => {
                    &&& !(reply.handle && open_code(reply) is Success)
                    &&& error == UnrarError { code: open_code(reply), when: When::Open }
                },
            },
            recover matches Some(slot) ==> {
                if reply.handle && !(open_code(reply) is Success) {
                    &&& *final(slot) matches Some(archive)
                    &&& archive.flags() == reply.flags
                    &&& !archive.damaged()
                } else {
                    *final(slot) == *slot
                }
            },
    {
        let arc = if reply.handle {
            Some(
                OpenArchive {
                    flags: ArchiveFlags::from_bits(reply.flags).unwrap(),
                    damaged: false,
                    extra: CursorBeforeHeader,
                    marker: std::marker::PhantomData,
                },
            )
        } else {
            None
        };
        let result = Code::from(as_signed(reply.open_result));
        match (arc, result) {
            (Some(arc), Code::Success) => Ok(arc),
            (arc, _) => {
                if let Some(slot) = recover {
                    if let Some(arc) = arc {
                        *slot = Some(arc);
                    }
                }
                Err(UnrarError::from(result, When::Open))
            },
        }
    }

    /// Takes what reading the next header gave back. In the resulting archive
    /// the file that belongs to the header has to be processed next; it also
    /// holds the header, see [`entry`](OpenArchive::entry). At the end of the
    /// archive there is `None`.
    pub fn read_header(self, reply: HeaderReply) -> (result: UnrarResult<
        Option<OpenArchive<Mode, CursorBeforeFile>>,
    >)
        requires
            crate::header::well_formed(reply),
        ensures
            match crate::error::code_of(reply.code as int) {
                Code::Success => {
                    &&& result matches Ok(Some(archive))
                    &&& archive.cursor().header()@ == crate::header::entry_read(reply)
                    &&& archive.flags() == self.flags()
                    &&& archive.damaged() == self.damaged()
                },
                Code::EndArchive => result matches Ok(None),
                code => result matches Err(error) && error == (UnrarError {
                    code,
                    when: When::Read,
                }),
            },
    {
        proof {
            crate::header::lemma_full_name_no_nul(reply);
        }
        match crate::header::read_header(reply) {
            Ok(Some(header)) => Ok(
                Some(
                    OpenArchive {
                        extra: CursorBeforeFile { header },
                        damaged: self.damaged,
                        flags: self.flags,
                        marker: std::marker::PhantomData,
                    },
                ),
            ),
            Ok(None) => Ok(None),
            Err(error) => Err(error),
        }
    }

    /// Goes one step further towards the next header of a listing.
    fn advance(&mut self, event: NextEvent) -> (action: NextAction)
        requires
            event matches NextEvent::Header(reply) ==> crate::header::well_formed(reply),
        ensures
            follows(old(self).damaged(), event, action),
            final(self).damaged() == damaged_after(old(self).damaged(), event),
            final(self).flags() == old(self).flags(),
    {
        match event {
            NextEvent::Start => if self.damaged {
                NextAction::Yield(None)
            } else {
                NextAction::ReadHeader
            },
            NextEvent::Header(reply) => match crate::header::read_header(reply) {
                Ok(Some(header)) => NextAction::SkipFile(
                    header,
                    Transaction::process_file_raw(None, None),
                ),
                Ok(None) => NextAction::Yield(None),
                Err(error) => {
                    self.damaged = true;
                    NextAction::Yield(Some(Err(error)))
                },
            },
            NextEvent::Skipped(header, result) => match result {
                Ok(()) => NextAction::Yield(Some(Ok(header))),
                Err(error) => {
                    self.damaged = true;
                    NextAction::Yield(Some(Err(error)))
                },
            },
        }
    }
}

impl OpenArchive<List, CursorBeforeHeader> {
    /// Fetches the next header, step by step: from [`NextEvent::Start`] on, each
    /// call takes what the action before it led to, until an action yields. An
    /// error damages the listing, which then yields nothing any more.
    pub fn next(&mut self, event: NextEvent) -> (action: NextAction)
        requires
            event matches NextEvent::Header(reply) ==> crate::header::well_formed(reply),
        ensures
            follows(old(self).damaged(), event, action),
            final(self).damaged() == damaged_after(old(self).damaged(), event),
            final(self).flags() == old(self).flags(),
    {
        self.advance(event)
    }
}

impl OpenArchive<ListSplit, CursorBeforeHeader> {
    /// Fetches the next header, step by step: from [`NextEvent::Start`] on, each
    /// call takes what the action before it led to, until an action yields. An
    /// error damages the listing, which then yields nothing any more.
    pub fn next(&mut self, event: NextEvent) -> (action: NextAction)
        requires
            event matches NextEvent::Header(reply) ==> crate::header::well_formed(reply),
        ensures
            follows(old(self).damaged(), event, action),
            final(self).damaged() == damaged_after(old(self).damaged(), event),
            final(self).flags() == old(self).flags(),
    {
        self.advance(event)
    }
}

impl<M: OpenMode> OpenArchive<M, CursorBeforeFile> {
    /// returns the file header for the file that follows which is to be
    /// processed next.
    pub fn entry(&self) -> (header: &FileHeader)
        ensures
            *header == self.cursor().header(),
    {
        &self.extra.header
    }

    /// skips over the next file, not doing anything with it.
    pub fn skip(self) -> (processing: Processing<M, Skip>)
        ensures
            processing.begins(self.flags(), self.damaged(), None, None, ()),
    {
        self.process_file(None, None)
    }

    /// Processes the next file without gathering anything.
    fn process_file<PM: ProcessMode<Output = ()>>(
        self,
        path: Option<Vec<u8>>,
        file: Option<Vec<u8>>,
    ) -> (processing: Processing<M, PM>)
        requires
            path matches Some(path) ==> crate::pathed::no_nul(path@),
            file matches Some(file) ==> crate::pathed::no_nul(file@),
        ensures
            processing.begins(
                self.flags(),
                self.damaged(),
                crate::pathed::opt_bytes(path),
                crate::pathed::opt_bytes(file),
                (),
            ),
    {
        self.process_file_x(path, file, ())
    }

    /// Processes the next file and gathers in `output`.
    fn process_file_x<PM: ProcessMode>(
        self,
        path: Option<Vec<u8>>,
        file: Option<Vec<u8>>,
        output: PM::Output,
    ) -> (processing: Processing<M, PM>)
        requires
            path matches Some(path) ==> crate::pathed::no_nul(path@),
            file matches Some(file) ==> crate::pathed::no_nul(file@),
        ensures
            processing.begins(
                self.flags(),
                self.damaged(),
                crate::pathed::opt_bytes(path),
                crate::pathed::opt_bytes(file),
                output,
            ),
    {
        Processing {
            archive: OpenArchive {
                extra: CursorBeforeHeader,
                damaged: self.damaged,
                flags: self.flags,
                marker: std::marker::PhantomData,
            },
            transaction: Transaction::process_file_raw_with(path, file, output),
        }
    }
}

impl<M: OpenMode, PM: ProcessMode> Processing<M, PM> {
    /// The flag word of the archive.
    pub closed spec fn flags(&self) -> u32 {
        self.archive.flags()
    }

    /// Whether a listing of the archive was stopped by an error.
    pub closed spec fn damaged(&self) -> bool {
        self.archive.damaged()
    }

    /// The transaction to run.
    pub closed spec fn transaction(&self) -> Transaction<PM> {
        self.transaction
    }

    /// Whether this is the start of processing a file of an archive with the
    /// given flags and damage, which names `path` and `file` and gathers in
    /// `output`.
    pub open spec fn begins(
        &self,
        flags: u32,
        damaged: bool,
        path: Option<Seq<u8>>,
        file: Option<Seq<u8>>,
        output: PM::Output,
    ) -> bool {
        &&& self.flags() == flags
        &&& self.damaged() == damaged
        &&& self.transaction().is_start(path, file, output)
    }

    /// That the archive comes back if and only if the call succeeded, as it was,
    /// and that otherwise the error does.
    pub open spec fn gives_back(
        &self,
        number: i32,
        result: UnrarResult<OpenArchive<M, CursorBeforeHeader>>,
    ) -> bool {
        match crate::process::process_outcome(number, self.transaction().data.aborted) {
            Ok(()) => {
                &&& result matches Ok(archive)
                &&& archive.flags() == self.flags()
                &&& archive.damaged() == self.damaged()
            },
            Err(error) => result == Err::<OpenArchive<M, CursorBeforeHeader>, UnrarError>(error),
        }
    }

    /// The transaction to run.
    pub fn transaction_mut(&mut self) -> (transaction: &mut Transaction<PM>)
        ensures
            *transaction == old(self).transaction(),
            final(self).transaction() == *final(transaction),
            final(self).flags() == old(self).flags(),
            final(self).damaged() == old(self).damaged(),
    {
        &mut self.transaction
    }

    /// Ends with the number that the call returned. What was gathered comes back
    /// either way, the archive only on success: an abort leaves the archive's
    /// cursor somewhere that cannot be described, so continuing from it is not
    /// offered.
    pub fn finish_with(self, number: i32) -> (end: (
        PM::Output,
        UnrarResult<OpenArchive<M, CursorBeforeHeader>>,
    ))
        ensures
            end.0 == self.transaction().data.output,
            self.gives_back(number, end.1),
    {
        let (output, result) = self.transaction.finish(number);
        let archive = self.archive;
        let result = match result {
            Ok(()) => Ok(archive),
            Err(error) => Err(error),
        };
        (output, result)
    }

    /// As [`finish_with`](Processing::finish_with), with what was gathered beside
    /// the archive.
    pub fn finish_output(self, number: i32) -> (result: UnrarResult<
        (PM::Output, OpenArchive<M, CursorBeforeHeader>),
    >)
        ensures
            match result {
                Ok((output, archive)) => {
                    &&& output == self.transaction().data.output
                    &&& self.gives_back(number, Ok(archive))
                },
                Err(error) => self.gives_back(number, Err(error)),
            },
    {
        let (output, result) = self.finish_with(number);
        match result {
            Ok(archive) => Ok((output, archive)),
            Err(error) => Err(error),
        }
    }

    /// As [`finish_with`](Processing::finish_with), without what was gathered.
    pub fn finish(self, number: i32) -> (result: UnrarResult<OpenArchive<M, CursorBeforeHeader>>)
        ensures
            self.gives_back(number, result),
    {
        self.finish_with(number).1
    }
}

impl OpenArchive<Process, CursorBeforeFile> {
    /// Reads the underlying file into a `Vec<u8>`.
    /// [`finish_output`](Processing::finish_output) returns the data as well as
    /// the owned archive that can be processed further.
    pub fn read(self) -> (processing: Processing<Process, ReadToSink<Vec<u8>>>)
        ensures
            processing.begins(
                self.flags(),
                self.damaged(),
                None,
                None,
                processing.transaction().data.output,
            ),
            processing.transaction().data.output@ == Seq::<u8>::empty(),
    {
        self.read_into(Vec::new())
    }

    /// Reads the underlying file, handing each chunk to `sink` as it is
    /// produced.
    ///
    /// Nothing is written to disk: this runs the test operation and captures the
    /// bytes from its messages.
    ///
    /// [`finish_with`](Processing::finish_with) gives the sink back either way,
    /// so a sink that stopped early still carries what it took. An aborted read
    /// is [`Code::Aborted`](crate::error::Code::Aborted) rather than an error
    /// that the unpacking library raised.
    pub fn read_into<S: DataSink>(self, sink: S) -> (processing: Processing<
        Process,
        ReadToSink<S>,
    >)
        ensures
            processing.begins(self.flags(), self.damaged(), None, None, sink),
    {
        self.process_file_x(None, None, sink)
    }

    /// Test the file without extracting it
    pub fn test(self) -> (processing: Processing<Process, Test>)
        ensures
            processing.begins(self.flags(), self.damaged(), None, None, ()),
    {
        self.process_file(None, None)
    }

    /// Extracts the file into the current working directory
    pub fn extract(self) -> (processing: Processing<Process, Extract>)
        ensures
            processing.begins(
                self.flags(),
                self.damaged(),
                None,
                Some(crate::pathed::extract_target(None, self.cursor().header()@.filename)),
                (),
            ),
    {
        self.dir_extract(None)
    }

    /// Extracts the file into the directory `base`.
    pub fn extract_with_base(self, base: &[u8]) -> (processing: Processing<Process, Extract>)
        requires
            crate::pathed::no_nul(base@),
        ensures
            processing.begins(
                self.flags(),
                self.damaged(),
                None,
                Some(crate::pathed::extract_target(Some(base@), self.cursor().header()@.filename)),
                (),
            ),
    {
        self.dir_extract(Some(base))
    }

    /// Extracts the file into the file `file`.
    pub fn extract_to(self, file: &[u8]) -> (processing: Processing<Process, Extract>)
        requires
            crate::pathed::no_nul(file@),
        ensures
            processing.begins(self.flags(), self.damaged(), None, Some(file@), ()),
    {
        let dest = crate::pathed::construct(file);
        self.process_file(None, Some(dest))
    }

    /// Extracts the file into the directory `base`, or into the current one. The
    /// file is named by its full path, since a name with other than plain
    /// characters cannot be extracted into a named directory.
    fn dir_extract(self, base: Option<&[u8]>) -> (processing: Processing<Process, Extract>)
        requires
            base matches Some(base) ==> crate::pathed::no_nul(base@),
        ensures
            processing.begins(
                self.flags(),
                self.damaged(),
                None,
                Some(
                    crate::pathed::extract_target(
                        crate::pathed::opt_slice(base),
                        self.cursor().header()@.filename,
                    ),
                ),
                (),
            ),
    {
        proof {
            use_type_invariant(&self.extra);
        }
        let (path, file) = crate::pathed::preprocess_extract(
            base,
            self.extra.header.filename.as_str(),
        );
        self.process_file(path, file)
    }
}

impl OpenArchive<Process, CursorBeforeHeader> {
    /// Extracts all files from the archive to the directory `dest` in a single
    /// operation.
    pub fn extract_all(self, dest: &[u8]) -> (call: ExtractAll)
        requires
            crate::pathed::no_nul(dest@),
        ensures
            call.dest@ == dest@,
    {
        ExtractAll { dest: crate::pathed::construct(dest) }
    }

    /// Extracts all files from the archive to the directory `dest`, with
    /// progress events.
    pub fn extract_all_with_callback(self, dest: &[u8]) -> (call: ExtractAllWithCallback)
        requires
            crate::pathed::no_nul(dest@),
        ensures
            call.dest@ == dest@,
            !call.data.cancelled,
            call.data.pending_size == 0,
    {
        ExtractAllWithCallback { dest: crate::pathed::construct(dest), data: CallbackData::new() }
    }
}

} // verus!
