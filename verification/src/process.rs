//! One file, from the call that processes it to its result.
//!
//! A [`Transaction`] holds the call to make. While that call runs, every message
//! it sends goes through [`callback`], and the number that it returns in the end
//! goes through [`Transaction::finish`].

use crate::error::{Code, UnrarError, UnrarResult, When};
use crate::native::{RAR_VOL_ASK, UCM_CHANGEVOLUMEW, UCM_PROCESSDATA};
use crate::private::Operation;
use crate::sink::DataSink;
use crate::wide::{read_c_string, MAX_PATH_WCHARS};
use vstd::prelude::*;

verus! {

/// How a file is processed, and what becomes of its bytes.
pub trait ProcessMode {
    /// What the bytes are gathered in.
    type Output;

    /// The operation to ask for.
    spec fn asks_for() -> Operation;

    /// The operation to ask for.
    fn operation() -> (operation: Operation)
        ensures
            operation == Self::asks_for(),
    ;

    /// What is made of a chunk: that `before` can become `after` when `chunk`
    /// arrives, with the given answer.
    spec fn processed(
        before: Self::Output,
        chunk: Seq<u8>,
        after: Self::Output,
        go_on: bool,
    ) -> bool;

    /// Takes one chunk. Returns `false` to abort the operation.
    fn process_data(data: &mut Self::Output, other: &[u8]) -> (go_on: bool)
        ensures
            Self::processed(*old(data), other@, *final(data), go_on),
    ;
}

/// Moves past the file.
#[derive(Debug)]
pub struct Skip;

/// Hands the bytes of the file to a sink.
#[derive(Debug)]
pub struct ReadToSink<S>(std::marker::PhantomData<S>);

/// Unpacks the file to disk.
#[derive(Debug)]
pub struct Extract;

/// Unpacks the file without writing it anywhere.
#[derive(Debug)]
pub struct Test;

impl ProcessMode for Skip {
    type Output = ();

    open spec fn asks_for() -> Operation {
        Operation::Skip
    }

    fn operation() -> (operation: Operation) {
        Operation::Skip
    }

    open spec fn processed(before: (), chunk: Seq<u8>, after: (), go_on: bool) -> bool {
        go_on
    }

    fn process_data(data: &mut (), other: &[u8]) -> (go_on: bool) {
        true
    }
}

/// The operation is the one that writes nothing to disk: the bytes are captured
/// from the messages.
impl<S: DataSink> ProcessMode for ReadToSink<S> {
    type Output = S;

    open spec fn asks_for() -> Operation {
        Operation::Test
    }

    fn operation() -> (operation: Operation) {
        Operation::Test
    }

    open spec fn processed(before: S, chunk: Seq<u8>, after: S, go_on: bool) -> bool {
        S::took(before, chunk, after, go_on)
    }

    fn process_data(data: &mut S, other: &[u8]) -> (go_on: bool) {
        data.write_chunk(other)
    }
}

impl ProcessMode for Extract {
    type Output = ();

    open spec fn asks_for() -> Operation {
        Operation::Extract
    }

    fn operation() -> (operation: Operation) {
        Operation::Extract
    }

    open spec fn processed(before: (), chunk: Seq<u8>, after: (), go_on: bool) -> bool {
        go_on
    }

    fn process_data(data: &mut (), other: &[u8]) -> (go_on: bool) {
        true
    }
}

impl ProcessMode for Test {
    type Output = ();

    open spec fn asks_for() -> Operation {
        Operation::Test
    }

    fn operation() -> (operation: Operation) {
        Operation::Test
    }

    open spec fn processed(before: (), chunk: Seq<u8>, after: (), go_on: bool) -> bool {
        go_on
    }

    fn process_data(data: &mut (), other: &[u8]) -> (go_on: bool) {
        true
    }
}

/// What is gathered while a call runs.
#[derive(Debug)]
pub struct Userdata<T> {
    /// What the bytes are gathered in.
    pub output: T,
    /// The name of the volume that was last asked for or moved to, in wide
    /// characters.
    pub next_volume: Option<Vec<u32>>,
    /// That the operation was aborted from this side. The unpacking library
    /// cannot tell: it reports such an abort as an unknown error.
    pub aborted: bool,
}

impl<T> Userdata<T> {
    /// Whether nothing was gathered yet but for what `output` came with.
    pub open spec fn is_fresh(self, output: T) -> bool {
        self.output == output && self.next_volume is None && !self.aborted
    }

    /// The state before the first message.
    pub fn new(output: T) -> (data: Userdata<T>)
        ensures
            data.is_fresh(output),
    {
        Userdata { output, next_volume: None, aborted: false }
    }

    /// Records whether a chunk was accepted, and gives the answer that says so
    /// to the unpacking library.
    pub fn settle(&mut self, go_on: bool) -> (answer: i32)
        ensures
            final(self).output == old(self).output,
            final(self).next_volume == old(self).next_volume,
            final(self).aborted == (old(self).aborted || !go_on),
            answer == chunk_answer(go_on),
    {
        if go_on {
            0
        } else {
            self.aborted = true;
            -1
        }
    }
}

/// The kinds of messages of a running call that are told apart.
#[derive(Debug, Clone, Copy, PartialEq, Eq, Structural)]
pub enum MessageKind {
    /// Another volume comes next.
    ChangeVolume,
    /// A chunk of the file was unpacked.
    ProcessData,
    /// Any other message.
    Other,
}

/// The kind of message that a number stands for.
pub open spec fn kind_of(msg: u32) -> MessageKind {
    if msg == UCM_CHANGEVOLUMEW {
        MessageKind::ChangeVolume
    } else if msg == UCM_PROCESSDATA {
        MessageKind::ProcessData
    } else {
        MessageKind::Other
    }
}

/// The kind of message that a number stands for.
pub fn message_kind(msg: u32) -> (kind: MessageKind)
    ensures
        kind == kind_of(msg),
{
    match msg {
        UCM_CHANGEVOLUMEW => MessageKind::ChangeVolume,
        UCM_PROCESSDATA => MessageKind::ProcessData,
        _ => MessageKind::Other,
    }
}

/// A message that a running call sends.
#[derive(Debug)]
pub enum Message<'a> {
    /// The volume named in the buffer comes next. The mode tells whether it was
    /// found.
    ChangeVolume {
        /// The buffer that holds the volume's name, in wide characters.
        next: Vec<u32>,
        /// `RAR_VOL_ASK`, or any other number where the volume was found.
        mode: i64,
    },
    /// A chunk of the file was unpacked.
    ProcessData {
        /// The bytes of the chunk.
        chunk: &'a [u8],
    },
    /// Any other message.
    Other,
}

/// The answer to a chunk: zero goes on, minus one stops.
pub open spec fn chunk_answer(go_on: bool) -> int {
    if go_on {
        0
    } else {
        -1
    }
}

/// The answer to a change of volume: a volume that was not found stops.
pub open spec fn volume_answer(mode: i64) -> int {
    if mode == RAR_VOL_ASK {
        -1
    } else {
        0
    }
}

/// That a message can take the gathered data from `before` to `after` and be
/// answered so.
pub open spec fn reaction<PM: ProcessMode>(
    before: Userdata<PM::Output>,
    message: Message<'_>,
    after: Userdata<PM::Output>,
    answer: i32,
) -> bool {
    match message {
        Message::ChangeVolume { next, mode } => {
            &&& after.output == before.output
            &&& after.next_volume matches Some(name) && name@ == crate::wide::c_string(
                next@,
                MAX_PATH_WCHARS as nat,
            )
            &&& after.aborted == before.aborted
            &&& answer == volume_answer(mode)
        },
        Message::ProcessData { chunk } => {
            let go_on = answer == chunk_answer(true);
            &&& PM::processed(before.output, chunk@, after.output, go_on)
            &&& after.next_volume == before.next_volume
            &&& after.aborted == (before.aborted || !go_on)
            &&& answer == chunk_answer(go_on)
        },
        Message::Other => after == before && answer == 0,
    }
}

/// Reacts to a message of a running call.
pub fn callback<PM: ProcessMode>(
    user_data: Option<&mut Userdata<PM::Output>>,
    message: Message<'_>,
) -> (answer: i32)
    ensures
        user_data is None ==> answer == 0,
        user_data matches Some(data) ==> reaction::<PM>(*data, message, *final(data), answer),
{
    let data = match user_data {
        Some(data) => data,
        None => return 0,
    };
    match message {
        Message::ChangeVolume { next, mode } => {
            data.next_volume = Some(read_c_string(next, MAX_PATH_WCHARS));
            if mode == RAR_VOL_ASK {
                -1
            } else {
                0
            }
        },
        Message::ProcessData { chunk } => {
            let go_on = PM::process_data(&mut data.output, chunk);
            data.settle(go_on)
        },
        Message::Other => 0,
    }
}

/// The call that processes a file.
#[derive(Debug)]
pub struct ProcessCall {
    /// What to do with the file.
    pub operation: Operation,
    /// The directory to name, as a C string without its terminator.
    pub path: Option<Vec<u8>>,
    /// The file to name, as a C string without its terminator.
    pub file: Option<Vec<u8>>,
}

impl ProcessCall {
    /// Whether the call names nothing that cannot be a C string.
    pub open spec fn no_nul(self) -> bool {
        &&& self.path matches Some(path) ==> crate::pathed::no_nul(path@)
        &&& self.file matches Some(file) ==> crate::pathed::no_nul(file@)
    }
}

/// The result of a call that returned `number`. An abort from this side is
/// recovered before the unknown error, which the unpacking library reports for
/// it, can be mistaken for a real failure.
pub open spec fn process_outcome(number: i32, aborted: bool) -> UnrarResult<()> {
    let code = crate::error::code_of(number as int);
    if code is Success {
        Ok(())
    } else if aborted {
        Err(UnrarError { code: Code::Aborted, when: When::Process })
    } else {
        Err(UnrarError { code, when: When::Process })
    }
}

/// A call that processes a file, and what is gathered while it runs.
#[derive(Debug)]
pub struct Transaction<PM: ProcessMode> {
    /// The call to make.
    pub call: ProcessCall,
    /// What is gathered while it runs.
    pub data: Userdata<PM::Output>,
}

impl<PM: ProcessMode> Transaction<PM> {
    /// Whether this is the start of the transaction that names `path` and
    /// `file` and gathers in `output`.
    pub open spec fn is_start(
        self,
        path: Option<Seq<u8>>,
        file: Option<Seq<u8>>,
        output: PM::Output,
    ) -> bool {
        &&& self.call.operation == PM::asks_for()
        &&& crate::pathed::opt_bytes(self.call.path) == path
        &&& crate::pathed::opt_bytes(self.call.file) == file
        &&& self.call.no_nul()
        &&& self.data.is_fresh(output)
    }

    /// The transaction that names `path` and `file`, where they are given, and
    /// gathers in `output`.
    pub fn process_file_raw_with(
        path: Option<Vec<u8>>,
        file: Option<Vec<u8>>,
        output: PM::Output,
    ) -> (transaction: Transaction<PM>)
        requires
            path matches Some(path) ==> crate::pathed::no_nul(path@),
            file matches Some(file) ==> crate::pathed::no_nul(file@),
        ensures
            transaction.is_start(
                crate::pathed::opt_bytes(path),
                crate::pathed::opt_bytes(file),
                output,
            ),
    {
        Transaction {
            call: ProcessCall { operation: PM::operation(), path, file },
            data: Userdata::new(output),
        }
    }

    /// Ends the transaction with the number that the call returned. The output
    /// comes back whichever way the call went: a sink that aborted holds what it
    /// took before it stopped.
    pub fn finish(self, number: i32) -> (end: (PM::Output, UnrarResult<()>))
        ensures
            end.0 == self.data.output,
            end.1 == process_outcome(number, self.data.aborted),
    {
        let process_result = Code::from(number);
        let result = match process_result {
            Code::Success => Ok(()),
            _ => if self.data.aborted {
                Err(UnrarError::from(Code::Aborted, When::Process))
            } else {
                Err(UnrarError::from(process_result, When::Process))
            },
        };
        (self.data.output, result)
    }
}

impl<PM: ProcessMode<Output = ()>> Transaction<PM> {
    /// The transaction that names `path` and `file`, where they are given, and
    /// gathers nothing.
    pub fn process_file_raw(path: Option<Vec<u8>>, file: Option<Vec<u8>>) -> (transaction:
        Transaction<PM>)
        requires
            path matches Some(path) ==> crate::pathed::no_nul(path@),
            file matches Some(file) ==> crate::pathed::no_nul(file@),
        ensures
            transaction.is_start(
                crate::pathed::opt_bytes(path),
                crate::pathed::opt_bytes(file),
                (),
            ),
    {
        Transaction::process_file_raw_with(path, file, ())
    }
}

} // verus!
