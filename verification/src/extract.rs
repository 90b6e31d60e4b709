//! Extracting a whole archive in one call, with or without progress events.

use crate::error::{Code, UnrarError, UnrarResult, When};
use crate::native::{RAR_VOL_ASK, UCM_CHANGEVOLUMEW, UCM_LARGEDICT};
use crate::wide::{read_filename, FileName, FileNameView, WideName};
use vstd::prelude::*;

verus! {

/// Extraction progress event for callbacks during batch extraction.
///
/// This enum is used with [`extract_callback`] to receive notifications about
/// extraction progress.
#[derive(Debug, Clone)]
#[non_exhaustive]
pub enum ExtractEvent {
    /// File extraction is starting.
    Start {
        /// The filename being extracted (relative path within the archive)
        filename: FileName,
        /// The uncompressed size of the file in bytes
        size: u64,
    },
    /// File extraction completed successfully.
    Extracted {
        /// The filename that was extracted
        filename: FileName,
        /// The uncompressed size of the file in bytes, carried over from the
        /// matching `Start` event so callers do not have to stash it themselves
        /// to log progress.
        size: u64,
    },
    /// File extraction failed.
    Failed {
        /// The filename that failed to extract
        filename: FileName,
        /// The error code from the extraction
        error_code: i32,
    },
    /// The archive requires a dictionary larger than the build-time limit.
    ///
    /// Returning `true` permits the extraction to proceed; returning `false`
    /// lets it fail, which the caller then observes as an error of
    /// [`Code::LargeDict`](crate::error::Code::LargeDict).
    LargeDictWarning {
        /// The dictionary size required by the archive, in kilobytes.
        dict_size_kb: u64,
        /// The maximum dictionary size this build supports, in kilobytes.
        max_dict_size_kb: u64,
    },
}

/// The values in an [`ExtractEvent`].
pub enum ExtractEventView {
    /// File extraction is starting.
    Start {
        /// The filename being extracted.
        filename: FileNameView,
        /// Its size in bytes.
        size: int,
    },
    /// File extraction completed successfully.
    Extracted {
        /// The filename that was extracted.
        filename: FileNameView,
        /// Its size in bytes.
        size: int,
    },
    /// File extraction failed.
    Failed {
        /// The filename that failed to extract.
        filename: FileNameView,
        /// The error code.
        error_code: int,
    },
    /// The archive requires a dictionary larger than the limit.
    LargeDictWarning {
        /// The size that is required, in kilobytes.
        dict_size_kb: int,
        /// The largest size that is supported, in kilobytes.
        max_dict_size_kb: int,
    },
}

impl View for ExtractEvent {
    type V = ExtractEventView;

    open spec fn view(&self) -> ExtractEventView {
        match *self {
            ExtractEvent::Start { filename, size } => ExtractEventView::Start {
                filename: filename@,
                size: size as int,
            },
            ExtractEvent::Extracted { filename, size } => ExtractEventView::Extracted {
                filename: filename@,
                size: size as int,
            },
            ExtractEvent::Failed { filename, error_code } => ExtractEventView::Failed {
                filename: filename@,
                error_code: error_code as int,
            },
            ExtractEvent::LargeDictWarning { dict_size_kb, max_dict_size_kb } => {
                ExtractEventView::LargeDictWarning {
                    dict_size_kb: dict_size_kb as int,
                    max_dict_size_kb: max_dict_size_kb as int,
                }
            },
        }
    }
}

/// Outcome of extracting a whole archive with progress events.
///
/// The unpacking library maps a cancel by the caller (the callback returning
/// `false` from `Start`/`Extracted`/`Failed`) to success, so without this status the
/// caller cannot tell whether the archive finished or was stopped early.
#[derive(Debug, Clone, Copy, PartialEq, Eq, Structural)]
#[non_exhaustive]
pub enum ExtractStatus {
    /// Extraction ran to the end of the archive.
    Completed,
    /// The user callback returned `false` and aborted extraction early.
    Cancelled,
}

/// The numbers of the messages that the extension for extracting an archive in
/// one call adds to those of `dll.hpp`.
#[derive(Debug, Clone, Copy, PartialEq, Eq, Structural)]
pub struct BatchNumbers {
    /// The extraction of a file starts.
    pub extract_file: u32,
    /// The extraction of a file succeeded.
    pub extract_file_ok: u32,
    /// The extraction of a file failed.
    pub extract_file_err: u32,
}

/// The kinds of messages that a running extraction reacts to.
#[derive(Debug, Clone, Copy, PartialEq, Eq, Structural)]
pub enum ExtractMessageKind {
    /// The extraction of a file starts.
    ExtractFile,
    /// The extraction of a file succeeded.
    ExtractFileOk,
    /// The extraction of a file failed.
    ExtractFileErr,
    /// The archive needs a larger dictionary than is supported.
    LargeDict,
    /// Another volume comes next.
    ChangeVolume,
    /// Any other message.
    Other,
}

/// The kind of message that a number stands for while an extraction runs.
pub open spec fn extract_kind_of(msg: u32, numbers: BatchNumbers) -> ExtractMessageKind {
    if msg == numbers.extract_file {
        ExtractMessageKind::ExtractFile
    } else if msg == numbers.extract_file_ok {
        ExtractMessageKind::ExtractFileOk
    } else if msg == numbers.extract_file_err {
        ExtractMessageKind::ExtractFileErr
    } else if msg == UCM_LARGEDICT {
        ExtractMessageKind::LargeDict
    } else if msg == UCM_CHANGEVOLUMEW {
        ExtractMessageKind::ChangeVolume
    } else {
        ExtractMessageKind::Other
    }
}

/// The kind of message that a number stands for while an extraction runs.
pub fn extract_message_kind(msg: u32, numbers: BatchNumbers) -> (kind: ExtractMessageKind)
    ensures
        kind == extract_kind_of(msg, numbers),
{
    if msg == numbers.extract_file {
        ExtractMessageKind::ExtractFile
    } else if msg == numbers.extract_file_ok {
        ExtractMessageKind::ExtractFileOk
    } else if msg == numbers.extract_file_err {
        ExtractMessageKind::ExtractFileErr
    } else {
        match msg {
            UCM_LARGEDICT => ExtractMessageKind::LargeDict,
            UCM_CHANGEVOLUMEW => ExtractMessageKind::ChangeVolume,
            _ => ExtractMessageKind::Other,
        }
    }
}

/// A message that a running extraction sends. A buffer of wide characters is
/// `None` where a null pointer was passed.
#[derive(Debug)]
pub enum ExtractMessage<'a> {
    /// The extraction of a file starts.
    ExtractFile {
        /// The buffer that holds the file's name.
        name: Option<WideName<'a>>,
        /// The size of the file.
        size: i64,
    },
    /// The extraction of a file succeeded.
    ExtractFileOk {
        /// The buffer that holds the file's name.
        name: Option<WideName<'a>>,
    },
    /// The extraction of a file failed.
    ExtractFileErr {
        /// The buffer that holds the file's name.
        name: Option<WideName<'a>>,
        /// The error code.
        code: i64,
    },
    /// The archive needs a larger dictionary than is supported.
    LargeDict {
        /// The size that is required, in kilobytes.
        required: i64,
        /// The largest size that is supported, in kilobytes.
        supported: i64,
    },
    /// Another volume comes next.
    ChangeVolume {
        /// `RAR_VOL_ASK`, or any other number where the volume was found.
        mode: i64,
    },
    /// Any other message.
    Other,
}

/// What is kept from one message to the next.
#[derive(Debug)]
pub struct CallbackData {
    /// That the callback ended the extraction.
    pub cancelled: bool,
    /// The size that the last start of a file reported. It is carried over to
    /// the success of that file, for which the unpacking library reports none.
    pub pending_size: u64,
}

/// A word read as an unsigned number.
pub open spec fn unsigned(word: i64) -> int {
    if word >= 0 {
        word as int
    } else {
        word + 0x1_0000_0000_0000_0000
    }
}

/// The low half of a word, read as a signed number.
pub open spec fn low_half(word: i64) -> int {
    let low = unsigned(word) % 0x1_0000_0000;
    if low < 0x8000_0000 {
        low
    } else {
        low - 0x1_0000_0000
    }
}

/// The event that the caller is to be told of for a message, if any: none where
/// a message of a file carries no name.
pub open spec fn event_of(data: CallbackData, message: ExtractMessage<'_>) -> Option<
    ExtractEventView,
> {
    match message {
        ExtractMessage::ExtractFile { name, size } => match crate::wide::message_name(name) {
            Some(filename) => Some(ExtractEventView::Start { filename, size: unsigned(size) }),
            None => None,
        },
        ExtractMessage::ExtractFileOk { name } => match crate::wide::message_name(name) {
            Some(filename) => Some(
                ExtractEventView::Extracted { filename, size: data.pending_size as int },
            ),
            None => None,
        },
        ExtractMessage::ExtractFileErr { name, code } => match crate::wide::message_name(name) {
            Some(filename) => Some(ExtractEventView::Failed { filename, error_code: low_half(code) }),
            None => None,
        },
        ExtractMessage::LargeDict { required, supported } => Some(
            ExtractEventView::LargeDictWarning {
                dict_size_kb: unsigned(required),
                max_dict_size_kb: unsigned(supported),
            },
        ),
        ExtractMessage::ChangeVolume { .. } => None,
        ExtractMessage::Other => None,
    }
}

/// Whether the caller can end the extraction at this message. Rejecting an
/// oversized dictionary does not count as that.
pub open spec fn cancellable(message: ExtractMessage<'_>) -> bool {
    message is ExtractFile || message is ExtractFileOk || message is ExtractFileErr
}

/// The size that a success is reported with after the message.
pub open spec fn pending_after(data: CallbackData, message: ExtractMessage<'_>) -> int {
    match message {
        ExtractMessage::ExtractFile { size, .. } => unsigned(size),
        _ => data.pending_size as int,
    }
}

/// Whether the extraction counts as cancelled after the message, given the
/// caller's verdict on its event.
pub open spec fn cancelled_after(
    data: CallbackData,
    message: ExtractMessage<'_>,
    verdict: Option<bool>,
) -> bool {
    data.cancelled || (cancellable(message) && verdict == Some(false))
}

/// The answer to the message, given the caller's verdict on its event. For an
/// oversized dictionary only one lets the extraction go on; for a file minus one
/// ends it.
pub open spec fn message_answer(message: ExtractMessage<'_>, verdict: Option<bool>) -> int {
    match message {
        ExtractMessage::LargeDict { .. } => if verdict == Some(true) {
            1
        } else {
            0
        },
        ExtractMessage::ChangeVolume { mode } => crate::process::volume_answer(mode),
        _ => if cancellable(message) && verdict == Some(false) {
            -1
        } else {
            0
        },
    }
}

/// One step of an extraction: that the message and the verdict on its event take
/// what is kept from `before` to `after` and are answered so. There is a verdict
/// where, and only where, there is an event.
pub open spec fn extract_reaction(
    before: CallbackData,
    message: ExtractMessage<'_>,
    verdict: Option<bool>,
    after: CallbackData,
    answer: i32,
) -> bool {
    &&& verdict is Some <==> event_of(before, message) is Some
    &&& after.pending_size == pending_after(before, message)
    &&& after.cancelled == cancelled_after(before, message, verdict)
    &&& answer == message_answer(message, verdict)
}

/// Reads a word as an unsigned number.
fn as_unsigned(word: i64) -> (number: u64)
    ensures
        number == unsigned(word),
{
    assert(word >= 0 ==> word as u64 == word) by (bit_vector);
    assert(word < 0 ==> word as u64 == word + 0x1_0000_0000_0000_0000) by (bit_vector);
    word as u64
}

/// Reads the low half of a word as a signed number.
fn as_low_half(word: i64) -> (number: i32)
    ensures
        number == low_half(word),
{
    let whole: u64 = as_unsigned(word);
    let low: u64 = whole % 0x1_0000_0000;
    if low < 0x8000_0000 {
        low as i32
    } else {
        let back: u64 = 0x1_0000_0000 - low;
        (-(back as i64)) as i32
    }
}

impl CallbackData {
    /// The state before the first message.
    pub fn new() -> (data: CallbackData)
        ensures
            !data.cancelled,
            data.pending_size == 0,
    {
        CallbackData { cancelled: false, pending_size: 0 }
    }

    /// Takes note of a message and makes the event that the caller is to be told
    /// of. The size of a file is noted even where its name is missing, so that
    /// a later success still gets it.
    pub fn event(&mut self, message: &ExtractMessage<'_>) -> (event: Option<ExtractEvent>)
        ensures
            match event_of(*old(self), *message) {
                Some(values) => event matches Some(event) && event@ == values,
                None => event is None,
            },
            final(self).pending_size == pending_after(*old(self), *message),
            final(self).cancelled == old(self).cancelled,
    {
        match message {
            ExtractMessage::ExtractFile { name, size } => {
                let size = as_unsigned(*size);
                self.pending_size = size;
                match read_filename(*name) {
                    Some(filename) => Some(ExtractEvent::Start { filename, size }),
                    None => None,
                }
            },
            ExtractMessage::ExtractFileOk { name } => match read_filename(*name) {
                Some(filename) => Some(ExtractEvent::Extracted { filename, size: self.pending_size }),
                None => None,
            },
            ExtractMessage::ExtractFileErr { name, code } => match read_filename(*name) {
                Some(filename) => Some(
                    ExtractEvent::Failed { filename, error_code: as_low_half(*code) },
                ),
                None => None,
            },
            ExtractMessage::LargeDict { required, supported } => Some(
                ExtractEvent::LargeDictWarning {
                    dict_size_kb: as_unsigned(*required),
                    max_dict_size_kb: as_unsigned(*supported),
                },
            ),
            ExtractMessage::ChangeVolume { mode: _ } => None,
            ExtractMessage::Other => None,
        }
    }

    /// Takes note of the caller's verdict on the event of a message, `None`
    /// where there was no event, and gives the answer to the message.
    pub fn settle(&mut self, message: &ExtractMessage<'_>, verdict: Option<bool>) -> (answer: i32)
        ensures
            final(self).pending_size == old(self).pending_size,
            final(self).cancelled == cancelled_after(*old(self), *message, verdict),
            answer == message_answer(*message, verdict),
    {
        let go_on = match verdict {
            Some(go_on) => go_on,
            None => true,
        };
        match message {
            ExtractMessage::LargeDict { .. } => match verdict {
                Some(true) => 1,
                _ => 0,
            },
            ExtractMessage::ChangeVolume { mode } => if *mode == RAR_VOL_ASK {
                -1
            } else {
                0
            },
            ExtractMessage::Other => 0,
            _ => if go_on {
                0
            } else {
                self.cancelled = true;
                -1
            },
        }
    }
}

/// Reacts to a message of a running extraction: tells the caller of its event,
/// if there is one, and answers by the caller's verdict. The caller is asked at
/// most once.
pub fn extract_callback<F: FnOnce(ExtractEvent) -> bool>(
    data: Option<&mut CallbackData>,
    callback: F,
    message: ExtractMessage<'_>,
) -> (answer: i32)
    requires
        data matches Some(data) ==> forall|event: ExtractEvent|
            event_of(*data, message) == Some(#[trigger] event@) ==> call_requires(
                callback,
                (event,),
            ),
    ensures
        data is None ==> answer == 0,
        data matches Some(data) ==> match event_of(*data, message) {
            Some(values) => exists|event: ExtractEvent, verdict: bool|
                {
                    &&& event@ == values
                    &&& #[trigger] call_ensures(callback, (event,), verdict)
                    &&& extract_reaction(*data, message, Some(verdict), *final(data), answer)
                },
            None => extract_reaction(*data, message, None, *final(data), answer),
        },
{
    let data = match data {
        Some(data) => data,
        None => return 0,
    };
    let event = data.event(&message);
    let verdict = match event {
        Some(event) => Some(callback(event)),
        None => None,
    };
    data.settle(&message, verdict)
}

/// The result of an extraction that returned `number`.
pub open spec fn extract_outcome(number: i32) -> UnrarResult<()> {
    let code = crate::error::code_of(number as int);
    if code is Success {
        Ok(())
    } else {
        Err(UnrarError { code, when: When::Process })
    }
}

/// The result of an extraction with progress events that returned `number`.
pub open spec fn extract_status(number: i32, cancelled: bool) -> UnrarResult<ExtractStatus> {
    match extract_outcome(number) {
        Ok(()) => if cancelled {
            Ok(ExtractStatus::Cancelled)
        } else {
            Ok(ExtractStatus::Completed)
        },
        Err(error) => Err(error),
    }
}

/// A call that extracts a whole archive.
#[derive(Debug)]
pub struct ExtractAll {
    /// The destination directory, as a C string without its terminator.
    pub dest: Vec<u8>,
}

impl ExtractAll {
    /// Ends the extraction with the number that the call returned.
    pub fn finish(self, number: i32) -> (result: UnrarResult<()>)
        ensures
            result == extract_outcome(number),
    {
        match Code::from(number) {
            Code::Success => Ok(()),
            code => Err(UnrarError::from(code, When::Process)),
        }
    }
}

/// A call that extracts a whole archive with progress events, and what is kept
/// while it runs.
#[derive(Debug)]
pub struct ExtractAllWithCallback {
    /// The destination directory, as a C string without its terminator.
    pub dest: Vec<u8>,
    /// What [`extract_callback`] keeps from one message to the next.
    pub data: CallbackData,
}

impl ExtractAllWithCallback {
    /// Ends the extraction with the number that the call returned.
    pub fn finish(self, number: i32) -> (result: UnrarResult<ExtractStatus>)
        ensures
            result == extract_status(number, self.data.cancelled),
    {
        match Code::from(number) {
            Code::Success => if self.data.cancelled {
                Ok(ExtractStatus::Cancelled)
            } else {
                Ok(ExtractStatus::Completed)
            },
            code => Err(UnrarError::from(code, When::Process)),
        }
    }
}

} // verus!
