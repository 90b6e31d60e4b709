//! What holds of extracting a whole archive, with or without progress events.

use crate::archive::{CursorBeforeHeader, OpenArchive, Process};
use crate::error::UnrarResult;
use crate::extract::{
    BatchNumbers, CallbackData, ExtractAll, ExtractAllWithCallback, ExtractEvent, ExtractMessage,
    ExtractMessageKind, ExtractStatus,
};
use crate::wide::WideName;
use vstd::prelude::*;

verus! {

/// That a number is a word of 64 bits, read without a sign: the word itself, but for
/// a negative one.
pub open spec fn same_word(number: u64, word: i64) -> bool {
    &&& word >= 0 ==> number == word
    &&& word < 0 ==> number == word + 0x1_0000_0000_0000_0000
}

/// That a number is the low half of a word: the word itself where that fits.
pub open spec fn same_low_half(number: i32, word: i64) -> bool {
    &&& (word - number) % 0x1_0000_0000 == 0
    &&& i32::MIN <= word <= i32::MAX ==> number == word
}

/// That an event tells of the start of a file: by its name, and with its own size.
pub open spec fn tells_start(event: ExtractEvent, name: Option<WideName<'_>>, size: i64) -> bool {
    event matches ExtractEvent::Start { filename, size: told } && {
        &&& crate::laws::entries::carries(name, filename)
        &&& same_word(told, size)
    }
}

/// That an event tells of the success of a file: by its name, and with the size that
/// was kept.
pub open spec fn tells_success(
    event: ExtractEvent,
    name: Option<WideName<'_>>,
    kept: u64,
) -> bool {
    event matches ExtractEvent::Extracted { filename, size } && {
        &&& crate::laws::entries::carries(name, filename)
        &&& size == kept
    }
}

/// That an event tells of the failure of a file: by its name, and with its code.
pub open spec fn tells_failure(
    event: ExtractEvent,
    name: Option<WideName<'_>>,
    code: i64,
) -> bool {
    event matches ExtractEvent::Failed { filename, error_code } && {
        &&& crate::laws::entries::carries(name, filename)
        &&& same_low_half(error_code, code)
    }
}

/// That an event tells of a dictionary: the size that is required, and the one that
/// is supported.
pub open spec fn tells_dictionary(event: ExtractEvent, required: i64, supported: i64) -> bool {
    event matches ExtractEvent::LargeDictWarning { dict_size_kb, max_dict_size_kb } && {
        &&& same_word(dict_size_kb, required)
        &&& same_word(max_dict_size_kb, supported)
    }
}

/// What the library makes of an event's values, told of the event itself.
proof fn lemma_event(data: CallbackData, message: ExtractMessage<'_>, event: ExtractEvent)
    requires
        crate::extract::event_of(data, message) == Some(event@),
    ensures
        match message {
            ExtractMessage::ExtractFile { name, size } => tells_start(event, name, size),
            ExtractMessage::ExtractFileOk { name } => tells_success(
                event,
                name,
                data.pending_size,
            ),
            ExtractMessage::ExtractFileErr { name, code } => tells_failure(event, name, code),
            ExtractMessage::LargeDict { required, supported } => tells_dictionary(
                event,
                required,
                supported,
            ),
            _ => false,
        },
{
    let name = match message {
        ExtractMessage::ExtractFile { name, .. } => name,
        ExtractMessage::ExtractFileOk { name } => name,
        ExtractMessage::ExtractFileErr { name, .. } => name,
        _ => None,
    };
    let filename = match event {
        ExtractEvent::Start { filename, .. } => filename,
        ExtractEvent::Extracted { filename, .. } => filename,
        ExtractEvent::Failed { filename, .. } => filename,
        _ => arbitrary(),
    };
    crate::laws::entries::lemma_message_name(name, filename);
}

/// A message of a file makes an event if and only if it carries a name.
proof fn lemma_no_event(data: CallbackData, message: ExtractMessage<'_>)
    ensures
        crate::extract::event_of(data, message) is None <==> match message {
            ExtractMessage::ExtractFile { name, .. } => crate::laws::entries::nameless(name),
            ExtractMessage::ExtractFileOk { name } => crate::laws::entries::nameless(name),
            ExtractMessage::ExtractFileErr { name, .. } => crate::laws::entries::nameless(name),
            ExtractMessage::LargeDict { .. } => false,
            _ => true,
        },
{
    let name = match message {
        ExtractMessage::ExtractFile { name, .. } => name,
        ExtractMessage::ExtractFileOk { name } => name,
        ExtractMessage::ExtractFileErr { name, .. } => name,
        _ => None,
    };
    crate::laws::entries::lemma_message_name(name, arbitrary());
}

/// Each number of a message has its kind. The three of the extension come first, in
/// the order start, success, failure; of the others five is a dictionary, three a
/// change of volume, and the rest is nothing to react to.
pub proof fn law_extract_message_numbers(
    msg: u32,
    numbers: BatchNumbers,
    kind: ExtractMessageKind,
)
    requires
        call_ensures(crate::extract::extract_message_kind, (msg, numbers), kind),
    ensures
        kind is ExtractFile <==> msg == numbers.extract_file,
        kind is ExtractFileOk <==> msg == numbers.extract_file_ok && msg != numbers.extract_file,
        kind is ExtractFileErr <==> msg == numbers.extract_file_err && msg
            != numbers.extract_file_ok && msg != numbers.extract_file,
        msg != numbers.extract_file && msg != numbers.extract_file_ok && msg
            != numbers.extract_file_err ==> {
            &&& kind is LargeDict <==> msg == 5
            &&& kind is ChangeVolume <==> msg == 3
        },
{
}

/// Nothing is cancelled at first, and no size is kept.
pub proof fn law_extraction_begins_fresh(data: CallbackData)
    requires
        call_ensures(CallbackData::new, (), data),
    ensures
        !data.cancelled,
        data.pending_size == 0,
{
}

/// The start of a file is told with the size in its own message, whatever was kept
/// from messages before, and by its name; without a name it is not told. Either way
/// the size is kept.
pub proof fn law_start_carries_its_own_size(
    data: &mut CallbackData,
    name: Option<WideName<'_>>,
    size: i64,
    event: Option<ExtractEvent>,
)
    requires
        call_ensures(
            CallbackData::event,
            (data, &ExtractMessage::ExtractFile { name, size }),
            event,
        ),
    ensures
        event is None <==> crate::laws::entries::nameless(name),
        event matches Some(event) ==> tells_start(event, name, size),
        same_word(final(data).pending_size, size),
        final(data).cancelled == old(data).cancelled,
{
    let message = ExtractMessage::ExtractFile { name, size };
    lemma_no_event(*old(data), message);
    if let Some(event) = event {
        lemma_event(*old(data), message, event);
    }
}

/// The success of a file is told by its name and with the size that was kept, and
/// changes nothing.
pub proof fn law_success_carries_the_kept_size(
    data: &mut CallbackData,
    name: Option<WideName<'_>>,
    event: Option<ExtractEvent>,
)
    requires
        call_ensures(
            CallbackData::event,
            (data, &ExtractMessage::ExtractFileOk { name }),
            event,
        ),
    ensures
        event is None <==> crate::laws::entries::nameless(name),
        event matches Some(event) ==> tells_success(event, name, old(data).pending_size),
        final(data).pending_size == old(data).pending_size,
        final(data).cancelled == old(data).cancelled,
{
    let message = ExtractMessage::ExtractFileOk { name };
    lemma_no_event(*old(data), message);
    if let Some(event) = event {
        lemma_event(*old(data), message, event);
    }
}

/// The failure of a file is told by its name and with its code, and changes nothing.
pub proof fn law_failure_carries_its_code(
    data: &mut CallbackData,
    name: Option<WideName<'_>>,
    code: i64,
    event: Option<ExtractEvent>,
)
    requires
        call_ensures(
            CallbackData::event,
            (data, &ExtractMessage::ExtractFileErr { name, code }),
            event,
        ),
    ensures
        event is None <==> crate::laws::entries::nameless(name),
        event matches Some(event) ==> tells_failure(event, name, code),
        final(data).pending_size == old(data).pending_size,
        final(data).cancelled == old(data).cancelled,
{
    let message = ExtractMessage::ExtractFileErr { name, code };
    lemma_no_event(*old(data), message);
    if let Some(event) = event {
        lemma_event(*old(data), message, event);
    }
}

/// An oversized dictionary is always told of, with both sizes, and changes nothing.
pub proof fn law_dictionary_is_told_with_both_sizes(
    data: &mut CallbackData,
    required: i64,
    supported: i64,
    event: Option<ExtractEvent>,
)
    requires
        call_ensures(
            CallbackData::event,
            (data, &ExtractMessage::LargeDict { required, supported }),
            event,
        ),
    ensures
        event matches Some(event) && tells_dictionary(event, required, supported),
        final(data).pending_size == old(data).pending_size,
        final(data).cancelled == old(data).cancelled,
{
    let message = ExtractMessage::LargeDict { required, supported };
    lemma_no_event(*old(data), message);
    if let Some(event) = event {
        lemma_event(*old(data), message, event);
    }
}

/// Any other message is not told of and changes nothing.
pub proof fn law_other_messages_are_not_told(
    data: &mut CallbackData,
    message: &ExtractMessage<'_>,
    event: Option<ExtractEvent>,
)
    requires
        call_ensures(CallbackData::event, (data, message), event),
        message is ChangeVolume || message is Other,
    ensures
        event is None,
        final(data).pending_size == old(data).pending_size,
        final(data).cancelled == old(data).cancelled,
{
}

/// The success that follows the start of a file is told with the size in the message
/// of that start, whatever was kept before it.
pub proof fn law_success_follows_its_start(
    starting: &mut CallbackData,
    start_name: Option<WideName<'_>>,
    size: i64,
    start: Option<ExtractEvent>,
    ending: &mut CallbackData,
    name: Option<WideName<'_>>,
    end: Option<ExtractEvent>,
)
    requires
        call_ensures(
            CallbackData::event,
            (starting, &ExtractMessage::ExtractFile { name: start_name, size }),
            start,
        ),
        *ending == *final(starting),
        call_ensures(
            CallbackData::event,
            (ending, &ExtractMessage::ExtractFileOk { name }),
            end,
        ),
    ensures
        end matches Some(ExtractEvent::Extracted { size: told, .. }) ==> same_word(told, size),
        end is Some ==> end matches Some(ExtractEvent::Extracted { .. }),
{
    law_success_carries_the_kept_size(ending, name, end);
}

/// A verdict on a message of a file ends the extraction if and only if it is no:
/// then the answer is minus one and the extraction counts as cancelled. A dictionary
/// is let pass by one and by nothing else, and rejecting it is no cancel. A volume
/// that was not found ends the extraction. Nothing else does, and the size that is
/// kept stays.
pub proof fn law_verdict_decides(
    data: &mut CallbackData,
    message: &ExtractMessage<'_>,
    verdict: Option<bool>,
    answer: i32,
)
    requires
        call_ensures(CallbackData::settle, (data, message, verdict), answer),
    ensures
        final(data).pending_size == old(data).pending_size,
        match *message {
            ExtractMessage::LargeDict { .. } => {
                &&& answer == 1 <==> verdict == Some(true)
                &&& answer == 0 <==> verdict != Some(true)
                &&& final(data).cancelled == old(data).cancelled
            },
            ExtractMessage::ChangeVolume { mode } => {
                &&& answer == -1 <==> mode == 0
                &&& answer == 0 <==> mode != 0
                &&& final(data).cancelled == old(data).cancelled
            },
            ExtractMessage::Other => answer == 0 && final(data).cancelled == old(data).cancelled,
            _ => {
                &&& answer == -1 <==> verdict == Some(false)
                &&& answer == 0 <==> verdict != Some(false)
                &&& final(data).cancelled <==> old(data).cancelled || verdict == Some(false)
            },
        },
{
}

/// That the verdict on an event of a file was followed.
pub open spec fn obeyed(
    verdict: bool,
    before: CallbackData,
    after: CallbackData,
    answer: i32,
) -> bool {
    &&& verdict ==> answer == 0
    &&& !verdict ==> answer == -1
    &&& after.cancelled <==> before.cancelled || !verdict
}

/// That nothing was asked and the extraction goes on.
pub open spec fn passed_over(before: CallbackData, after: CallbackData, answer: i32) -> bool {
    answer == 0 && after.cancelled == before.cancelled
}

/// The start of a file, from the message to the answer: the caller is asked about
/// its name and its own size, and the verdict is followed. The size is kept.
pub proof fn law_caller_is_asked_at_the_start<F: FnOnce(ExtractEvent) -> bool>(
    data: &mut CallbackData,
    callback: F,
    name: Option<WideName<'_>>,
    size: i64,
    answer: i32,
)
    requires
        call_ensures(
            crate::extract::extract_callback::<F>,
            (Some(data), callback, ExtractMessage::ExtractFile { name, size }),
            answer,
        ),
    ensures
        same_word(final(data).pending_size, size),
        crate::laws::entries::nameless(name) ==> passed_over(*old(data), *final(data), answer),
        !crate::laws::entries::nameless(name) ==> exists|event: ExtractEvent, verdict: bool|
            {
                &&& #[trigger] call_ensures(callback, (event,), verdict)
                &&& tells_start(event, name, size)
                &&& obeyed(verdict, *old(data), *final(data), answer)
            },
{
    let message = ExtractMessage::ExtractFile { name, size };
    lemma_no_event(*old(data), message);
    if !crate::laws::entries::nameless(name) {
        let (event, verdict) = choose|event: ExtractEvent, verdict: bool|
            {
                &&& crate::extract::event_of(*old(data), message) == Some(event@)
                &&& #[trigger] call_ensures(callback, (event,), verdict)
                &&& crate::extract::extract_reaction(
                    *old(data),
                    message,
                    Some(verdict),
                    *final(data),
                    answer,
                )
            };
        lemma_event(*old(data), message, event);
    }
}

/// The success of a file, from the message to the answer: the caller is asked about
/// its name and the size that was kept, and the verdict is followed.
pub proof fn law_caller_is_asked_at_the_success<F: FnOnce(ExtractEvent) -> bool>(
    data: &mut CallbackData,
    callback: F,
    name: Option<WideName<'_>>,
    answer: i32,
)
    requires
        call_ensures(
            crate::extract::extract_callback::<F>,
            (Some(data), callback, ExtractMessage::ExtractFileOk { name }),
            answer,
        ),
    ensures
        final(data).pending_size == old(data).pending_size,
        crate::laws::entries::nameless(name) ==> passed_over(*old(data), *final(data), answer),
        !crate::laws::entries::nameless(name) ==> exists|event: ExtractEvent, verdict: bool|
            {
                &&& #[trigger] call_ensures(callback, (event,), verdict)
                &&& tells_success(event, name, old(data).pending_size)
                &&& obeyed(verdict, *old(data), *final(data), answer)
            },
{
    let message = ExtractMessage::ExtractFileOk { name };
    lemma_no_event(*old(data), message);
    if !crate::laws::entries::nameless(name) {
        let (event, verdict) = choose|event: ExtractEvent, verdict: bool|
            {
                &&& crate::extract::event_of(*old(data), message) == Some(event@)
                &&& #[trigger] call_ensures(callback, (event,), verdict)
                &&& crate::extract::extract_reaction(
                    *old(data),
                    message,
                    Some(verdict),
                    *final(data),
                    answer,
                )
            };
        lemma_event(*old(data), message, event);
    }
}

/// The failure of a file, from the message to the answer: the caller is asked about
/// its name and its code, and the verdict is followed.
pub proof fn law_caller_is_asked_at_the_failure<F: FnOnce(ExtractEvent) -> bool>(
    data: &mut CallbackData,
    callback: F,
    name: Option<WideName<'_>>,
    code: i64,
    answer: i32,
)
    requires
        call_ensures(
            crate::extract::extract_callback::<F>,
            (Some(data), callback, ExtractMessage::ExtractFileErr { name, code }),
            answer,
        ),
    ensures
        final(data).pending_size == old(data).pending_size,
        crate::laws::entries::nameless(name) ==> passed_over(*old(data), *final(data), answer),
        !crate::laws::entries::nameless(name) ==> exists|event: ExtractEvent, verdict: bool|
            {
                &&& #[trigger] call_ensures(callback, (event,), verdict)
                &&& tells_failure(event, name, code)
                &&& obeyed(verdict, *old(data), *final(data), answer)
            },
{
    let message = ExtractMessage::ExtractFileErr { name, code };
    lemma_no_event(*old(data), message);
    if !crate::laws::entries::nameless(name) {
        let (event, verdict) = choose|event: ExtractEvent, verdict: bool|
            {
                &&& crate::extract::event_of(*old(data), message) == Some(event@)
                &&& #[trigger] call_ensures(callback, (event,), verdict)
                &&& crate::extract::extract_reaction(
                    *old(data),
                    message,
                    Some(verdict),
                    *final(data),
                    answer,
                )
            };
        lemma_event(*old(data), message, event);
    }
}

/// An oversized dictionary, from the message to the answer: the caller is asked about
/// both sizes. Yes is answered one, no is answered zero, and neither is a cancel.
pub proof fn law_caller_is_asked_about_the_dictionary<F: FnOnce(ExtractEvent) -> bool>(
    data: &mut CallbackData,
    callback: F,
    required: i64,
    supported: i64,
    answer: i32,
)
    requires
        call_ensures(
            crate::extract::extract_callback::<F>,
            (Some(data), callback, ExtractMessage::LargeDict { required, supported }),
            answer,
        ),
    ensures
        *final(data) == *old(data),
        exists|event: ExtractEvent, verdict: bool|
            {
                &&& #[trigger] call_ensures(callback, (event,), verdict)
                &&& tells_dictionary(event, required, supported)
                &&& verdict ==> answer == 1
                &&& !verdict ==> answer == 0
            },
{
    let message = ExtractMessage::LargeDict { required, supported };
    lemma_no_event(*old(data), message);
    let (event, verdict) = choose|event: ExtractEvent, verdict: bool|
        {
            &&& crate::extract::event_of(*old(data), message) == Some(event@)
            &&& #[trigger] call_ensures(callback, (event,), verdict)
            &&& crate::extract::extract_reaction(
                *old(data),
                message,
                Some(verdict),
                *final(data),
                answer,
            )
        };
    lemma_event(*old(data), message, event);
}

/// A change of volume ends the extraction if and only if the volume was not found;
/// any other message lets it go on. Neither changes anything, and where no data was
/// registered every message is answered zero.
pub proof fn law_caller_is_not_asked_otherwise<F: FnOnce(ExtractEvent) -> bool>(
    changing: &mut CallbackData,
    callback: F,
    mode: i64,
    change_answer: i32,
    data: &mut CallbackData,
    answer: i32,
    message: ExtractMessage<'_>,
    answer_without_data: i32,
)
    requires
        call_ensures(
            crate::extract::extract_callback::<F>,
            (Some(changing), callback, ExtractMessage::ChangeVolume { mode }),
            change_answer,
        ),
        call_ensures(
            crate::extract::extract_callback::<F>,
            (Some(data), callback, ExtractMessage::Other),
            answer,
        ),
        call_ensures(
            crate::extract::extract_callback::<F>,
            (None, callback, message),
            answer_without_data,
        ),
    ensures
        mode == 0 ==> change_answer == -1,
        mode != 0 ==> change_answer == 0,
        *final(changing) == *old(changing),
        answer == 0,
        *final(data) == *old(data),
        answer_without_data == 0,
{
}

/// A whole archive is extracted to the directory that was given.
pub proof fn law_archive_is_extracted_to_the_given_directory(
    archive: OpenArchive<Process, CursorBeforeHeader>,
    dest: &[u8],
    call: ExtractAll,
)
    requires
        call_ensures(
            OpenArchive::<Process, CursorBeforeHeader>::extract_all,
            (archive, dest),
            call,
        ),
    ensures
        call.dest@ == dest@,
{
}

/// With progress events too, a whole archive is extracted to the directory that was
/// given, and begins uncancelled.
pub proof fn law_told_extraction_goes_to_the_given_directory(
    archive: OpenArchive<Process, CursorBeforeHeader>,
    dest: &[u8],
    call: ExtractAllWithCallback,
)
    requires
        call_ensures(
            OpenArchive::<Process, CursorBeforeHeader>::extract_all_with_callback,
            (archive, dest),
            call,
        ),
    ensures
        call.dest@ == dest@,
        !call.data.cancelled,
        call.data.pending_size == 0,
{
}

/// Extracting a whole archive succeeds if and only if the call did; the error is
/// otherwise the call's own.
pub proof fn law_extraction_ends_as_its_call(
    call: ExtractAll,
    number: i32,
    result: UnrarResult<()>,
)
    requires
        call_ensures(ExtractAll::finish, (call, number), result),
    ensures
        crate::laws::processing::reports(result, number, false),
{
}

/// With progress events, an extraction whose call succeeded was cancelled if and only
/// if that was noted meanwhile, and is complete otherwise. A call that failed is
/// that error, cancelled or not.
pub proof fn law_told_extraction_ends_as_its_call(
    call: ExtractAllWithCallback,
    number: i32,
    result: UnrarResult<ExtractStatus>,
)
    requires
        call_ensures(ExtractAllWithCallback::finish, (call, number), result),
    ensures
        crate::laws::processing::reports(result, number, false),
        result matches Ok(status) ==> {
            &&& status is Cancelled <==> call.data.cancelled
            &&& status is Completed <==> !call.data.cancelled
        },
{
}

/// Extracting a whole archive with progress events, from the call to its status:
/// where the call succeeded, the extraction was cancelled if and only if the caller
/// said no to an event of a file.
pub proof fn law_status_says_whether_the_caller_said_no(
    archive: OpenArchive<Process, CursorBeforeHeader>,
    dest: &[u8],
    start: ExtractAllWithCallback,
    states: Seq<CallbackData>,
    messages: Seq<ExtractMessage<'_>>,
    verdicts: Seq<Option<bool>>,
    answers: Seq<i32>,
    end: ExtractAllWithCallback,
    number: i32,
    result: UnrarResult<ExtractStatus>,
)
    requires
        call_ensures(
            OpenArchive::<Process, CursorBeforeHeader>::extract_all_with_callback,
            (archive, dest),
            start,
        ),
        crate::laws::extracted(states, messages, verdicts, answers),
        states[0] == start.data,
        states.last() == end.data,
        call_ensures(ExtractAllWithCallback::finish, (end, number), result),
    ensures
        crate::laws::processing::reports(result, number, false),
        result matches Ok(status) ==> (status is Cancelled <==> exists|i: int|
            0 <= i < messages.len() && verdicts[i] == Some(false) && !(
            #[trigger] messages[i] is LargeDict)),
{
    crate::laws::law_cancelled_iff_refused(states, messages, verdicts, answers);
    if result matches Ok(status) {
        if crate::laws::refused_file(messages, verdicts) {
            let i = choose|i: int|
                0 <= i < messages.len() && crate::extract::cancellable(#[trigger] messages[i])
                    && verdicts[i] == Some(false);
            assert(!(messages[i] is LargeDict));
        }
        if exists|i: int|
            0 <= i < messages.len() && verdicts[i] == Some(false) && !(
            #[trigger] messages[i] is LargeDict) {
            let i = choose|i: int|
                0 <= i < messages.len() && verdicts[i] == Some(false) && !(
                #[trigger] messages[i] is LargeDict);
            assert(crate::extract::event_of(states[i], messages[i]) is Some);
            assert(crate::extract::cancellable(messages[i]));
        }
    }
}

/// An extraction can begin at any directory whose path can be a C string, can be
/// sent any message where the caller's callback can be told of any event, and can
/// end with any number.
pub proof fn law_extraction_takes_every_input<F: FnOnce(ExtractEvent) -> bool>(
    archive: OpenArchive<Process, CursorBeforeHeader>,
    dest: &[u8],
    data: &mut CallbackData,
    callback: F,
    message: ExtractMessage<'_>,
    verdict: Option<bool>,
    msg: u32,
    numbers: BatchNumbers,
    call: ExtractAll,
    told_call: ExtractAllWithCallback,
    number: i32,
)
    requires
        forall|i: int| 0 <= i < dest@.len() ==> dest@[i] != 0,
        forall|event: ExtractEvent| call_requires(callback, (event,)),
    ensures
        call_requires(OpenArchive::<Process, CursorBeforeHeader>::extract_all, (archive, dest)),
        call_requires(
            OpenArchive::<Process, CursorBeforeHeader>::extract_all_with_callback,
            (archive, dest),
        ),
        call_requires(CallbackData::event, (data, &message)),
        call_requires(CallbackData::settle, (data, &message, verdict)),
        call_requires(
            crate::extract::extract_callback::<F>,
            (Some(data), callback, message),
        ),
        call_requires(crate::extract::extract_callback::<F>, (None, callback, message)),
        call_requires(crate::extract::extract_message_kind, (msg, numbers)),
        call_requires(ExtractAll::finish, (call, number)),
        call_requires(ExtractAllWithCallback::finish, (told_call, number)),
{
}

} // verus!
