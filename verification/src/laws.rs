//! What holds of the library as a whole.
//!
//! Some laws speak of a whole run: the messages that a call sends one after the
//! other, and what the callback makes of them. Those of the modules below this one
//! speak of the functions themselves: of what a caller gives to a function and
//! gets from it, in plain numbers, bits, units and characters.
//!
//! - [`opening`]: opening an archive, and what its flags tell;
//! - [`entries`]: the header of an entry, and the words and names in it;
//! - [`listing`]: the steps of a listing;
//! - [`processing`]: reading, testing, skipping and extracting a file;
//! - [`extraction`]: extracting a whole archive, with progress events.

pub mod entries;
pub mod extraction;
pub mod listing;
pub mod opening;
pub mod processing;

use crate::archive::{
    CursorBeforeFile, CursorBeforeHeader, NextAction, NextEvent, OpenArchive, OpenMode, Process,
    Processing,
};
use crate::error::{Code, UnrarError, When};
use crate::extract::{CallbackData, ExtractEventView, ExtractMessage, ExtractStatus};
use crate::header::MAX_NAME_WCHARS;
use crate::native::HeaderReply;
use crate::private::Operation;
use crate::process::{Message, ProcessMode, ReadToSink, Skip, Userdata};
use crate::sink::DataSink;
use crate::wide::{FileNameView, WideName};
use vstd::prelude::*;

verus! {

/// A run of [`crate::process::callback`]: the gathered data before and after
/// each message, and the answers.
pub open spec fn delivered<PM: ProcessMode>(
    states: Seq<Userdata<PM::Output>>,
    messages: Seq<Message<'_>>,
    answers: Seq<i32>,
) -> bool {
    &&& states.len() == messages.len() + 1
    &&& answers.len() == messages.len()
    &&& forall|i: int|
        #![trigger messages[i]]
        0 <= i < messages.len() ==> crate::process::reaction::<PM>(
            states[i],
            messages[i],
            states[i + 1],
            answers[i],
        )
}

/// The bytes that a message carries.
pub open spec fn chunk_in(message: Message<'_>) -> Seq<u8> {
    match message {
        Message::ProcessData { chunk } => chunk@,
        _ => Seq::empty(),
    }
}

/// The bytes that the messages carry, in order.
pub open spec fn all_chunks(messages: Seq<Message<'_>>) -> Seq<u8>
    decreases messages.len(),
{
    if messages.len() == 0 {
        Seq::empty()
    } else {
        all_chunks(messages.drop_last()) + chunk_in(messages.last())
    }
}

/// Whether a chunk among the messages was refused.
pub open spec fn refused_chunk(messages: Seq<Message<'_>>, answers: Seq<i32>) -> bool {
    exists|i: int|
        0 <= i < messages.len() && #[trigger] messages[i] is ProcessData && answers[i] == -1
}

/// Whether a mode never refuses a chunk.
pub open spec fn accepts_all<PM: ProcessMode>() -> bool {
    forall|before: PM::Output, chunk: Seq<u8>, after: PM::Output, go_on: bool| #[trigger]
        PM::processed(before, chunk, after, go_on) ==> go_on
}

/// A run without its last message.
proof fn lemma_delivered_prefix<PM: ProcessMode>(
    states: Seq<Userdata<PM::Output>>,
    messages: Seq<Message<'_>>,
    answers: Seq<i32>,
)
    requires
        delivered::<PM>(states, messages, answers),
        messages.len() > 0,
    ensures
        delivered::<PM>(states.drop_last(), messages.drop_last(), answers.drop_last()),
        crate::process::reaction::<PM>(
            states[states.len() - 2],
            messages.last(),
            states.last(),
            answers.last(),
        ),
{
    let fewer = messages.drop_last();
    assert forall|i: int| #![trigger fewer[i]] 0 <= i < fewer.len() implies
        crate::process::reaction::<PM>(
        states.drop_last()[i],
        fewer[i],
        states.drop_last()[i + 1],
        answers.drop_last()[i],
    ) by {
        assert(messages[i] == fewer[i]);
    }
    assert(messages[messages.len() - 1] == messages.last());
}

/// That a read was aborted is remembered to its end, and nothing but a refused
/// chunk makes it so.
pub proof fn law_aborted_iff_refused<PM: ProcessMode>(
    states: Seq<Userdata<PM::Output>>,
    messages: Seq<Message<'_>>,
    answers: Seq<i32>,
)
    requires
        delivered::<PM>(states, messages, answers),
        !states[0].aborted,
    ensures
        states.last().aborted <==> refused_chunk(messages, answers),
    decreases messages.len(),
{
    if messages.len() > 0 {
        lemma_delivered_prefix::<PM>(states, messages, answers);
        let fewer = messages.drop_last();
        let first = answers.drop_last();
        law_aborted_iff_refused::<PM>(states.drop_last(), fewer, first);
        assert(states.drop_last().last() == states[states.len() - 2]);
        if refused_chunk(fewer, first) {
            let i = choose|i: int|
                0 <= i < fewer.len() && #[trigger] fewer[i] is ProcessData && first[i] == -1;
            assert(messages[i] is ProcessData && answers[i] == -1);
        }
        if refused_chunk(messages, answers) {
            let i = choose|i: int|
                0 <= i < messages.len() && #[trigger] messages[i] is ProcessData && answers[i]
                    == -1;
            if i < fewer.len() {
                assert(fewer[i] is ProcessData && first[i] == -1);
            }
        }
        if states.last().aborted && !states.drop_last().last().aborted {
            assert(messages[messages.len() - 1] is ProcessData);
        }
    }
}

/// A read in which the sink refused a chunk, and which then did not succeed, is
/// reported as aborted whatever the unpacking library called it. Where the sink
/// refused nothing, the library's own code is reported.
pub proof fn law_abort_is_told_from_failure<PM: ProcessMode>(
    states: Seq<Userdata<PM::Output>>,
    messages: Seq<Message<'_>>,
    answers: Seq<i32>,
    number: i32,
)
    requires
        delivered::<PM>(states, messages, answers),
        !states[0].aborted,
        !(crate::error::code_of(number as int) is Success),
    ensures
        crate::process::process_outcome(number, states.last().aborted) == Err::<(), UnrarError>(
            UnrarError {
                code: if refused_chunk(messages, answers) {
                    Code::Aborted
                } else {
                    crate::error::code_of(number as int)
                },
                when: When::Process,
            },
        ),
{
    law_aborted_iff_refused::<PM>(states, messages, answers);
}

/// No number of the unpacking library is taken for an abort from this side.
pub proof fn law_aborted_is_no_reported_code(number: int)
    ensures
        !(crate::error::code_of(number) is Aborted),
{
}

/// A sink is handed every chunk, in order, and its decision is the answer.
/// Nothing else changes it.
pub proof fn law_sink_changes_only_by_chunks<S: DataSink>(
    states: Seq<Userdata<S>>,
    messages: Seq<Message<'_>>,
    answers: Seq<i32>,
    i: int,
)
    requires
        delivered::<ReadToSink<S>>(states, messages, answers),
        0 <= i < messages.len(),
    ensures
        match messages[i] {
            Message::ProcessData { chunk } => S::took(
                states[i].output,
                chunk@,
                states[i + 1].output,
                answers[i] == 0,
            ),
            _ => states[i + 1].output == states[i].output,
        },
{
}

/// A mode that refuses nothing is never aborted, and answers zero to every
/// chunk.
pub proof fn law_accepting_mode_never_aborts<PM: ProcessMode>(
    states: Seq<Userdata<PM::Output>>,
    messages: Seq<Message<'_>>,
    answers: Seq<i32>,
)
    requires
        accepts_all::<PM>(),
        delivered::<PM>(states, messages, answers),
        !states[0].aborted,
    ensures
        !states.last().aborted,
        forall|i: int|
            0 <= i < messages.len() && #[trigger] messages[i] is ProcessData ==> answers[i] == 0,
{
    assert forall|i: int|
        0 <= i < messages.len() && #[trigger] messages[i] is ProcessData implies answers[i]
        == 0 by {
        assert(crate::process::reaction::<PM>(states[i], messages[i], states[i + 1], answers[i]));
        assert(PM::processed(
            states[i].output,
            chunk_in(messages[i]),
            states[i + 1].output,
            answers[i] == 0,
        ));
    }
    law_aborted_iff_refused::<PM>(states, messages, answers);
}

/// Reading into a vector gathers all bytes, in order.
proof fn lemma_vector_gathers(
    states: Seq<Userdata<Vec<u8>>>,
    messages: Seq<Message<'_>>,
    answers: Seq<i32>,
)
    requires
        delivered::<ReadToSink<Vec<u8>>>(states, messages, answers),
    ensures
        states.last().output@ == states[0].output@ + all_chunks(messages),
    decreases messages.len(),
{
    if messages.len() > 0 {
        lemma_delivered_prefix::<ReadToSink<Vec<u8>>>(states, messages, answers);
        lemma_vector_gathers(states.drop_last(), messages.drop_last(), answers.drop_last());
        assert(states.drop_last().last() == states[states.len() - 2]);
        assert(states.last().output@ == states[states.len() - 2].output@ + chunk_in(
            messages.last(),
        ));
    }
    assert(states.last().output@ =~= states[0].output@ + all_chunks(messages));
}

/// Reading a file into a vector gives back the whole entry: all its bytes, in
/// order. The read is never aborted, so it succeeds if and only if the call did,
/// and any error is the one that the unpacking library reported.
pub proof fn law_read_gives_back_the_whole_entry(
    start: Processing<Process, ReadToSink<Vec<u8>>>,
    end: Processing<Process, ReadToSink<Vec<u8>>>,
    flags: u32,
    damaged: bool,
    states: Seq<Userdata<Vec<u8>>>,
    messages: Seq<Message<'_>>,
    answers: Seq<i32>,
    number: i32,
)
    requires
        start.begins(flags, damaged, None, None, start.transaction().data.output),
        start.transaction().data.output@ == Seq::<u8>::empty(),
        delivered::<ReadToSink<Vec<u8>>>(states, messages, answers),
        states[0] == start.transaction().data,
        states.last() == end.transaction().data,
    ensures
        end.transaction().data.output@ == all_chunks(messages),
        crate::process::process_outcome(number, end.transaction().data.aborted) == match (
            crate::error::code_of(number as int)
        ) {
            Code::Success => Ok::<(), UnrarError>(()),
            code => Err::<(), UnrarError>(UnrarError { code, when: When::Process }),
        },
{
    lemma_vector_gathers(states, messages, answers);
    law_accepting_mode_never_aborts::<ReadToSink<Vec<u8>>>(states, messages, answers);
    assert(end.transaction().data.output@ =~= all_chunks(messages));
}

/// Reading into a sink that refused nothing goes exactly as reading into a
/// vector: the same answers, and the same result.
pub proof fn law_accepting_sink_reads_as_a_vector<S: DataSink>(
    states: Seq<Userdata<S>>,
    vectors: Seq<Userdata<Vec<u8>>>,
    messages: Seq<Message<'_>>,
    answers: Seq<i32>,
    vector_answers: Seq<i32>,
    number: i32,
)
    requires
        !refused_chunk(messages, answers),
        delivered::<ReadToSink<S>>(states, messages, answers),
        delivered::<ReadToSink<Vec<u8>>>(vectors, messages, vector_answers),
        !states[0].aborted,
        !vectors[0].aborted,
    ensures
        answers == vector_answers,
        crate::process::process_outcome(number, states.last().aborted)
            == crate::process::process_outcome(number, vectors.last().aborted),
{
    law_aborted_iff_refused::<ReadToSink<S>>(states, messages, answers);
    law_accepting_mode_never_aborts::<ReadToSink<Vec<u8>>>(vectors, messages, vector_answers);
    assert forall|i: int| 0 <= i < messages.len() implies answers[i] == vector_answers[i] by {
        let message = messages[i];
        assert(crate::process::reaction::<ReadToSink<S>>(
            states[i],
            message,
            states[i + 1],
            answers[i],
        ));
        assert(crate::process::reaction::<ReadToSink<Vec<u8>>>(
            vectors[i],
            message,
            vectors[i + 1],
            vector_answers[i],
        ));
    }
    assert(answers =~= vector_answers);
}

/// Reading a file writes nothing to disk: the operation is the test, and neither
/// a directory nor a file is named.
pub proof fn law_read_writes_nothing<S: DataSink>(
    processing: Processing<Process, ReadToSink<S>>,
    flags: u32,
    damaged: bool,
    sink: S,
)
    requires
        processing.begins(flags, damaged, None, None, sink),
    ensures
        processing.transaction().call.operation == Operation::Test,
        processing.transaction().call.path is None,
        processing.transaction().call.file is None,
{
}

/// Volume information is about the file that was opened at first: processing a
/// file leaves it as it was, whatever volumes were moved to meanwhile.
pub proof fn law_volume_info_stays<M: OpenMode, PM: ProcessMode>(
    before: OpenArchive<M, CursorBeforeFile>,
    start: Processing<M, PM>,
    end: Processing<M, PM>,
    path: Option<Seq<u8>>,
    file: Option<Seq<u8>>,
    output: PM::Output,
    number: i32,
    after: OpenArchive<M, CursorBeforeHeader>,
)
    requires
        start.begins(before.flags(), before.damaged(), path, file, output),
        end.flags() == start.flags(),
        end.damaged() == start.damaged(),
        end.gives_back(number, Ok(after)),
    ensures
        after.flags() == before.flags(),
        crate::archive::volume_of(after.flags()) == crate::archive::volume_of(before.flags()),
        after.damaged() == before.damaged(),
{
}

/// An error that a listing yields damages it, and nothing else does.
pub proof fn law_error_damages_the_listing(damaged: bool, event: NextEvent, action: NextAction)
    requires
        crate::archive::follows(damaged, event, action),
    ensures
        crate::archive::damaged_after(damaged, event) <==> damaged || (action matches
            NextAction::Yield(Some(Err(_)))),
{
}

/// A damaged listing yields nothing, however often it is asked: whatever the
/// number of questions, each is answered so.
pub proof fn law_damaged_listing_yields_nothing(damage: Seq<bool>, actions: Seq<NextAction>)
    requires
        damage.len() == actions.len() + 1,
        damage[0],
        forall|i: int|
            #![trigger actions[i]]
            0 <= i < actions.len() ==> {
                &&& crate::archive::follows(damage[i], NextEvent::Start, actions[i])
                &&& damage[i + 1] == crate::archive::damaged_after(damage[i], NextEvent::Start)
            },
    ensures
        forall|i: int|
            0 <= i < actions.len() ==> #[trigger] actions[i] == NextAction::Yield(None),
        damage.last(),
    decreases actions.len(),
{
    if actions.len() > 0 {
        let fewer = actions.drop_last();
        assert forall|i: int| #![trigger fewer[i]] 0 <= i < fewer.len() implies {
            &&& crate::archive::follows(damage.drop_last()[i], NextEvent::Start, fewer[i])
            &&& damage.drop_last()[i + 1] == crate::archive::damaged_after(
                damage.drop_last()[i],
                NextEvent::Start,
            )
        } by {
            assert(actions[i] == fewer[i]);
        }
        law_damaged_listing_yields_nothing(damage.drop_last(), fewer);
        let last = actions.len() - 1;
        assert(damage.drop_last().last() == damage[last]);
        assert(actions[last] == NextAction::Yield(None));
        assert forall|i: int| 0 <= i < actions.len() implies #[trigger] actions[i]
            == NextAction::Yield(None) by {
            if i < last {
                assert(fewer[i] == actions[i]);
            }
        }
    }
}

/// A listing that is not damaged, or was healed, goes on with a header.
pub proof fn law_healed_listing_goes_on(action: NextAction)
    requires
        crate::archive::follows(false, NextEvent::Start, action),
    ensures
        action is ReadHeader,
{
}

/// Fetching the next header of a listing, from the header read to the answer: the
/// header comes back once it was read and its file was skipped, and otherwise
/// the error of the step that failed does, or nothing at the end. Whatever
/// messages arrive during the skip, its result is the unpacking library's own.
pub proof fn law_listing_yields_each_header(
    reply: HeaderReply,
    skip: NextAction,
    states: Seq<Userdata<()>>,
    messages: Seq<Message<'_>>,
    answers: Seq<i32>,
    number: i32,
    last: NextAction,
)
    requires
        crate::archive::follows(false, NextEvent::Header(reply), skip),
        delivered::<Skip>(states, messages, answers),
        skip matches NextAction::SkipFile(header, transaction) ==> {
            &&& states[0] == transaction.data
            &&& crate::archive::follows(
                false,
                NextEvent::Skipped(
                    header,
                    crate::process::process_outcome(number, states.last().aborted),
                ),
                last,
            )
        },
        !(skip is SkipFile) ==> last == skip,
    ensures
        match crate::error::code_of(reply.code as int) {
            Code::Success => match crate::error::code_of(number as int) {
                Code::Success => last matches NextAction::Yield(Some(Ok(header))) && header@
                    == crate::header::entry_read(reply),
                code => last == NextAction::Yield(
                    Some(Err(UnrarError { code, when: When::Process })),
                ),
            },
            Code::EndArchive => last == NextAction::Yield(None),
            code => last == NextAction::Yield(Some(Err(UnrarError { code, when: When::Read }))),
        },
{
    if skip is SkipFile {
        law_accepting_mode_never_aborts::<Skip>(states, messages, answers);
    }
}

/// A listing and a processing cursor see the same entry, name and all, in what
/// reading a header gave back.
pub proof fn law_listing_and_processing_agree<M: OpenMode>(
    reply: HeaderReply,
    skip: NextAction,
    archive: OpenArchive<M, CursorBeforeFile>,
)
    requires
        crate::archive::follows(false, NextEvent::Header(reply), skip),
        archive.cursor().header()@ == crate::header::entry_read(reply),
    ensures
        skip matches NextAction::SkipFile(header, _) ==> header@ == archive.cursor().header()@,
{
}

/// A name that fits the long buffer is not cut: each of its units gives one
/// character, in order, and its own one where it is a character, whatever the
/// fixed field holds.
pub proof fn law_long_name_is_not_cut(reply: HeaderReply, name: Seq<u32>)
    requires
        0 < name.len() < MAX_NAME_WCHARS,
        forall|i: int| 0 <= i < name.len() ==> name[i] != 0,
        name.len() < reply.long_name@.len(),
        reply.long_name@.take(name.len() as int) == name,
        reply.long_name@[name.len() as int] == 0,
    ensures
        crate::header::entry_read(reply).filename.len() == name.len(),
        forall|i: int|
            #![trigger name[i]]
            0 <= i < name.len() ==> crate::header::entry_read(reply).filename[i]
                == crate::wide::lossy_char(name[i]),
        forall|i: int|
            #![trigger name[i]]
            0 <= i < name.len() && vstd::utf8::is_scalar(name[i])
                ==> crate::header::entry_read(reply).filename[i] as u32 == name[i],
{
    let seen = crate::wide::clipped(reply.long_name@, MAX_NAME_WCHARS as nat);
    assert forall|i: int| 0 <= i < name.len() implies seen[i] != 0 by {
        assert(seen[i] == reply.long_name@.take(name.len() as int)[i]);
    }
    crate::wide::lemma_nul_index_unique(seen, 0u32, name.len() as int);
    assert(crate::wide::until_nul(seen) =~= name);
}

/// The name of a file in a message is whole, however long it is: each of its
/// units gives one character, in order, and its own one where it is a character.
pub proof fn law_event_name_is_whole(buffer: &[u32], name: Seq<u32>)
    requires
        0 < name.len() <= buffer@.len(),
        forall|i: int| 0 <= i < name.len() ==> name[i] != 0,
        buffer@.take(name.len() as int) == name,
        name.len() < buffer@.len() ==> buffer@[name.len() as int] == 0,
    ensures
        crate::wide::message_name(Some(WideName::Utf32(buffer))) matches Some(
            FileNameView::Text(filename),
        ) && {
            &&& filename.len() == name.len()
            &&& forall|i: int|
                #![trigger name[i]]
                0 <= i < name.len() ==> filename[i] == crate::wide::lossy_char(name[i])
            &&& forall|i: int|
                #![trigger name[i]]
                0 <= i < name.len() && vstd::utf8::is_scalar(name[i]) ==> filename[i] as u32
                    == name[i]
        },
{
    assert forall|i: int| 0 <= i < name.len() implies buffer@[i] != 0 by {
        assert(buffer@[i] == name[i]);
    }
    crate::wide::lemma_nul_index_unique(buffer@, 0u32, name.len() as int);
    assert(crate::wide::until_nul(buffer@) =~= name);
}

/// The name of a file in a message is whole in units of 16 bits too, however long
/// it is: it is those units, surrogates among them, with or without a partner.
pub proof fn law_event_name_keeps_surrogates(buffer: &[u16], name: Seq<u16>)
    requires
        0 < name.len() <= buffer@.len(),
        forall|i: int| 0 <= i < name.len() ==> name[i] != 0,
        buffer@.take(name.len() as int) == name,
        name.len() < buffer@.len() ==> buffer@[name.len() as int] == 0,
    ensures
        crate::wide::message_name(Some(WideName::Utf16(buffer))) == Some(
            FileNameView::Units(name),
        ),
{
    assert forall|i: int| 0 <= i < name.len() implies buffer@[i] != 0 by {
        assert(buffer@[i] == name[i]);
    }
    crate::wide::lemma_nul_index_unique(buffer@, 0u16, name.len() as int);
    assert(crate::wide::until_nul_16(buffer@) =~= name);
}

/// Whichever of the three messages of a file arrives, its event carries the name
/// that the message does.
pub proof fn law_event_carries_the_name(
    data: CallbackData,
    message: ExtractMessage<'_>,
    filename: FileNameView,
)
    requires
        match message {
            ExtractMessage::ExtractFile { name, .. } => crate::wide::message_name(name) == Some(
                filename,
            ),
            ExtractMessage::ExtractFileOk { name } => crate::wide::message_name(name) == Some(
                filename,
            ),
            ExtractMessage::ExtractFileErr { name, .. } => crate::wide::message_name(name) == Some(
                filename,
            ),
            _ => false,
        },
    ensures
        match crate::extract::event_of(data, message) {
            Some(ExtractEventView::Start { filename: told, .. }) => message is ExtractFile && told
                == filename,
            Some(ExtractEventView::Extracted { filename: told, .. }) => message is ExtractFileOk
                && told == filename,
            Some(ExtractEventView::Failed { filename: told, .. }) => message is ExtractFileErr
                && told == filename,
            _ => false,
        },
{
}

/// An extraction event and the header of the same file give the same name.
pub proof fn law_event_and_header_names_agree(buffer: &[u32], reply: HeaderReply)
    requires
        crate::wide::until_nul(buffer@).len() > 0,
        crate::wide::until_nul(buffer@) == crate::wide::c_string(
            reply.long_name@,
            MAX_NAME_WCHARS as nat,
        ),
    ensures
        crate::wide::message_name(Some(WideName::Utf32(buffer))) == Some(
            FileNameView::Text(crate::header::entry_read(reply).filename),
        ),
{
}

/// The two words of a size can be told from the size.
pub proof fn law_size_keeps_both_words(low: u32, high: u32)
    ensures
        0 <= crate::header::combined_size(low, high) <= u64::MAX,
        crate::header::combined_size(low, high) % 0x1_0000_0000 == low,
        crate::header::combined_size(low, high) / 0x1_0000_0000 == high,
{
}

/// A run of [`crate::extract::extract_callback`]: what is kept before and after
/// each message, the caller's verdicts, and the answers.
pub open spec fn extracted(
    states: Seq<CallbackData>,
    messages: Seq<ExtractMessage<'_>>,
    verdicts: Seq<Option<bool>>,
    answers: Seq<i32>,
) -> bool {
    &&& states.len() == messages.len() + 1
    &&& verdicts.len() == messages.len()
    &&& answers.len() == messages.len()
    &&& forall|i: int|
        #![trigger messages[i]]
        0 <= i < messages.len() ==> crate::extract::extract_reaction(
            states[i],
            messages[i],
            verdicts[i],
            states[i + 1],
            answers[i],
        )
}

/// Whether the caller said no to an event of a file.
pub open spec fn refused_file(
    messages: Seq<ExtractMessage<'_>>,
    verdicts: Seq<Option<bool>>,
) -> bool {
    exists|i: int|
        0 <= i < messages.len() && crate::extract::cancellable(#[trigger] messages[i])
            && verdicts[i] == Some(false)
}

/// A run without its last message.
proof fn lemma_extracted_prefix(
    states: Seq<CallbackData>,
    messages: Seq<ExtractMessage<'_>>,
    verdicts: Seq<Option<bool>>,
    answers: Seq<i32>,
)
    requires
        extracted(states, messages, verdicts, answers),
        messages.len() > 0,
    ensures
        extracted(
            states.drop_last(),
            messages.drop_last(),
            verdicts.drop_last(),
            answers.drop_last(),
        ),
        crate::extract::extract_reaction(
            states[states.len() - 2],
            messages.last(),
            verdicts.last(),
            states.last(),
            answers.last(),
        ),
{
    let fewer = messages.drop_last();
    assert forall|i: int| #![trigger fewer[i]] 0 <= i < fewer.len() implies
        crate::extract::extract_reaction(
        states.drop_last()[i],
        fewer[i],
        verdicts.drop_last()[i],
        states.drop_last()[i + 1],
        answers.drop_last()[i],
    ) by {
        assert(messages[i] == fewer[i]);
    }
    assert(messages[messages.len() - 1] == messages.last());
}

/// An extraction counts as cancelled if and only if the caller said no to an
/// event of a file.
pub proof fn law_cancelled_iff_refused(
    states: Seq<CallbackData>,
    messages: Seq<ExtractMessage<'_>>,
    verdicts: Seq<Option<bool>>,
    answers: Seq<i32>,
)
    requires
        extracted(states, messages, verdicts, answers),
        !states[0].cancelled,
    ensures
        states.last().cancelled <==> refused_file(messages, verdicts),
    decreases messages.len(),
{
    if messages.len() > 0 {
        lemma_extracted_prefix(states, messages, verdicts, answers);
        let fewer = messages.drop_last();
        let first = verdicts.drop_last();
        law_cancelled_iff_refused(states.drop_last(), fewer, first, answers.drop_last());
        assert(states.drop_last().last() == states[states.len() - 2]);
        if refused_file(fewer, first) {
            let i = choose|i: int|
                0 <= i < fewer.len() && crate::extract::cancellable(#[trigger] fewer[i])
                    && first[i] == Some(false);
            assert(crate::extract::cancellable(messages[i]) && verdicts[i] == Some(false));
        }
        if refused_file(messages, verdicts) {
            let i = choose|i: int|
                0 <= i < messages.len() && crate::extract::cancellable(#[trigger] messages[i])
                    && verdicts[i] == Some(false);
            if i < fewer.len() {
                assert(crate::extract::cancellable(fewer[i]) && first[i] == Some(false));
            }
        }
        if states.last().cancelled && !states.drop_last().last().cancelled {
            assert(crate::extract::cancellable(messages[messages.len() - 1]));
        }
    }
}

/// The status tells a finished extraction from a cancelled one, though the
/// unpacking library reports success for both; any other code is an error.
pub proof fn law_status_tells_cancelled_from_completed(
    states: Seq<CallbackData>,
    messages: Seq<ExtractMessage<'_>>,
    verdicts: Seq<Option<bool>>,
    answers: Seq<i32>,
    number: i32,
)
    requires
        extracted(states, messages, verdicts, answers),
        !states[0].cancelled,
    ensures
        match crate::error::code_of(number as int) {
            Code::Success => crate::extract::extract_status(number, states.last().cancelled)
                == Ok::<ExtractStatus, UnrarError>(
                if refused_file(messages, verdicts) {
                    ExtractStatus::Cancelled
                } else {
                    ExtractStatus::Completed
                },
            ),
            code => crate::extract::extract_status(number, states.last().cancelled) == Err::<
                ExtractStatus,
                UnrarError,
            >(UnrarError { code, when: When::Process }),
        },
{
    law_cancelled_iff_refused(states, messages, verdicts, answers);
}

/// Only one, the answer where the caller permits it, lets an extraction with an
/// oversized dictionary go on. Rejecting it is answered zero, so that the
/// extraction fails, and is no cancel.
pub proof fn law_rejected_dictionary_is_no_cancel(
    before: CallbackData,
    message: ExtractMessage<'_>,
    verdict: bool,
    after: CallbackData,
    answer: i32,
)
    requires
        message is LargeDict,
        crate::extract::extract_reaction(before, message, Some(verdict), after, answer),
    ensures
        answer == if verdict {
            1int
        } else {
            0
        },
        after.cancelled == before.cancelled,
{
}

/// The size stays what the start of a file reported until another one starts.
proof fn lemma_pending_size(
    states: Seq<CallbackData>,
    messages: Seq<ExtractMessage<'_>>,
    verdicts: Seq<Option<bool>>,
    answers: Seq<i32>,
    start: int,
    end: int,
)
    requires
        extracted(states, messages, verdicts, answers),
        0 <= start < end <= messages.len(),
        messages[start] is ExtractFile,
        forall|i: int| start < i < end ==> !(#[trigger] messages[i] is ExtractFile),
    ensures
        states[end].pending_size == crate::extract::unsigned(messages[start]->ExtractFile_size),
    decreases end - start,
{
    if end == start + 1 {
        assert(messages[start] is ExtractFile);
    } else {
        lemma_pending_size(states, messages, verdicts, answers, start, end - 1);
        assert(!(messages[end - 1] is ExtractFile));
    }
}

/// The success of a file is reported with the size that its start reported, even
/// where the start itself could not be told of.
pub proof fn law_success_carries_the_size(
    states: Seq<CallbackData>,
    messages: Seq<ExtractMessage<'_>>,
    verdicts: Seq<Option<bool>>,
    answers: Seq<i32>,
    start: int,
    end: int,
    filename: FileNameView,
)
    requires
        extracted(states, messages, verdicts, answers),
        0 <= start < end < messages.len(),
        messages[start] is ExtractFile,
        forall|i: int| start < i < end ==> !(#[trigger] messages[i] is ExtractFile),
        messages[end] matches ExtractMessage::ExtractFileOk { name } && crate::wide::message_name(
            name,
        ) == Some(filename),
    ensures
        crate::extract::event_of(states[end], messages[end]) == Some(
            ExtractEventView::Extracted {
                filename,
                size: crate::extract::unsigned(messages[start]->ExtractFile_size),
            },
        ),
{
    lemma_pending_size(states, messages, verdicts, answers, start, end);
}

} // verus!
