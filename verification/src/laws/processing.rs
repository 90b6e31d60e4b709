//! What holds of reading, testing, skipping and extracting a file.

use crate::archive::{
    CursorBeforeFile, CursorBeforeHeader, OpenArchive, OpenMode, Process, Processing,
};
use crate::error::UnrarResult;
use crate::native::HeaderReply;
use crate::private::Operation;
use crate::process::{
    Extract, Message, MessageKind, ProcessMode, ReadToSink, Skip, Test, Transaction, Userdata,
};
use crate::sink::DataSink;
use vstd::prelude::*;

verus! {

/// That a result is what a call reported: a success if and only if its number stands
/// for one, and otherwise an error of the step of processing. The code is that of
/// the number, but where a chunk was refused it says so.
pub open spec fn reports<T>(result: UnrarResult<T>, number: i32, aborted: bool) -> bool {
    &&& result is Ok <==> crate::error::code_of(number as int) is Success
    &&& result is Ok <==> number == 0
    &&& result matches Err(error) ==> {
        &&& error.when is Process
        &&& aborted ==> error.code is Aborted
        &&& !aborted ==> error.code == crate::error::code_of(number as int)
    }
}

/// Processing a file gives the archive back if and only if the call succeeded, as it
/// was. What was gathered comes back either way.
pub proof fn law_archive_comes_back_iff_the_call_succeeded<M: OpenMode, PM: ProcessMode>(
    processing: Processing<M, PM>,
    number: i32,
    end: (PM::Output, UnrarResult<OpenArchive<M, CursorBeforeHeader>>),
)
    requires
        call_ensures(Processing::<M, PM>::finish_with, (processing, number), end),
    ensures
        end.0 == processing.transaction().data.output,
        reports(end.1, number, processing.transaction().data.aborted),
        end.1 matches Ok(archive) ==> archive.flags() == processing.flags() && archive.damaged()
            == processing.damaged(),
{
}

/// The archive comes back beside what was gathered if and only if the call
/// succeeded; a failed call gives neither.
pub proof fn law_output_comes_back_with_the_archive<M: OpenMode, PM: ProcessMode>(
    processing: Processing<M, PM>,
    number: i32,
    result: UnrarResult<(PM::Output, OpenArchive<M, CursorBeforeHeader>)>,
)
    requires
        call_ensures(Processing::<M, PM>::finish_output, (processing, number), result),
    ensures
        reports(result, number, processing.transaction().data.aborted),
        result matches Ok((output, archive)) ==> {
            &&& output == processing.transaction().data.output
            &&& archive.flags() == processing.flags()
            &&& archive.damaged() == processing.damaged()
        },
{
}

/// Without what was gathered too, the archive comes back if and only if the call
/// succeeded.
pub proof fn law_archive_alone_comes_back_iff_the_call_succeeded<M: OpenMode, PM: ProcessMode>(
    processing: Processing<M, PM>,
    number: i32,
    result: UnrarResult<OpenArchive<M, CursorBeforeHeader>>,
)
    requires
        call_ensures(Processing::<M, PM>::finish, (processing, number), result),
    ensures
        reports(result, number, processing.transaction().data.aborted),
        result matches Ok(archive) ==> archive.flags() == processing.flags() && archive.damaged()
            == processing.damaged(),
{
}

/// A transaction by itself ends with what was gathered and with what its call
/// reported.
pub proof fn law_transaction_ends_as_its_call<PM: ProcessMode>(
    transaction: Transaction<PM>,
    number: i32,
    end: (PM::Output, UnrarResult<()>),
)
    requires
        call_ensures(Transaction::<PM>::finish, (transaction, number), end),
    ensures
        end.0 == transaction.data.output,
        reports(end.1, number, transaction.data.aborted),
{
}

/// What is done to the transaction of a file is done to that file, and the archive
/// stays as it is meanwhile.
pub proof fn law_transaction_belongs_to_the_file<M: OpenMode, PM: ProcessMode>(
    processing: &mut Processing<M, PM>,
    transaction: &mut Transaction<PM>,
)
    requires
        call_ensures(Processing::<M, PM>::transaction_mut, (processing,), transaction),
    ensures
        *old(transaction) == old(processing).transaction(),
        *final(transaction) == final(processing).transaction(),
        final(processing).flags() == old(processing).flags(),
        final(processing).damaged() == old(processing).damaged(),
{
}

/// The number that the unpacking library knows each operation by.
pub proof fn law_operation_numbers(operation: Operation, number: i32)
    requires
        call_ensures(Operation::as_i32, (operation,), number),
    ensures
        operation is Skip <==> number == 0,
        operation is Test <==> number == 1,
        operation is Extract <==> number == 2,
{
}

/// Each number of a message has its kind: a chunk, a change of volume, or neither.
pub proof fn law_message_numbers(msg: u32, kind: MessageKind)
    requires
        call_ensures(crate::process::message_kind, (msg,), kind),
    ensures
        kind is ProcessData <==> msg == 1,
        kind is ChangeVolume <==> msg == 3,
{
}

/// That processing a file begins: the archive is as it was, no volume was moved to,
/// and nothing was aborted.
pub open spec fn begun<M: OpenMode, PM: ProcessMode>(
    archive: OpenArchive<M, CursorBeforeFile>,
    processing: Processing<M, PM>,
) -> bool {
    &&& processing.flags() == archive.flags()
    &&& processing.damaged() == archive.damaged()
    &&& processing.transaction().data.next_volume is None
    &&& !processing.transaction().data.aborted
}

/// Skipping a file asks the unpacking library to move past it, and names nothing to
/// write to.
pub proof fn law_skip_moves_past_the_file<M: OpenMode>(
    archive: OpenArchive<M, CursorBeforeFile>,
    processing: Processing<M, Skip>,
)
    requires
        call_ensures(OpenArchive::<M, CursorBeforeFile>::skip, (archive,), processing),
    ensures
        begun(archive, processing),
        processing.transaction().call.operation is Skip,
        processing.transaction().call.path is None,
        processing.transaction().call.file is None,
{
}

/// Testing a file unpacks it and names nothing to write to.
pub proof fn law_test_writes_nothing(
    archive: OpenArchive<Process, CursorBeforeFile>,
    processing: Processing<Process, Test>,
)
    requires
        call_ensures(OpenArchive::<Process, CursorBeforeFile>::test, (archive,), processing),
    ensures
        begun(archive, processing),
        processing.transaction().call.operation is Test,
        processing.transaction().call.path is None,
        processing.transaction().call.file is None,
{
}

/// Reading a file unpacks it, names nothing to write to, and begins with the sink as
/// it was given.
pub proof fn law_read_begins_with_the_given_sink<S: DataSink>(
    archive: OpenArchive<Process, CursorBeforeFile>,
    sink: S,
    processing: Processing<Process, ReadToSink<S>>,
)
    requires
        call_ensures(
            OpenArchive::<Process, CursorBeforeFile>::read_into::<S>,
            (archive, sink),
            processing,
        ),
    ensures
        begun(archive, processing),
        processing.transaction().data.output == sink,
        processing.transaction().call.operation is Test,
        processing.transaction().call.path is None,
        processing.transaction().call.file is None,
{
}

/// Reading a file into a vector begins with none of its bytes.
pub proof fn law_read_begins_with_no_bytes(
    archive: OpenArchive<Process, CursorBeforeFile>,
    processing: Processing<Process, ReadToSink<Vec<u8>>>,
)
    requires
        call_ensures(OpenArchive::<Process, CursorBeforeFile>::read, (archive,), processing),
    ensures
        begun(archive, processing),
        processing.transaction().data.output@.len() == 0,
        processing.transaction().call.operation is Test,
        processing.transaction().call.path is None,
        processing.transaction().call.file is None,
{
}

/// That a file is extracted to the path `file`, which can be a C string, and no
/// directory is named beside it.
pub open spec fn writes_to(processing: Processing<Process, Extract>, file: Seq<u8>) -> bool {
    let call = processing.transaction().call;
    &&& call.operation is Extract
    &&& call.path is None
    &&& call.file matches Some(named) && named@ == file
    &&& forall|i: int| 0 <= i < file.len() ==> file[i] != 0
}

/// Extracting a file writes it under its own name: the name's characters in UTF-8.
pub proof fn law_extract_writes_under_the_own_name(
    archive: OpenArchive<Process, CursorBeforeFile>,
    processing: Processing<Process, Extract>,
)
    requires
        call_ensures(OpenArchive::<Process, CursorBeforeFile>::extract, (archive,), processing),
    ensures
        begun(archive, processing),
        writes_to(
            processing,
            vstd::utf8::encode_utf8(archive.cursor().header().filename@),
        ),
{
}

/// Extracting a file to a given one writes it there, whatever its own name is.
pub proof fn law_extract_to_writes_to_the_given_file(
    archive: OpenArchive<Process, CursorBeforeFile>,
    file: &[u8],
    processing: Processing<Process, Extract>,
)
    requires
        call_ensures(
            OpenArchive::<Process, CursorBeforeFile>::extract_to,
            (archive, file),
            processing,
        ),
    ensures
        begun(archive, processing),
        writes_to(processing, file@),
{
}

/// That `path` is `name` seen from the directory `base`. A relative name lies below
/// the directory: the path starts with the directory, ends in the name, and has a
/// separator between them, which is added where the directory does not end in one.
/// An absolute name stands for itself, and so does any name where no directory is
/// given.
pub open spec fn lies_below(base: Seq<u8>, name: Seq<u8>, path: Seq<u8>) -> bool {
    let absolute = name.len() > 0 && name[0] == 0x2f;
    if absolute || base.len() == 0 {
        path == name
    } else {
        let start = path.len() - name.len();
        &&& base.len() <= start <= base.len() + 1
        &&& path.take(base.len() as int) == base
        &&& path.skip(start) == name
        &&& path[start - 1] == 0x2f
        &&& start == base.len() + 1 <==> base.last() != 0x2f
    }
}

/// A name joined to a directory lies below it.
pub proof fn law_joined_name_lies_below_the_directory(base: &[u8], name: &[u8], path: Vec<u8>)
    requires
        call_ensures(crate::pathed::join, (base, name), path),
    ensures
        lies_below(base@, name@, path@),
        base@.len() > 0 && base@.last() != 0x2f && (name@.len() == 0 || name@[0] != 0x2f) ==> {
            &&& path@.len() == base@.len() + 1 + name@.len()
            &&& path@[base@.len() as int] == 0x2f
        },
{
    lemma_joined(base@, name@);
}

/// A joined path lies below the directory.
proof fn lemma_joined(base: Seq<u8>, name: Seq<u8>)
    ensures
        lies_below(base, name, crate::pathed::joined(base, name)),
{
    let path = crate::pathed::joined(base, name);
    let absolute = name.len() > 0 && name[0] == 0x2f;
    if absolute || base.len() == 0 {
        assert(path =~= name);
    } else {
        assert(path.take(base.len() as int) =~= base);
        assert(path.skip(path.len() - name.len()) =~= name);
    }
}

/// Names joined to one directory are told apart, unless one of them is absolute.
pub proof fn law_joined_names_stay_apart(
    base: &[u8],
    first: &[u8],
    second: &[u8],
    first_path: Vec<u8>,
    second_path: Vec<u8>,
)
    requires
        call_ensures(crate::pathed::join, (base, first), first_path),
        call_ensures(crate::pathed::join, (base, second), second_path),
        first@.len() > 0 ==> first@[0] != 0x2f,
        second@.len() > 0 ==> second@[0] != 0x2f,
        first_path@ == second_path@,
    ensures
        first@ == second@,
{
    lemma_joined(base@, first@);
    lemma_joined(base@, second@);
    let start = first_path@.len() - first@.len();
    if base@.len() > 0 {
        assert(first@ == first_path@.skip(start));
        assert(second@ == second_path@.skip(start));
    }
}

/// The target of an extraction is the file alone, below the directory where one is
/// given, and under the name's own characters in UTF-8.
pub proof fn law_extraction_names_the_file_alone(
    base: Option<&[u8]>,
    filename: &str,
    target: (Option<Vec<u8>>, Option<Vec<u8>>),
)
    requires
        call_ensures(crate::pathed::preprocess_extract, (base, filename), target),
    ensures
        target.0 is None,
        target.1 matches Some(file) && match base {
            Some(base) => lies_below(base@, vstd::utf8::encode_utf8(filename@), file@),
            None => file@ == vstd::utf8::encode_utf8(filename@),
        },
{
    if let Some(base) = base {
        lemma_joined(base@, vstd::utf8::encode_utf8(filename@));
    }
}

/// Extracting a file into a directory writes it below that directory, under its own
/// name.
pub proof fn law_extract_with_base_writes_below_the_base(
    archive: OpenArchive<Process, CursorBeforeFile>,
    base: &[u8],
    processing: Processing<Process, Extract>,
)
    requires
        call_ensures(
            OpenArchive::<Process, CursorBeforeFile>::extract_with_base,
            (archive, base),
            processing,
        ),
    ensures
        begun(archive, processing),
        processing.transaction().call.file matches Some(file) && writes_to(processing, file@)
            && lies_below(
            base@,
            vstd::utf8::encode_utf8(archive.cursor().header().filename@),
            file@,
        ),
{
    lemma_joined(base@, vstd::utf8::encode_utf8(archive.cursor().header().filename@));
}

/// A file is extracted under the name that its header was read with: from the reply
/// to the target below the directory.
pub proof fn law_file_is_extracted_under_the_name_that_was_read(
    before: OpenArchive<Process, CursorBeforeHeader>,
    reply: HeaderReply,
    archive: OpenArchive<Process, CursorBeforeFile>,
    base: &[u8],
    based: Processing<Process, Extract>,
    plain: Processing<Process, Extract>,
)
    requires
        call_ensures(
            OpenArchive::<Process, CursorBeforeHeader>::read_header,
            (before, reply),
            Ok(Some(archive)),
        ),
        call_ensures(
            OpenArchive::<Process, CursorBeforeFile>::extract_with_base,
            (archive, base),
            based,
        ),
        call_ensures(OpenArchive::<Process, CursorBeforeFile>::extract, (archive,), plain),
    ensures
        exists|name: Seq<char>|
            {
                &&& #[trigger] crate::laws::entries::names(reply, name)
                &&& writes_to(plain, vstd::utf8::encode_utf8(name))
                &&& based.transaction().call.file matches Some(file) && lies_below(
                    base@,
                    vstd::utf8::encode_utf8(name),
                    file@,
                )
            },
        plain.flags() == before.flags(),
        based.flags() == before.flags(),
{
    let name = archive.cursor().header().filename@;
    crate::laws::entries::lemma_entry_read(reply);
    law_extract_with_base_writes_below_the_base(archive, base, based);
    law_extract_writes_under_the_own_name(archive, plain);
    assert(crate::laws::entries::names(reply, name));
}

/// A path is handed over as it is.
pub proof fn law_path_is_handed_over_as_it_is(path: &[u8], c_string: Vec<u8>)
    requires
        call_ensures(crate::pathed::construct, (path,), c_string),
    ensures
        c_string@ == path@,
{
}

/// A transaction asks for what its mode says, names what it is given, and begins
/// with nothing gathered but for the given output.
pub proof fn law_transaction_asks_for_what_was_given<PM: ProcessMode>(
    path: Option<Vec<u8>>,
    file: Option<Vec<u8>>,
    output: PM::Output,
    transaction: Transaction<PM>,
)
    requires
        call_ensures(
            Transaction::<PM>::process_file_raw_with,
            (path, file, output),
            transaction,
        ),
    ensures
        transaction.call.operation == PM::asks_for(),
        transaction.call.path is Some <==> path is Some,
        transaction.call.file is Some <==> file is Some,
        transaction.call.path matches Some(named) ==> path matches Some(given) && named@
            == given@,
        transaction.call.file matches Some(named) ==> file matches Some(given) && named@
            == given@,
        transaction.data.output == output,
        transaction.data.next_volume is None,
        !transaction.data.aborted,
{
}

/// As [`law_transaction_asks_for_what_was_given`], where nothing is gathered.
pub proof fn law_plain_transaction_asks_for_what_was_given<PM: ProcessMode<Output = ()>>(
    path: Option<Vec<u8>>,
    file: Option<Vec<u8>>,
    transaction: Transaction<PM>,
)
    requires
        call_ensures(Transaction::<PM>::process_file_raw, (path, file), transaction),
    ensures
        transaction.call.operation == PM::asks_for(),
        transaction.call.path is Some <==> path is Some,
        transaction.call.file is Some <==> file is Some,
        transaction.call.path matches Some(named) ==> path matches Some(given) && named@
            == given@,
        transaction.call.file matches Some(named) ==> file matches Some(given) && named@
            == given@,
        transaction.data.next_volume is None,
        !transaction.data.aborted,
{
}

/// Each mode asks for the operation that does what the mode is for. Reading is a
/// test, so that nothing is written.
pub proof fn law_modes_ask_for_their_operation<S: DataSink>(
    skip: Operation,
    test: Operation,
    read: Operation,
    extract: Operation,
)
    requires
        call_ensures(<Skip as ProcessMode>::operation, (), skip),
        call_ensures(<Test as ProcessMode>::operation, (), test),
        call_ensures(<ReadToSink<S> as ProcessMode>::operation, (), read),
        call_ensures(<Extract as ProcessMode>::operation, (), extract),
    ensures
        skip is Skip,
        test is Test,
        read is Test,
        extract is Extract,
{
}

/// The modes that gather nothing, and reading into a vector, refuse no chunk.
pub proof fn law_modes_that_accept_all()
    ensures
        crate::laws::accepts_all::<Skip>(),
        crate::laws::accepts_all::<Test>(),
        crate::laws::accepts_all::<Extract>(),
        crate::laws::accepts_all::<ReadToSink<Vec<u8>>>(),
{
}

/// The modes that gather nothing take every chunk.
pub proof fn law_modes_that_gather_nothing_take_every_chunk(
    data: &mut (),
    chunk: &[u8],
    skipped: bool,
    tested: bool,
    extracted: bool,
)
    requires
        call_ensures(<Skip as ProcessMode>::process_data, (data, chunk), skipped),
        call_ensures(<Test as ProcessMode>::process_data, (data, chunk), tested),
        call_ensures(<Extract as ProcessMode>::process_data, (data, chunk), extracted),
    ensures
        skipped,
        tested,
        extracted,
{
}

/// A vector takes every chunk, and holds its bytes after those it held before.
pub proof fn law_vector_takes_every_chunk(
    vector: &mut Vec<u8>,
    chunk: &[u8],
    accepted: bool,
)
    requires
        call_ensures(<Vec<u8> as DataSink>::write_chunk, (vector, chunk), accepted),
    ensures
        accepted,
        final(vector)@.len() == old(vector)@.len() + chunk@.len(),
        final(vector)@.take(old(vector)@.len() as int) == old(vector)@,
        final(vector)@.skip(old(vector)@.len() as int) == chunk@,
{
    assert(final(vector)@.take(old(vector)@.len() as int) =~= old(vector)@);
    assert(final(vector)@.skip(old(vector)@.len() as int) =~= chunk@);
}

/// That a message of a chunk was dealt with by a mode that gathers nothing: it goes
/// on, and nothing changes.
pub open spec fn let_pass(before: Userdata<()>, after: Userdata<()>, answer: i32) -> bool {
    &&& answer == 0
    &&& after.aborted == before.aborted
    &&& after.next_volume == before.next_volume
}

/// A chunk of a file that is tested, skipped or extracted is let pass.
pub proof fn law_chunk_is_let_pass(
    tested: &mut Userdata<()>,
    skipped: &mut Userdata<()>,
    extracted: &mut Userdata<()>,
    chunk: &[u8],
    test_answer: i32,
    skip_answer: i32,
    extract_answer: i32,
)
    requires
        call_ensures(
            crate::process::callback::<Test>,
            (Some(tested), Message::ProcessData { chunk }),
            test_answer,
        ),
        call_ensures(
            crate::process::callback::<Skip>,
            (Some(skipped), Message::ProcessData { chunk }),
            skip_answer,
        ),
        call_ensures(
            crate::process::callback::<Extract>,
            (Some(extracted), Message::ProcessData { chunk }),
            extract_answer,
        ),
    ensures
        let_pass(*old(tested), *final(tested), test_answer),
        let_pass(*old(skipped), *final(skipped), skip_answer),
        let_pass(*old(extracted), *final(extracted), extract_answer),
{
}

/// What the answer to a message says, for any mode.
proof fn lemma_callback<PM: ProcessMode>(
    data: &mut Userdata<PM::Output>,
    message: Message<'_>,
    answer: i32,
)
    requires
        call_ensures(crate::process::callback::<PM>, (Some(data), message), answer),
    ensures
        crate::process::reaction::<PM>(*old(data), message, *final(data), answer),
{
}

/// A chunk of a file that is read goes to the sink, whole. The sink's answer decides:
/// zero goes on, and minus one stops and is remembered as an abort.
pub proof fn law_chunk_goes_to_the_sink<S: DataSink>(
    data: &mut Userdata<S>,
    chunk: &[u8],
    answer: i32,
)
    requires
        call_ensures(
            crate::process::callback::<ReadToSink<S>>,
            (Some(data), Message::ProcessData { chunk }),
            answer,
        ),
    ensures
        answer == 0 || answer == -1,
        S::took(old(data).output, chunk@, final(data).output, answer == 0),
        final(data).aborted <==> old(data).aborted || answer == -1,
        final(data).next_volume == old(data).next_volume,
{
    lemma_callback::<ReadToSink<S>>(data, Message::ProcessData { chunk }, answer);
}

/// A chunk of a file that is read into a vector is appended to it, and the read goes
/// on.
pub proof fn law_chunk_is_appended_to_the_vector(
    data: &mut Userdata<Vec<u8>>,
    chunk: &[u8],
    answer: i32,
)
    requires
        call_ensures(
            crate::process::callback::<ReadToSink<Vec<u8>>>,
            (Some(data), Message::ProcessData { chunk }),
            answer,
        ),
    ensures
        answer == 0,
        final(data).output@ == old(data).output@ + chunk@,
        final(data).aborted == old(data).aborted,
        final(data).next_volume == old(data).next_volume,
{
    lemma_callback::<ReadToSink<Vec<u8>>>(data, Message::ProcessData { chunk }, answer);
}

/// A change of volume stops the call if and only if the volume was not found, which
/// mode zero says. The volume's name is kept, up to its terminator and no more than
/// 2048 units of it. It touches nothing that was gathered, and is no abort.
pub proof fn law_volume_change_stops_iff_not_found<PM: ProcessMode>(
    data: &mut Userdata<PM::Output>,
    next: Vec<u32>,
    mode: i64,
    answer: i32,
)
    requires
        call_ensures(
            crate::process::callback::<PM>,
            (Some(data), Message::ChangeVolume { next, mode }),
            answer,
        ),
    ensures
        mode == 0 ==> answer == -1,
        mode != 0 ==> answer == 0,
        final(data).next_volume matches Some(name) && crate::laws::entries::holds_units(
            crate::laws::entries::within(next@, 2048),
            0,
            name@,
        ),
        final(data).output == old(data).output,
        final(data).aborted == old(data).aborted,
{
    crate::laws::entries::lemma_c_string(crate::laws::entries::within(next@, 2048));
}

/// Any other message changes nothing and is answered zero, and so is every message
/// for which no data was registered.
pub proof fn law_other_messages_change_nothing<PM: ProcessMode>(
    data: &mut Userdata<PM::Output>,
    answer: i32,
    message: Message<'_>,
    answer_without_data: i32,
)
    requires
        call_ensures(crate::process::callback::<PM>, (Some(data), Message::Other), answer),
        call_ensures(crate::process::callback::<PM>, (None, message), answer_without_data),
    ensures
        answer == 0,
        *final(data) == *old(data),
        answer_without_data == 0,
{
}

/// Data begin with the output that is given, no volume and no abort.
pub proof fn law_data_begin_fresh<T>(output: T, data: Userdata<T>)
    requires
        call_ensures(Userdata::<T>::new, (output,), data),
    ensures
        data.output == output,
        data.next_volume is None,
        !data.aborted,
{
}

/// A verdict on a chunk is answered zero where it is to go on. Otherwise it is
/// answered minus one, and the abort is remembered.
pub proof fn law_refused_chunk_is_remembered<T>(
    data: &mut Userdata<T>,
    go_on: bool,
    answer: i32,
)
    requires
        call_ensures(Userdata::<T>::settle, (data, go_on), answer),
    ensures
        go_on ==> answer == 0,
        !go_on ==> answer == -1,
        final(data).aborted <==> old(data).aborted || !go_on,
        final(data).output == old(data).output,
        final(data).next_volume == old(data).next_volume,
{
}

/// That the messages of a call took the processing of a file from its start to its
/// end.
pub open spec fn ran<M: OpenMode, PM: ProcessMode>(
    start: Processing<M, PM>,
    states: Seq<Userdata<PM::Output>>,
    messages: Seq<Message<'_>>,
    answers: Seq<i32>,
    end: Processing<M, PM>,
) -> bool {
    &&& crate::laws::delivered::<PM>(states, messages, answers)
    &&& states[0] == start.transaction().data
    &&& states.last() == end.transaction().data
    &&& end.flags() == start.flags()
    &&& end.damaged() == start.damaged()
}

/// That every chunk was answered zero, and that the archive comes back if and only
/// if the call succeeded, as it was; the error is otherwise the call's own.
pub open spec fn went_as_the_call<M: OpenMode>(
    before: OpenArchive<M, CursorBeforeFile>,
    messages: Seq<Message<'_>>,
    answers: Seq<i32>,
    number: i32,
    result: UnrarResult<OpenArchive<M, CursorBeforeHeader>>,
) -> bool {
    &&& forall|i: int|
        0 <= i < messages.len() && #[trigger] messages[i] is ProcessData ==> answers[i] == 0
    &&& reports(result, number, false)
    &&& result matches Ok(archive) ==> archive.flags() == before.flags() && archive.damaged()
        == before.damaged()
}

/// Testing a file, from the call to its result: no chunk stops it, and the result is
/// the unpacking library's own.
pub proof fn law_test_goes_as_the_call(
    archive: OpenArchive<Process, CursorBeforeFile>,
    start: Processing<Process, Test>,
    states: Seq<Userdata<()>>,
    messages: Seq<Message<'_>>,
    answers: Seq<i32>,
    end: Processing<Process, Test>,
    number: i32,
    result: UnrarResult<OpenArchive<Process, CursorBeforeHeader>>,
)
    requires
        call_ensures(OpenArchive::<Process, CursorBeforeFile>::test, (archive,), start),
        ran(start, states, messages, answers, end),
        call_ensures(Processing::<Process, Test>::finish, (end, number), result),
    ensures
        went_as_the_call(archive, messages, answers, number, result),
{
    crate::laws::law_accepting_mode_never_aborts::<Test>(states, messages, answers);
}

/// Skipping a file, from the call to its result: no chunk stops it, and the result is
/// the unpacking library's own.
pub proof fn law_skip_goes_as_the_call<M: OpenMode>(
    archive: OpenArchive<M, CursorBeforeFile>,
    start: Processing<M, Skip>,
    states: Seq<Userdata<()>>,
    messages: Seq<Message<'_>>,
    answers: Seq<i32>,
    end: Processing<M, Skip>,
    number: i32,
    result: UnrarResult<OpenArchive<M, CursorBeforeHeader>>,
)
    requires
        call_ensures(OpenArchive::<M, CursorBeforeFile>::skip, (archive,), start),
        ran(start, states, messages, answers, end),
        call_ensures(Processing::<M, Skip>::finish, (end, number), result),
    ensures
        went_as_the_call(archive, messages, answers, number, result),
{
    crate::laws::law_accepting_mode_never_aborts::<Skip>(states, messages, answers);
}

/// Extracting a file, in each of the three ways, from the call to its result: no
/// chunk stops it, and the result is the unpacking library's own.
pub proof fn law_extract_goes_as_the_call(
    archive: OpenArchive<Process, CursorBeforeFile>,
    path: &[u8],
    start: Processing<Process, Extract>,
    states: Seq<Userdata<()>>,
    messages: Seq<Message<'_>>,
    answers: Seq<i32>,
    end: Processing<Process, Extract>,
    number: i32,
    result: UnrarResult<OpenArchive<Process, CursorBeforeHeader>>,
)
    requires
        ({
            ||| call_ensures(OpenArchive::<Process, CursorBeforeFile>::extract, (archive,), start)
            ||| call_ensures(
                OpenArchive::<Process, CursorBeforeFile>::extract_with_base,
                (archive, path),
                start,
            )
            ||| call_ensures(
                OpenArchive::<Process, CursorBeforeFile>::extract_to,
                (archive, path),
                start,
            )
        }),
        ran(start, states, messages, answers, end),
        call_ensures(Processing::<Process, Extract>::finish, (end, number), result),
    ensures
        went_as_the_call(archive, messages, answers, number, result),
{
    crate::laws::law_accepting_mode_never_aborts::<Extract>(states, messages, answers);
}

/// Reading a file into a vector, from the call to its result: the bytes of all its
/// chunks, in order, and the archive come back if and only if the call succeeded.
/// The error is otherwise the call's own, and neither comes back.
pub proof fn law_read_gives_all_bytes_iff_the_call_succeeded(
    archive: OpenArchive<Process, CursorBeforeFile>,
    start: Processing<Process, ReadToSink<Vec<u8>>>,
    states: Seq<Userdata<Vec<u8>>>,
    messages: Seq<Message<'_>>,
    answers: Seq<i32>,
    end: Processing<Process, ReadToSink<Vec<u8>>>,
    number: i32,
    result: UnrarResult<(Vec<u8>, OpenArchive<Process, CursorBeforeHeader>)>,
)
    requires
        call_ensures(OpenArchive::<Process, CursorBeforeFile>::read, (archive,), start),
        ran(start, states, messages, answers, end),
        call_ensures(
            Processing::<Process, ReadToSink<Vec<u8>>>::finish_output,
            (end, number),
            result,
        ),
    ensures
        reports(result, number, false),
        result matches Ok((bytes, after)) ==> {
            &&& bytes@ == crate::laws::all_chunks(messages)
            &&& after.flags() == archive.flags()
            &&& after.damaged() == archive.damaged()
        },
{
    crate::laws::law_read_gives_back_the_whole_entry(
        start,
        end,
        archive.flags(),
        archive.damaged(),
        states,
        messages,
        answers,
        number,
    );
    crate::laws::law_accepting_mode_never_aborts::<ReadToSink<Vec<u8>>>(
        states,
        messages,
        answers,
    );
}

/// Reading a file into a sink, from the call to its result: the sink comes back
/// either way, and the archive if and only if the call succeeded. A read that failed
/// is an abort if and only if the sink refused a chunk.
pub proof fn law_read_into_tells_an_abort_from_a_failure<S: DataSink>(
    archive: OpenArchive<Process, CursorBeforeFile>,
    sink: S,
    start: Processing<Process, ReadToSink<S>>,
    states: Seq<Userdata<S>>,
    messages: Seq<Message<'_>>,
    answers: Seq<i32>,
    end: Processing<Process, ReadToSink<S>>,
    number: i32,
    result: (S, UnrarResult<OpenArchive<Process, CursorBeforeHeader>>),
)
    requires
        call_ensures(
            OpenArchive::<Process, CursorBeforeFile>::read_into::<S>,
            (archive, sink),
            start,
        ),
        ran(start, states, messages, answers, end),
        call_ensures(Processing::<Process, ReadToSink<S>>::finish_with, (end, number), result),
    ensures
        states[0].output == sink,
        result.0 == states.last().output,
        reports(result.1, number, crate::laws::refused_chunk(messages, answers)),
        result.1 matches Err(error) ==> (error.code is Aborted <==> crate::laws::refused_chunk(
            messages,
            answers,
        )),
        result.1 matches Ok(after) ==> after.flags() == archive.flags() && after.damaged()
            == archive.damaged(),
{
    crate::laws::law_aborted_iff_refused::<ReadToSink<S>>(states, messages, answers);
    crate::laws::law_aborted_is_no_reported_code(number as int);
}

/// Every way to process a file can begin, be sent any message, and end with any
/// number. All that is asked is that a path that is named can be a C string.
pub proof fn law_processing_takes_every_input<M: OpenMode, PM: ProcessMode, S: DataSink>(
    archive: OpenArchive<M, CursorBeforeFile>,
    processed: OpenArchive<Process, CursorBeforeFile>,
    sink: S,
    path: &[u8],
    name: &[u8],
    data: &mut Userdata<PM::Output>,
    message: Message<'_>,
    msg: u32,
    transaction: Transaction<PM>,
    processing: Processing<M, PM>,
    number: i32,
)
    requires
        forall|i: int| 0 <= i < path@.len() ==> path@[i] != 0,
    ensures
        call_requires(OpenArchive::<M, CursorBeforeFile>::skip, (archive,)),
        call_requires(OpenArchive::<Process, CursorBeforeFile>::test, (processed,)),
        call_requires(OpenArchive::<Process, CursorBeforeFile>::read, (processed,)),
        call_requires(
            OpenArchive::<Process, CursorBeforeFile>::read_into::<S>,
            (processed, sink),
        ),
        call_requires(OpenArchive::<Process, CursorBeforeFile>::extract, (processed,)),
        call_requires(
            OpenArchive::<Process, CursorBeforeFile>::extract_with_base,
            (processed, path),
        ),
        call_requires(OpenArchive::<Process, CursorBeforeFile>::extract_to, (processed, path)),
        call_requires(crate::pathed::construct, (path,)),
        call_requires(crate::pathed::join, (path, name)),
        call_requires(crate::process::callback::<PM>, (Some(data), message)),
        call_requires(crate::process::callback::<PM>, (None, message)),
        call_requires(crate::process::message_kind, (msg,)),
        call_requires(Transaction::<PM>::finish, (transaction, number)),
        call_requires(Processing::<M, PM>::finish, (processing, number)),
        call_requires(Processing::<M, PM>::finish_with, (processing, number)),
        call_requires(Processing::<M, PM>::finish_output, (processing, number)),
{
}

} // verus!
