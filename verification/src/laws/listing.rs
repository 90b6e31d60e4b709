//! What holds of the steps of a listing, in either mode.

use crate::archive::{CursorBeforeHeader, List, ListSplit, NextAction, NextEvent, OpenArchive};
use crate::error::{UnrarError, UnrarResult};
use crate::header::FileHeader;
use crate::native::HeaderReply;
use crate::process::{Message, Skip, Transaction, Userdata};
use vstd::prelude::*;

verus! {

/// That a listing was asked for its next header: a damaged one gives nothing, any
/// other reads a header, and nothing changes.
pub open spec fn asked(before: bool, action: NextAction, after: bool) -> bool {
    &&& before ==> action == NextAction::Yield(None)
    &&& !before ==> action is ReadHeader
    &&& after == before
}

/// That a transaction moves past a file and does nothing else.
pub open spec fn only_skips(transaction: Transaction<Skip>) -> bool {
    &&& transaction.call.operation is Skip
    &&& transaction.call.path is None
    &&& transaction.call.file is None
    &&& transaction.data.next_volume is None
    &&& !transaction.data.aborted
}

/// That a listing took a header: after a success the file is skipped, with the entry
/// that the record describes; at the end there is nothing; and any other number is
/// an error, which damages the listing.
pub open spec fn took_header(
    before: bool,
    reply: HeaderReply,
    action: NextAction,
    after: bool,
) -> bool {
    if reply.code == 0 {
        &&& action matches NextAction::SkipFile(entry, transaction)
        &&& crate::laws::entries::describes(entry, reply.header)
        &&& crate::laws::entries::names(reply, entry.filename@)
        &&& only_skips(transaction)
        &&& after == before
    } else if reply.code == 10 {
        action == NextAction::Yield(None) && after == before
    } else {
        &&& action matches NextAction::Yield(Some(Err(error)))
        &&& error.when is Read
        &&& error.code == crate::error::code_of(reply.code as int)
        &&& after
    }
}

/// That a listing took the result of skipping a file: a success gives the entry that
/// was kept meanwhile, and an error is given as it is and damages the listing.
pub open spec fn took_skip(
    before: bool,
    entry: FileHeader,
    result: UnrarResult<()>,
    action: NextAction,
    after: bool,
) -> bool {
    match result {
        Ok(()) => action == NextAction::Yield(Some(Ok(entry))) && after == before,
        Err(error) => action == NextAction::Yield(Some(Err(error))) && after,
    }
}

/// That one step of a listing is right.
pub open spec fn stepped(before: bool, event: NextEvent, action: NextAction, after: bool) -> bool {
    match event {
        NextEvent::Start => asked(before, action, after),
        NextEvent::Header(reply) => took_header(before, reply, action, after),
        NextEvent::Skipped(entry, result) => took_skip(before, entry, result, action, after),
    }
}

/// Every step of a listing of files is right, and keeps the flags.
pub proof fn law_each_step_of_a_listing(
    archive: &mut OpenArchive<List, CursorBeforeHeader>,
    event: NextEvent,
    action: NextAction,
)
    requires
        call_ensures(
            OpenArchive::<List, CursorBeforeHeader>::next,
            (archive, event),
            action,
        ),
    ensures
        stepped(old(archive).damaged(), event, action, final(archive).damaged()),
        final(archive).flags() == old(archive).flags(),
{
    if let NextEvent::Header(reply) = event {
        crate::laws::entries::lemma_entry_read(reply);
    }
}

/// Every step of a listing of parts is right, and keeps the flags.
pub proof fn law_each_step_of_a_listing_of_parts(
    archive: &mut OpenArchive<ListSplit, CursorBeforeHeader>,
    event: NextEvent,
    action: NextAction,
)
    requires
        call_ensures(
            OpenArchive::<ListSplit, CursorBeforeHeader>::next,
            (archive, event),
            action,
        ),
    ensures
        stepped(old(archive).damaged(), event, action, final(archive).damaged()),
        final(archive).flags() == old(archive).flags(),
{
    if let NextEvent::Header(reply) = event {
        crate::laws::entries::lemma_entry_read(reply);
    }
}

/// The entry that a listing gives is the one that the record describes: from the
/// header read, over the skipped file and the messages of its skip, to what the
/// caller gets. It is given if and only if both calls succeeded.
pub proof fn law_listing_gives_the_entry_of_the_record(
    reading: &mut OpenArchive<List, CursorBeforeHeader>,
    reply: HeaderReply,
    skipping: NextAction,
    states: Seq<Userdata<()>>,
    messages: Seq<Message<'_>>,
    answers: Seq<i32>,
    run: Transaction<Skip>,
    number: i32,
    end: ((), UnrarResult<()>),
    skipped: &mut OpenArchive<List, CursorBeforeHeader>,
    last: NextAction,
)
    requires
        reply.code == 0,
        call_ensures(
            OpenArchive::<List, CursorBeforeHeader>::next,
            (reading, NextEvent::Header(reply)),
            skipping,
        ),
        skipping matches NextAction::SkipFile(entry, transaction) ==> {
            &&& crate::laws::delivered::<Skip>(states, messages, answers)
            &&& states[0] == transaction.data
            &&& states.last() == run.data
            &&& call_ensures(Transaction::<Skip>::finish, (run, number), end)
            &&& call_ensures(
                OpenArchive::<List, CursorBeforeHeader>::next,
                (skipped, NextEvent::Skipped(entry, end.1)),
                last,
            )
        },
        *skipped == *final(reading),
    ensures
        number == 0 <==> last matches NextAction::Yield(Some(Ok(_))),
        last matches NextAction::Yield(Some(Ok(entry))) ==> crate::laws::entries::describes(
            entry,
            reply.header,
        ) && crate::laws::entries::names(reply, entry.filename@),
        number != 0 ==> {
            &&& last matches NextAction::Yield(Some(Err(error)))
            &&& error.when is Process
            &&& error.code == crate::error::code_of(number as int)
            &&& final(skipped).damaged()
        },
{
    crate::laws::entries::lemma_entry_read(reply);
    crate::laws::law_accepting_mode_never_aborts::<Skip>(states, messages, answers);
}

/// Once a listing gave an error it gives nothing more, until it is healed: then it
/// reads the next header.
pub proof fn law_error_ends_the_listing_until_it_is_healed(
    failing: &mut OpenArchive<List, CursorBeforeHeader>,
    event: NextEvent,
    error: UnrarError,
    again: &mut OpenArchive<List, CursorBeforeHeader>,
    second: NextAction,
    healing: &mut OpenArchive<List, CursorBeforeHeader>,
    healed: &mut OpenArchive<List, CursorBeforeHeader>,
    third: NextAction,
)
    requires
        call_ensures(
            OpenArchive::<List, CursorBeforeHeader>::next,
            (failing, event),
            NextAction::Yield(Some(Err(error))),
        ),
        *again == *final(failing),
        call_ensures(
            OpenArchive::<List, CursorBeforeHeader>::next,
            (again, NextEvent::Start),
            second,
        ),
        *healing == *final(again),
        call_ensures(OpenArchive::<List, CursorBeforeHeader>::force_heal, (healing,), ()),
        *healed == *final(healing),
        call_ensures(
            OpenArchive::<List, CursorBeforeHeader>::next,
            (healed, NextEvent::Start),
            third,
        ),
    ensures
        second == NextAction::Yield(None),
        third is ReadHeader,
{
}

/// A listing takes every event, where a header that was read holds no unknown flag.
pub proof fn law_listing_takes_every_event(
    files: &mut OpenArchive<List, CursorBeforeHeader>,
    parts: &mut OpenArchive<ListSplit, CursorBeforeHeader>,
    event: NextEvent,
)
    requires
        event matches NextEvent::Header(reply) ==> reply.code == 0 ==> reply.header.flags < 0x40
            && !crate::laws::opening::bit(reply.header.flags, 0x8),
    ensures
        call_requires(OpenArchive::<List, CursorBeforeHeader>::next, (files, event)),
        call_requires(OpenArchive::<ListSplit, CursorBeforeHeader>::next, (parts, event)),
{
    if let NextEvent::Header(reply) = event {
        let flags = reply.header.flags;
        assert(flags < 0x40 && (flags / 0x8) % 2 != 1 ==> flags & !(0x1u32 | 0x2u32 | 0x4u32
            | 0x10u32 | 0x20u32) == 0) by (bit_vector);
    }
}

} // verus!
