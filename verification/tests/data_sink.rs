//! `read_into` and the abort path it exists for.

use unrar_ng::archive::Processing;
use unrar_ng::error::{Code, When};
use unrar_ng::native::{HeaderDataEx, HeaderReply, OpenReply, ERAR_SUCCESS, ERAR_UNKNOWN};
use unrar_ng::process::{callback, Message, ReadToSink};
use unrar_ng::{CursorBeforeFile, CursorBeforeHeader, DataSink, OpenArchive, Process};

/// The whole of the entry that is read.
const VERSION: &[u8] = b"unrar-0.4.0";

fn wide(text: &str) -> Vec<u32> {
    let mut units: Vec<u32> = text.chars().map(|c| c as u32).collect();
    units.push(0);
    units
}

fn first_entry() -> OpenArchive<Process, CursorBeforeFile> {
    let archive = OpenArchive::<Process, CursorBeforeHeader>::new(
        OpenReply {
            handle: true,
            open_result: 0,
            flags: 0,
        },
        None,
    )
    .expect("open");
    archive
        .read_header(HeaderReply {
            code: ERAR_SUCCESS,
            header: HeaderDataEx {
                filename_w: wide("VERSION"),
                flags: 0,
                unp_size: VERSION.len() as u32,
                unp_size_high: 0,
                file_crc: 0,
                file_time: 0,
                method: 0x30,
                file_attr: 0,
            },
            long_name: wide("VERSION"),
        })
        .expect("read header")
        .expect("an entry")
}

/// Sends the chunks as libunrar does: an answer of minus one ends the call with
/// an unknown error.
fn run<S: DataSink>(processing: &mut Processing<Process, ReadToSink<S>>, chunks: &[&[u8]]) -> i32 {
    let transaction = processing.transaction_mut();
    assert_eq!(transaction.call.operation.as_i32(), 1);
    assert!(transaction.call.path.is_none());
    assert!(transaction.call.file.is_none());
    for chunk in chunks {
        let answer = callback::<ReadToSink<S>>(
            Some(&mut transaction.data),
            Message::ProcessData { chunk },
        );
        if answer == -1 {
            return ERAR_UNKNOWN;
        }
        assert_eq!(answer, 0);
    }
    ERAR_SUCCESS
}

/// Accepts everything, so `read_into` must behave exactly as `read`.
#[derive(Debug, Default)]
struct Accept(Vec<u8>);

impl DataSink for Accept {
    fn write_chunk(&mut self, chunk: &[u8]) -> bool {
        self.0.extend_from_slice(chunk);
        true
    }
}

/// Refuses once it has taken `limit` bytes, which is the case the trait exists for.
#[derive(Debug)]
struct Bounded {
    taken: Vec<u8>,
    limit: usize,
    refused: bool,
}

impl DataSink for Bounded {
    fn write_chunk(&mut self, chunk: &[u8]) -> bool {
        if self.taken.len() + chunk.len() > self.limit {
            self.refused = true;
            return false;
        }
        self.taken.extend_from_slice(chunk);
        true
    }
}

#[test]
fn read_into_an_accepting_sink_matches_read() {
    let mut processing = first_entry().read_into(Accept::default());
    let number = run(&mut processing, &[VERSION]);
    let (sink, result) = processing.finish_with(number);
    assert!(result.is_ok(), "expected the archive back, got {result:?}");
    assert_eq!(sink.0, VERSION);
}

#[test]
fn read_still_returns_the_whole_entry() {
    // `read` is `read_into` a vector, so it is worth asserting that it agrees.
    let mut processing = first_entry().read();
    let number = run(&mut processing, &[VERSION]);
    let (bytes, _archive) = processing.finish_output(number).expect("read");
    assert_eq!(bytes, VERSION);
}

#[test]
fn a_sink_that_refuses_aborts_the_read() {
    let mut processing = first_entry().read_into(Bounded {
        taken: Vec::new(),
        limit: 0,
        refused: false,
    });
    let number = run(&mut processing, &[VERSION]);
    let (sink, result) = processing.finish_with(number);

    // Not libunrar's unknown error: it is known here which side stopped.
    let error = result.expect_err("the sink refused, so the read cannot have completed");
    assert_eq!(error.code, Code::Aborted);
    assert_eq!(error.when, When::Process);

    // The sink comes back either way, holding what it took before it stopped.
    assert!(sink.refused);
    assert!(sink.taken.is_empty());
}

#[test]
fn a_bound_larger_than_the_entry_does_not_fire() {
    let mut processing = first_entry().read_into(Bounded {
        taken: Vec::new(),
        limit: VERSION.len(),
        refused: false,
    });
    let number = run(&mut processing, &[VERSION]);
    let (sink, result) = processing.finish_with(number);

    assert!(result.is_ok(), "expected the archive back, got {result:?}");
    assert!(!sink.refused);
    assert_eq!(sink.taken, VERSION);
}

/// An unpacker sends an entry in several chunks, so the abort is asserted against
/// them too.
#[test]
fn the_abort_reaches_the_unpacker() {
    let mut processing = first_entry().read_into(Bounded {
        taken: Vec::new(),
        limit: 0,
        refused: false,
    });
    let number = run(&mut processing, &[&[], b"first", b"second"]);
    let (sink, result) = processing.finish_with(number);

    assert_eq!(
        result.expect_err("the sink refused").code,
        Code::Aborted,
        "a compressed entry must abort the same way a stored one does"
    );
    assert!(sink.refused);
}

#[test]
fn a_sink_keeps_what_it_took_before_it_refused() {
    let mut processing = first_entry().read_into(Bounded {
        taken: Vec::new(),
        limit: 6,
        refused: false,
    });
    let number = run(&mut processing, &[b"unrar", b"-0.4.0", b"!"]);
    assert_eq!(number, ERAR_UNKNOWN);
    let (sink, result) = processing.finish_with(number);
    assert_eq!(sink.taken, b"unrar");
    assert_eq!(result.expect_err("the sink refused").code, Code::Aborted);
}

#[test]
fn an_unknown_error_without_a_refusal_stays_unknown() {
    let mut processing = first_entry().read();
    assert_eq!(run(&mut processing, &[b"unrar"]), ERAR_SUCCESS);
    let (bytes, result) = processing.finish_with(ERAR_UNKNOWN);
    assert_eq!(bytes, b"unrar");
    let error = result.expect_err("the call failed");
    assert_eq!((error.code, error.when), (Code::Unknown, When::Process));
}

#[test]
fn a_refusal_that_the_call_overcame_is_no_error() {
    let mut processing = first_entry().read_into(Bounded {
        taken: Vec::new(),
        limit: 0,
        refused: false,
    });
    assert_eq!(run(&mut processing, &[VERSION]), ERAR_UNKNOWN);
    let (_, result) = processing.finish_with(ERAR_SUCCESS);
    assert!(result.is_ok());
}

#[test]
fn chunks_are_gathered_in_order() {
    let mut processing = first_entry().read();
    let number = run(&mut processing, &[b"unrar", b"", b"-0", b".4.0"]);
    let (bytes, _archive) = processing.finish_output(number).expect("read");
    assert_eq!(bytes, VERSION);
}

#[test]
fn a_failed_read_gives_no_bytes_beside_the_archive() {
    let mut processing = first_entry().read();
    run(&mut processing, &[b"unrar"]);
    let error = processing.finish_output(12).expect_err("the call failed");
    assert_eq!((error.code, error.when), (Code::BadData, When::Process));
}
