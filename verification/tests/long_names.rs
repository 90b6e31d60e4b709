//! An entry name longer than the fixed field of 1024 wide characters survives
//! intact.
//!
//! The fixed field holds a longer name cut, with nothing to say that it was. A
//! caller keying on the extension would then see a name with no extension: a file
//! silently missing from the archive it is listing.

use unrar_ng::header::MAX_NAME_WCHARS;
use unrar_ng::native::{HeaderDataEx, HeaderReply, OpenReply, ERAR_END_ARCHIVE, ERAR_SUCCESS};
use unrar_ng::{
    CursorBeforeHeader, FileHeader, List, ListSplit, NextAction, NextEvent, OpenArchive, OpenMode,
    Process,
};

/// The two names in the archive, of 1265 and of 12 characters.
fn stored() -> Vec<String> {
    let mut long = String::new();
    while long.len() < 1261 {
        long.push('n');
    }
    long.push_str(".jpg");
    vec![long, String::from("a-short.jpeg")]
}

/// A header as libunrar fills it: the fixed field is cut, the long buffer is not.
fn reply(name: &str) -> HeaderReply {
    let units: Vec<u32> = name.chars().map(|c| c as u32).collect();
    let mut filename_w: Vec<u32> = units.iter().copied().take(1023).collect();
    filename_w.resize(1024, 0);
    let mut long_name = units;
    long_name.resize(MAX_NAME_WCHARS, 0);
    HeaderReply {
        code: ERAR_SUCCESS,
        header: HeaderDataEx {
            filename_w,
            flags: 0,
            unp_size: 0,
            unp_size_high: 0,
            file_crc: 0,
            file_time: 0,
            method: 0x33,
            file_attr: 0,
        },
        long_name,
    }
}

fn end() -> HeaderReply {
    let mut last = reply("");
    last.code = ERAR_END_ARCHIVE;
    last
}

fn open<M: OpenMode>() -> OpenArchive<M, CursorBeforeHeader> {
    OpenArchive::new(
        OpenReply {
            handle: true,
            open_result: 0,
            flags: 0,
        },
        None,
    )
    .expect("open")
}

fn names() -> Vec<String> {
    let mut archive = open::<List>();
    let mut replies: Vec<HeaderReply> = stored().iter().map(|name| reply(name)).collect();
    replies.push(end());
    replies.reverse();
    let mut found = Vec::new();
    let mut event = NextEvent::Start;
    loop {
        event = match archive.next(event) {
            NextAction::ReadHeader => NextEvent::Header(replies.pop().expect("a reply")),
            NextAction::SkipFile(header, transaction) => {
                assert_eq!(transaction.call.operation.as_i32(), 0);
                NextEvent::Skipped(header, transaction.finish(ERAR_SUCCESS).1)
            }
            NextAction::Yield(Some(entry)) => {
                found.push(entry.expect("header").filename);
                NextEvent::Start
            }
            NextAction::Yield(None) => return found,
        };
    }
}

#[test]
fn a_name_longer_than_the_fixed_field_is_not_truncated() {
    let found = names();
    let lengths: Vec<_> = found.iter().map(|p| p.chars().count()).collect();
    assert_eq!(
        lengths,
        vec![1265, 12],
        "the long name was cut; 1023 is the tell"
    );
}

#[test]
fn the_long_name_keeps_its_extension() {
    let found = names();
    let first = found[0].clone();
    assert!(
        first.ends_with(".jpg"),
        "the extension is what a caller filters on, and it is at the end that was cut"
    );
}

/// The processing cursor reads headers through the same path, so it must agree.
#[test]
fn the_processing_cursor_sees_the_same_names() {
    let mut archive = open::<Process>();
    let mut replies: Vec<HeaderReply> = stored().iter().map(|name| reply(name)).collect();
    replies.push(end());
    let mut found = Vec::new();
    for next in replies {
        let Some(header) = archive.read_header(next).expect("header") else {
            assert_eq!(found, vec![1265, 12]);
            return;
        };
        found.push(header.entry().filename.chars().count());
        archive = header.skip().finish(ERAR_SUCCESS).expect("skip");
    }
    panic!("the end was not seen");
}

#[test]
fn an_empty_long_buffer_leaves_the_fixed_field() {
    let mut short = reply("kept");
    short.long_name = Vec::new();
    let header = unrar_ng::header::read_header(short)
        .expect("header")
        .expect("an entry");
    assert_eq!(header.filename, "kept");

    let mut cut = reply(&stored()[0]);
    cut.long_name = vec![0; MAX_NAME_WCHARS];
    let header = unrar_ng::header::read_header(cut)
        .expect("header")
        .expect("an entry");
    assert_eq!(header.filename.chars().count(), 1023);
}

#[test]
fn a_fixed_field_without_a_terminator_is_read_whole() {
    let mut full = reply("x");
    full.header.filename_w = vec![0x61; 2000];
    full.long_name = Vec::new();
    let header = FileHeader::from(full.header);
    assert_eq!(header.filename.chars().count(), 1024);
}

#[test]
fn a_unit_that_is_no_character_is_replaced() {
    let mut odd = reply("x");
    odd.long_name = vec![0x61, 0xD800, 0x1F600, 0x110000, 0x62, 0, 0x63];
    let header = unrar_ng::header::read_header(odd)
        .expect("header")
        .expect("an entry");
    assert_eq!(header.filename, "a\u{FFFD}\u{1F600}\u{FFFD}b");
}

#[test]
fn a_split_listing_goes_the_same_way() {
    let mut archive = open::<ListSplit>();
    assert!(matches!(
        archive.next(NextEvent::Start),
        NextAction::ReadHeader
    ));
    let mut split = reply("part");
    split.header.flags = 0x2;
    match archive.next(NextEvent::Header(split)) {
        NextAction::SkipFile(header, _) => assert!(header.is_split()),
        other => panic!("unexpected {other:?}"),
    }
    assert!(matches!(
        archive.next(NextEvent::Header(end())),
        NextAction::Yield(None)
    ));
}
