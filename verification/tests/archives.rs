//! Opening archives, their flags, and what is done with their files.

use unrar_ng::error::{Code, UnrarError, When};
use unrar_ng::native::{HeaderDataEx, HeaderReply, OpenReply};
use unrar_ng::process::{callback, message_kind, Message, MessageKind, Skip, Userdata};
use unrar_ng::{
    CursorBeforeFile, CursorBeforeHeader, List, ListSplit, NextAction, NextEvent, OpenArchive,
    OpenMode, Process, UnrarResult, VolumeInfo,
};

type Fresh<M> = OpenArchive<M, CursorBeforeHeader>;

fn opened<M: OpenMode>(handle: bool, open_result: u32, flags: u32) -> UnrarResult<Fresh<M>> {
    OpenArchive::new(
        OpenReply {
            handle,
            open_result,
            flags,
        },
        None,
    )
}

fn reply(code: i32, name: &str) -> HeaderReply {
    let mut units: Vec<u32> = name.chars().map(|c| c as u32).collect();
    units.push(0);
    HeaderReply {
        code,
        header: HeaderDataEx {
            filename_w: Vec::new(),
            flags: 0,
            unp_size: 0,
            unp_size_high: 0,
            file_crc: 0,
            file_time: 0,
            method: 0,
            file_attr: 0,
        },
        long_name: units,
    }
}

fn before_file(name: &str) -> OpenArchive<Process, CursorBeforeFile> {
    opened::<Process>(true, 0, 0)
        .expect("open")
        .read_header(reply(0, name))
        .expect("header")
        .expect("an entry")
}

fn error(code: Code, when: When) -> UnrarError {
    UnrarError { code, when }
}

#[test]
fn each_number_has_its_code() {
    let codes = [
        (0, Code::Success),
        (10, Code::EndArchive),
        (11, Code::NoMemory),
        (12, Code::BadData),
        (13, Code::BadArchive),
        (14, Code::UnknownFormat),
        (15, Code::EOpen),
        (16, Code::ECreate),
        (17, Code::EClose),
        (18, Code::ERead),
        (19, Code::EWrite),
        (20, Code::SmallBuf),
        (21, Code::Unknown),
        (22, Code::MissingPassword),
        (23, Code::EReference),
        (24, Code::BadPassword),
        (25, Code::LargeDict),
        (1, Code::Unknown),
        (26, Code::Unknown),
        (-1, Code::Unknown),
    ];
    for (number, code) in codes {
        assert_eq!(Code::from(number), code);
    }
}

#[test]
fn opening_succeeds_with_a_handle_and_no_error() {
    assert!(opened::<Process>(true, 0, 0).is_ok());
    assert_eq!(
        opened::<Process>(true, 24, 0).unwrap_err(),
        error(Code::BadPassword, When::Open)
    );
    assert_eq!(
        opened::<List>(false, 15, 0).unwrap_err(),
        error(Code::EOpen, When::Open)
    );
    // Without a handle there is no archive, whatever the record says.
    assert_eq!(
        opened::<List>(false, 0, 0xFFFF).unwrap_err(),
        error(Code::Success, When::Open)
    );
    assert_eq!(
        opened::<List>(false, 0xFFFF_FFFF, 0).unwrap_err(),
        error(Code::Unknown, When::Open)
    );
}

#[test]
fn a_damaged_archive_can_be_recovered() {
    let mut slot: Option<Fresh<Process>> = None;
    let result = OpenArchive::new(
        OpenReply {
            handle: true,
            open_result: 12,
            flags: 0x4,
        },
        Some(&mut slot),
    );
    assert_eq!(result.unwrap_err(), error(Code::BadData, When::Open));
    assert!(slot.expect("recovered").is_locked());
}

#[test]
fn nothing_is_recovered_without_a_handle_or_after_success() {
    let mut slot: Option<Fresh<Process>> = Some(opened(true, 0, 0x8).expect("open"));
    let result = OpenArchive::new(
        OpenReply {
            handle: false,
            open_result: 12,
            flags: 0,
        },
        Some(&mut slot),
    );
    assert!(result.is_err());
    assert!(slot.as_ref().expect("untouched").is_solid());

    let result = OpenArchive::new(
        OpenReply {
            handle: true,
            open_result: 0,
            flags: 0,
        },
        Some(&mut slot),
    );
    assert!(result.is_ok());
    assert!(slot.expect("untouched").is_solid());
}

#[test]
fn the_flags_are_told_apart() {
    let seen = |flags: u32| {
        let archive = opened::<Process>(true, 0, flags).expect("open");
        [
            archive.has_comment(),
            archive.is_locked(),
            archive.is_solid(),
            archive.has_recovery_record(),
            archive.has_encrypted_headers(),
        ]
    };
    assert_eq!(seen(0), [false; 5]);
    assert_eq!(seen(0x1FF), [true; 5]);
    assert_eq!(seen(0x02), [true, false, false, false, false]);
    assert_eq!(seen(0x04), [false, true, false, false, false]);
    assert_eq!(seen(0x08), [false, false, true, false, false]);
    assert_eq!(seen(0x40), [false, false, false, true, false]);
    assert_eq!(seen(0x80), [false, false, false, false, true]);
    assert_eq!(seen(0x131), [false; 5]);
}

#[test]
fn volume_info_goes_by_the_first_volume() {
    let info = |flags: u32| opened::<List>(true, 0, flags).expect("open").volume_info();
    assert_eq!(info(0), VolumeInfo::Single);
    assert_eq!(info(0x1), VolumeInfo::Subsequent);
    assert_eq!(info(0x101), VolumeInfo::First);
    assert_eq!(info(0x100), VolumeInfo::First);
}

#[test]
fn volume_info_stays_while_volumes_change() {
    let archive = opened::<Process>(true, 0, 0x101).expect("open");
    let mut processing = archive
        .read_header(reply(0, "a"))
        .expect("header")
        .expect("an entry")
        .skip();
    let answer = callback::<Skip>(
        Some(&mut processing.transaction_mut().data),
        Message::ChangeVolume {
            next: vec![0x62, 0],
            mode: 1,
        },
    );
    assert_eq!(answer, 0);
    let archive = processing.finish(0).expect("skipped");
    assert_eq!(archive.volume_info(), VolumeInfo::First);
}

#[test]
fn the_call_to_open_names_the_mode() {
    assert_eq!(Fresh::<List>::open(b"a.rar").mode.as_u32(), 0);
    assert_eq!(Fresh::<Process>::open(b"a.rar").mode.as_u32(), 1);
    let call = Fresh::<ListSplit>::open(b"a.rar");
    assert_eq!(call.mode.as_u32(), 2);
    assert_eq!(call.filename, b"a.rar");
}

#[test]
fn a_password_is_set_only_on_a_handle() {
    assert_eq!(
        Fresh::<Process>::password(true, Some(b"secret")),
        Some(b"secret".to_vec())
    );
    assert_eq!(Fresh::<Process>::password(false, Some(b"secret")), None);
    assert_eq!(Fresh::<Process>::password(true, None), None);
}

#[test]
fn a_header_opens_the_way_to_the_file() {
    let archive = before_file("VERSION");
    assert_eq!(archive.entry().filename, "VERSION");
}

#[test]
fn the_end_and_a_failure_are_told_apart() {
    let archive = opened::<Process>(true, 0, 0).expect("open");
    assert!(archive.read_header(reply(10, "")).expect("no error").is_none());
    let archive = opened::<Process>(true, 0, 0).expect("open");
    assert_eq!(
        archive.read_header(reply(22, "")).unwrap_err(),
        error(Code::MissingPassword, When::Read)
    );
}

#[test]
fn each_way_to_process_a_file_asks_for_its_operation() {
    let mut skip = before_file("a").skip();
    let call = &skip.transaction_mut().call;
    assert_eq!(call.operation.as_i32(), 0);
    assert!(call.path.is_none() && call.file.is_none());

    let mut test = before_file("a").test();
    let call = &test.transaction_mut().call;
    assert_eq!(call.operation.as_i32(), 1);
    assert!(call.path.is_none() && call.file.is_none());

    let mut extract = before_file("dir/a").extract();
    let call = &extract.transaction_mut().call;
    assert_eq!(call.operation.as_i32(), 2);
    assert!(call.path.is_none());
    assert_eq!(call.file.as_deref(), Some(&b"dir/a"[..]));

    let mut extract = before_file("dir/a").extract_to(b"other");
    let call = &extract.transaction_mut().call;
    assert_eq!(call.operation.as_i32(), 2);
    assert!(call.path.is_none());
    assert_eq!(call.file.as_deref(), Some(&b"other"[..]));
}

#[test]
fn a_file_is_extracted_below_the_base() {
    let target = |base: &[u8], name: &str| {
        let mut extract = before_file(name).extract_with_base(base);
        let call = &extract.transaction_mut().call;
        assert!(call.path.is_none());
        call.file.clone().expect("a file")
    };
    assert_eq!(target(b"out", "a.txt"), b"out/a.txt");
    assert_eq!(target(b"out/", "d/a.txt"), b"out/d/a.txt");
    assert_eq!(target(b"", "a.txt"), b"a.txt");
    assert_eq!(target(b"out", "/a.txt"), b"/a.txt");
    assert_eq!(target(b"out", "\u{e9}"), b"out/\xc3\xa9");
    assert_eq!(target(b"\xff", "a"), b"\xff/a");
}

#[test]
fn a_failed_file_takes_the_archive_along() {
    assert_eq!(
        before_file("a").test().finish(12).unwrap_err(),
        error(Code::BadData, When::Process)
    );
    assert!(before_file("a").test().finish(0).is_ok());
}

#[test]
fn a_volume_that_was_not_found_stops() {
    let mut data = Userdata::new(());
    let ask = Message::ChangeVolume {
        next: vec![0x61, 0x62, 0, 0x63],
        mode: 0,
    };
    assert_eq!(callback::<Skip>(Some(&mut data), ask), -1);
    assert_eq!(data.next_volume, Some(vec![0x61, 0x62]));
    assert!(!data.aborted);

    let notify = Message::ChangeVolume {
        next: vec![0x64; 3000],
        mode: 1,
    };
    assert_eq!(callback::<Skip>(Some(&mut data), notify), 0);
    assert_eq!(data.next_volume, Some(vec![0x64; 2048]));
}

#[test]
fn each_number_of_a_message_has_its_kind() {
    assert_eq!(message_kind(1), MessageKind::ProcessData);
    assert_eq!(message_kind(3), MessageKind::ChangeVolume);
    for msg in [0, 2, 4, 5, 6, u32::MAX] {
        assert_eq!(message_kind(msg), MessageKind::Other);
    }
}

#[test]
fn other_messages_change_nothing() {
    let mut data = Userdata::new(());
    assert_eq!(callback::<Skip>(Some(&mut data), Message::Other), 0);
    let chunk = Message::ProcessData { chunk: b"bytes" };
    assert_eq!(callback::<Skip>(Some(&mut data), chunk), 0);
    assert_eq!(data.next_volume, None);
    assert!(!data.aborted);
    assert_eq!(callback::<Skip>(None, Message::Other), 0);
    let chunk = Message::ProcessData { chunk: b"bytes" };
    assert_eq!(callback::<Skip>(None, chunk), 0);
}

#[test]
fn an_error_damages_a_listing_until_it_is_healed() {
    let mut archive = opened::<List>(true, 0, 0).expect("open");
    match archive.next(NextEvent::Header(reply(12, ""))) {
        NextAction::Yield(Some(Err(e))) => assert_eq!(e, error(Code::BadData, When::Read)),
        other => panic!("unexpected {other:?}"),
    }
    for _ in 0..3 {
        assert!(matches!(
            archive.next(NextEvent::Start),
            NextAction::Yield(None)
        ));
    }
    archive.force_heal();
    assert!(matches!(
        archive.next(NextEvent::Start),
        NextAction::ReadHeader
    ));
}

#[test]
fn a_file_that_cannot_be_skipped_damages_a_listing() {
    let mut archive = opened::<List>(true, 0, 0).expect("open");
    let NextAction::SkipFile(header, transaction) =
        archive.next(NextEvent::Header(reply(0, "a")))
    else {
        panic!("the file was not skipped");
    };
    let (_, result) = transaction.finish(18);
    match archive.next(NextEvent::Skipped(header, result)) {
        NextAction::Yield(Some(Err(e))) => assert_eq!(e, error(Code::ERead, When::Process)),
        other => panic!("unexpected {other:?}"),
    }
    assert!(matches!(
        archive.next(NextEvent::Start),
        NextAction::Yield(None)
    ));
}

#[test]
fn messages_during_a_skip_do_not_stop_a_listing() {
    let mut archive = opened::<List>(true, 0, 0).expect("open");
    let NextAction::SkipFile(header, mut transaction) =
        archive.next(NextEvent::Header(reply(0, "a")))
    else {
        panic!("the file was not skipped");
    };
    let messages = [
        Message::ProcessData { chunk: b"bytes" },
        Message::ChangeVolume {
            next: vec![0x62, 0],
            mode: 1,
        },
        Message::Other,
    ];
    for message in messages {
        assert_eq!(callback::<Skip>(Some(&mut transaction.data), message), 0);
    }
    let (_, result) = transaction.finish(0);
    match archive.next(NextEvent::Skipped(header, result)) {
        NextAction::Yield(Some(Ok(entry))) => assert_eq!(entry.filename, "a"),
        other => panic!("unexpected {other:?}"),
    }
}

#[test]
fn damage_is_carried_through_headers_and_files() {
    let mut archive = opened::<List>(true, 0, 0).expect("open");
    archive.next(NextEvent::Header(reply(12, "")));
    let archive = archive
        .read_header(reply(0, "a"))
        .expect("header")
        .expect("an entry");
    let mut archive = archive.skip().finish(0).expect("skipped");
    assert!(matches!(
        archive.next(NextEvent::Start),
        NextAction::Yield(None)
    ));
}
