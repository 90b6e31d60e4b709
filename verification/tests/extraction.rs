//! Extracting a whole archive.

use unrar_ng::error::{Code, UnrarError, When};
use unrar_ng::extract::{
    extract_callback, extract_message_kind, BatchNumbers, CallbackData, ExtractAllWithCallback,
    ExtractMessage, ExtractMessageKind,
};
use unrar_ng::native::OpenReply;
use unrar_ng::wide::{read_filename, FileName, WideName};
use unrar_ng::{CursorBeforeHeader, ExtractEvent, ExtractStatus, OpenArchive, Process};

fn open() -> OpenArchive<Process, CursorBeforeHeader> {
    OpenArchive::new(
        OpenReply {
            handle: true,
            open_result: 0,
            flags: 0,
        },
        None,
    )
    .expect("open")
}

fn wide(text: &str) -> Vec<u32> {
    let mut units: Vec<u32> = text.chars().map(|c| c as u32).collect();
    units.push(0);
    units
}

fn text(name: &FileName) -> &str {
    match name {
        FileName::Text(text) => text,
        FileName::Units(units) => panic!("units {units:?}"),
    }
}

fn units(name: &FileName) -> &[u16] {
    match name {
        FileName::Units(units) => units,
        FileName::Text(text) => panic!("text {text:?}"),
    }
}

fn read32(buffer: &[u32]) -> Option<String> {
    read_filename(Some(WideName::Utf32(buffer))).map(|name| String::from(text(&name)))
}

fn read16(buffer: &[u16]) -> Option<Vec<u16>> {
    read_filename(Some(WideName::Utf16(buffer))).map(|name| units(&name).to_vec())
}

/// Sends one message and notes the event that comes of it, if any.
fn send(
    data: &mut CallbackData,
    message: ExtractMessage<'_>,
    keep: bool,
) -> (i32, Option<ExtractEvent>) {
    let mut seen = None;
    let mut callback = |event: ExtractEvent| {
        seen = Some(event);
        keep
    };
    let answer = extract_callback(Some(data), &mut callback, message);
    (answer, seen)
}

fn started() -> ExtractAllWithCallback {
    open().extract_all_with_callback(b"out")
}

#[test]
fn the_destination_is_handed_on() {
    assert_eq!(open().extract_all(b"out").dest, b"out");
    assert_eq!(started().dest, b"out");
}

#[test]
fn extracting_without_events_ends_by_the_code() {
    assert_eq!(open().extract_all(b"out").finish(0), Ok(()));
    assert_eq!(
        open().extract_all(b"out").finish(16),
        Err(UnrarError {
            code: Code::ECreate,
            when: When::Process
        })
    );
}

#[test]
fn a_file_is_told_of_from_start_to_success() {
    let mut call = started();
    let name = wide("dir/a");
    let (answer, event) = send(
        &mut call.data,
        ExtractMessage::ExtractFile {
            name: Some(WideName::Utf32(&name)),
            size: 11,
        },
        true,
    );
    assert_eq!(answer, 0);
    match event {
        Some(ExtractEvent::Start { filename, size }) => {
            assert_eq!((text(&filename), size), ("dir/a", 11));
        }
        other => panic!("unexpected {other:?}"),
    }
    let (answer, event) = send(
        &mut call.data,
        ExtractMessage::ExtractFileOk { name: Some(WideName::Utf32(&name)) },
        true,
    );
    assert_eq!(answer, 0);
    match event {
        Some(ExtractEvent::Extracted { filename, size }) => {
            assert_eq!((text(&filename), size), ("dir/a", 11));
        }
        other => panic!("unexpected {other:?}"),
    }
    assert_eq!(call.finish(0), Ok(ExtractStatus::Completed));
}

#[test]
fn the_size_is_kept_where_the_start_has_no_name() {
    let mut data = CallbackData::new();
    let (answer, event) = send(
        &mut data,
        ExtractMessage::ExtractFile {
            name: None,
            size: 5,
        },
        false,
    );
    assert_eq!(answer, 0);
    assert!(event.is_none());
    assert!(!data.cancelled);
    let name = wide("a");
    let (_, event) = send(
        &mut data,
        ExtractMessage::ExtractFileOk { name: Some(WideName::Utf32(&name)) },
        true,
    );
    match event {
        Some(ExtractEvent::Extracted { size, .. }) => assert_eq!(size, 5),
        other => panic!("unexpected {other:?}"),
    }
}

#[test]
fn a_failure_carries_its_code() {
    let mut data = CallbackData::new();
    let name = wide("a");
    let code_for = |data: &mut CallbackData, code: i64| {
        let message = ExtractMessage::ExtractFileErr {
            name: Some(WideName::Utf32(&name)),
            code,
        };
        match send(data, message, true) {
            (0, Some(ExtractEvent::Failed { error_code, .. })) => error_code,
            other => panic!("unexpected {other:?}"),
        }
    };
    assert_eq!(code_for(&mut data, 12), 12);
    assert_eq!(code_for(&mut data, -1), -1);
    assert_eq!(code_for(&mut data, 0x1_0000_000C), 12);
    assert_eq!(code_for(&mut data, 0x8000_0000), i32::MIN);
    assert_eq!(code_for(&mut data, i64::MIN), 0);
}

#[test]
fn a_refused_file_cancels() {
    let name = wide("a");
    let messages = [
        ExtractMessage::ExtractFile {
            name: Some(WideName::Utf32(&name)),
            size: 1,
        },
        ExtractMessage::ExtractFileOk { name: Some(WideName::Utf32(&name)) },
        ExtractMessage::ExtractFileErr {
            name: Some(WideName::Utf32(&name)),
            code: 1,
        },
    ];
    for message in messages {
        let mut call = started();
        let (answer, event) = send(&mut call.data, message, false);
        assert_eq!(answer, -1);
        assert!(event.is_some());
        // It is remembered through what comes after.
        send(&mut call.data, ExtractMessage::Other, true);
        assert_eq!(call.finish(0), Ok(ExtractStatus::Cancelled));
    }
}

#[test]
fn a_refused_dictionary_fails_without_a_cancel() {
    let mut call = started();
    let message = ExtractMessage::LargeDict {
        required: 8,
        supported: 4,
    };
    let (answer, event) = send(&mut call.data, message, false);
    assert_eq!(answer, 0);
    match event {
        Some(ExtractEvent::LargeDictWarning {
            dict_size_kb,
            max_dict_size_kb,
        }) => assert_eq!((dict_size_kb, max_dict_size_kb), (8, 4)),
        other => panic!("unexpected {other:?}"),
    }
    assert!(!call.data.cancelled);
    assert_eq!(
        call.finish(25),
        Err(UnrarError {
            code: Code::LargeDict,
            when: When::Process
        })
    );
}

#[test]
fn an_accepted_dictionary_goes_on() {
    let mut call = started();
    let message = ExtractMessage::LargeDict {
        required: -1,
        supported: 4,
    };
    let (answer, event) = send(&mut call.data, message, true);
    assert_eq!(answer, 1);
    match event {
        Some(ExtractEvent::LargeDictWarning { dict_size_kb, .. }) => {
            assert_eq!(dict_size_kb, u64::MAX);
        }
        other => panic!("unexpected {other:?}"),
    }
    assert_eq!(call.finish(0), Ok(ExtractStatus::Completed));
}

#[test]
fn a_failed_extraction_is_no_cancel() {
    let mut call = started();
    let name = wide("a");
    send(
        &mut call.data,
        ExtractMessage::ExtractFileOk { name: Some(WideName::Utf32(&name)) },
        false,
    );
    assert_eq!(
        call.finish(19),
        Err(UnrarError {
            code: Code::EWrite,
            when: When::Process
        })
    );
}

#[test]
fn a_missing_volume_stops_without_an_event() {
    let mut data = CallbackData::new();
    let (answer, event) = send(&mut data, ExtractMessage::ChangeVolume { mode: 0 }, false);
    assert_eq!((answer, event.is_none()), (-1, true));
    let (answer, event) = send(&mut data, ExtractMessage::ChangeVolume { mode: 1 }, false);
    assert_eq!((answer, event.is_none()), (0, true));
    let (answer, event) = send(&mut data, ExtractMessage::Other, false);
    assert_eq!((answer, event.is_none()), (0, true));
    assert!(!data.cancelled);
}

#[test]
fn without_data_nothing_is_asked() {
    let callback = |_: ExtractEvent| panic!("asked");
    let message = ExtractMessage::LargeDict {
        required: 2,
        supported: 1,
    };
    assert_eq!(extract_callback(None, callback, message), 0);
}

#[test]
fn names_are_read_up_to_the_terminator() {
    assert!(read_filename(None).is_none());
    assert_eq!(read32(&[]), None);
    assert_eq!(read32(&[0, 0x61]), None);
    assert_eq!(
        read32(&[0x61, 0xD800, 0x1F600, 0x110000, 0, 0x62]),
        Some(String::from("a\u{FFFD}\u{1F600}\u{FFFD}"))
    );
    assert_eq!(read32(&[0xD800]), Some(String::from("\u{FFFD}")));
}

#[test]
fn names_in_narrow_units_keep_their_surrogates() {
    assert_eq!(read16(&[]), None);
    assert_eq!(read16(&[0, 0x61]), None);
    // A pair, and a surrogate without a partner.
    assert_eq!(
        read16(&[0x61, 0xD83D, 0xDE00, 0xD800, 0x62, 0, 0x63]),
        Some(vec![0x61, 0xD83D, 0xDE00, 0xD800, 0x62])
    );
    assert_eq!(read16(&[0x61; 3000]), Some(vec![0x61; 3000]));
}

#[test]
fn an_event_carries_the_whole_name_in_narrow_units() {
    let mut name: Vec<u16> = vec![0x6E; 2500];
    name.extend_from_slice(&[0xD83D, 0xDE00, 0xDC00]);
    let whole = name.clone();
    name.push(0);
    let mut data = CallbackData::new();
    let start = ExtractMessage::ExtractFile {
        name: Some(WideName::Utf16(&name)),
        size: 1,
    };
    match send(&mut data, start, true) {
        (0, Some(ExtractEvent::Start { filename, .. })) => assert_eq!(units(&filename), whole),
        other => panic!("unexpected {other:?}"),
    }
}

#[test]
fn each_message_number_has_its_kind() {
    let numbers = BatchNumbers {
        extract_file: 100,
        extract_file_ok: 101,
        extract_file_err: 102,
    };
    let kinds = [
        (100, ExtractMessageKind::ExtractFile),
        (101, ExtractMessageKind::ExtractFileOk),
        (102, ExtractMessageKind::ExtractFileErr),
        (5, ExtractMessageKind::LargeDict),
        (3, ExtractMessageKind::ChangeVolume),
        (1, ExtractMessageKind::Other),
        (0, ExtractMessageKind::Other),
        (103, ExtractMessageKind::Other),
    ];
    for (msg, kind) in kinds {
        assert_eq!(extract_message_kind(msg, numbers), kind);
    }
}

#[test]
fn an_event_carries_the_whole_name() {
    let mut long = String::new();
    while long.len() < 2996 {
        long.push('n');
    }
    long.push_str(".jpg");
    let name = wide(&long);
    let mut data = CallbackData::new();
    let start = ExtractMessage::ExtractFile {
        name: Some(WideName::Utf32(&name)),
        size: 1,
    };
    match send(&mut data, start, true) {
        (0, Some(ExtractEvent::Start { filename, .. })) => assert_eq!(text(&filename), long),
        other => panic!("unexpected {other:?}"),
    }
    let success = ExtractMessage::ExtractFileOk { name: Some(WideName::Utf32(&name)) };
    match send(&mut data, success, true) {
        (0, Some(ExtractEvent::Extracted { filename, .. })) => assert_eq!(text(&filename), long),
        other => panic!("unexpected {other:?}"),
    }
    let failure = ExtractMessage::ExtractFileErr {
        name: Some(WideName::Utf32(&name)),
        code: 12,
    };
    match send(&mut data, failure, true) {
        (0, Some(ExtractEvent::Failed { filename, .. })) => assert_eq!(text(&filename), long),
        other => panic!("unexpected {other:?}"),
    }
}

#[test]
fn the_caller_is_asked_once() {
    let mut data = CallbackData::new();
    let name = wide("a");
    let mut asked = 0;
    // A second question would be answered with yes.
    let mut callback = |_: ExtractEvent| {
        asked += 1;
        asked > 1
    };
    let message = ExtractMessage::ExtractFileOk { name: Some(WideName::Utf32(&name)) };
    assert_eq!(extract_callback(Some(&mut data), &mut callback, message), -1);
    assert!(data.cancelled);
    assert_eq!(asked, 1);
}
