//! The headers of entries.

use unrar_ng::flags::{ArchiveFlags, EntryFlags};
use unrar_ng::header::unpack_unp_size;
use unrar_ng::native::HeaderDataEx;
use unrar_ng::FileHeader;

fn header(name: &str, flags: u32) -> FileHeader {
    FileHeader::from(HeaderDataEx {
        filename_w: name.chars().map(|c| c as u32).collect(),
        flags,
        unp_size: 7,
        unp_size_high: 1,
        file_crc: 2,
        file_time: 3,
        method: 4,
        file_attr: 5,
    })
}

#[test]
fn combine_size() {
    let (high, low) = (1u32, 1464303715u32);
    assert_eq!(unpack_unp_size(low, high), 5759271011);
}

#[test]
fn the_largest_size_fits() {
    assert_eq!(unpack_unp_size(u32::MAX, u32::MAX), u64::MAX);
    assert_eq!(unpack_unp_size(u32::MAX, 0), 0xFFFF_FFFF);
}

#[test]
fn the_fields_are_taken_over() {
    let entry = header("a", 0);
    assert_eq!(entry.filename, "a");
    assert_eq!(entry.unpacked_size, 0x1_0000_0007);
    assert_eq!(entry.file_crc, 2);
    assert_eq!(entry.file_time, 3);
    assert_eq!(entry.method, 4);
    assert_eq!(entry.file_attr, 5);
}

#[test]
fn the_entry_flags_are_told_apart() {
    let seen = |flags: u32| {
        let entry = header("a", flags);
        [
            entry.is_split_before(),
            entry.is_split_after(),
            entry.is_split(),
            entry.is_encrypted(),
            entry.is_directory(),
            entry.is_file(),
        ]
    };
    assert_eq!(seen(0x00), [false, false, false, false, false, true]);
    assert_eq!(seen(0x01), [true, false, true, false, false, true]);
    assert_eq!(seen(0x02), [false, true, true, false, false, true]);
    assert_eq!(seen(0x04), [false, false, false, true, false, true]);
    assert_eq!(seen(0x10), [false, false, false, false, false, true]);
    assert_eq!(seen(0x20), [false, false, false, false, true, false]);
    assert_eq!(seen(0x37), [true, true, true, true, true, false]);
}

#[test]
fn unknown_flags_are_no_flags() {
    assert!(EntryFlags::from_bits(0x37).is_some());
    assert!(EntryFlags::from_bits(0x08).is_none());
    assert!(EntryFlags::from_bits(0x40).is_none());
    assert!(ArchiveFlags::from_bits(0x1FF).is_some());
    assert!(ArchiveFlags::from_bits(0x200).is_none());
}

#[test]
fn an_entry_is_described_by_its_quoted_path() {
    assert_eq!(header("a b.txt", 0).to_string(), "\"a b.txt\"");
    assert_eq!(header("dir", 0x20).to_string(), "\"dir\"/");
    assert_eq!(header("a", 0x1).to_string(), "\"a\" (partial)");
    assert_eq!(header("dir", 0x22).to_string(), "\"dir\"/ (partial)");
    assert_eq!(header("a\nb", 0).to_string(), "\"a\\nb\"");
    assert_eq!(
        header("a", 0x20).describe(String::from("<a>")),
        "<a>/"
    );
}
