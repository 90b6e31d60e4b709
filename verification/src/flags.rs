//! The flag words of archives and of entries.

use crate::native::{
    ROADF_COMMENT, ROADF_ENCHEADERS, ROADF_FIRSTVOLUME, ROADF_LOCK, ROADF_NEWNUMBERING,
    ROADF_RECOVERY, ROADF_SIGNED, ROADF_SOLID, ROADF_VOLUME,
};
use vstd::prelude::*;

verus! {

/// The entry continues from the volume before.
pub const SPLIT_BEFORE: u32 = 0x1;

/// The entry goes on in the volume after.
pub const SPLIT_AFTER: u32 = 0x2;

/// The entry is encrypted.
pub const ENCRYPTED: u32 = 0x4;

/// The entry is compressed together with those before it.
pub const SOLID: u32 = 0x10;

/// The entry is a directory.
pub const DIRECTORY: u32 = 0x20;

/// Whether `bits` has every bit of `flag`.
pub open spec fn has_flag(bits: u32, flag: u32) -> bool {
    bits & flag == flag
}

/// Whether every bit set in `bits` belongs to a flag of an archive.
pub open spec fn known_archive_flags(bits: u32) -> bool {
    bits & !(ROADF_VOLUME | ROADF_COMMENT | ROADF_LOCK | ROADF_SOLID | ROADF_NEWNUMBERING
        | ROADF_SIGNED | ROADF_RECOVERY | ROADF_ENCHEADERS | ROADF_FIRSTVOLUME) == 0
}

/// Whether every bit set in `bits` belongs to a flag of an entry.
pub open spec fn known_entry_flags(bits: u32) -> bool {
    bits & !(SPLIT_BEFORE | SPLIT_AFTER | ENCRYPTED | SOLID | DIRECTORY) == 0
}

/// The flags of an archive: a word in which only known flags are set.
#[derive(Debug, Clone, Copy, PartialEq, Eq, Structural)]
pub struct ArchiveFlags {
    bits: u32,
}

impl ArchiveFlags {
    #[verifier::type_invariant]
    spec fn only_known(self) -> bool {
        known_archive_flags(self.bits)
    }

    /// The word itself.
    pub closed spec fn bits(self) -> u32 {
        self.bits
    }

    /// The flags that `bits` stands for, if it holds no unknown one.
    pub fn from_bits(bits: u32) -> (flags: Option<ArchiveFlags>)
        ensures
            flags is Some <==> known_archive_flags(bits),
            flags matches Some(flags) ==> flags.bits() == bits,
    {
        let all: u32 = ROADF_VOLUME | ROADF_COMMENT | ROADF_LOCK | ROADF_SOLID | ROADF_NEWNUMBERING
            | ROADF_SIGNED | ROADF_RECOVERY | ROADF_ENCHEADERS | ROADF_FIRSTVOLUME;
        if bits & !all == 0 {
            Some(ArchiveFlags { bits })
        } else {
            None
        }
    }

    /// Whether `flag` is set.
    pub fn contains(self, flag: u32) -> (set: bool)
        ensures
            set == has_flag(self.bits(), flag),
    {
        self.bits & flag == flag
    }
}

/// The flags of an entry: a word in which only known flags are set.
#[derive(Debug, Clone, Copy, PartialEq, Eq, Structural)]
pub struct EntryFlags {
    bits: u32,
}

impl EntryFlags {
    #[verifier::type_invariant]
    spec fn only_known(self) -> bool {
        known_entry_flags(self.bits)
    }

    /// The word itself.
    pub closed spec fn bits(self) -> u32 {
        self.bits
    }

    /// The flags that `bits` stands for, if it holds no unknown one.
    pub fn from_bits(bits: u32) -> (flags: Option<EntryFlags>)
        ensures
            flags is Some <==> known_entry_flags(bits),
            flags matches Some(flags) ==> flags.bits() == bits,
    {
        let all: u32 = SPLIT_BEFORE | SPLIT_AFTER | ENCRYPTED | SOLID | DIRECTORY;
        if bits & !all == 0 {
            Some(EntryFlags { bits })
        } else {
            None
        }
    }

    /// Whether `flag` is set.
    pub fn contains(self, flag: u32) -> (set: bool)
        ensures
            set == has_flag(self.bits(), flag),
    {
        self.bits & flag == flag
    }
}

} // verus!
