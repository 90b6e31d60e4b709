//! What seals the open modes and the cursors, and what they stand for.

use crate::archive::{CursorBeforeFile, CursorBeforeHeader, List, ListSplit, Process};
use vstd::prelude::*;

verus! {

/// Closes a trait to implementations elsewhere.
pub trait Sealed {

}

impl Sealed for CursorBeforeHeader {

}

impl Sealed for CursorBeforeFile {

}

impl Sealed for List {

}

impl Sealed for ListSplit {

}

impl Sealed for Process {

}

/// What is done with a file.
#[derive(Debug, Clone, Copy, PartialEq, Eq, Structural)]
pub enum Operation {
    /// Move past it.
    Skip,
    /// Unpack it without writing it anywhere.
    Test,
    /// Unpack it to disk.
    Extract,
}

impl Operation {
    /// The number that the unpacking library knows the operation by.
    pub open spec fn number(self) -> i32 {
        match self {
            Operation::Skip => 0,
            Operation::Test => 1,
            Operation::Extract => 2,
        }
    }

    /// The number that the unpacking library knows the operation by.
    pub fn as_i32(self) -> (number: i32)
        ensures
            number == self.number(),
    {
        match self {
            Operation::Skip => 0,
            Operation::Test => 1,
            Operation::Extract => 2,
        }
    }
}

/// What an archive is opened for.
#[derive(Debug, Clone, Copy, PartialEq, Eq, Structural)]
pub enum OpenModeValue {
    /// Processing files.
    Extract,
    /// Listing files.
    List,
    /// Listing files, once for each part that they are split into.
    ListIncSplit,
}

impl OpenModeValue {
    /// The number that the unpacking library knows the mode by.
    pub open spec fn number(self) -> u32 {
        match self {
            OpenModeValue::Extract => 1,
            OpenModeValue::List => 0,
            OpenModeValue::ListIncSplit => 2,
        }
    }

    /// The number that the unpacking library knows the mode by.
    pub fn as_u32(self) -> (number: u32)
        ensures
            number == self.number(),
    {
        match self {
            OpenModeValue::Extract => 1,
            OpenModeValue::List => 0,
            OpenModeValue::ListIncSplit => 2,
        }
    }
}

} // verus!
