//! What can go wrong while a trash directory is read.

use vstd::prelude::*;

verus! {

/// Why a record is no record.
#[derive(Debug, Clone, Copy, PartialEq, Eq, Structural)]
pub enum TrashInfoError {
    /// The first line is not the header.
    MissingHeader,
    /// No line gives the path that the item had.
    MissingPath,
    /// No line gives the deletion date.
    MissingDate,
}

/// Why an entry of a trash directory could not be read.
#[derive(Debug)]
pub enum Error {
    /// A file could not be read or written; the message of the failure.
    Io(String),
    /// The walk through the directory failed; the message of the failure.
    WalkDir(String),
    /// The record is malformed.
    BadTrashInfo(TrashInfoError),
    /// The record's deletion date is no date.
    ParseDate(chrono::format::ParseError),
}

} // verus!
