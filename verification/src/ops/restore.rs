//! Restoring from a trash directory: the record that is picked goes, and
//! its payload moves back to where it came from.

use vstd::prelude::*;

use crate::errors::Error;
use crate::info::TrashInfo;
use crate::ops::list::{failures_of, list, records_of, sorted_from, Listing};

verus! {

/// How `restore` is to go about its work.
#[derive(Debug)]
pub struct RestoreOptions {
    /// The trash directory to restore from; the home trash where none is
    /// given.
    pub trash_dir: Option<String>,
}

/// Why nothing can be restored.
#[derive(Debug, Clone, Copy, PartialEq, Eq, Structural)]
pub enum RestoreError {
    /// The trash directory has no directory of records.
    NoTrashDirectory,
    /// The trash directory holds no record that can be read.
    NoFiles,
}

/// What restoring one item consists of, in this order: the record at
/// `record` is removed, then the payload at `from` is renamed to `to`.
#[derive(Debug)]
pub struct Restoration {
    pub record: String,
    pub from: String,
    pub to: String,
}

/// What can be restored from a trash directory: its records in the order
/// of their deletion, to be picked from by their place in that order.
/// `has_info_dir` says whether the directory of records is there; without
/// it, and without a record that can be read, there is nothing to pick.
pub fn candidates(has_info_dir: bool, entries: Vec<Result<TrashInfo, Error>>) -> (r: Result<
    Listing,
    RestoreError,
>)
    ensures
        match r {
            Ok(listing) => has_info_dir && records_of(entries@).len() > 0 && sorted_from(
                listing.records@,
                records_of(entries@),
            ) && listing.records@.len() == records_of(entries@).len() && listing.failures@
                == failures_of(entries@),
            Err(RestoreError::NoTrashDirectory) => !has_info_dir,
            Err(RestoreError::NoFiles) => has_info_dir && records_of(entries@).len() == 0,
        },
{
    if !has_info_dir {
        return Err(RestoreError::NoTrashDirectory);
    }
    let listing = list(entries);
    if listing.records.len() == 0 {
        return Err(RestoreError::NoFiles);
    }
    Ok(listing)
}

/// Restores the record at the place `selected` of the listing: `None`
/// where the listing has no such place.
pub fn restore(files: &Vec<TrashInfo>, selected: usize) -> (r: Option<Restoration>)
    ensures
        match r {
            Some(plan) => selected < files@.len() && plan.record@ == files@[selected as int].info_path@
                && plan.from@ == files@[selected as int].deleted_path@ && plan.to@
                == files@[selected as int].path@,
            None => selected >= files@.len(),
        },
{
    if selected < files.len() {
        let info = &files[selected];
        Some(
            Restoration {
                record: info.info_path.clone(),
                from: info.deleted_path.clone(),
                to: info.path.clone(),
            },
        )
    } else {
        None
    }
}

} // verus!
