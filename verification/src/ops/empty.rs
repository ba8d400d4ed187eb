//! Emptying a trash directory: the records that are old enough go, and
//! their payloads with them.

use vstd::prelude::*;

use crate::errors::Error;
use crate::info::TrashInfo;
use crate::ops::list::moment;

verus! {

/// The seconds of a day.
pub const SECONDS_PER_DAY: i64 = 86400;

/// How `empty` is to go about its work.
#[derive(Debug)]
pub struct EmptyOptions {
    /// Remove nothing, only say what would be removed.
    pub dry: bool,
    /// Remove what was deleted at least this many days ago; everything
    /// that was deleted up to now where no number is given.
    pub days: Option<u32>,
    /// The trash directory to empty; the home trash where none is given.
    pub trash_dir: Option<String>,
}

/// The latest moment of deletion that is old enough: `days` days before
/// `now`, or `now` where no number of days is given.
pub open spec fn cutoff(now: i64, days: Option<u32>) -> int {
    match days {
        Some(n) => now - n * SECONDS_PER_DAY,
        None => now as int,
    }
}

/// A record is old enough to go: it was not deleted after the cutoff.
pub open spec fn is_due(info: TrashInfo, now: i64, days: Option<u32>) -> bool {
    moment(info) <= cutoff(now, days)
}

/// The records that go of what a trash directory yields: those that are
/// old enough, in their order, up to the first failure.
pub open spec fn due_records(entries: Seq<Result<TrashInfo, Error>>, now: i64, days: Option<u32>) -> Seq<
    TrashInfo,
>
    decreases entries.len(),
{
    if entries.len() == 0 {
        Seq::empty()
    } else if first_failure(entries.drop_last()) is Some {
        due_records(entries.drop_last(), now, days)
    } else {
        match entries.last() {
            Ok(info) => if is_due(info, now, days) {
                due_records(entries.drop_last(), now, days).push(info)
            } else {
                due_records(entries.drop_last(), now, days)
            },
            Err(_) => due_records(entries.drop_last(), now, days),
        }
    }
}

/// The first failure among what a trash directory yields.
pub open spec fn first_failure(entries: Seq<Result<TrashInfo, Error>>) -> Option<Error>
    decreases entries.len(),
{
    if entries.len() == 0 {
        None
    } else if first_failure(entries.drop_last()) is Some {
        first_failure(entries.drop_last())
    } else {
        match entries.last() {
            Ok(_) => None,
            Err(error) => Some(error),
        }
    }
}

/// What emptying consists of: of each of `records`, in this order, the
/// record at its `info_path` is removed and then the payload at its
/// `deleted_path`, if there is one; or, in a dry run, its `path` is shown.
/// After that the run fails with `failure`, if there is one.
pub struct Purge {
    pub dry: bool,
    pub records: Vec<TrashInfo>,
    pub failure: Option<Error>,
}

/// Whether a record is old enough to go.
pub fn due(info: &TrashInfo, now: i64, days: Option<u32>) -> (r: bool)
    ensures
        r == is_due(*info, now, days),
{
    let seconds: i128 = info.deletion_date.timestamp() as i128;
    let limit: i128 = match days {
        Some(n) => now as i128 - (n as i128) * (SECONDS_PER_DAY as i128),
        None => now as i128,
    };
    seconds <= limit
}

/// Empties a trash directory of what it yields: every record that was not
/// deleted after the cutoff goes. `now` is the present moment in seconds
/// on the clock of the records. The first failure among the items ends the
/// run; what stands before it still goes.
pub fn empty(options: &EmptyOptions, now: i64, entries: Vec<Result<TrashInfo, Error>>) -> (purge:
    Purge)
    ensures
        purge.dry == options.dry,
        purge.records@ == due_records(entries@, now, options.days),
        purge.failure == first_failure(entries@),
{
    let mut records: Vec<TrashInfo> = Vec::new();
    let mut failure: Option<Error> = None;
    let days = options.days;
    assert(entries@.take(0) == Seq::<Result<TrashInfo, Error>>::empty());
    for entry in it: entries
        invariant
            it.seq() == entries@,
            records@ == due_records(entries@.take(it.index() as int), now, days),
            failure == first_failure(entries@.take(it.index() as int)),
    {
        proof {
            let n = it.index() as int;
            assert(entries@.take(n + 1).drop_last() == entries@.take(n));
            assert(entries@.take(n + 1).last() == entry);
        }
        if failure.is_none() {
            match entry {
                Ok(info) => {
                    if due(&info, now, days) {
                        records.push(info);
                    }
                },
                Err(error) => {
                    failure = Some(error);
                },
            }
        }
    }
    assert(entries@.take(entries@.len() as int) == entries@);
    Purge { dry: options.dry, records, failure }
}

} // verus!
