//! Listing a trash directory: its records in the order of their deletion.

use vstd::prelude::*;

use crate::errors::Error;
use crate::info::TrashInfo;

verus! {

/// How `list` is to go about its work.
#[derive(Debug)]
pub struct ListOptions {
    /// The trash directory to list; the home trash where none is given.
    pub trash_dir: Option<String>,
}

/// The records among the items that a trash directory yields, in their
/// order.
pub open spec fn records_of(entries: Seq<Result<TrashInfo, Error>>) -> Seq<TrashInfo>
    decreases entries.len(),
{
    if entries.len() == 0 {
        Seq::empty()
    } else {
        match entries.last() {
            Ok(info) => records_of(entries.drop_last()).push(info),
            Err(_) => records_of(entries.drop_last()),
        }
    }
}

/// The failures among the items that a trash directory yields, in their
/// order.
pub open spec fn failures_of(entries: Seq<Result<TrashInfo, Error>>) -> Seq<Error>
    decreases entries.len(),
{
    if entries.len() == 0 {
        Seq::empty()
    } else {
        match entries.last() {
            Ok(_) => failures_of(entries.drop_last()),
            Err(error) => failures_of(entries.drop_last()).push(error),
        }
    }
}

/// The moment of a record's deletion.
pub open spec fn moment(info: TrashInfo) -> int {
    info.deletion_date@.seconds as int
}

/// No record stands before one that was deleted earlier.
pub open spec fn in_order(records: Seq<TrashInfo>) -> bool {
    forall|i: int, j: int| 0 <= i <= j < records.len() ==> moment(records[i]) <= moment(records[j])
}

/// The test for the records that were deleted at the moment `at`.
pub open spec fn deleted_at(at: int) -> spec_fn(TrashInfo) -> bool {
    |info: TrashInfo| moment(info) == at
}

/// `sorted` holds the records of `records` in the order of their deletion,
/// and those of one moment in the order that they had: for every moment,
/// the records of that moment are the same in both, in the same order.
pub open spec fn sorted_from(sorted: Seq<TrashInfo>, records: Seq<TrashInfo>) -> bool {
    &&& in_order(sorted)
    &&& forall|at: int| #[trigger] sorted.filter(deleted_at(at)) == records.filter(deleted_at(at))
}

/// Putting a record behind all records that are not younger keeps the
/// order, and changes only what is recorded for its own moment.
proof fn lemma_insert(sorted: Seq<TrashInfo>, at: int, info: TrashInfo, seen: Seq<TrashInfo>)
    requires
        sorted_from(sorted, seen),
        0 <= at <= sorted.len(),
        forall|k: int| 0 <= k < at ==> moment(sorted[k]) <= moment(info),
        forall|k: int| at <= k < sorted.len() ==> moment(sorted[k]) > moment(info),
    ensures
        sorted_from(sorted.insert(at, info), seen.push(info)),
{
    let longer = sorted.insert(at, info);
    let front = sorted.take(at);
    let back = sorted.skip(at);
    assert(sorted == front + back);
    assert(longer == front + seq![info] + back);
    assert(seen.push(info).drop_last() == seen);
    assert forall|moment_of: int| #[trigger]
        longer.filter(deleted_at(moment_of)) == seen.push(info).filter(deleted_at(moment_of)) by {
        let test = deleted_at(moment_of);
        Seq::filter_distributes_over_add(front, back, test);
        Seq::filter_distributes_over_add(front, seq![info], test);
        Seq::filter_distributes_over_add(front + seq![info], back, test);
        assert(sorted.filter(test) == seen.filter(test));
        reveal(Seq::filter);
        assert(seq![info].drop_last() == Seq::<TrashInfo>::empty());
        assert(Seq::<TrashInfo>::empty().filter(test) == Seq::<TrashInfo>::empty());
        if test(info) {
            assert(seq![info].filter(test) == seq![info]);
            assert(back.filter(test) == Seq::<TrashInfo>::empty()) by {
                lemma_none_passes(back, test);
            }
            assert(seen.push(info).filter(test) == seen.filter(test).push(info));
            assert(front.filter(test) + back.filter(test) == front.filter(test));
            assert(front.filter(test) + seq![info] + back.filter(test) == front.filter(test).push(
                info,
            ));
        } else {
            assert(seq![info].filter(test) == Seq::<TrashInfo>::empty());
            assert(seen.push(info).filter(test) == seen.filter(test));
            assert(front.filter(test) + Seq::<TrashInfo>::empty() + back.filter(test)
                == front.filter(test) + back.filter(test));
        }
    }
}

/// Where no item passes a test, nothing is left of the items.
proof fn lemma_none_passes(items: Seq<TrashInfo>, test: spec_fn(TrashInfo) -> bool)
    requires
        forall|k: int| 0 <= k < items.len() ==> !test(#[trigger] items[k]),
    ensures
        items.filter(test) == Seq::<TrashInfo>::empty(),
    decreases items.len(),
{
    reveal(Seq::filter);
    if items.len() > 0 {
        lemma_none_passes(items.drop_last(), test);
    }
}

/// Sorts records by the moment of their deletion, the earliest first.
/// Records of one moment keep their order.
pub fn sort_by_deletion_date(records: Vec<TrashInfo>) -> (sorted: Vec<TrashInfo>)
    ensures
        sorted_from(sorted@, records@),
        sorted@.len() == records@.len(),
{
    let mut sorted: Vec<TrashInfo> = Vec::new();
    proof {
        assert(records@.take(0) == Seq::<TrashInfo>::empty());
        assert forall|at: int| #[trigger]
            sorted@.filter(deleted_at(at)) == records@.take(0).filter(deleted_at(at)) by {
            assert(sorted@ == records@.take(0));
        }
    }
    for info in it: records
        invariant
            it.seq() == records@,
            sorted@.len() == it.index(),
            sorted_from(sorted@, records@.take(it.index() as int)),
    {
        let ghost seen = records@.take(it.index() as int);
        let seconds = info.deletion_date.timestamp();
        let mut at: usize = sorted.len();
        while at > 0 && sorted[at - 1].deletion_date.timestamp() > seconds
            invariant
                at <= sorted.len(),
                seconds == moment(info),
                forall|k: int| at <= k < sorted.len() ==> moment(sorted@[k]) > moment(info),
            decreases at,
        {
            at -= 1;
        }
        proof {
            assert forall|k: int| 0 <= k < at implies moment(sorted@[k]) <= moment(info) by {
                assert(moment(sorted@[k]) <= moment(sorted@[at - 1]));
            }
            lemma_insert(sorted@, at as int, info, seen);
            assert(records@.take(it.index() + 1) == seen.push(info));
        }
        sorted.insert(at, info);
    }
    assert(records@.take(records@.len() as int) == records@);
    sorted
}

/// What a listing shows: the records that could be read, in the order of
/// their deletion, and the failures to warn of.
pub struct Listing {
    pub records: Vec<TrashInfo>,
    pub failures: Vec<Error>,
}

/// Lists what a trash directory yields: the records that could be read,
/// sorted by the moment of their deletion, and beside them the failures,
/// which do not stop the listing.
pub fn list(entries: Vec<Result<TrashInfo, Error>>) -> (listing: Listing)
    ensures
        sorted_from(listing.records@, records_of(entries@)),
        listing.records@.len() == records_of(entries@).len(),
        listing.failures@ == failures_of(entries@),
{
    let mut records: Vec<TrashInfo> = Vec::new();
    let mut failures: Vec<Error> = Vec::new();
    assert(entries@.take(0) == Seq::<Result<TrashInfo, Error>>::empty());
    for entry in it: entries
        invariant
            it.seq() == entries@,
            records@ == records_of(entries@.take(it.index() as int)),
            failures@ == failures_of(entries@.take(it.index() as int)),
    {
        proof {
            let n = it.index() as int;
            assert(entries@.take(n + 1).drop_last() == entries@.take(n));
            assert(entries@.take(n + 1).last() == entry);
        }
        match entry {
            Ok(info) => records.push(info),
            Err(error) => failures.push(error),
        }
    }
    assert(entries@.take(entries@.len() as int) == entries@);
    Listing { records: sort_by_deletion_date(records), failures }
}

} // verus!
