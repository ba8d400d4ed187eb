//! The table of mounts, and the mount that owns a path.

use vstd::prelude::*;

use crate::path::{components, components_of, has_prefix, leads_to};
use crate::text::views;
use crate::utils::{absolute_form, into_absolute, text_view};

verus! {

/// One mount, as the kernel reports it.
#[derive(Debug)]
pub struct MountPoint {
    /// The number of the mount.
    pub mount_id: u64,
    /// The number of the mount above it.
    pub parent_id: u64,
    /// The major number of the device.
    pub major: u64,
    /// The minor number of the device.
    pub minor: u64,
    /// The directory of the device that is mounted.
    pub root: String,
    /// Where it is mounted.
    pub mount_point: String,
}

/// What a mount is.
pub struct MountModel {
    pub mount_id: u64,
    pub parent_id: u64,
    pub major: u64,
    pub minor: u64,
    pub root: Seq<char>,
    pub mount_point: Seq<char>,
}

impl View for MountPoint {
    type V = MountModel;

    open spec fn view(&self) -> MountModel {
        MountModel {
            mount_id: self.mount_id,
            parent_id: self.parent_id,
            major: self.major,
            minor: self.minor,
            root: self.root@,
            mount_point: self.mount_point@,
        }
    }
}

/// `libmount::mountinfo::ParseError`, the reason why a row of the kernel's
/// table is no mount.
#[verifier::external_type_specification]
#[verifier::external_body]
pub struct ExMountParseError(libmount::mountinfo::ParseError);

/// What `libmount::mountinfo::Parser` yields for the bytes of a mount
/// table, row by row: the mount of a row, or `None` for a row that it
/// refuses. Rows that it passes over are not among them.
pub uninterp spec fn mount_rows(data: Seq<u8>) -> Seq<Option<MountModel>>;

/// `libmount::mountinfo::Parser`, run over a whole mount table: one outcome
/// for each row that it yields, in its order. Of a mount the numbers are
/// kept as they are, and the two paths as text, with a replacement
/// character for bytes that are no text. Nothing is claimed but that the
/// outcomes depend on the bytes alone.
#[verifier::external_body]
fn parse_rows(data: &[u8]) -> (rows: Vec<Result<MountPoint, libmount::mountinfo::ParseError>>)
    ensures
        rows@.len() == mount_rows(data@).len(),
        forall|i: int|
            0 <= i < rows@.len() ==> match #[trigger] rows@[i] {
                Ok(mount) => mount_rows(data@)[i] == Some(mount@),
                Err(_) => mount_rows(data@)[i] is None,
            },
{
    libmount::mountinfo::Parser::new(data).map(
        |row|
            row.map(
                |mount|
                    MountPoint {
                        mount_id: mount.mount_id,
                        parent_id: mount.parent_id,
                        major: mount.major,
                        minor: mount.minor,
                        root: mount.root.to_string_lossy().into_owned(),
                        mount_point: mount.mount_point.to_string_lossy().into_owned(),
                    },
            ),
    ).collect()
}

/// The mounts of one process at one moment, in the kernel's order.
#[derive(Debug)]
pub struct Mounts(Vec<MountPoint>);

impl View for Mounts {
    type V = Seq<MountModel>;

    closed spec fn view(&self) -> Seq<MountModel> {
        self.0@.map_values(|mount: MountPoint| mount@)
    }
}

/// The mount at `i` owns `path`: its mount point leads to the path, no
/// mount point that leads to the path has more components, and none that
/// stands later in the table has as many.
pub open spec fn owns(table: Seq<MountModel>, path: Seq<char>, i: int) -> bool {
    &&& 0 <= i < table.len()
    &&& leads_to(table[i].mount_point, path)
    &&& forall|j: int|
        0 <= j < table.len() && leads_to(#[trigger] table[j].mount_point, path) ==> components_of(
            table[j].mount_point,
        ).len() <= components_of(table[i].mount_point).len()
    &&& forall|j: int|
        i < j < table.len() && leads_to(#[trigger] table[j].mount_point, path) ==> components_of(
            table[j].mount_point,
        ).len() < components_of(table[i].mount_point).len()
}

/// A path has one owner at most: two mounts cannot both own it.
pub proof fn lemma_one_owner(table: Seq<MountModel>, path: Seq<char>, i: int, j: int)
    requires
        owns(table, path, i),
        owns(table, path, j),
    ensures
        i == j,
{
    if i < j {
        assert(leads_to(table[j].mount_point, path));
        assert(leads_to(table[i].mount_point, path));
    } else if j < i {
        assert(leads_to(table[i].mount_point, path));
        assert(leads_to(table[j].mount_point, path));
    }
}

impl Mounts {
    /// Reads the mount table of a process from the bytes of its
    /// `mountinfo` file. One row that is no mount spoils the table.
    pub fn read(data: &[u8]) -> (r: Result<Mounts, libmount::mountinfo::ParseError>)
        ensures
            match r {
                Ok(table) => table@.len() == mount_rows(data@).len() && forall|i: int|
                    0 <= i < table@.len() ==> mount_rows(data@)[i] == Some(#[trigger] table@[i]),
                Err(_) => exists|i: int|
                    0 <= i < mount_rows(data@).len() && #[trigger] mount_rows(data@)[i] is None,
            },
    {
        let rows = parse_rows(data);
        let mut mounts: Vec<MountPoint> = Vec::new();
        for row in it: rows
            invariant
                it.seq() == rows@,
                rows@.len() == mount_rows(data@).len(),
                forall|i: int|
                    0 <= i < rows@.len() ==> match #[trigger] rows@[i] {
                        Ok(mount) => mount_rows(data@)[i] == Some(mount@),
                        Err(_) => mount_rows(data@)[i] is None,
                    },
                mounts@.len() == it.index(),
                forall|i: int|
                    0 <= i < mounts@.len() ==> mount_rows(data@)[i] == Some(#[trigger] mounts@[i]@),
        {
            assert(row == rows@[it.index() as int]);
            match row {
                Ok(mount) => mounts.push(mount),
                Err(e) => {
                    assert(mount_rows(data@)[it.index() as int] is None);
                    return Err(e);
                },
            }
        }
        Ok(Mounts(mounts))
    }

    /// The mount point of the mount that owns `path`: of the mounts whose
    /// mount point leads to the path, the one with the most components. The
    /// path is made absolute first, seen from `current_dir`; a path that
    /// cannot be made absolute has no owner.
    pub fn get_mount_point(&self, path: &str, current_dir: Option<&str>) -> (r: Option<String>)
        ensures
            match absolute_form(path@, text_view(current_dir)) {
                None => r is None,
                Some(full) => match r {
                    Some(found) => exists|i: int|
                        owns(self@, full, i) && found@ == (#[trigger] self@[i]).mount_point,
                    None => forall|i: int|
                        0 <= i < self@.len() ==> !leads_to((#[trigger] self@[i]).mount_point, full),
                },
            },
    {
        let full = match into_absolute(path, current_dir) {
            Some(full) => full,
            None => {
                return None;
            },
        };
        let whole = components(full.as_str());
        let mut best: Option<usize> = None;
        let mut most: usize = 0;
        let mut i: usize = 0;
        while i < self.0.len()
            invariant
                i <= self.0.len(),
                views(whole@) == components_of(full@),
                match best {
                    Some(b) => b < i && leads_to(self@[b as int].mount_point, full@) && most
                        == components_of(self@[b as int].mount_point).len() && (forall|j: int|
                        0 <= j < i && leads_to(#[trigger] self@[j].mount_point, full@)
                            ==> components_of(self@[j].mount_point).len() <= most) && (forall|
                        j: int,
                    |
                        b < j < i && leads_to(#[trigger] self@[j].mount_point, full@)
                            ==> components_of(self@[j].mount_point).len() < most),
                    None => forall|j: int|
                        0 <= j < i ==> !leads_to((#[trigger] self@[j]).mount_point, full@),
                },
            decreases self.0.len() - i,
        {
            let parts = components(self.0[i].mount_point.as_str());
            assert(self@[i as int].mount_point == self.0[i as int].mount_point@);
            assert(views(parts@).len() == parts@.len());
            if has_prefix(&whole, &parts) {
                let count = parts.len();
                let better = match best {
                    Some(_) => count >= most,
                    None => true,
                };
                if better {
                    best = Some(i);
                    most = count;
                }
            }
            i += 1;
        }
        match best {
            Some(b) => {
                assert(owns(self@, full@, b as int));
                Some(self.0[b].mount_point.clone())
            },
            None => None,
        }
    }
}

} // verus!
