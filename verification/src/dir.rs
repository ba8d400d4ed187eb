//! One trash directory: where its payloads and its records lie, and how
//! the entries of its `info` directory become records.

use vstd::prelude::*;

use crate::errors::Error;
use crate::path::{components, join, joined, name_of};
use crate::text::{chars_of, range_is, string_of, views};

verus! {

/// The name of the home trash below the user's data directory.
pub const HOME_TRASH_NAME: &'static str = "Trash";

/// The directory of a trash directory that holds the payloads.
pub const FILES_DIR: &'static str = "files";

/// The directory of a trash directory that holds the records.
pub const INFO_DIR: &'static str = "info";

/// What the name of a record ends in.
pub const RECORD_SUFFIX: &'static str = ".trashinfo";

/// A trash directory, given by its path.
#[derive(Clone, Debug)]
pub struct TrashDir(pub String);

impl View for TrashDir {
    type V = Seq<char>;

    open spec fn view(&self) -> Seq<char> {
        self.0@
    }
}

/// A name of a record: a name with the extension `trashinfo`, that is a
/// name that is longer than `.trashinfo` and ends in it.
pub open spec fn is_record_name(name: Seq<char>) -> bool {
    name.len() > RECORD_SUFFIX@.len() && name.subrange(
        name.len() - RECORD_SUFFIX@.len(),
        name.len() as int,
    ) == RECORD_SUFFIX@
}

/// The name of the payload of a record: the record's name without
/// `.trashinfo` at its end.
pub open spec fn payload_name(name: Seq<char>) -> Seq<char> {
    name.subrange(0, name.len() - RECORD_SUFFIX@.len())
}

/// The payload that belongs to an entry of the walk through `info`, if the
/// entry is a record: where the entry is no directory and its path ends
/// in the name of a record, the payload of that name below `files`.
pub open spec fn payload_of_entry(root: Seq<char>, path: Seq<char>, is_dir: bool) -> Option<
    Seq<char>,
> {
    match name_of(path) {
        Some(name) => if !is_dir && is_record_name(name) {
            Some(joined(joined(root, FILES_DIR@), payload_name(name)))
        } else {
            None
        },
        None => None,
    }
}

/// What the walk through the `info` directory came upon.
pub enum WalkEvent {
    /// A file or a directory.
    Entry { path: String, is_dir: bool },
    /// A failure of the walk, with its message.
    Failure(String),
    /// The end of the walk.
    End,
}

/// What the iterator makes of an event of the walk.
pub enum IterStep {
    /// The entry is no record: go on with the walk.
    Skip,
    /// The entry is a record: read the text at `info_path` and hand it to
    /// `TrashInfo::from_files` with these two paths.
    Read { info_path: String, deleted_path: String },
    /// The walk failed: this is the last item.
    Fail(Error),
    /// Nothing is left.
    Done,
}

/// The records of a trash directory, one after another. It does not walk
/// the directory itself: it is told what the walk came upon, and says what
/// to do with it.
pub struct TrashDirIter {
    root: String,
    finished: bool,
}

impl TrashDirIter {
    /// The trash directory whose records are read.
    pub closed spec fn root(&self) -> Seq<char> {
        self.root@
    }

    /// Nothing more will be yielded.
    pub closed spec fn finished(&self) -> bool {
        self.finished
    }

    /// Whether nothing more will be yielded.
    pub fn is_finished(&self) -> (r: bool)
        ensures
            r == self.finished(),
    {
        self.finished
    }

    /// Takes the next event of the walk. Directories and entries that are
    /// not named like a record are passed over. A failure of the walk is
    /// yielded and ends the iteration, as the end of the walk does.
    pub fn next(&mut self, event: WalkEvent) -> (step: IterStep)
        ensures
            final(self).root() == old(self).root(),
            old(self).finished() ==> step is Done && final(self).finished(),
            !old(self).finished() ==> match event {
                WalkEvent::End => step is Done && final(self).finished(),
                WalkEvent::Failure(message) => final(self).finished() && (step matches IterStep::Fail(
                    Error::WalkDir(m),
                ) && m@ == message@),
                WalkEvent::Entry { path, is_dir } => !final(self).finished() && match payload_of_entry(
                    old(self).root(),
                    path@,
                    is_dir,
                ) {
                    Some(payload) => step matches IterStep::Read { info_path, deleted_path }
                        && info_path@ == path@ && deleted_path@ == payload,
                    None => step is Skip,
                },
            },
    {
        if self.finished {
            return IterStep::Done;
        }
        match event {
            WalkEvent::End => {
                self.finished = true;
                IterStep::Done
            },
            WalkEvent::Failure(message) => {
                self.finished = true;
                IterStep::Fail(Error::WalkDir(message))
            },
            WalkEvent::Entry { path, is_dir } => {
                match payload_path(self.root.as_str(), path.as_str(), is_dir) {
                    Some(deleted_path) => IterStep::Read { info_path: path, deleted_path },
                    None => IterStep::Skip,
                }
            },
        }
    }
}

/// The last component of a path if it is a name.
pub fn file_name(path: &str) -> (r: Option<Vec<char>>)
    ensures
        match r {
            Some(name) => name_of(path@) == Some(name@),
            None => name_of(path@) is None,
        },
{
    let mut parts = components(path);
    let ghost all = views(parts@);
    assert(all.len() == parts@.len());
    match parts.pop() {
        Some(last) => {
            assert(last@ == all.last());
            let n = last.len();
            let root = n == 1 && last[0] == '/';
            let here = n == 1 && last[0] == '.';
            let above = n == 2 && last[0] == '.' && last[1] == '.';
            assert(root == (last@ =~= seq!['/']));
            assert(here == (last@ =~= seq!['.']));
            assert(above == (last@ =~= seq!['.', '.']));
            if root || here || above {
                None
            } else {
                Some(last)
            }
        },
        None => None,
    }
}

/// The payload that belongs to an entry of the walk through `info`.
pub fn payload_path(root: &str, path: &str, is_dir: bool) -> (r: Option<String>)
    ensures
        match r {
            Some(payload) => payload_of_entry(root@, path@, is_dir) == Some(payload@),
            None => payload_of_entry(root@, path@, is_dir) is None,
        },
{
    if is_dir {
        return None;
    }
    match file_name(path) {
        Some(name) => {
            let suffix = chars_of(RECORD_SUFFIX);
            if name.len() > suffix.len() && range_is(
                &name,
                name.len() - suffix.len(),
                name.len(),
                &suffix,
            ) {
                let stem = string_of(&name, 0, name.len() - suffix.len());
                let files = join(root, FILES_DIR);
                Some(join(files.as_str(), stem.as_str()))
            } else {
                None
            }
        },
        None => None,
    }
}

impl TrashDir {
    /// The trash directory at `path`.
    pub fn from(path: &str) -> (dir: TrashDir)
        ensures
            dir@ == path@,
    {
        TrashDir(path.to_owned())
    }

    /// The user's home trash: the directory `Trash` in the user's data
    /// directory.
    pub fn get_home_trash(data_home: &str) -> (dir: TrashDir)
        ensures
            dir@ == joined(data_home@, HOME_TRASH_NAME@),
    {
        TrashDir(join(data_home, HOME_TRASH_NAME))
    }

    /// The trash directory at the given path, or the home trash where none
    /// is given.
    pub fn from_opt(opt: Option<&str>, data_home: &str) -> (dir: TrashDir)
        ensures
            dir@ == match opt {
                Some(path) => path@,
                None => joined(data_home@, HOME_TRASH_NAME@),
            },
    {
        match opt {
            Some(path) => TrashDir::from(path),
            None => TrashDir::get_home_trash(data_home),
        }
    }

    /// A trash directory at the same path.
    pub fn clone_dir(&self) -> (dir: TrashDir)
        ensures
            dir@ == self@,
    {
        TrashDir(self.0.clone())
    }

    /// The directory to make so that this trash directory is there:
    /// itself, unless it exists.
    pub fn create(&self, exists: bool) -> (r: Option<&str>)
        ensures
            match r {
                Some(path) => !exists && path@ == self@,
                None => exists,
            },
    {
        if exists {
            None
        } else {
            Some(self.0.as_str())
        }
    }

    /// The path of this trash directory.
    pub fn path(&self) -> (path: &str)
        ensures
            path@ == self@,
    {
        self.0.as_str()
    }

    /// The directory of the payloads.
    pub fn files_dir(&self) -> (path: String)
        ensures
            path@ == joined(self@, FILES_DIR@),
    {
        join(self.0.as_str(), FILES_DIR)
    }

    /// The directory of the records.
    pub fn info_dir(&self) -> (path: String)
        ensures
            path@ == joined(self@, INFO_DIR@),
    {
        join(self.0.as_str(), INFO_DIR)
    }

    /// The directory of the records if it is there. `exists` says whether
    /// the directory that `info_dir` names exists.
    pub fn check_info_dir(&self, exists: bool) -> (r: Result<Option<String>, Error>)
        ensures
            match r {
                Ok(Some(path)) => exists && path@ == joined(self@, INFO_DIR@),
                Ok(None) => !exists,
                Err(_) => false,
            },
    {
        if exists {
            Ok(Some(self.info_dir()))
        } else {
            Ok(None)
        }
    }

    /// An iterator over the records of this trash directory, to be fed
    /// with what a walk through its `info` directory comes upon, contents
    /// before their directory.
    pub fn iter(&self) -> (iter: TrashDirIter)
        ensures
            iter.root() == self@,
            !iter.finished(),
    {
        TrashDirIter { root: self.0.clone(), finished: false }
    }
}

} // verus!
