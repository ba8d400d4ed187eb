//! Putting a file into the trash: the choice of the trash directory, and
//! what a deletion consists of.
//!
//! Nothing here touches the file system. The choice is made in steps: each
//! step says what has to be looked at or made on disk, and the next step
//! takes what came of it.

use vstd::prelude::*;

use crate::date::DeletionDate;
use crate::dir::{file_name, TrashDir, FILES_DIR, INFO_DIR, RECORD_SUFFIX};
use crate::info::{is_space, is_space_char, spaces_end, TrashInfo};
use crate::mounts::{owns, MountModel, Mounts};
use crate::path::{
    components_of, is_absolute, is_dir_or_parent, join, joined, leads_to, name_of,
    names_dir_or_parent, same_path,
};
use crate::text::{chars_of, decimal_i64, decimal_of, decimal_u64, string_of};
use crate::utils::{absolute_form, text_view};

verus! {

/// The name of the trash directory at the top of a mount that all users
/// share.
pub const TOP_DIR: &'static str = ".Trash";

/// What the name of a user's own trash directory at the top of a mount
/// begins with; the number of the user follows.
pub const PRIVATE_PREFIX: &'static str = ".Trash-";

/// The permission bit that a shared trash directory has to carry.
pub const STICKY_BIT: u32 = 0o1000;

/// Why a file was not put into the trash.
#[derive(Debug)]
pub enum Error {
    /// A directory is not removed without the option for it.
    MissingRecursiveOption(String),
    /// The current directory and the one above it are never trashed.
    CannotTrashDotDirs,
    /// The user said no.
    CancelledByUser,
    /// No mount owns the path.
    NoMountPoint,
    /// The path ends in no name under which it could lie in the trash.
    NoFileName(String),
    /// A directory could not be made; the message of the failure.
    Io(String),
}

/// What an error is.
pub enum ErrorModel {
    MissingRecursiveOption(Seq<char>),
    CannotTrashDotDirs,
    CancelledByUser,
    NoMountPoint,
    NoFileName(Seq<char>),
    Io(Seq<char>),
}

impl View for Error {
    type V = ErrorModel;

    open spec fn view(&self) -> ErrorModel {
        match self {
            Error::MissingRecursiveOption(path) => ErrorModel::MissingRecursiveOption(path@),
            Error::CannotTrashDotDirs => ErrorModel::CannotTrashDotDirs,
            Error::CancelledByUser => ErrorModel::CancelledByUser,
            Error::NoMountPoint => ErrorModel::NoMountPoint,
            Error::NoFileName(path) => ErrorModel::NoFileName(path@),
            Error::Io(message) => ErrorModel::Io(message@),
        }
    }
}

/// How `put` is to go about its work.
#[derive(Debug)]
pub struct PutOptions {
    /// The paths to be trashed.
    pub paths: Vec<String>,
    /// Move nothing, only say what would be removed.
    pub dry: bool,
    /// Ask before every removal.
    pub prompt: bool,
    /// Trash directories with what is in them. Directories always are.
    pub recursive: bool,
    /// Never ask.
    pub force: bool,
    /// Put everything into this trash directory, on whatever mount it is.
    pub trash_dir: Option<String>,
}

/// How a file gets into the trash.
#[derive(Debug)]
pub enum DeletionStrategy {
    /// Into the trash directory that the caller named, by copying.
    Fixed(TrashDir),
    /// Into a trash directory on the mount of the file, by renaming.
    MoveTo(TrashDir),
    /// Into a trash directory on another mount, by copying the whole tree
    /// and removing the source.
    CopyTo(TrashDir),
}

/// What a strategy is.
pub enum StrategyModel {
    Fixed(Seq<char>),
    MoveTo(Seq<char>),
    CopyTo(Seq<char>),
}

impl View for DeletionStrategy {
    type V = StrategyModel;

    open spec fn view(&self) -> StrategyModel {
        match self {
            DeletionStrategy::Fixed(dir) => StrategyModel::Fixed(dir@),
            DeletionStrategy::MoveTo(dir) => StrategyModel::MoveTo(dir@),
            DeletionStrategy::CopyTo(dir) => StrategyModel::CopyTo(dir@),
        }
    }
}

/// What is found out once and holds for every choice: the home trash, the
/// mount point of the mount that owns it, and the number of the user.
#[derive(Debug)]
pub struct Context {
    pub home_trash: TrashDir,
    pub home_mount: String,
    pub uid: u64,
}

/// What a context is.
pub struct ContextModel {
    pub home_trash: Seq<char>,
    pub home_mount: Seq<char>,
    pub uid: u64,
}

impl View for Context {
    type V = ContextModel;

    open spec fn view(&self) -> ContextModel {
        ContextModel {
            home_trash: self.home_trash@,
            home_mount: self.home_mount@,
            uid: self.uid,
        }
    }
}

/// What is read off the directory `.Trash` at the top of a mount.
#[derive(Clone, Copy, Debug)]
pub struct TopDirMeta {
    /// It is a symbolic link.
    pub is_symlink: bool,
    /// Its permission bits.
    pub mode: u32,
}

/// How far the choice of a strategy has come, and what it waits for.
#[derive(Debug)]
pub enum Selection {
    /// The file is on a mount without the home trash. Waits for a look at
    /// `top_dir`, the directory `.Trash` of the mount.
    Inspect { top_dir: String, mount: String },
    /// The shared trash of the mount can be used. Waits for the user's
    /// directory in it to be there, made with what is missing above it.
    CreateShared { trash: TrashDir },
    /// The shared trash of the mount cannot be used. Waits for the user's
    /// own trash directory at the top of the mount to be there.
    CreatePrivate { trash: TrashDir },
    /// The strategy is chosen.
    Chosen(DeletionStrategy),
    /// No strategy can be chosen.
    Failed(Error),
}

/// What a selection is.
pub enum SelectionModel {
    Inspect { top_dir: Seq<char>, mount: Seq<char> },
    CreateShared { trash: Seq<char> },
    CreatePrivate { trash: Seq<char> },
    Chosen(StrategyModel),
    Failed(ErrorModel),
}

impl View for Selection {
    type V = SelectionModel;

    open spec fn view(&self) -> SelectionModel {
        match self {
            Selection::Inspect { top_dir, mount } => SelectionModel::Inspect {
                top_dir: top_dir@,
                mount: mount@,
            },
            Selection::CreateShared { trash } => SelectionModel::CreateShared { trash: trash@ },
            Selection::CreatePrivate { trash } => SelectionModel::CreatePrivate { trash: trash@ },
            Selection::Chosen(strategy) => SelectionModel::Chosen(strategy@),
            Selection::Failed(error) => SelectionModel::Failed(error@),
        }
    }
}

/// What came of the step that a selection waited for.
#[derive(Debug)]
pub enum Reply {
    /// What the directory `.Trash` of the mount is like; `None` where it
    /// is not there or cannot be looked at.
    Inspected(Option<TopDirMeta>),
    /// The directory is there now, or the message of the failure to make
    /// it.
    Created(Result<(), String>),
}

/// What a reply is.
pub enum ReplyModel {
    Inspected(Option<TopDirMeta>),
    Created(Result<(), Seq<char>>),
}

impl View for Reply {
    type V = ReplyModel;

    open spec fn view(&self) -> ReplyModel {
        match self {
            Reply::Inspected(meta) => ReplyModel::Inspected(*meta),
            Reply::Created(Ok(())) => ReplyModel::Created(Ok(())),
            Reply::Created(Err(message)) => ReplyModel::Created(Err(message@)),
        }
    }
}

/// A shared trash directory can be used: it is there, it is no symbolic
/// link, and it carries the sticky bit.
pub open spec fn usable_top_dir(meta: Option<TopDirMeta>) -> bool {
    meta matches Some(m) && !m.is_symlink && m.mode & STICKY_BIT != 0
}

/// The user's directory in the shared trash of a mount.
pub open spec fn shared_trash(mount: Seq<char>, uid: u64) -> Seq<char> {
    joined(joined(mount, TOP_DIR@), decimal_of(uid as int))
}

/// The user's own trash directory at the top of a mount.
pub open spec fn private_trash(mount: Seq<char>, uid: u64) -> Seq<char> {
    joined(mount, PRIVATE_PREFIX@ + decimal_of(uid as int))
}

/// The first step of the choice for a file whose owning mount has the
/// mount point `owner`: without an owner there is no choice; on the mount
/// of the home trash the file moves to the home trash; elsewhere the
/// directory `.Trash` of the mount is looked at first.
pub open spec fn selected(owner: Option<Seq<char>>, context: ContextModel) -> SelectionModel {
    match owner {
        None => SelectionModel::Failed(ErrorModel::NoMountPoint),
        Some(mount) => if components_of(mount) == components_of(context.home_mount) {
            SelectionModel::Chosen(StrategyModel::MoveTo(context.home_trash))
        } else {
            SelectionModel::Inspect { top_dir: joined(mount, TOP_DIR@), mount }
        },
    }
}

/// The next step of the choice. A shared trash that can be used is taken,
/// and not to get the user's directory in it is a failure. Else the user's
/// own trash directory at the top of the mount is taken; where that cannot
/// be made, the file is copied to the home trash. A reply to a question
/// that was not asked changes nothing.
pub open spec fn advanced(
    state: SelectionModel,
    reply: ReplyModel,
    context: ContextModel,
) -> SelectionModel {
    match (state, reply) {
        (SelectionModel::Inspect { top_dir, mount }, ReplyModel::Inspected(meta)) => if usable_top_dir(
            meta,
        ) {
            SelectionModel::CreateShared { trash: shared_trash(mount, context.uid) }
        } else {
            SelectionModel::CreatePrivate { trash: private_trash(mount, context.uid) }
        },
        (SelectionModel::CreateShared { trash }, ReplyModel::Created(Ok(()))) => SelectionModel::Chosen(
            StrategyModel::MoveTo(trash),
        ),
        (
            SelectionModel::CreateShared { trash },
            ReplyModel::Created(Err(message)),
        ) => SelectionModel::Failed(ErrorModel::Io(message)),
        (
            SelectionModel::CreatePrivate { trash },
            ReplyModel::Created(Ok(())),
        ) => SelectionModel::Chosen(StrategyModel::MoveTo(trash)),
        (SelectionModel::CreatePrivate { trash }, ReplyModel::Created(Err(_))) => SelectionModel::Chosen(
            StrategyModel::CopyTo(context.home_trash),
        ),
        _ => state,
    }
}

/// Whether the shared trash directory of a mount can be used, given what
/// was read off it.
pub fn should_use_topdir_trash(meta: Option<TopDirMeta>) -> (r: bool)
    ensures
        r == usable_top_dir(meta),
{
    match meta {
        Some(m) => !m.is_symlink && m.mode & STICKY_BIT != 0,
        None => false,
    }
}

impl Context {
    /// The context of a user with the given home trash: the mount that
    /// owns the home trash is looked up in the table. `None` where no mount
    /// owns it.
    pub fn new(home_trash: TrashDir, uid: u64, mounts: &Mounts, current_dir: Option<&str>) -> (r:
        Option<Context>)
        ensures
            match r {
                Some(context) => {
                    &&& context.home_trash@ == home_trash@
                    &&& context.uid == uid
                    &&& absolute_form(home_trash@, text_view(current_dir)) matches Some(full)
                    &&& exists|i: int|
                        owns(mounts@, full, i) && context.home_mount@ == (
                        #[trigger] mounts@[i]).mount_point
                },
                None => match absolute_form(home_trash@, text_view(current_dir)) {
                    Some(full) => forall|i: int|
                        0 <= i < mounts@.len() ==> !leads_to(
                            (#[trigger] mounts@[i]).mount_point,
                            full,
                        ),
                    None => true,
                },
            },
    {
        match mounts.get_mount_point(home_trash.path(), current_dir) {
            Some(home_mount) => Some(Context { home_trash, home_mount, uid }),
            None => None,
        }
    }
}

impl DeletionStrategy {
    /// The first step of the choice for the file at `target`: its owning
    /// mount is looked up in the table, and the choice begins there.
    pub fn pick_strategy(
        target: &str,
        current_dir: Option<&str>,
        mounts: &Mounts,
        context: &Context,
    ) -> (r: Selection)
        ensures
            picked(r@, target@, text_view(current_dir), mounts@, context@),
    {
        let owner = mounts.get_mount_point(target, current_dir);
        match owner {
            Some(mount) => DeletionStrategy::select(Some(mount.as_str()), context),
            None => DeletionStrategy::select(None, context),
        }
    }

    /// The first step of the choice for a file whose owning mount has the
    /// mount point `owner`.
    pub fn select(owner: Option<&str>, context: &Context) -> (r: Selection)
        ensures
            r@ == selected(text_view(owner), context@),
    {
        match owner {
            None => Selection::Failed(Error::NoMountPoint),
            Some(mount) => {
                if same_path(mount, context.home_mount.as_str()) {
                    Selection::Chosen(DeletionStrategy::MoveTo(context.home_trash.clone_dir()))
                } else {
                    Selection::Inspect { top_dir: join(mount, TOP_DIR), mount: mount.to_owned() }
                }
            },
        }
    }

    /// The trash directory that the strategy leads to, and whether the
    /// file has to be copied there.
    pub fn get_target_trash(&self) -> (r: (&TrashDir, bool))
        ensures
            match self {
                DeletionStrategy::Fixed(dir) => r.0 == dir && r.1,
                DeletionStrategy::MoveTo(dir) => r.0 == dir && !r.1,
                DeletionStrategy::CopyTo(dir) => r.0 == dir && r.1,
            },
    {
        match self {
            DeletionStrategy::Fixed(trash) => (trash, true),
            DeletionStrategy::MoveTo(trash) => (trash, false),
            DeletionStrategy::CopyTo(trash) => (trash, true),
        }
    }
}

impl Selection {
    /// The next step of the choice, after `reply` has come.
    pub fn advance(self, reply: Reply, context: &Context) -> (r: Selection)
        ensures
            r@ == advanced(self@, reply@, context@),
    {
        match self {
            Selection::Inspect { top_dir, mount } => match reply {
                Reply::Inspected(meta) => {
                    if should_use_topdir_trash(meta) {
                        let shared = join(mount.as_str(), TOP_DIR);
                        let number = decimal_u64(context.uid);
                        Selection::CreateShared {
                            trash: TrashDir(join(shared.as_str(), number.as_str())),
                        }
                    } else {
                        let mut name = String::from_str(PRIVATE_PREFIX);
                        name.append(decimal_u64(context.uid).as_str());
                        Selection::CreatePrivate { trash: TrashDir(join(mount.as_str(), name.as_str())) }
                    }
                },
                Reply::Created(made) => {
                    let state = Selection::Inspect { top_dir, mount };
                    assert(advanced(state@, Reply::Created(made)@, context@) == state@);
                    state
                },
            },
            Selection::CreateShared { trash } => match reply {
                Reply::Created(Ok(())) => Selection::Chosen(DeletionStrategy::MoveTo(trash)),
                Reply::Created(Err(message)) => Selection::Failed(Error::Io(message)),
                Reply::Inspected(_) => Selection::CreateShared { trash },
            },
            Selection::CreatePrivate { trash } => match reply {
                Reply::Created(Ok(())) => Selection::Chosen(DeletionStrategy::MoveTo(trash)),
                Reply::Created(Err(_)) => Selection::Chosen(
                    DeletionStrategy::CopyTo(context.home_trash.clone_dir()),
                ),
                Reply::Inspected(_) => Selection::CreatePrivate { trash },
            },
            Selection::Chosen(strategy) => Selection::Chosen(strategy),
            Selection::Failed(error) => Selection::Failed(error),
        }
    }
}


/// What the user is asked before a deletion.
#[derive(Debug, Clone, Copy, PartialEq, Eq, Structural)]
pub enum Question {
    /// Whether to go on although the file has to be copied, which may take
    /// long.
    Copy,
    /// Whether to remove the file.
    Remove,
}

/// The first index of the white space that `s` has directly before `end`.
pub open spec fn spaces_start(s: Seq<char>, end: int) -> int
    decreases end,
{
    if 0 < end <= s.len() && is_space(s[end - 1]) {
        spaces_start(s, end - 1)
    } else {
        end
    }
}

/// A text without the white space at its two ends.
pub open spec fn trimmed(s: Seq<char>) -> Seq<char> {
    let from = spaces_end(s, 0);
    let to = spaces_start(s, s.len() as int);
    if from < to {
        s.subrange(from, to)
    } else {
        Seq::empty()
    }
}

/// A capital letter from A to Z as a small one; any other character as it
/// is.
pub open spec fn lowered(c: char) -> char {
    if 'A' <= c && c <= 'Z' {
        ((c as u8) + 32) as char
    } else {
        c
    }
}

/// What an answer says: yes for `yes` and `y`, no for `no` and `n`, in
/// letters of either size and with white space around them or none; of any
/// other text nothing.
pub open spec fn answer_of(line: Seq<char>) -> Option<bool> {
    let word = trimmed(line).map_values(|c: char| lowered(c));
    if word == seq!['y', 'e', 's'] || word == seq!['y'] {
        Some(true)
    } else if word == seq!['n', 'o'] || word == seq!['n'] {
        Some(false)
    } else {
        None
    }
}

fn lower(c: char) -> (r: char)
    ensures
        r == lowered(c),
{
    if 'A' <= c && c <= 'Z' {
        ((c as u8) + 32) as char
    } else {
        c
    }
}

/// Reads the user's answer to a question.
pub fn parse_answer(line: &str) -> (r: Option<bool>)
    ensures
        r == answer_of(line@),
{
    let chars = chars_of(line);
    let mut from: usize = 0;
    while from < chars.len() && is_space_char(chars[from])
        invariant
            from <= chars.len(),
            spaces_end(chars@, 0) == spaces_end(chars@, from as int),
        decreases chars.len() - from,
    {
        from += 1;
    }
    let mut to: usize = chars.len();
    while to > 0 && is_space_char(chars[to - 1])
        invariant
            to <= chars.len(),
            spaces_start(chars@, chars.len() as int) == spaces_start(chars@, to as int),
        decreases to,
    {
        to -= 1;
    }
    let mut word: Vec<char> = Vec::new();
    let mut k: usize = from;
    while k < to
        invariant
            from <= k <= to <= chars.len() || (to < from && k == from),
            to < from ==> word@.len() == 0,
            from <= to ==> word@ == chars@.subrange(from as int, k as int).map_values(
                |c: char| lowered(c),
            ),
        decreases to - k,
    {
        word.push(lower(chars[k]));
        assert(chars@.subrange(from as int, k + 1) == chars@.subrange(from as int, k as int).push(
            chars@[k as int],
        ));
        k += 1;
    }
    assert(word@ == trimmed(line@).map_values(|c: char| lowered(c)));
    let n = word.len();
    let yes = (n == 3 && word[0] == 'y' && word[1] == 'e' && word[2] == 's') || (n == 1 && word[0]
        == 'y');
    let no = (n == 2 && word[0] == 'n' && word[1] == 'o') || (n == 1 && word[0] == 'n');
    assert(yes == (word@ =~= seq!['y', 'e', 's'] || word@ =~= seq!['y']));
    assert(no == (word@ =~= seq!['n', 'o'] || word@ =~= seq!['n']));
    if yes {
        Some(true)
    } else if no {
        Some(false)
    } else {
        None
    }
}

/// The strategy copies the file; only a move within one mount does not.
pub open spec fn copies(strategy: StrategyModel) -> bool {
    !(strategy is MoveTo)
}

/// The trash directory that a strategy leads to.
pub open spec fn trash_of(strategy: StrategyModel) -> Seq<char> {
    match strategy {
        StrategyModel::Fixed(dir) => dir,
        StrategyModel::MoveTo(dir) => dir,
        StrategyModel::CopyTo(dir) => dir,
    }
}

/// What the user is asked before a deletion, if anything: nothing where
/// asking is switched off; else about the copying where the file has to be
/// copied, and about the removal where every removal is to be confirmed.
pub open spec fn question_for(strategy: StrategyModel, force: bool, prompt: bool) -> Option<
    Question,
> {
    if force {
        None
    } else if copies(strategy) {
        Some(Question::Copy)
    } else if prompt {
        Some(Question::Remove)
    } else {
        None
    }
}

/// The name under which a file lies in the trash: the milliseconds of the
/// moment of its deletion, a dot, and its own name.
pub open spec fn entry_name(millis: i64, name: Seq<char>) -> Seq<char> {
    decimal_of(millis as int) + seq!['.'] + name
}

/// Why a deletion is refused, if it is: the current directory and the one
/// above it are never trashed, whatever the strategy; a question that was
/// due has to be answered with yes; and the file needs a name.
pub open spec fn refusal(
    strategy: StrategyModel,
    target: Seq<char>,
    current_dir: Seq<char>,
    force: bool,
    prompt: bool,
    answer: Option<bool>,
) -> Option<ErrorModel> {
    let full = absolute_form(target, Some(current_dir)).unwrap();
    if names_dir_or_parent(full, current_dir) {
        Some(ErrorModel::CannotTrashDotDirs)
    } else if question_for(strategy, force, prompt) is Some && answer != Some(true) {
        Some(ErrorModel::CancelledByUser)
    } else if name_of(target) is None {
        Some(ErrorModel::NoFileName(target))
    } else {
        None
    }
}

/// What a deletion consists of, in this order: the record `info` is
/// written to its `info_path`; then the file moves to its `deleted_path`,
/// by copying the whole tree and removing the source where `copy` holds,
/// by renaming where it does not.
#[derive(Debug)]
pub struct Deletion {
    pub info: TrashInfo,
    pub copy: bool,
}

/// `selection` is a first step of the choice for the file at `target`,
/// with the mounts of `mounts`.
pub open spec fn picked(
    selection: SelectionModel,
    target: Seq<char>,
    current_dir: Option<Seq<char>>,
    mounts: Seq<MountModel>,
    context: ContextModel,
) -> bool {
    match absolute_form(target, current_dir) {
        None => selection == selected(None, context),
        Some(full) => (exists|i: int|
            owns(mounts, full, i) && selection == selected(
                Some((#[trigger] mounts[i]).mount_point),
                context,
            )) || ((forall|i: int|
            0 <= i < mounts.len() ==> !leads_to((#[trigger] mounts[i]).mount_point, full))
            && selection == selected(None, context)),
    }
}

impl DeletionStrategy {
    /// What the user is to be asked before the deletion, if anything.
    pub fn confirmation(&self, options: &PutOptions) -> (r: Option<Question>)
        ensures
            r == question_for(self@, options.force, options.prompt),
    {
        let (_, requires_copy) = self.get_target_trash();
        if options.force {
            None
        } else if requires_copy {
            Some(Question::Copy)
        } else if options.prompt {
            Some(Question::Remove)
        } else {
            None
        }
    }

    /// Plans the deletion of the file at `target`. `current_dir` is the
    /// current directory in its canonical form and `answer` the user's
    /// answer to the question that `confirmation` gave, if one was asked.
    /// `now` is the moment of the deletion and `millis` the same moment in
    /// milliseconds since 1970.
    pub fn delete(
        &self,
        target: &str,
        current_dir: &str,
        options: &PutOptions,
        answer: Option<bool>,
        now: DeletionDate,
        millis: i64,
    ) -> (r: Result<Deletion, Error>)
        ensures
            match r {
                Err(error) => refusal(
                    self@,
                    target@,
                    current_dir@,
                    options.force,
                    options.prompt,
                    answer,
                ) == Some(error@),
                Ok(deletion) => {
                    &&& refusal(
                        self@,
                        target@,
                        current_dir@,
                        options.force,
                        options.prompt,
                        answer,
                    ) is None
                    &&& deletion.copy == copies(self@)
                    &&& Some(deletion.info.path@) == absolute_form(target@, Some(current_dir@))
                    &&& deletion.info.deletion_date == now
                    &&& deletion.info.deleted_path@ == joined(
                        joined(trash_of(self@), FILES_DIR@),
                        entry_name(millis, name_of(target@).unwrap()),
                    )
                    &&& deletion.info.info_path@ == joined(
                        joined(trash_of(self@), INFO_DIR@),
                        entry_name(millis, name_of(target@).unwrap()) + RECORD_SUFFIX@,
                    )
                },
            },
    {
        let full = if is_absolute(target) {
            target.to_owned()
        } else {
            join(current_dir, target)
        };
        if is_dir_or_parent(full.as_str(), current_dir) {
            return Err(Error::CannotTrashDotDirs);
        }
        let (trash_dir, requires_copy) = self.get_target_trash();
        match self.confirmation(options) {
            Some(_) => {
                match answer {
                    Some(true) => {},
                    _ => {
                        return Err(Error::CancelledByUser);
                    },
                }
            },
            None => {},
        }
        let name = match file_name(target) {
            Some(name) => name,
            None => {
                return Err(Error::NoFileName(target.to_owned()));
            },
        };
        proof {
            reveal_strlit(".");
        }
        let mut entry = decimal_i64(millis);
        entry.append(".");
        assert("."@ == seq!['.']);
        entry.append(string_of(&name, 0, name.len()).as_str());
        assert(name@.subrange(0, name@.len() as int) == name@);
        let deleted_path = join(trash_dir.files_dir().as_str(), entry.as_str());
        entry.append(RECORD_SUFFIX);
        let info_path = join(trash_dir.info_dir().as_str(), entry.as_str());
        Ok(
            Deletion {
                info: TrashInfo { path: full, deletion_date: now, deleted_path, info_path },
                copy: requires_copy,
            },
        )
    }
}

/// Begins to put the file at `path` into the trash: the current directory
/// and the one above it are refused; a trash directory that the options
/// name is taken as it is; else the choice of a strategy begins.
pub fn put(
    options: &PutOptions,
    path: &str,
    current_dir: &str,
    mounts: &Mounts,
    context: &Context,
) -> (r: Result<Selection, Error>)
    ensures
        match r {
            Err(error) => error@ == ErrorModel::CannotTrashDotDirs && names_dir_or_parent(
                absolute_form(path@, Some(current_dir@)).unwrap(),
                current_dir@,
            ),
            Ok(selection) => !names_dir_or_parent(
                absolute_form(path@, Some(current_dir@)).unwrap(),
                current_dir@,
            ) && match options.trash_dir {
                Some(dir) => selection@ == SelectionModel::Chosen(StrategyModel::Fixed(dir@)),
                None => picked(selection@, path@, Some(current_dir@), mounts@, context@),
            },
        },
{
    let full = if is_absolute(path) {
        path.to_owned()
    } else {
        join(current_dir, path)
    };
    if is_dir_or_parent(full.as_str(), current_dir) {
        return Err(Error::CannotTrashDotDirs);
    }
    match &options.trash_dir {
        Some(dir) => Ok(Selection::Chosen(DeletionStrategy::Fixed(TrashDir::from(dir.as_str())))),
        None => Ok(DeletionStrategy::pick_strategy(path, Some(current_dir), mounts, context)),
    }
}

/// A file on the mount of the home trash moves to the home trash: where
/// the mount that owns the file has the mount point of the mount that owns
/// the home trash, the choice is made at once.
pub proof fn lemma_home_mount(mount: Seq<char>, context: ContextModel)
    requires
        components_of(mount) == components_of(context.home_mount),
    ensures
        selected(Some(mount), context) == SelectionModel::Chosen(
            StrategyModel::MoveTo(context.home_trash),
        ),
{
}

/// A file on another mount whose directory `.Trash` is there, is no
/// symbolic link and carries the sticky bit moves to the user's directory
/// in it, once that directory is there.
pub proof fn lemma_shared_trash(mount: Seq<char>, context: ContextModel, meta: TopDirMeta)
    requires
        components_of(mount) != components_of(context.home_mount),
        !meta.is_symlink,
        meta.mode & STICKY_BIT != 0,
    ensures
        advanced(
            advanced(selected(Some(mount), context), ReplyModel::Inspected(Some(meta)), context),
            ReplyModel::Created(Ok(())),
            context,
        ) == SelectionModel::Chosen(StrategyModel::MoveTo(shared_trash(mount, context.uid))),
{
}

/// A file on another mount with no shared trash that can be used moves to
/// the user's own trash directory at the top of the mount, once that is
/// there.
pub proof fn lemma_private_trash(mount: Seq<char>, context: ContextModel, meta: Option<TopDirMeta>)
    requires
        components_of(mount) != components_of(context.home_mount),
        !usable_top_dir(meta),
    ensures
        advanced(
            advanced(selected(Some(mount), context), ReplyModel::Inspected(meta), context),
            ReplyModel::Created(Ok(())),
            context,
        ) == SelectionModel::Chosen(StrategyModel::MoveTo(private_trash(mount, context.uid))),
{
}

/// A file on another mount with no shared trash that can be used, and
/// whose own trash directory at the top of the mount cannot be made, is
/// copied to the home trash.
pub proof fn lemma_copy_fallback(
    mount: Seq<char>,
    context: ContextModel,
    meta: Option<TopDirMeta>,
    message: Seq<char>,
)
    requires
        components_of(mount) != components_of(context.home_mount),
        !usable_top_dir(meta),
    ensures
        advanced(
            advanced(selected(Some(mount), context), ReplyModel::Inspected(meta), context),
            ReplyModel::Created(Err(message)),
            context,
        ) == SelectionModel::Chosen(StrategyModel::CopyTo(context.home_trash)),
{
}

/// The current directory and the one above it are never trashed, whatever
/// the strategy, the options and the answer.
pub proof fn lemma_dot_dirs_refused(
    strategy: StrategyModel,
    target: Seq<char>,
    current_dir: Seq<char>,
    force: bool,
    prompt: bool,
    answer: Option<bool>,
)
    requires
        names_dir_or_parent(absolute_form(target, Some(current_dir)).unwrap(), current_dir),
    ensures
        refusal(strategy, target, current_dir, force, prompt, answer) == Some(
            ErrorModel::CannotTrashDotDirs,
        ),
{
}

} // verus!
