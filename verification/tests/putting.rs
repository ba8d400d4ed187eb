use garbage::date::DeletionDate;
use garbage::dir::TrashDir;
use garbage::mounts::Mounts;
use garbage::ops::put::{
    parse_answer, put, should_use_topdir_trash, Context, DeletionStrategy, Error, PutOptions,
    Question, Reply, Selection, TopDirMeta,
};

const TABLE: &[u8] = b"1 0 8:2 / / rw - ext4 /dev/sda2 rw\n\
2 1 8:17 / /mnt/data rw - ext4 /dev/sdb1 rw\n\
3 1 8:33 / /home rw - ext4 /dev/sdc1 rw\n";

fn mounts() -> Mounts {
    Mounts::read(TABLE).unwrap()
}

fn context() -> Context {
    Context::new(TrashDir::from("/home/u/.local/share/Trash"), 1000, &mounts(), None).unwrap()
}

fn options() -> PutOptions {
    PutOptions {
        paths: Vec::new(),
        dry: false,
        prompt: false,
        recursive: false,
        force: false,
        trash_dir: None,
    }
}

fn sticky() -> Option<TopDirMeta> {
    Some(TopDirMeta { is_symlink: false, mode: 0o41777 })
}

fn now() -> DeletionDate {
    DeletionDate::from_timestamp(1583298367).unwrap()
}

#[test]
fn the_context_knows_the_mount_of_the_home_trash() {
    let context = context();
    assert_eq!(context.home_mount, "/home");
    assert_eq!(context.home_trash.path(), "/home/u/.local/share/Trash");
    assert_eq!(context.uid, 1000);
    let nowhere = Mounts::read(b"2 1 8:17 / /mnt/data rw - ext4 /dev/sdb1 rw\n").unwrap();
    assert!(Context::new(TrashDir::from("/home/u/Trash"), 1000, &nowhere, None).is_none());
    assert!(Context::new(TrashDir::from("Trash"), 1000, &mounts(), None).is_none());
    let seen = Context::new(TrashDir::from("Trash"), 1000, &mounts(), Some("/mnt/data")).unwrap();
    assert_eq!(seen.home_mount, "/mnt/data");
}

#[test]
fn on_the_home_mount_the_file_moves_to_the_home_trash() {
    let context = context();
    for target in ["/home/u/doc.txt", "/home/other/x", "/home", "/home//u/./doc.txt"] {
        match DeletionStrategy::pick_strategy(target, None, &mounts(), &context) {
            Selection::Chosen(DeletionStrategy::MoveTo(dir)) => {
                assert_eq!(dir.path(), "/home/u/.local/share/Trash")
            }
            _ => panic!("no move to the home trash"),
        }
    }
    match DeletionStrategy::pick_strategy("doc.txt", Some("/home/u"), &mounts(), &context) {
        Selection::Chosen(DeletionStrategy::MoveTo(dir)) => {
            assert_eq!(dir.path(), "/home/u/.local/share/Trash")
        }
        _ => panic!("no move to the home trash"),
    }
}

#[test]
fn on_another_mount_a_shared_trash_with_the_sticky_bit_is_taken() {
    let context = context();
    let first = DeletionStrategy::pick_strategy("/mnt/data/x/y", None, &mounts(), &context);
    match &first {
        Selection::Inspect { top_dir, mount } => {
            assert_eq!(top_dir, "/mnt/data/.Trash");
            assert_eq!(mount, "/mnt/data");
        }
        _ => panic!("the top directory is not looked at"),
    }
    let second = first.advance(Reply::Inspected(sticky()), &context);
    match &second {
        Selection::CreateShared { trash } => assert_eq!(trash.path(), "/mnt/data/.Trash/1000"),
        _ => panic!("the shared trash is not taken"),
    }
    match second.advance(Reply::Created(Ok(())), &context) {
        Selection::Chosen(DeletionStrategy::MoveTo(dir)) => {
            assert_eq!(dir.path(), "/mnt/data/.Trash/1000")
        }
        _ => panic!("no move to the shared trash"),
    }
}

#[test]
fn a_shared_trash_that_cannot_be_made_ready_is_a_failure() {
    let context = context();
    let state = DeletionStrategy::pick_strategy("/mnt/data/x", None, &mounts(), &context)
        .advance(Reply::Inspected(sticky()), &context)
        .advance(Reply::Created(Err("read-only file system".to_string())), &context);
    match state {
        Selection::Failed(Error::Io(message)) => assert_eq!(message, "read-only file system"),
        _ => panic!("no failure"),
    }
}

#[test]
fn without_a_shared_trash_the_users_own_trash_is_taken() {
    let context = context();
    for meta in [
        None,
        Some(TopDirMeta { is_symlink: true, mode: 0o41777 }),
        Some(TopDirMeta { is_symlink: false, mode: 0o40777 }),
    ] {
        let second = DeletionStrategy::pick_strategy("/etc/x", None, &mounts(), &context)
            .advance(Reply::Inspected(meta), &context);
        match &second {
            Selection::CreatePrivate { trash } => assert_eq!(trash.path(), "/.Trash-1000"),
            _ => panic!("the private trash is not taken"),
        }
        match second.advance(Reply::Created(Ok(())), &context) {
            Selection::Chosen(DeletionStrategy::MoveTo(dir)) => assert_eq!(dir.path(), "/.Trash-1000"),
            _ => panic!("no move to the private trash"),
        }
    }
}

#[test]
fn without_any_trash_on_the_mount_the_file_is_copied_home() {
    let context = context();
    let state = DeletionStrategy::pick_strategy("/mnt/data/x", None, &mounts(), &context)
        .advance(Reply::Inspected(None), &context)
        .advance(Reply::Created(Err("permission denied".to_string())), &context);
    match state {
        Selection::Chosen(DeletionStrategy::CopyTo(dir)) => {
            assert_eq!(dir.path(), "/home/u/.local/share/Trash")
        }
        _ => panic!("no copy to the home trash"),
    }
}

#[test]
fn without_a_mount_there_is_no_choice() {
    let context = context();
    let nowhere = Mounts::read(b"3 1 8:33 / /home rw - ext4 /dev/sdc1 rw\n").unwrap();
    assert!(matches!(
        DeletionStrategy::pick_strategy("/mnt/x", None, &nowhere, &context),
        Selection::Failed(Error::NoMountPoint)
    ));
    assert!(matches!(
        DeletionStrategy::pick_strategy("relative", None, &mounts(), &context),
        Selection::Failed(Error::NoMountPoint)
    ));
    assert!(matches!(DeletionStrategy::select(None, &context), Selection::Failed(Error::NoMountPoint)));
}

#[test]
fn a_reply_to_another_question_changes_nothing() {
    let context = context();
    let first = DeletionStrategy::select(Some("/mnt/data"), &context);
    let same = first.advance(Reply::Created(Ok(())), &context);
    assert!(matches!(&same, Selection::Inspect { top_dir, .. } if top_dir == "/mnt/data/.Trash"));
    let second = same.advance(Reply::Inspected(None), &context);
    let still = second.advance(Reply::Inspected(sticky()), &context);
    assert!(matches!(&still, Selection::CreatePrivate { trash } if trash.path() == "/mnt/data/.Trash-1000"));
    let done = still.advance(Reply::Created(Ok(())), &context);
    let kept = done.advance(Reply::Created(Err("late".to_string())), &context);
    assert!(matches!(kept, Selection::Chosen(DeletionStrategy::MoveTo(_))));
}

#[test]
fn the_sticky_bit_decides_on_a_shared_trash() {
    assert!(should_use_topdir_trash(Some(TopDirMeta { is_symlink: false, mode: 0o1000 })));
    assert!(should_use_topdir_trash(Some(TopDirMeta { is_symlink: false, mode: 0o41777 })));
    assert!(!should_use_topdir_trash(Some(TopDirMeta { is_symlink: false, mode: 0o40777 })));
    assert!(!should_use_topdir_trash(Some(TopDirMeta { is_symlink: false, mode: 0o0777 })));
    assert!(!should_use_topdir_trash(Some(TopDirMeta { is_symlink: true, mode: 0o41777 })));
    assert!(!should_use_topdir_trash(None));
}

#[test]
fn only_a_move_needs_no_copy() {
    let strategy = DeletionStrategy::Fixed(TrashDir::from("/a"));
    let (dir, copy) = strategy.get_target_trash();
    assert_eq!((dir.path(), copy), ("/a", true));
    let strategy = DeletionStrategy::MoveTo(TrashDir::from("/b"));
    let (dir, copy) = strategy.get_target_trash();
    assert_eq!((dir.path(), copy), ("/b", false));
    let strategy = DeletionStrategy::CopyTo(TrashDir::from("/c"));
    let (dir, copy) = strategy.get_target_trash();
    assert_eq!((dir.path(), copy), ("/c", true));
}

#[test]
fn the_user_is_asked_about_copies_and_on_demand() {
    let moving = DeletionStrategy::MoveTo(TrashDir::from("/t"));
    let copying = DeletionStrategy::CopyTo(TrashDir::from("/t"));
    let fixed = DeletionStrategy::Fixed(TrashDir::from("/t"));
    let plain = options();
    assert_eq!(moving.confirmation(&plain), None);
    assert_eq!(copying.confirmation(&plain), Some(Question::Copy));
    assert_eq!(fixed.confirmation(&plain), Some(Question::Copy));
    let asking = PutOptions { prompt: true, ..options() };
    assert_eq!(moving.confirmation(&asking), Some(Question::Remove));
    assert_eq!(copying.confirmation(&asking), Some(Question::Copy));
    let forced = PutOptions { prompt: true, force: true, ..options() };
    assert_eq!(moving.confirmation(&forced), None);
    assert_eq!(copying.confirmation(&forced), None);
}

#[test]
fn answers_are_yes_or_no() {
    for line in ["y", "yes", "Y", "YES", "Yes\n", "  yEs \r\n", "\ty\n"] {
        assert_eq!(parse_answer(line), Some(true));
    }
    for line in ["n", "no", "N", "NO", "No\n", " nO  "] {
        assert_eq!(parse_answer(line), Some(false));
    }
    for line in ["", "\n", "yes please", "ye", "nope", "y e s", "yess", "1", "\u{ff59}"] {
        assert_eq!(parse_answer(line), None);
    }
    for line in ["y", "YES", "  yEs \r\n", "No\n", "", "ye", "yes please", "\u{a0}n\u{2003}"] {
        let word = line.trim().to_lowercase();
        let expected = match word.as_str() {
            "yes" | "y" => Some(true),
            "no" | "n" => Some(false),
            _ => None,
        };
        assert_eq!(parse_answer(line), expected);
    }
}

#[test]
fn a_deletion_names_the_payload_and_the_record() {
    let strategy = DeletionStrategy::MoveTo(TrashDir::from("/home/u/.local/share/Trash"));
    let deletion = strategy
        .delete("/home/u/doc.txt", "/home/u/work", &options(), None, now(), 1583298367123)
        .unwrap();
    assert!(!deletion.copy);
    assert_eq!(deletion.info.path, "/home/u/doc.txt");
    assert_eq!(deletion.info.deletion_date.timestamp(), 1583298367);
    assert_eq!(
        deletion.info.deleted_path,
        "/home/u/.local/share/Trash/files/1583298367123.doc.txt"
    );
    assert_eq!(
        deletion.info.info_path,
        "/home/u/.local/share/Trash/info/1583298367123.doc.txt.trashinfo"
    );
}

#[test]
fn a_relative_target_is_recorded_with_its_absolute_path() {
    let strategy = DeletionStrategy::MoveTo(TrashDir::from("/t"));
    let deletion =
        strategy.delete("sub/doc.txt", "/home/u", &options(), None, now(), -5).unwrap();
    assert_eq!(deletion.info.path, "/home/u/sub/doc.txt");
    assert_eq!(deletion.info.deleted_path, "/t/files/-5.doc.txt");
    assert_eq!(deletion.info.info_path, "/t/info/-5.doc.txt.trashinfo");
    let deletion = strategy.delete("sub/dir/", "/home/u", &options(), None, now(), 0).unwrap();
    assert_eq!(deletion.info.path, "/home/u/sub/dir/");
    assert_eq!(deletion.info.deleted_path, "/t/files/0.dir");
}

#[test]
fn a_copy_has_to_be_confirmed() {
    let copying = DeletionStrategy::CopyTo(TrashDir::from("/t"));
    let fixed = DeletionStrategy::Fixed(TrashDir::from("/t"));
    for answer in [None, Some(false)] {
        assert!(matches!(
            copying.delete("/mnt/x", "/home/u", &options(), answer, now(), 1),
            Err(Error::CancelledByUser)
        ));
        assert!(matches!(
            fixed.delete("/mnt/x", "/home/u", &options(), answer, now(), 1),
            Err(Error::CancelledByUser)
        ));
    }
    let deletion = copying.delete("/mnt/x", "/home/u", &options(), Some(true), now(), 1).unwrap();
    assert!(deletion.copy);
    assert_eq!(deletion.info.deleted_path, "/t/files/1.x");
    let forced = PutOptions { force: true, ..options() };
    let deletion = fixed.delete("/mnt/x", "/home/u", &forced, None, now(), 1).unwrap();
    assert!(deletion.copy);
    let asking = PutOptions { prompt: true, ..options() };
    let moving = DeletionStrategy::MoveTo(TrashDir::from("/t"));
    assert!(matches!(
        moving.delete("/mnt/x", "/home/u", &asking, Some(false), now(), 1),
        Err(Error::CancelledByUser)
    ));
    assert!(moving.delete("/mnt/x", "/home/u", &asking, Some(true), now(), 1).is_ok());
}

#[test]
fn the_current_directory_and_its_parent_are_never_trashed() {
    let forced = PutOptions { force: true, ..options() };
    for strategy in [
        DeletionStrategy::MoveTo(TrashDir::from("/t")),
        DeletionStrategy::CopyTo(TrashDir::from("/t")),
        DeletionStrategy::Fixed(TrashDir::from("/t")),
    ] {
        for target in [".", "..", "./", "../", "/home/u", "/home", "/home/u/", "x/..", "x/../.."] {
            for answer in [None, Some(true), Some(false)] {
                assert!(matches!(
                    strategy.delete(target, "/home/u", &forced, answer, now(), 1),
                    Err(Error::CannotTrashDotDirs)
                ));
                assert!(matches!(
                    strategy.delete(target, "/home/u", &options(), answer, now(), 1),
                    Err(Error::CannotTrashDotDirs)
                ));
            }
        }
    }
}

#[test]
fn a_target_without_a_name_is_refused() {
    let moving = DeletionStrategy::MoveTo(TrashDir::from("/t"));
    match moving.delete("/", "/home/u", &options(), None, now(), 1) {
        Err(Error::NoFileName(path)) => assert_eq!(path, "/"),
        _ => panic!("the root was not refused"),
    }
    assert!(matches!(
        moving.delete("/a/b/c/..", "/home/u", &options(), None, now(), 1),
        Err(Error::NoFileName(_))
    ));
}

#[test]
fn put_refuses_the_dot_directories_first() {
    let context = context();
    let fixed = PutOptions { trash_dir: Some("/fixed".to_string()), ..options() };
    for target in [".", "..", "/home/u", "/home"] {
        assert!(matches!(
            put(&options(), target, "/home/u", &mounts(), &context),
            Err(Error::CannotTrashDotDirs)
        ));
        assert!(matches!(
            put(&fixed, target, "/home/u", &mounts(), &context),
            Err(Error::CannotTrashDotDirs)
        ));
    }
}

#[test]
fn put_takes_the_trash_directory_of_the_options() {
    let context = context();
    let fixed = PutOptions { trash_dir: Some("/fixed".to_string()), ..options() };
    match put(&fixed, "/mnt/data/x", "/home/u", &mounts(), &context) {
        Ok(Selection::Chosen(DeletionStrategy::Fixed(dir))) => assert_eq!(dir.path(), "/fixed"),
        _ => panic!("the fixed trash was not taken"),
    }
    match put(&options(), "doc.txt", "/home/u", &mounts(), &context) {
        Ok(Selection::Chosen(DeletionStrategy::MoveTo(dir))) => {
            assert_eq!(dir.path(), "/home/u/.local/share/Trash")
        }
        _ => panic!("no move to the home trash"),
    }
    match put(&options(), "/mnt/data/x", "/home/u", &mounts(), &context) {
        Ok(Selection::Inspect { top_dir, .. }) => assert_eq!(top_dir, "/mnt/data/.Trash"),
        _ => panic!("the top directory is not looked at"),
    }
}
