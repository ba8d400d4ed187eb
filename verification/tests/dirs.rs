use garbage::dir::{file_name, payload_path, IterStep, TrashDir, WalkEvent};
use garbage::errors::Error;

fn entry(path: &str, is_dir: bool) -> WalkEvent {
    WalkEvent::Entry { path: path.to_string(), is_dir }
}

#[test]
fn a_trash_directory_is_its_path() {
    let dir = TrashDir::from("/home/u/.local/share/Trash");
    assert_eq!(dir.path(), "/home/u/.local/share/Trash");
    assert_eq!(dir.0, "/home/u/.local/share/Trash");
    assert_eq!(dir.clone_dir().path(), dir.path());
}

#[test]
fn the_home_trash_lies_in_the_data_directory() {
    assert_eq!(TrashDir::get_home_trash("/home/u/.local/share").path(), "/home/u/.local/share/Trash");
    assert_eq!(TrashDir::get_home_trash("/data/").path(), "/data/Trash");
}

#[test]
fn without_a_path_the_home_trash_is_taken() {
    assert_eq!(TrashDir::from_opt(Some("/mnt/x/.Trash-1000"), "/data").path(), "/mnt/x/.Trash-1000");
    assert_eq!(TrashDir::from_opt(None, "/data").path(), "/data/Trash");
}

#[test]
fn payloads_and_records_have_their_directories() {
    let dir = TrashDir::from("/t");
    assert_eq!(dir.files_dir(), "/t/files");
    assert_eq!(dir.info_dir(), "/t/info");
    let dir = TrashDir::from("/t/");
    assert_eq!(dir.files_dir(), "/t/files");
    assert_eq!(dir.info_dir(), "/t/info");
}

#[test]
fn the_directory_of_records_is_given_if_it_is_there() {
    let dir = TrashDir::from("/t");
    assert!(matches!(dir.check_info_dir(true), Ok(Some(path)) if path == "/t/info"));
    assert!(matches!(dir.check_info_dir(false), Ok(None)));
}

#[test]
fn a_directory_that_is_there_is_not_made() {
    let dir = TrashDir::from("/t");
    assert_eq!(dir.create(false), Some("/t"));
    assert_eq!(dir.create(true), None);
}

#[test]
fn records_are_told_by_their_names() {
    assert_eq!(payload_path("/t", "/t/info/1.doc.txt.trashinfo", false), Some("/t/files/1.doc.txt".to_string()));
    assert_eq!(payload_path("/t", "/t/info/sub/a.trashinfo", false), Some("/t/files/a".to_string()));
    assert_eq!(payload_path("/t/", "a.trashinfo", false), Some("/t/files/a".to_string()));
    assert_eq!(payload_path("/t", "/t/info/a.trashinfo/", false), Some("/t/files/a".to_string()));
    assert_eq!(payload_path("/t", "/t/info/a.trashinfo", true), None);
    assert_eq!(payload_path("/t", "/t/info/.trashinfo", false), None);
    assert_eq!(payload_path("/t", "/t/info/a.trashinfo.bak", false), None);
    assert_eq!(payload_path("/t", "/t/info/atrashinfo", false), None);
    assert_eq!(payload_path("/t", "/t/info/a.TRASHINFO", false), None);
    assert_eq!(payload_path("/t", "/t/info/..", false), None);
    assert_eq!(payload_path("/t", "/", false), None);
    assert_eq!(payload_path("/t", "", false), None);
}

#[test]
fn the_suffix_of_a_record_is_taken_off_once() {
    assert_eq!(
        payload_path("/t", "/t/info/1.x.trashinfo.trashinfo", false),
        Some("/t/files/1.x.trashinfo".to_string())
    );
}

#[test]
fn names_are_the_last_component() {
    assert_eq!(file_name("/a/b.txt"), Some(vec!['b', '.', 't', 'x', 't']));
    assert_eq!(file_name("/a/b/"), Some(vec!['b']));
    assert_eq!(file_name("/a/b/."), Some(vec!['b']));
    assert_eq!(file_name("b"), Some(vec!['b']));
    assert_eq!(file_name("/"), None);
    assert_eq!(file_name("/a/.."), None);
    assert_eq!(file_name("."), None);
    assert_eq!(file_name(""), None);
    for path in ["/a/b.txt", "/a/b/", "/a/b/.", "b", "/", "/a/..", ".", "", "..", "a/.b"] {
        let expected: Option<Vec<char>> = std::path::Path::new(path)
            .file_name()
            .map(|name| name.to_str().unwrap().chars().collect());
        assert_eq!(file_name(path), expected);
    }
}

#[test]
fn the_iterator_reads_records_and_passes_over_the_rest() {
    let dir = TrashDir::from("/t");
    let mut iter = dir.iter();
    assert!(!iter.is_finished());
    match iter.next(entry("/t/info/1.a.trashinfo", false)) {
        IterStep::Read { info_path, deleted_path } => {
            assert_eq!(info_path, "/t/info/1.a.trashinfo");
            assert_eq!(deleted_path, "/t/files/1.a");
        }
        other => panic!("{:?}", matches!(other, IterStep::Skip)),
    }
    assert!(matches!(iter.next(entry("/t/info/readme", false)), IterStep::Skip));
    assert!(matches!(iter.next(entry("/t/info/dir.trashinfo", true)), IterStep::Skip));
    assert!(matches!(iter.next(entry("/t/info", true)), IterStep::Skip));
    assert!(!iter.is_finished());
    assert!(matches!(iter.next(WalkEvent::End), IterStep::Done));
    assert!(iter.is_finished());
    assert!(matches!(iter.next(entry("/t/info/2.b.trashinfo", false)), IterStep::Done));
}

#[test]
fn a_failure_of_the_walk_is_the_last_item() {
    let mut iter = TrashDir::from("/t").iter();
    assert!(matches!(iter.next(entry("/t/info/1.a.trashinfo", false)), IterStep::Read { .. }));
    match iter.next(WalkEvent::Failure("permission denied".to_string())) {
        IterStep::Fail(Error::WalkDir(message)) => assert_eq!(message, "permission denied"),
        _ => panic!("the failure was not yielded"),
    }
    assert!(iter.is_finished());
    assert!(matches!(iter.next(entry("/t/info/2.b.trashinfo", false)), IterStep::Done));
    assert!(matches!(iter.next(WalkEvent::End), IterStep::Done));
}

#[test]
fn records_have_the_extension_trashinfo() {
    for name in [
        "a.trashinfo", ".trashinfo", "..trashinfo", "a.b.trashinfo", "a.trashinfo.", "trashinfo",
        "a.trashinfo.trashinfo", "a.Trashinfo", "a.trashinfox", "\u{e9}.trashinfo", "a",
        "a .trashinfo", ".a.trashinfo",
    ] {
        let path = format!("/t/info/{}", name);
        let expected = std::path::Path::new(&path).extension().map(|e| e == "trashinfo") == Some(true);
        assert_eq!(payload_path("/t", &path, false).is_some(), expected);
        let stem = std::path::Path::new(&path).file_stem().unwrap().to_str().unwrap().to_string();
        if expected {
            assert_eq!(payload_path("/t", &path, false), Some(format!("/t/files/{}", stem)));
        }
    }
}
