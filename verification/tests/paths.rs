use garbage::path::{
    components, has_prefix, is_absolute, is_dir_or_parent, join, place, same_path, starts_with,
};
use garbage::text::{chars_of, decimal_i64, decimal_u64, split_lines};
use garbage::utils::into_absolute;

fn parts(path: &str) -> Vec<String> {
    components(path).iter().map(|part| part.iter().collect()).collect()
}

fn resolved(path: &str) -> Vec<String> {
    place(path).iter().map(|part| part.iter().collect()).collect()
}

fn lines(text: &str) -> Vec<String> {
    split_lines(&chars_of(text)).iter().map(|line| line.iter().collect()).collect()
}

#[test]
fn components_are_cut_at_separators() {
    assert_eq!(parts("/mnt/data"), vec!["/", "mnt", "data"]);
    assert_eq!(parts("/"), vec!["/"]);
    assert_eq!(parts(""), Vec::<String>::new());
    assert_eq!(parts("a/b"), vec!["a", "b"]);
    assert_eq!(parts("//a///b//"), vec!["/", "a", "b"]);
    assert_eq!(parts("/a/./b/."), vec!["/", "a", "b"]);
    assert_eq!(parts("./a/./b"), vec![".", "a", "b"]);
    assert_eq!(parts("."), vec!["."]);
    assert_eq!(parts("a/../b"), vec!["a", "..", "b"]);
    assert_eq!(parts("/.hidden/..x"), vec!["/", ".hidden", "..x"]);
}

#[test]
fn components_agree_with_the_standard_library() {
    for path in [
        "/mnt/data", "/", "", "a/b", "//a///b//", "/a/./b/.", "./a/./b", ".", "..", "a/../b",
        "./.", "././a", "/./a", "a/.", "/..", "../a", "a//", ".a/b.", "/a/b/../c/./d/",
    ] {
        let expected: Vec<String> = std::path::Path::new(path)
            .components()
            .map(|part| part.as_os_str().to_str().unwrap().to_string())
            .collect();
        assert_eq!(parts(path), expected);
    }
}

#[test]
fn a_path_starts_with_whole_components_only() {
    assert!(starts_with("/mnt/data/x/y", "/mnt/data"));
    assert!(starts_with("/mnt/data/x/y", "/"));
    assert!(starts_with("/mnt/data", "/mnt/data/"));
    assert!(starts_with("/mnt//data/./x", "/mnt/data"));
    assert!(!starts_with("/mnt/database", "/mnt/data"));
    assert!(!starts_with("/mnt", "/mnt/data"));
    assert!(!starts_with("mnt/data", "/"));
    assert!(starts_with("mnt/data", ""));
    assert!(has_prefix(&components("/a/b"), &components("/a")));
    assert!(!has_prefix(&components("/a"), &components("/a/b")));
}

#[test]
fn paths_are_the_same_by_their_components() {
    assert!(same_path("/a/b", "/a//b/"));
    assert!(same_path("/a/b", "/a/./b"));
    assert!(!same_path("/a/b", "a/b"));
    assert!(!same_path("/a/b", "/a/b/c"));
    assert!(!same_path("/a/b/..", "/a"));
}

#[test]
fn join_puts_a_separator_where_one_is_needed() {
    assert_eq!(join("/a", "b"), "/a/b");
    assert_eq!(join("/a/", "b"), "/a/b");
    assert_eq!(join("/a", "/b"), "/b");
    assert_eq!(join("", "b"), "b");
    assert_eq!(join("/", "b"), "/b");
    assert_eq!(join("/a", ""), "/a/");
    assert_eq!(join("a", "b/c"), "a/b/c");
    for (base, child) in [("/a", "b"), ("/a/", "b"), ("/a", "/b"), ("", "b"), ("/a", ""), ("", "")] {
        let expected = std::path::Path::new(base).join(child);
        assert_eq!(join(base, child), expected.to_str().unwrap());
    }
}

#[test]
fn absolute_paths_begin_at_the_root() {
    assert!(is_absolute("/"));
    assert!(is_absolute("/a"));
    assert!(!is_absolute("a"));
    assert!(!is_absolute(""));
    assert!(!is_absolute("./a"));
}

#[test]
fn paths_are_made_absolute_from_the_current_directory() {
    assert_eq!(into_absolute("/a/b", Some("/cwd")), Some("/a/b".to_string()));
    assert_eq!(into_absolute("/a/b", None), Some("/a/b".to_string()));
    assert_eq!(into_absolute("a/b", Some("/cwd")), Some("/cwd/a/b".to_string()));
    assert_eq!(into_absolute("..", Some("/cwd/")), Some("/cwd/..".to_string()));
    assert_eq!(into_absolute("a/b", None), None);
    assert_eq!(into_absolute("", None), None);
}

#[test]
fn parent_marks_are_resolved() {
    assert_eq!(resolved("/a/b/.."), vec!["/", "a"]);
    assert_eq!(resolved("/a/b/../../.."), vec!["/"]);
    assert_eq!(resolved("/a/../b/./c"), vec!["/", "b", "c"]);
    assert_eq!(resolved("../a"), vec!["..", "a"]);
    assert_eq!(resolved("a/../.."), vec![".."]);
    assert_eq!(resolved("./.."), vec![".", ".."]);
}

#[test]
fn the_current_directory_and_the_one_above_are_told() {
    assert!(is_dir_or_parent("/home/u", "/home/u"));
    assert!(is_dir_or_parent("/home/u/", "/home/u"));
    assert!(is_dir_or_parent("/home/u/.", "/home/u"));
    assert!(is_dir_or_parent("/home", "/home/u"));
    assert!(is_dir_or_parent("/home/u/..", "/home/u"));
    assert!(is_dir_or_parent("/home/u/x/..", "/home/u"));
    assert!(is_dir_or_parent("/home/u/x/../..", "/home/u"));
    assert!(is_dir_or_parent("/", "/home"));
    assert!(is_dir_or_parent("/", "/"));
    assert!(is_dir_or_parent("/..", "/"));
    assert!(!is_dir_or_parent("/", "/home/u"));
    assert!(!is_dir_or_parent("/home/u/x", "/home/u"));
    assert!(!is_dir_or_parent("/home/v", "/home/u"));
    assert!(!is_dir_or_parent("/home/u/../v", "/home/u"));
}

#[test]
fn lines_end_at_line_feeds() {
    assert_eq!(lines("a\nb\n"), vec!["a", "b"]);
    assert_eq!(lines("a\nb"), vec!["a", "b"]);
    assert_eq!(lines("a\r\nb\r\n"), vec!["a", "b"]);
    assert_eq!(lines("a\r\r\nb\r"), vec!["a\r", "b\r"]);
    assert_eq!(lines("\n\na\n\n"), vec!["", "", "a", ""]);
    assert_eq!(lines(""), Vec::<String>::new());
    assert_eq!(lines("\n"), vec![""]);
    for text in ["a\nb\n", "a\nb", "a\r\nb\r\n", "a\r\r\nb\r", "\n\na\n\n", "", "\n", "\r\n", "\r"] {
        let expected: Vec<String> =
            std::io::BufRead::lines(text.as_bytes()).map(|line| line.unwrap()).collect();
        assert_eq!(lines(text), expected);
    }
}

#[test]
fn numbers_are_written_in_decimal() {
    assert_eq!(decimal_u64(0), "0");
    assert_eq!(decimal_u64(7), "7");
    assert_eq!(decimal_u64(1000), "1000");
    assert_eq!(decimal_u64(u64::MAX), "18446744073709551615");
    assert_eq!(decimal_i64(0), "0");
    assert_eq!(decimal_i64(-1), "-1");
    assert_eq!(decimal_i64(1583298367123), "1583298367123");
    assert_eq!(decimal_i64(i64::MAX), "9223372036854775807");
    assert_eq!(decimal_i64(i64::MIN), "-9223372036854775808");
    assert_eq!(chars_of("a\u{e9}\u{4e16}"), vec!['a', '\u{e9}', '\u{4e16}']);
}
