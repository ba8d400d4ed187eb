use garbage::mounts::Mounts;

const TABLE: &[u8] = b"22 28 0:21 / /sys rw,nosuid,nodev,noexec,relatime shared:7 - sysfs sysfs rw\n\
28 0 8:2 / / rw,relatime shared:1 - ext4 /dev/sda2 rw,errors=remount-ro\n\
97 28 8:17 / /mnt/data rw,relatime shared:50 - ext4 /dev/sdb1 rw\n\
98 97 8:33 /sub /mnt/data/deep\\040down rw,relatime - ext4 /dev/sdc1 rw\n";

#[test]
fn the_table_is_read_row_by_row() {
    let table = Mounts::read(TABLE).unwrap();
    assert_eq!(table.get_mount_point("/sys/kernel", None), Some("/sys".to_string()));
    assert_eq!(
        table.get_mount_point("/mnt/data/deep down/x", None),
        Some("/mnt/data/deep down".to_string())
    );
    let shown = format!("{:?}", table);
    assert!(shown.contains("mount_id: 97"));
    assert!(shown.contains("parent_id: 28"));
    assert!(shown.contains("major: 8"));
    assert!(shown.contains("minor: 17"));
    assert!(shown.contains("root: \"/sub\""));
    assert!(shown.contains("mount_point: \"/mnt/data\""));
}

#[test]
fn the_longest_mount_point_owns_the_path() {
    let table = Mounts::read(
        b"1 0 8:2 / / rw - ext4 /dev/sda2 rw\n2 1 8:17 / /mnt/data rw - ext4 /dev/sdb1 rw\n",
    )
    .unwrap();
    assert_eq!(table.get_mount_point("/mnt/data/x/y", None), Some("/mnt/data".to_string()));
    assert_eq!(table.get_mount_point("/etc/x", None), Some("/".to_string()));
    assert_eq!(table.get_mount_point("/mnt/data", None), Some("/mnt/data".to_string()));
    assert_eq!(table.get_mount_point("/mnt/database", None), Some("/".to_string()));
    assert_eq!(table.get_mount_point("/mnt", None), Some("/".to_string()));
    assert_eq!(table.get_mount_point("/", None), Some("/".to_string()));
    assert_eq!(table.get_mount_point("/mnt//data/./x", None), Some("/mnt/data".to_string()));
}

#[test]
fn the_order_of_the_table_does_not_matter_for_the_longest() {
    let table = Mounts::read(
        b"2 1 8:17 / /mnt/data rw - ext4 /dev/sdb1 rw\n1 0 8:2 / / rw - ext4 /dev/sda2 rw\n",
    )
    .unwrap();
    assert_eq!(table.get_mount_point("/mnt/data/x/y", None), Some("/mnt/data".to_string()));
    assert_eq!(table.get_mount_point("/etc/x", None), Some("/".to_string()));
}

#[test]
fn of_two_equal_mount_points_the_later_one_is_given() {
    let table = Mounts::read(
        b"1 0 8:2 / / rw - ext4 /dev/sda2 rw\n2 1 8:17 / /mnt/ rw - ext4 /dev/sdb1 rw\n3 1 8:18 / /mnt rw - ext4 /dev/sdc1 rw\n",
    )
    .unwrap();
    assert_eq!(table.get_mount_point("/mnt/x", None), Some("/mnt".to_string()));
    let table = Mounts::read(
        b"3 1 8:18 / /mnt rw - ext4 /dev/sdc1 rw\n2 1 8:17 / /mnt/ rw - ext4 /dev/sdb1 rw\n",
    )
    .unwrap();
    assert_eq!(table.get_mount_point("/mnt/x", None), Some("/mnt/".to_string()));
}

#[test]
fn relative_paths_are_seen_from_the_current_directory() {
    let table = Mounts::read(TABLE).unwrap();
    assert_eq!(table.get_mount_point("x/y", Some("/mnt/data")), Some("/mnt/data".to_string()));
    assert_eq!(table.get_mount_point("x/y", Some("/home/u")), Some("/".to_string()));
    assert_eq!(table.get_mount_point("x/y", None), None);
    assert_eq!(table.get_mount_point("/sys", Some("/mnt/data")), Some("/sys".to_string()));
}

#[test]
fn a_path_that_no_mount_owns_has_no_mount_point() {
    let table = Mounts::read(b"2 1 8:17 / /mnt/data rw - ext4 /dev/sdb1 rw\n").unwrap();
    assert_eq!(table.get_mount_point("/etc/x", None), None);
    assert_eq!(table.get_mount_point("/mnt/data/x", None), Some("/mnt/data".to_string()));
    let empty = Mounts::read(b"").unwrap();
    assert_eq!(empty.get_mount_point("/", None), None);
    let remarks = Mounts::read(b"# nothing\n\n").unwrap();
    assert_eq!(remarks.get_mount_point("/", None), None);
}

#[test]
fn one_bad_row_spoils_the_table() {
    assert!(Mounts::read(b"1 0 8:2 / / rw - ext4 /dev/sda2 rw\nnot a mount\n").is_err());
    assert!(Mounts::read(b"x 0 8:2 / / rw - ext4 /dev/sda2 rw\n").is_err());
    assert!(Mounts::read(b"1 0 8:2 /\n2 1 8:17 / /mnt/data rw - ext4 /dev/sdb1 rw\n").is_err());
}
