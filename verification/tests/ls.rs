use rustbox::ls::{entry_line, file_line, listing, targets, Found};

#[test]
fn _test_ls_cwd_empty() {
    // An empty directory
    let found = Found::Directory(vec![]);

    let stdout = listing(".", &found);

    // Ensure stdout is empty
    assert_eq!(stdout, b"");
}

#[test]
fn _test_ls_cwd() {
    // A directory with two files
    let found = Found::Directory(vec!["./filename_a".to_string(), "./filename_b".to_string()]);

    let stdout = listing(".", &found);

    // Ensure stdout is as expected
    assert_eq!(stdout, b"./filename_a\n./filename_b\n");
}

#[test]
fn _test_ls_regular_file() {
    let stdout = listing("filename_a", &Found::File);

    // Ensure stdout is as expected
    assert_eq!(stdout, b"./filename_a\n");
}

#[test]
fn listing_keeps_the_order_of_the_entries() {
    let paths = vec!["dir/b".to_string(), "dir/a".to_string(), "dir/ü".to_string()];
    assert_eq!(listing("dir", &Found::Directory(paths)), "dir/b\ndir/a\ndir/ü\n".as_bytes());
}

#[test]
fn targets_default_to_the_working_directory() {
    assert_eq!(targets(vec![]), vec![".".to_string()]);
}

#[test]
fn targets_are_the_arguments() {
    let args = vec!["filename_a".to_string(), "dir".to_string()];
    assert_eq!(targets(args.clone()), args);
}

#[test]
fn file_line_puts_the_file_under_the_working_directory() {
    assert_eq!(file_line("filename_a"), b"./filename_a\n");
    assert_eq!(file_line(""), b"./\n");
}

#[test]
fn entry_line_is_the_path() {
    assert_eq!(entry_line("./filename_a"), b"./filename_a\n");
    assert_eq!(entry_line("/tmp/é"), "/tmp/é\n".as_bytes());
}
