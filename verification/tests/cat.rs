use regex::Regex;
use rustbox::cat::{
    _write, after_file, first_file, open_failure, NextFile, Opened, READ_BUFFER_SIZE,
};
use rustbox::error::IoError;
use rustbox::stream::MemorySource;

#[test]
fn cat__test_write() {
    // Simple test checking if stdin is being copied to stdout
    let mut stdin = MemorySource::new("Hello!".as_bytes().to_vec());
    let mut stdout = Vec::new();

    let ret = _write(&mut stdin, &mut stdout);

    assert!(ret.is_ok());
    assert_eq!(stdout, b"Hello!");
}

#[test]
fn _test_write_large() {
    // Simple test checking if stdin is being copied to stdout
    // for stdin sizes greater than READ_BUFFER_SIZE
    let stdin_contents = vec![b'a'; READ_BUFFER_SIZE + 123];

    let mut stdin = MemorySource::new(stdin_contents.clone());
    let mut stdout = Vec::new();

    let ret = _write(&mut stdin, &mut stdout);

    assert!(ret.is_ok());
    assert_eq!(stdout[0..3], *b"aaa");
    assert_eq!(stdout[READ_BUFFER_SIZE + 122], b'a');
    assert_eq!(stdout, stdin_contents);
}

#[test]
fn _test_write_empty() {
    // Ensure it behaves correctly if input is empty
    let mut stdin = MemorySource::new("".as_bytes().to_vec());
    let mut stdout = Vec::new();

    let ret = _write(&mut stdin, &mut stdout);

    assert!(ret.is_ok());
    assert_eq!(stdout, b"");
}

#[test]
fn write_hands_on_a_failure() {
    let mut stdin = MemorySource::failing(b"AAA".to_vec(), IoError::new("Is a directory"));
    let mut stdout = Vec::new();

    let ret = _write(&mut stdin, &mut stdout);

    assert_eq!(ret, Err(IoError::new("Is a directory")));
    assert_eq!(stdout, b"AAA");
}

#[test]
fn write_concatenates() {
    let mut stdout = Vec::new();
    assert!(_write(&mut MemorySource::new(b"AAA".to_vec()), &mut stdout).is_ok());
    assert!(_write(&mut MemorySource::new(b"BBB".to_vec()), &mut stdout).is_ok());
    assert_eq!(stdout, b"AAABBB");
}

#[test]
fn open_failure_names_the_file() {
    let cause = IoError::new("No such file or directory (os error 2)");
    let e = open_failure("/sakljdslakd/asdkljaslkdj", &cause);
    assert_eq!(
        e.to_string(),
        "Failed to open file '/sakljdslakd/asdkljaslkdj': No such file or directory (os error 2)"
    );
    assert!(e.to_string().starts_with("Failed to open file '/sakljdslakd/asdkljaslkdj': "));
}

#[test]
fn read_buffer_is_one_chunk() {
    assert_eq!(READ_BUFFER_SIZE, 4096);
}

/// Concatenates the named files to `f_out`. The files that there are stand in `files`,
/// each with its name and what it holds; any other name is of no file.
fn _catenate(
    filenames: Vec<String>,
    files: &[(&str, &[u8])],
    f_out: &mut Vec<u8>,
) -> Result<(), IoError> {
    let mut next = first_file(&filenames);
    loop {
        let at = match next {
            NextFile::Open(at) => at,
            NextFile::Finish(result) => return result,
        };
        let event = match files.iter().find(|(name, _)| *name == filenames[at]) {
            None => Opened::Failed(IoError::new("No such file or directory (os error 2)")),
            Some((_, held)) => {
                Opened::Copied(_write(&mut MemorySource::new(held.to_vec()), f_out))
            }
        };
        next = after_file(&filenames, at, event);
    }
}

#[test]
fn _test_catenate_empty() {
    // Zero concatenated files should result in an empty stdout
    let filenames: Vec<String> = Vec::new();
    let mut stdout = Vec::new();

    let ret = _catenate(filenames, &[], &mut stdout);

    assert!(ret.is_ok());
    assert_eq!(stdout, b"");
}

#[test]
fn _test_catenate_error() {
    // Try opening a non-existing file
    let filenames: Vec<String> = vec![(*"/sakljdslakd/asdkljaslkdj").to_string()];
    let mut stdout = Vec::new();

    let ret = _catenate(filenames, &[], &mut stdout);

    // Ensure it returned an error and printed nothing to stoud
    assert!(ret.is_err());
    assert_eq!(stdout, b"");

    // Ensure it printed friendly error message
    let re_error = Regex::new(r"^Failed to open file '/sakljdslakd/asdkljaslkdj': .*").unwrap();
    let error_message = ret.err().unwrap().to_string();
    assert!(re_error.is_match(error_message.as_str()));
}

#[test]
fn _test_catenate_files() {
    // Build the files and the file list
    let files: [(&str, &[u8]); 2] = [("filename_a", b"AAA"), ("filename_b", b"BBB")];
    let filenames: Vec<String> = vec!["filename_a".to_string(), "filename_b".to_string()];
    let mut stdout = Vec::new();

    // Concatenate files
    let ret = _catenate(filenames, &files, &mut stdout);

    // Ensure stdout is as expected
    assert!(ret.is_ok());
    assert_eq!(stdout, b"AAABBB");
}

#[test]
fn catenate_stops_at_the_first_file_that_is_missing() {
    let files: [(&str, &[u8]); 2] = [("a", b"AAA"), ("c", b"CCC")];
    let filenames: Vec<String> = vec!["a".to_string(), "b".to_string(), "c".to_string()];
    let mut stdout = Vec::new();

    let ret = _catenate(filenames, &files, &mut stdout);

    assert_eq!(
        ret,
        Err(IoError::new("Failed to open file 'b': No such file or directory (os error 2)"))
    );
    assert_eq!(stdout, b"AAA");
}

#[test]
fn first_file_opens_the_first_or_ends() {
    assert_eq!(first_file(&vec![]), NextFile::Finish(Ok(())));
    assert_eq!(first_file(&vec!["a".to_string()]), NextFile::Open(0));
    assert_eq!(first_file(&vec!["a".to_string(), "b".to_string()]), NextFile::Open(0));
}

#[test]
fn after_file_decides() {
    let filenames = vec!["a".to_string(), "b".to_string()];
    assert_eq!(after_file(&filenames, 0, Opened::Copied(Ok(()))), NextFile::Open(1));
    assert_eq!(after_file(&filenames, 1, Opened::Copied(Ok(()))), NextFile::Finish(Ok(())));
    assert_eq!(
        after_file(&filenames, 0, Opened::Copied(Err(IoError::new("Is a directory")))),
        NextFile::Finish(Err(IoError::new("Is a directory")))
    );
    assert_eq!(
        after_file(&filenames, 1, Opened::Failed(IoError::new("Permission denied"))),
        NextFile::Finish(Err(IoError::new("Failed to open file 'b': Permission denied")))
    );
}
