use vstd::prelude::*;
use vstd::utf8::encode_utf8;

verus! {

/// What was found under a name.
#[derive(Debug, PartialEq, Eq)]
pub enum Found {
    /// Something that is no directory.
    File,
    /// A directory, with the paths of its entries.
    Directory(Vec<String>),
}

/// The line that lists a file that is no directory: `./`, its name, and a line feed.
pub open spec fn file_text(filename: Seq<char>) -> Seq<u8> {
    seq![0x2eu8, 0x2fu8] + encode_utf8(filename) + seq![0x0au8]
}

/// The line that lists an entry of a directory: its path and a line feed.
pub open spec fn entry_text(path: Seq<char>) -> Seq<u8> {
    encode_utf8(path) + seq![0x0au8]
}

/// The lines that list the entries of a directory, in their order.
pub open spec fn entries_text(paths: Seq<String>) -> Seq<u8>
    decreases paths.len(),
{
    if paths.len() == 0 {
        Seq::empty()
    } else {
        entries_text(paths.drop_last()) + entry_text(paths.last()@)
    }
}

/// What to list: the arguments, or the working directory where there are none.
pub fn targets(args: Vec<String>) -> (files: Vec<String>)
    ensures
        args@.len() > 0 ==> files == args,
        args@.len() == 0 ==> files@.len() == 1 && files@[0]@ == "."@,
{
    if args.len() == 0 {
        let mut files: Vec<String> = Vec::new();
        files.push(String::from_str("."));
        files
    } else {
        args
    }
}

/// The line that lists a file that is no directory.
pub fn file_line(filename: &str) -> (line: Vec<u8>)
    ensures
        line@ == file_text(filename@),
{
    let mut line: Vec<u8> = Vec::new();
    line.push(0x2eu8);
    line.push(0x2fu8);
    line.extend_from_slice(filename.as_bytes());
    line.push(0x0au8);
    line
}

/// The line that lists an entry of a directory.
pub fn entry_line(path: &str) -> (line: Vec<u8>)
    ensures
        line@ == entry_text(path@),
{
    let mut line: Vec<u8> = Vec::new();
    line.extend_from_slice(path.as_bytes());
    line.push(0x0au8);
    line
}

/// What is listed for `filename`: for a directory one line for each of its entries, in
/// their order, and for anything else the one line of the file.
pub fn listing(filename: &str, found: &Found) -> (lines: Vec<u8>)
    ensures
        lines@ == match found {
            Found::File => file_text(filename@),
            Found::Directory(paths) => entries_text(paths@),
        },
{
    match found {
        Found::File => file_line(filename),
        Found::Directory(paths) => {
            let mut lines: Vec<u8> = Vec::new();
            let mut i: usize = 0;
            while i < paths.len()
                invariant
                    i <= paths@.len(),
                    lines@ == entries_text(paths@.take(i as int)),
                decreases paths@.len() - i,
            {
                let line = entry_line(paths[i].as_str());
                lines.extend_from_slice(line.as_slice());
                proof {
                    let listed = paths@.take(i + 1);
                    assert(listed.drop_last() =~= paths@.take(i as int));
                }
                i = i + 1;
            }
            assert(paths@.take(i as int) =~= paths@);
            lines
        },
    }
}

} // verus!
