use vstd::prelude::*;
use crate::error::IoError;
use crate::nc::{_pipe_stream, copy_result};
use crate::stream::{limit_after, write_count, Sink, Source};

verus! {

/// The most bytes that one read asks for.
pub const READ_BUFFER_SIZE: usize = 4096;

/// Copies `f_in` to `f_out`, one buffer at a time, until `f_in` is used up or a read or a
/// write fails, and returns the first failure as it was reported.
///
/// The sink gains the bytes that the source held, in their order, none added and none
/// left out, as far as it takes them. Where they all fit, the source is used up, and the
/// copy went well unless the source ends with a failure. Where they do not, the source
/// has handed out what the sink took and at most one buffer more.
///
/// So a sink that takes whatever it is given gains all that the source held, be that
/// nothing, one byte or many buffers, and a source that holds nothing leaves the sink as
/// it was.
pub fn _write<R: Source, W: Sink>(f_in: &mut R, f_out: &mut W) -> (res: Result<(), IoError>)
    ensures
        res == copy_result(old(f_in).pending(), old(f_in).fault(), old(f_out).limit()),
        final(f_out).accepted() == old(f_out).accepted() + old(f_in).pending().take(
            write_count(old(f_out).limit(), old(f_in).pending().len()) as int,
        ),
        final(f_out).limit() == limit_after(old(f_out).limit(), old(f_in).pending().len()),
        final(f_in).fault() == old(f_in).fault(),
        ({
            let sent = write_count(old(f_out).limit(), old(f_in).pending().len());
            let taken = old(f_in).pending().len() - final(f_in).pending().len();
            &&& sent <= taken <= old(f_in).pending().len()
            &&& taken - sent <= READ_BUFFER_SIZE
            &&& sent == old(f_in).pending().len() ==> taken == sent
            &&& final(f_in).pending() == old(f_in).pending().skip(taken)
        }),
        old(f_out).limit() is None ==> final(f_out).accepted() == old(f_out).accepted() + old(
            f_in,
        ).pending(),
        old(f_out).limit() is None && old(f_in).fault() is None ==> res is Ok,
        old(f_in).pending().len() == 0 ==> final(f_out).accepted() == old(f_out).accepted(),
{
    _pipe_stream(f_in, f_out)
}

/// What is told of a file that could not be opened: its name, and after it the cause.
pub open spec fn open_failure_text(filename: Seq<char>, cause: Seq<char>) -> Seq<char> {
    "Failed to open file '"@ + filename + "': "@ + cause
}

/// The failure to open the file `filename`, which failed with `cause`: the cause, with
/// the name of the file before it.
pub fn open_failure(filename: &str, cause: &IoError) -> (e: IoError)
    ensures
        e.message@ == open_failure_text(filename@, cause.message@),
{
    let mut text = String::from_str("Failed to open file '");
    text.append(filename);
    text.append("': ");
    text.append(cause.message.as_str());
    IoError { message: text }
}

/// What came of one file of a concatenation.
#[derive(Debug, PartialEq, Eq)]
pub enum Opened {
    /// The file could not be opened.
    Failed(IoError),
    /// The file was opened and copied to the output, with this result.
    Copied(Result<(), IoError>),
}

/// What a concatenation does next.
#[derive(Debug, PartialEq, Eq)]
pub enum NextFile {
    /// Open the file with this place among the names, and copy it to the output.
    Open(usize),
    /// Stop with this result.
    Finish(Result<(), IoError>),
}

/// How a concatenation of the files `filenames` begins: with the first of them, or, where
/// there is none, with its end.
pub fn first_file(filenames: &Vec<String>) -> (next: NextFile)
    ensures
        next == if filenames@.len() > 0 {
            NextFile::Open(0)
        } else {
            NextFile::Finish(Ok(()))
        },
{
    if filenames.len() > 0 {
        NextFile::Open(0)
    } else {
        NextFile::Finish(Ok(()))
    }
}

/// How a concatenation goes on after the file at place `at`. A file that could not be
/// opened ends it with that failure, the name of the file before the cause; a copy that
/// failed ends it with that failure; after a copy that went well the next file is due,
/// and the end once all are done.
pub fn after_file(filenames: &Vec<String>, at: usize, event: Opened) -> (next: NextFile)
    requires
        at < filenames@.len(),
    ensures
        match event {
            Opened::Failed(cause) => next matches NextFile::Finish(Err(e)) && e.message@
                == open_failure_text(filenames@[at as int]@, cause.message@),
            Opened::Copied(Err(e)) => next == NextFile::Finish(Err(e)),
            Opened::Copied(Ok(_)) => next == if at + 1 < filenames@.len() {
                NextFile::Open((at + 1) as usize)
            } else {
                NextFile::Finish(Ok(()))
            },
        },
{
    let count: usize = filenames.len();
    match event {
        Opened::Failed(cause) => NextFile::Finish(
            Err(open_failure(filenames[at].as_str(), &cause)),
        ),
        Opened::Copied(Err(e)) => NextFile::Finish(Err(e)),
        Opened::Copied(Ok(_)) => if at + 1 < count {
            NextFile::Open(at + 1)
        } else {
            NextFile::Finish(Ok(()))
        },
    }
}

} // verus!
