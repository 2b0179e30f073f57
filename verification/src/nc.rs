use vstd::prelude::*;
use vstd::slice::slice_subrange;
use crate::error::IoError;
use crate::port::{parse_port, port_number};
use crate::relay::RelayError;
use crate::stream::{limit_after, write_count, write_result, Sink, Source};

verus! {

/// The most bytes that one read of the copier asks for.
pub const BUFFER_SIZE: usize = 4096;

/// What the copier does once a read has returned.
#[derive(Debug, PartialEq, Eq)]
pub enum Step {
    /// Write the first bytes of the buffer, this many, to the sink, then read again.
    Forward(usize),
    /// Stop with this result.
    Finish(Result<(), IoError>),
}

/// Decides from the outcome of a read how a copy goes on: a failure ends it with that
/// failure, a read of no bytes ends it with success, any other read is written out.
pub fn after_read(outcome: Result<usize, IoError>) -> (step: Step)
    ensures
        step == match outcome {
            Ok(n) => if n == 0 {
                Step::Finish(Ok(()))
            } else {
                Step::Forward(n)
            },
            Err(e) => Step::Finish(Err(e)),
        },
{
    match outcome {
        Ok(n) => if n == 0 {
            Step::Finish(Ok(()))
        } else {
            Step::Forward(n)
        },
        Err(e) => Step::Finish(Err(e)),
    }
}

/// Decides from the outcome of a write how a copy goes on: a failure ends it with that
/// failure, and after a write that went well the copier reads again.
pub fn after_write(outcome: Result<(), IoError>) -> (stop: Option<Result<(), IoError>>)
    ensures
        stop == match outcome {
            Ok(_) => None::<Result<(), IoError>>,
            Err(e) => Some(Err::<(), IoError>(e)),
        },
{
    match outcome {
        Ok(_) => None,
        Err(e) => Some(Err(e)),
    }
}

/// What the caller of a write does next, where a write may take a part of what it is
/// given.
#[derive(Debug, PartialEq, Eq)]
pub enum WriteStep {
    /// Write again, from this place in the bytes on.
    Again(usize),
    /// Stop with this result: all bytes are written, or a write has failed.
    Finish(Result<(), IoError>),
}

/// Decides how the writing of `len` bytes goes on, `done` of which were written before,
/// from the outcome of one more write: a failure ends it with that failure, at once; a
/// write that took the rest ends it well; a write that took nothing ends it with a
/// failure of its own; and after any other write the rest is due.
pub fn after_partial_write(len: usize, done: usize, outcome: Result<usize, IoError>) -> (step:
    WriteStep)
    ensures
        match outcome {
            Err(e) => step == WriteStep::Finish(Err(e)),
            Ok(n) => if done >= len || n >= len - done {
                step == WriteStep::Finish(Ok(()))
            } else if n == 0 {
                step matches WriteStep::Finish(Err(e)) && e.message@
                    == "failed to write whole buffer"@
            } else {
                step == WriteStep::Again((done + n) as usize)
            },
        },
{
    match outcome {
        Err(e) => WriteStep::Finish(Err(e)),
        Ok(n) => if done >= len || n >= len - done {
            WriteStep::Finish(Ok(()))
        } else if n == 0 {
            WriteStep::Finish(Err(IoError::new("failed to write whole buffer")))
        } else {
            WriteStep::Again(done + n)
        },
    }
}

/// What a copy returns: the failure of the sink where the bytes of the source do not fit
/// into it, else the failure that the source ends with, else success.
pub open spec fn copy_result(
    data: Seq<u8>,
    fault: Option<IoError>,
    limit: Option<(nat, IoError)>,
) -> Result<(), IoError> {
    match write_result(limit, data.len()) {
        Err(cause) => Err(cause),
        Ok(_) => match fault {
            Some(cause) => Err(cause),
            None => Ok(()),
        },
    }
}

/// Copies `f_in` to `f_out`, one buffer at a time, until `f_in` is used up or a read or a
/// write fails, and returns the first failure as it was reported.
///
/// The sink gains the bytes that the source held, in their order, none added and none
/// left out, as far as it takes them. Where they all fit, the source is used up, and the
/// copy went well unless the source ends with a failure. Where they do not, the source
/// has handed out what the sink took and at most one buffer more.
///
/// So a sink that takes whatever it is given gains all that the source held, be that
/// nothing, one byte or many buffers, and a source that holds nothing leaves the sink as
/// it was.
pub fn _pipe_stream<R: Source, W: Sink>(f_in: &mut R, f_out: &mut W) -> (res: Result<(), IoError>)
    ensures
        res == copy_result(old(f_in).pending(), old(f_in).fault(), old(f_out).limit()),
        final(f_out).accepted() == old(f_out).accepted() + old(f_in).pending().take(
            write_count(old(f_out).limit(), old(f_in).pending().len()) as int,
        ),
        final(f_out).limit() == limit_after(old(f_out).limit(), old(f_in).pending().len()),
        final(f_in).fault() == old(f_in).fault(),
        ({
            let sent = write_count(old(f_out).limit(), old(f_in).pending().len());
            let taken = old(f_in).pending().len() - final(f_in).pending().len();
            &&& sent <= taken <= old(f_in).pending().len()
            &&& taken - sent <= BUFFER_SIZE
            &&& sent == old(f_in).pending().len() ==> taken == sent
            &&& final(f_in).pending() == old(f_in).pending().skip(taken)
        }),
        old(f_out).limit() is None ==> final(f_out).accepted() == old(f_out).accepted() + old(
            f_in,
        ).pending(),
        old(f_out).limit() is None && old(f_in).fault() is None ==> res is Ok,
        old(f_in).pending().len() == 0 ==> final(f_out).accepted() == old(f_out).accepted(),
{
    let mut buf = [0u8; BUFFER_SIZE];
    let ghost data = f_in.pending();
    loop
        invariant
            data == old(f_in).pending(),
            f_in.fault() == old(f_in).fault(),
            f_in.pending().len() <= data.len(),
            f_in.pending() =~= data.skip(data.len() - f_in.pending().len()),
            f_out.accepted() =~= old(f_out).accepted() + data.take(
                data.len() - f_in.pending().len(),
            ),
            write_count(old(f_out).limit(), (data.len() - f_in.pending().len()) as nat)
                == data.len() - f_in.pending().len(),
            f_out.limit() == limit_after(
                old(f_out).limit(),
                (data.len() - f_in.pending().len()) as nat,
            ),
        decreases f_in.pending().len(),
    {
        let outcome = f_in.read(&mut buf);
        match after_read(outcome) {
            Step::Finish(result) => {
                return result;
            },
            Step::Forward(n) => {
                let written = f_out.write_all(slice_subrange(&buf, 0, n));
                match after_write(written) {
                    Some(result) => {
                        return result;
                    },
                    None => {},
                }
            },
        }
    }
}

/// What is copied out and copied back is what went out. Where a copy takes bytes from a
/// source that ends as a stream ends to a sink that takes whatever it is given, and a
/// second such copy takes what that sink gained on to another, both go well, and the last
/// sink gains the bytes that the first source held, in their order, however the reads of
/// either copy cut them.
pub proof fn lemma_echo_returns_input(data: Seq<u8>)
    ensures
        ({
            let there = data.take(write_count(None, data.len()) as int);
            let back = there.take(write_count(None, there.len()) as int);
            &&& copy_result(data, None, None) == Ok::<(), IoError>(())
            &&& copy_result(there, None, None) == Ok::<(), IoError>(())
            &&& there == data
            &&& back == data
        }),
{
    assert(data.take(data.len() as int) =~= data);
}

/// The remote end of a relay: a host, by name or address, and a TCP port.
#[derive(Debug, PartialEq, Eq)]
pub struct Endpoint {
    pub host: String,
    pub port: u16,
}

/// The remote end that the arguments name: a host, not empty, and a port. `None` where
/// they are not two, or do not have that shape.
pub open spec fn endpoint_named(args: Seq<String>) -> Option<(Seq<char>, u16)> {
    if args.len() == 2 && args[0]@.len() > 0 && port_number(args[1]@) is Some {
        Some((args[0]@, port_number(args[1]@)->Some_0))
    } else {
        None
    }
}

/// Reads the arguments of the relay, `<destination> <port>`. Anything else is a usage
/// error.
pub fn parse_args(args: Vec<String>) -> (res: Result<Endpoint, RelayError>)
    ensures
        match res {
            Ok(endpoint) => endpoint_named(args@) == Some((endpoint.host@, endpoint.port)),
            Err(e) => endpoint_named(args@) is None && e == RelayError::Usage,
        },
{
    if args.len() != 2 {
        return Err(RelayError::Usage);
    }
    if args[0].as_str().unicode_len() == 0 {
        return Err(RelayError::Usage);
    }
    match parse_port(args[1].as_str()) {
        Some(port) => Ok(Endpoint { host: args[0].clone(), port }),
        None => Err(RelayError::Usage),
    }
}

} // verus!
