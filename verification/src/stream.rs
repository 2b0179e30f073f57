use vstd::prelude::*;
use vstd::slice::slice_subrange;
use crate::error::IoError;

verus! {

/// A finite stream of bytes that is read from the front.
///
/// The model of a source is the sequence of bytes that it has yet to hand out, and how it
/// ends once they are used up: as a stream ends, or with a failure. A read takes some of
/// the bytes, in order.
pub trait Source {
    /// The bytes that the source has yet to hand out, in order.
    spec fn pending(&self) -> Seq<u8>;

    /// The failure that a read reports once the bytes are used up; `None` where the source
    /// ends as a stream ends.
    spec fn fault(&self) -> Option<IoError>;

    /// Reads the next bytes into the front of `buf` and returns how many they are.
    ///
    /// While bytes are left a read into a buffer with room hands out at least one. Once
    /// they are used up it returns zero, or the failure that the source ends with.
    fn read(&mut self, buf: &mut [u8]) -> (res: Result<usize, IoError>)
        ensures
            final(buf)@.len() == old(buf)@.len(),
            final(self).fault() == old(self).fault(),
            match res {
                Ok(n) => {
                    &&& n <= old(buf)@.len()
                    &&& n <= old(self).pending().len()
                    &&& (n == 0 <==> old(self).pending().len() == 0 || old(buf)@.len() == 0)
                    &&& final(buf)@.take(n as int) == old(self).pending().take(n as int)
                    &&& final(self).pending() == old(self).pending().skip(n as int)
                    &&& old(self).pending().len() == 0 && old(buf)@.len() > 0 ==> old(
                        self,
                    ).fault() is None
                },
                Err(e) => {
                    &&& old(self).pending().len() == 0
                    &&& old(self).fault() == Some(e)
                    &&& final(self).pending() == old(self).pending()
                },
            },
    ;
}

/// A place that bytes are written to.
///
/// The model of a sink is the sequence of all bytes that it has taken so far, and its
/// limit: how many more it takes and the failure that a write beyond them reports.
pub trait Sink {
    /// All bytes that the sink has taken so far, in order.
    spec fn accepted(&self) -> Seq<u8>;

    /// The number of bytes that the sink still takes, with the failure of a write that
    /// does not fit; `None` where the sink takes whatever it is given.
    spec fn limit(&self) -> Option<(nat, IoError)>;

    /// Writes all of `data`. Where it does not fit, the write fills the sink with the
    /// front part of `data` and fails.
    fn write_all(&mut self, data: &[u8]) -> (res: Result<(), IoError>)
        ensures
            res == write_result(old(self).limit(), data@.len()),
            final(self).accepted() == old(self).accepted() + data@.take(
                write_count(old(self).limit(), data@.len()) as int,
            ),
            final(self).limit() == limit_after(old(self).limit(), data@.len()),
    ;
}

/// How many of `len` bytes a sink with this limit takes.
pub open spec fn write_count(limit: Option<(nat, IoError)>, len: nat) -> nat {
    match limit {
        Some((room, _)) if len > room => room,
        _ => len,
    }
}

/// What a write of `len` bytes returns on a sink with this limit.
pub open spec fn write_result(limit: Option<(nat, IoError)>, len: nat) -> Result<(), IoError> {
    match limit {
        Some((room, cause)) if len > room => Err(cause),
        _ => Ok(()),
    }
}

/// The limit of a sink after it was given `len` bytes.
pub open spec fn limit_after(limit: Option<(nat, IoError)>, len: nat) -> Option<(nat, IoError)> {
    match limit {
        Some((room, cause)) => Some(((room - write_count(limit, len)) as nat, cause)),
        None => None,
    }
}

/// A byte vector takes everything that is written to it.
impl Sink for Vec<u8> {
    open spec fn accepted(&self) -> Seq<u8> {
        self@
    }

    open spec fn limit(&self) -> Option<(nat, IoError)> {
        None
    }

    fn write_all(&mut self, data: &[u8]) -> (res: Result<(), IoError>) {
        self.extend_from_slice(data);
        Ok(())
    }
}

/// A source that hands out bytes held in memory, at most `chunk` of them per read, and
/// that ends either as a stream ends or with a failure.
pub struct MemorySource {
    data: Vec<u8>,
    pos: usize,
    chunk: usize,
    fault: Option<IoError>,
}

impl MemorySource {
    #[verifier::type_invariant]
    spec fn wf(&self) -> bool {
        self.pos <= self.data@.len()
    }

    /// The largest number of bytes that one read hands out; zero where there is no such
    /// bound.
    pub closed spec fn chunk(&self) -> nat {
        self.chunk as nat
    }

    /// How many bytes a read into a buffer of `room` bytes hands out.
    pub open spec fn next_len(&self, room: nat) -> nat {
        let most = if room <= self.pending().len() {
            room
        } else {
            self.pending().len()
        };
        if 0 < self.chunk() < most {
            self.chunk()
        } else {
            most
        }
    }

    /// What a read into a buffer of `room` bytes returns: the failure, where the bytes
    /// are used up and the source ends with one, else the number of bytes handed out.
    pub open spec fn next_read(&self, room: nat) -> Result<usize, IoError> {
        match self.fault() {
            Some(e) if self.pending().len() == 0 => Err(e),
            _ => Ok(self.next_len(room) as usize),
        }
    }

    /// A source of the bytes of `data` that ends as a stream ends, with no bound on what
    /// one read hands out.
    pub fn new(data: Vec<u8>) -> (source: Self)
        ensures
            source.pending() == data@,
            source.chunk() == 0,
            source.fault() is None,
    {
        MemorySource { data, pos: 0, chunk: 0, fault: None }
    }

    /// A source of the bytes of `data` that hands out at most `chunk` bytes per read.
    /// A chunk of zero stands for no bound.
    pub fn chunked(data: Vec<u8>, chunk: usize) -> (source: Self)
        ensures
            source.pending() == data@,
            source.chunk() == chunk,
            source.fault() is None,
    {
        MemorySource { data, pos: 0, chunk, fault: None }
    }

    /// A source of the bytes of `data` whose reads fail with `cause` once the bytes are
    /// used up.
    pub fn failing(data: Vec<u8>, cause: IoError) -> (source: Self)
        ensures
            source.pending() == data@,
            source.chunk() == 0,
            source.fault() == Some(cause),
    {
        MemorySource { data, pos: 0, chunk: 0, fault: Some(cause) }
    }
}

impl Source for MemorySource {
    closed spec fn pending(&self) -> Seq<u8> {
        self.data@.skip(self.pos as int)
    }

    closed spec fn fault(&self) -> Option<IoError> {
        self.fault
    }

    fn read(&mut self, buf: &mut [u8]) -> (res: Result<usize, IoError>)
        ensures
            res == old(self).next_read(old(buf)@.len()),
            final(self).chunk() == old(self).chunk(),
    {
        proof {
            use_type_invariant(&*self);
        }
        let left: usize = self.data.len() - self.pos;
        if left == 0 {
            if let Some(cause) = &self.fault {
                return Err(cause.clone());
            }
        }
        let most: usize = if buf.len() <= left {
            buf.len()
        } else {
            left
        };
        let n: usize = if 0 < self.chunk && self.chunk < most {
            self.chunk
        } else {
            most
        };
        let mut i: usize = 0;
        while i < n
            invariant
                i <= n,
                n <= buf@.len(),
                buf@.len() == old(buf)@.len(),
                self.pos + n <= self.data@.len() <= usize::MAX,
                *self == *old(self),
                forall|j: int| 0 <= j < i ==> buf@[j] == self.data@[self.pos + j],
            decreases n - i,
        {
            buf[i] = self.data[self.pos + i];
            i = i + 1;
        }
        self.pos = self.pos + n;
        Ok(n)
    }
}

/// A sink that holds in memory what it takes and has room for a number of bytes only. A
/// write that does not fit fills the sink and fails.
pub struct BoundedSink {
    taken: Vec<u8>,
    room: usize,
    fault: IoError,
}

impl BoundedSink {
    /// An empty sink with room for `room` bytes, whose writes fail with `cause` where
    /// they do not fit.
    pub fn new(room: usize, cause: IoError) -> (sink: Self)
        ensures
            sink.accepted() == Seq::<u8>::empty(),
            sink.limit() == Some((room as nat, cause)),
    {
        BoundedSink { taken: Vec::new(), room, fault: cause }
    }

    /// The bytes that the sink has taken.
    pub fn into_bytes(self) -> (bytes: Vec<u8>)
        ensures
            bytes@ == self.accepted(),
    {
        self.taken
    }
}

impl Sink for BoundedSink {
    closed spec fn accepted(&self) -> Seq<u8> {
        self.taken@
    }

    closed spec fn limit(&self) -> Option<(nat, IoError)> {
        Some((self.room as nat, self.fault))
    }

    fn write_all(&mut self, data: &[u8]) -> (res: Result<(), IoError>) {
        if data.len() <= self.room {
            self.taken.extend_from_slice(data);
            self.room = self.room - data.len();
            Ok(())
        } else {
            self.taken.extend_from_slice(slice_subrange(data, 0, self.room));
            self.room = 0;
            Err(self.fault.clone())
        }
    }
}

} // verus!
