//! Operations: one variant per kind, each owning exactly what its request
//! needs, and the submission descriptor each one produces.

use vstd::prelude::*;

use crate::buffer::{Fixed, Slice};
use crate::tcp::{Listener, Reader, SocketAddrV4, Writer};

verus! {

/// The handle of an in-flight operation, also the tag of its submission.
pub type TaskId = usize;

/// The largest length one request can carry.
pub const MAX_REQUEST_LEN: u32 = 0xffff_ffff;

/// Nanoseconds in a second.
pub const NANOS_PER_SEC: u32 = 1_000_000_000;

/// Accept a connection on a listening socket.
pub struct Accept {
    pub socket: Listener,
}

impl Accept {
    pub fn new(socket: Listener) -> (r: Accept)
        ensures
            r.socket == socket,
    {
        Accept { socket }
    }
}

/// Cancel the operation with the given id.
pub struct Cancel {
    pub id: TaskId,
}

/// Dial the given address from a fresh socket.
pub struct Connect {
    pub socket: Reader,
    pub addr: SocketAddrV4,
}

impl Connect {
    pub fn new(socket: Reader, addr: SocketAddrV4) -> (r: Connect)
        ensures
            r.socket == socket,
            r.addr == addr,
    {
        Connect { socket, addr }
    }
}

/// Read from a socket into a whole buffer.
pub struct Read {
    pub socket: Reader,
    pub buffer: Slice,
}

impl Read {
    pub fn new(socket: Reader, buffer: Slice) -> (r: Read)
        ensures
            r.socket == socket,
            r.buffer == buffer,
    {
        Read { socket, buffer }
    }
}

/// Read from a socket into a whole registered buffer.
pub struct ReadFixed {
    pub socket: Reader,
    pub buffer: Fixed,
}

/// A time limit on the operation linked after it.
pub struct Timeout {
    secs: u64,
    nanos: u32,
}

impl Timeout {
    pub closed spec fn spec_secs(&self) -> u64 {
        self.secs
    }

    pub closed spec fn spec_nanos(&self) -> u32 {
        self.nanos
    }

    /// A limit of `secs` seconds and `nanos` nanoseconds.
    pub fn new(secs: u64, nanos: u32) -> (r: Timeout)
        requires
            nanos < NANOS_PER_SEC,
        ensures
            r.spec_secs() == secs,
            r.spec_nanos() == nanos,
    {
        Timeout { secs, nanos }
    }
}

/// Write the bytes `start..end` of a buffer to a socket.
pub struct Write {
    pub socket: Writer,
    pub buffer: Slice,
    pub start: usize,
    pub end: usize,
}

impl Write {
    pub open spec fn wf(&self) -> bool {
        self.start <= self.end <= self.buffer@.len()
    }

    pub fn new(socket: Writer, buffer: Slice, range: std::ops::Range<usize>) -> (r: Write)
        requires
            range.start <= range.end <= buffer@.len(),
        ensures
            r.socket == socket,
            r.buffer == buffer,
            r.start == range.start,
            r.end == range.end,
            r.wf(),
    {
        Write { socket, buffer, start: range.start, end: range.end }
    }
}

/// Write the bytes `start..end` of a registered buffer to a socket.
pub struct WriteFixed {
    pub socket: Writer,
    pub buffer: Fixed,
    pub start: usize,
    pub end: usize,
}

impl WriteFixed {
    pub open spec fn wf(&self) -> bool {
        self.start <= self.end <= self.buffer.bytes().len()
    }

    pub fn new(socket: Writer, buffer: Fixed, range: std::ops::Range<usize>) -> (r: WriteFixed)
        requires
            range.start <= range.end <= buffer.bytes().len(),
        ensures
            r.socket == socket,
            r.buffer == buffer,
            r.start == range.start,
            r.end == range.end,
            r.wf(),
    {
        WriteFixed { socket, buffer, start: range.start, end: range.end }
    }
}

/// Every kind of operation.
pub enum TaskType {
    Accept(Accept),
    Cancel(Cancel),
    Connect(Connect),
    Read(Read),
    ReadFixed(ReadFixed),
    Timeout(Timeout),
    Write(Write),
    WriteFixed(WriteFixed),
}

/// What one submission asks of the kernel. Lengths are in bytes; `start`
/// is an offset into the operation's buffer.
#[derive(Clone, Copy, PartialEq, Eq, Structural, Debug)]
pub enum Op {
    Accept { fd: i32 },
    Cancel { target: u64 },
    Connect { fd: i32, addr: SocketAddrV4 },
    Read { fd: i32, len: u32 },
    ReadFixed { fd: i32, len: u32, buf_index: usize },
    LinkTimeout { secs: u64, nanos: u32 },
    Write { fd: i32, start: usize, len: u32 },
    WriteFixed { fd: i32, start: usize, len: u32, buf_index: usize },
}

/// How a submission is ordered against the ones around it.
#[derive(Clone, Copy, PartialEq, Eq, Structural, Debug)]
pub enum Ordering {
    /// No ordering against other submissions.
    Independent,
    /// The next submission runs only if this one succeeds.
    LinkSuccess,
    /// The next submission runs after this one, whatever its outcome.
    LinkAny,
    /// Runs after every earlier submission has completed, and before any later one.
    Drain,
}

/// One entry for the submission queue.
#[derive(Clone, Copy, PartialEq, Eq, Structural, Debug)]
pub struct Submission {
    pub op: Op,
    pub user_data: u64,
    pub ordering: Ordering,
}

/// A length as one request carries it: longer buffers are offered in part,
/// which the caller sees as a short transfer.
pub open spec fn request_len(n: nat) -> u32 {
    if n > MAX_REQUEST_LEN as nat {
        MAX_REQUEST_LEN
    } else {
        n as u32
    }
}

fn to_request_len(n: usize) -> (r: u32)
    ensures
        r == request_len(n as nat),
{
    if n > MAX_REQUEST_LEN as usize {
        MAX_REQUEST_LEN
    } else {
        n as u32
    }
}

impl TaskType {
    /// Only writes carry a range, which must lie in their buffer.
    pub open spec fn wf(&self) -> bool {
        match self {
            TaskType::Write(w) => w.wf(),
            TaskType::WriteFixed(w) => w.wf(),
            _ => true,
        }
    }

    /// The index of the registered buffer that the operation holds, if any.
    pub open spec fn fixed_id(&self) -> Option<usize> {
        match self {
            TaskType::ReadFixed(r) => Some(r.buffer.spec_id()),
            TaskType::WriteFixed(w) => Some(w.buffer.spec_id()),
            _ => None,
        }
    }

    /// The request that the operation stands for.
    pub open spec fn spec_op(&self) -> Op {
        match self {
            TaskType::Accept(a) => Op::Accept { fd: a.socket.fd },
            TaskType::Cancel(c) => Op::Cancel { target: c.id as u64 },
            TaskType::Connect(c) => Op::Connect { fd: c.socket.fd, addr: c.addr },
            TaskType::Read(r) => Op::Read { fd: r.socket.fd, len: request_len(r.buffer@.len()) },
            TaskType::ReadFixed(r) => Op::ReadFixed {
                fd: r.socket.fd,
                len: request_len(r.buffer.bytes().len()),
                buf_index: r.buffer.spec_id(),
            },
            TaskType::Timeout(t) => Op::LinkTimeout { secs: t.spec_secs(), nanos: t.spec_nanos() },
            TaskType::Write(w) => Op::Write {
                fd: w.socket.fd,
                start: w.start,
                len: request_len((w.end - w.start) as nat),
            },
            TaskType::WriteFixed(w) => Op::WriteFixed {
                fd: w.socket.fd,
                start: w.start,
                len: request_len((w.end - w.start) as nat),
                buf_index: w.buffer.spec_id(),
            },
        }
    }

    /// Builds the request for this operation.
    pub fn op(&self) -> (r: Op)
        requires
            self.wf(),
        ensures
            r == self.spec_op(),
    {
        match self {
            TaskType::Accept(a) => Op::Accept { fd: a.socket.fd },
            TaskType::Cancel(c) => Op::Cancel { target: c.id as u64 },
            TaskType::Connect(c) => Op::Connect { fd: c.socket.fd, addr: c.addr },
            TaskType::Read(r) => Op::Read { fd: r.socket.fd, len: to_request_len(r.buffer.len()) },
            TaskType::ReadFixed(r) => Op::ReadFixed {
                fd: r.socket.fd,
                len: to_request_len(r.buffer.len()),
                buf_index: r.buffer.id(),
            },
            TaskType::Timeout(t) => Op::LinkTimeout { secs: t.secs, nanos: t.nanos },
            TaskType::Write(w) => Op::Write {
                fd: w.socket.fd,
                start: w.start,
                len: to_request_len(w.end - w.start),
            },
            TaskType::WriteFixed(w) => Op::WriteFixed {
                fd: w.socket.fd,
                start: w.start,
                len: to_request_len(w.end - w.start),
                buf_index: w.buffer.id(),
            },
        }
    }

    /// The submission for this operation under tag `id`.
    pub fn entry(&self, id: TaskId, ordering: Ordering) -> (r: Submission)
        requires
            self.wf(),
        ensures
            r == (Submission { op: self.spec_op(), user_data: id as u64, ordering }),
    {
        Submission { op: self.op(), user_data: id as u64, ordering }
    }
}

} // verus!
