//! Completions: a finished operation together with its typed outcome.
//! A negative result code is an OS error carrying the errno; a
//! non-negative one is a descriptor, a byte count or plain success,
//! depending on the kind.

use vstd::prelude::*;

use crate::task::{self, TaskType};

verus! {

/// An error reported by the operating system, by its errno.
#[derive(Clone, Copy, PartialEq, Eq, Structural, Debug)]
pub struct OsError {
    pub code: i32,
}

/// Relies on libc::EALREADY: the errno for "operation already in
/// progress", 114 in Linux's generic errno table.
#[verifier::external_body]
fn errno_already() -> (r: i32)
    ensures
        r == 114,
{
    libc::EALREADY
}

/// The errno carried by a cancel of an operation that is already finishing.
pub open spec fn already_code() -> i32 {
    114
}

/// A byte count or descriptor from a result code.
pub open spec fn count_outcome(ret: i32) -> Result<usize, OsError> {
    if ret >= 0 {
        Ok(ret as usize)
    } else {
        Err(OsError { code: (-ret) as i32 })
    }
}

/// Success or failure alone from a result code.
pub open spec fn unit_outcome(ret: i32) -> Result<(), OsError> {
    if ret >= 0 {
        Ok(())
    } else {
        Err(OsError { code: (-ret) as i32 })
    }
}

/// The outcome of a cancel: a target that is already finishing counts as
/// cancelled.
pub open spec fn cancel_outcome(ret: i32) -> Result<(), OsError> {
    if ret >= 0 || ret == -already_code() {
        Ok(())
    } else {
        Err(OsError { code: (-ret) as i32 })
    }
}

/// A descriptor from a result code.
pub open spec fn fd_outcome(ret: i32) -> Result<i32, OsError> {
    if ret >= 0 {
        Ok(ret)
    } else {
        Err(OsError { code: (-ret) as i32 })
    }
}

fn to_count(ret: i32) -> (r: Result<usize, OsError>)
    requires
        ret != i32::MIN,
    ensures
        r == count_outcome(ret),
{
    if ret >= 0 {
        Ok(ret as usize)
    } else {
        Err(OsError { code: -ret })
    }
}

fn to_unit(ret: i32) -> (r: Result<(), OsError>)
    requires
        ret != i32::MIN,
    ensures
        r == unit_outcome(ret),
{
    if ret >= 0 {
        Ok(())
    } else {
        Err(OsError { code: -ret })
    }
}

/// Marks the typed completions.
pub trait Completion {}

pub struct Accept {
    pub task: task::Accept,
    /// The descriptor of the new connection.
    pub socket: Result<i32, OsError>,
}

impl Accept {
    pub fn new(task: task::Accept, ret: i32) -> (r: Accept)
        requires
            ret != i32::MIN,
        ensures
            r.task == task,
            r.socket == fd_outcome(ret),
    {
        let socket = if ret >= 0 {
            Ok(ret)
        } else {
            Err(OsError { code: -ret })
        };
        Accept { task, socket }
    }
}

pub struct Cancel {
    pub task: task::Cancel,
    pub result: Result<(), OsError>,
}

impl Cancel {
    pub fn new(task: task::Cancel, ret: i32) -> (r: Cancel)
        requires
            ret != i32::MIN,
        ensures
            r.task == task,
            r.result == cancel_outcome(ret),
    {
        let result = if ret >= 0 || ret == -errno_already() {
            Ok(())
        } else {
            Err(OsError { code: -ret })
        };
        Cancel { task, result }
    }
}

pub struct Connect {
    pub task: task::Connect,
    pub result: Result<(), OsError>,
}

impl Connect {
    pub fn new(task: task::Connect, ret: i32) -> (r: Connect)
        requires
            ret != i32::MIN,
        ensures
            r.task == task,
            r.result == unit_outcome(ret),
    {
        Connect { task, result: to_unit(ret) }
    }
}

pub struct Read {
    pub task: task::Read,
    /// The number of bytes read.
    pub size: Result<usize, OsError>,
}

impl Read {
    pub fn new(task: task::Read, ret: i32) -> (r: Read)
        requires
            ret != i32::MIN,
        ensures
            r.task == task,
            r.size == count_outcome(ret),
    {
        Read { task, size: to_count(ret) }
    }
}

pub struct ReadFixed {
    pub task: task::ReadFixed,
    /// The number of bytes read.
    pub size: Result<usize, OsError>,
}

impl ReadFixed {
    pub fn new(task: task::ReadFixed, ret: i32) -> (r: ReadFixed)
        requires
            ret != i32::MIN,
        ensures
            r.task == task,
            r.size == count_outcome(ret),
    {
        ReadFixed { task, size: to_count(ret) }
    }
}

pub struct Timeout {
    pub task: task::Timeout,
    pub result: Result<(), OsError>,
}

impl Timeout {
    pub fn new(task: task::Timeout, ret: i32) -> (r: Timeout)
        requires
            ret != i32::MIN,
        ensures
            r.task == task,
            r.result == unit_outcome(ret),
    {
        Timeout { task, result: to_unit(ret) }
    }
}

pub struct Write {
    pub task: task::Write,
    /// The number of bytes written.
    pub size: Result<usize, OsError>,
}

impl Write {
    pub fn new(task: task::Write, ret: i32) -> (r: Write)
        requires
            ret != i32::MIN,
        ensures
            r.task == task,
            r.size == count_outcome(ret),
    {
        Write { task, size: to_count(ret) }
    }
}

pub struct WriteFixed {
    pub task: task::WriteFixed,
    /// The number of bytes written.
    pub size: Result<usize, OsError>,
}

impl WriteFixed {
    pub fn new(task: task::WriteFixed, ret: i32) -> (r: WriteFixed)
        requires
            ret != i32::MIN,
        ensures
            r.task == task,
            r.size == count_outcome(ret),
    {
        WriteFixed { task, size: to_count(ret) }
    }
}

impl Completion for Accept {}
impl Completion for Cancel {}
impl Completion for Connect {}
impl Completion for Read {}
impl Completion for ReadFixed {}
impl Completion for Timeout {}
impl Completion for Write {}
impl Completion for WriteFixed {}

pub enum CompletionType {
    Accept(Accept),
    Cancel(Cancel),
    Connect(Connect),
    Read(Read),
    ReadFixed(ReadFixed),
    Timeout(Timeout),
    Write(Write),
    WriteFixed(WriteFixed),
}

/// The completion of operation `t` with result code `ret`.
pub open spec fn completion_of(t: TaskType, ret: i32) -> CompletionType {
    match t {
        TaskType::Accept(task) => CompletionType::Accept(Accept { task, socket: fd_outcome(ret) }),
        TaskType::Cancel(task) => CompletionType::Cancel(Cancel { task, result: cancel_outcome(ret) }),
        TaskType::Connect(task) => CompletionType::Connect(Connect { task, result: unit_outcome(ret) }),
        TaskType::Read(task) => CompletionType::Read(Read { task, size: count_outcome(ret) }),
        TaskType::ReadFixed(task) => CompletionType::ReadFixed(ReadFixed { task, size: count_outcome(ret) }),
        TaskType::Timeout(task) => CompletionType::Timeout(Timeout { task, result: unit_outcome(ret) }),
        TaskType::Write(task) => CompletionType::Write(Write { task, size: count_outcome(ret) }),
        TaskType::WriteFixed(task) => CompletionType::WriteFixed(WriteFixed { task, size: count_outcome(ret) }),
    }
}

impl CompletionType {
    /// Pairs a finished operation with its result code.
    pub fn new(task: TaskType, ret: i32) -> (r: CompletionType)
        requires
            ret != i32::MIN,
        ensures
            r == completion_of(task, ret),
    {
        match task {
            TaskType::Accept(task) => CompletionType::Accept(Accept::new(task, ret)),
            TaskType::Cancel(task) => CompletionType::Cancel(Cancel::new(task, ret)),
            TaskType::Connect(task) => CompletionType::Connect(Connect::new(task, ret)),
            TaskType::Read(task) => CompletionType::Read(Read::new(task, ret)),
            TaskType::ReadFixed(task) => CompletionType::ReadFixed(ReadFixed::new(task, ret)),
            TaskType::Timeout(task) => CompletionType::Timeout(Timeout::new(task, ret)),
            TaskType::Write(task) => CompletionType::Write(Write::new(task, ret)),
            TaskType::WriteFixed(task) => CompletionType::WriteFixed(WriteFixed::new(task, ret)),
        }
    }
}

} // verus!
