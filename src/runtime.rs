//! The runtime's bookkeeping. Every operation is entered in the in-flight
//! table under a fresh id, which tags its submission. Submissions go to a
//! bounded submission queue, or to a FIFO backlog while that queue is
//! full; the backlog moves up into the queue as room frees, so entries
//! reach the kernel in the order they were made. A completion takes its
//! operation out of the table and turns the result code into a typed
//! outcome. The ring itself, and the waiting on it, belong to the caller,
//! which reports what it sees through [`Runtime::wait_step`].

use vstd::prelude::*;

use std::collections::VecDeque;

use crate::buffer::{ids_of, zeroes, Fixed, Pool};
use crate::completion::{completion_of, CompletionType};
use crate::table::{slab_items, table_contains, table_insert, table_len, table_new, table_remove};
use crate::task::{self, Ordering, Submission, TaskId, TaskType};
use crate::tcp::{Listener, Reader, SocketAddrV4, Writer};
use crate::buffer::Slice;
use slab::Slab;

verus! {

/// One entry of the completion queue.
#[derive(Clone, Copy, PartialEq, Eq, Structural, Debug)]
pub struct Cqe {
    pub user_data: u64,
    pub result: i32,
}

/// A failure of the runtime itself.
#[derive(Clone, Copy, PartialEq, Eq, Structural, Debug)]
pub enum RuntimeError {
    /// A completion whose tag names no in-flight operation.
    UnknownTask(u64),
}

/// How far a wait has gone without a system call.
#[derive(Clone, Copy, PartialEq, Eq, Structural, Debug)]
pub enum WaitStage {
    /// Only the completions already seen locally were looked at.
    Local,
    /// The completion queue was refreshed from shared memory.
    Synced,
}

/// What the caller of [`Runtime::wait_step`] does next.
pub enum WaitAction {
    /// Refresh the completion queue without a system call, then step again
    /// at [`WaitStage::Synced`].
    Sync,
    /// Put these entries on the ring in this order, submit them and wait
    /// for at least one completion, then step again at [`WaitStage::Synced`].
    Submit(Vec<Submission>),
    /// An operation finished.
    Deliver(TaskId, CompletionType),
}

/// No in-flight operation holds registered buffer `i`.
pub open spec fn unheld_by_tasks(tasks: Map<usize, TaskType>, i: usize) -> bool {
    forall|k: usize| #[trigger] tasks.dom().contains(k) ==> tasks[k].fixed_id() != Some(i)
}

/// Each registered buffer is held by the pool or by one in-flight
/// operation, never by two of them.
pub open spec fn buffers_exclusive(pool: Seq<Fixed>, tasks: Map<usize, TaskType>) -> bool {
    &&& ids_of(pool).no_duplicates()
    &&& forall|k: usize|
        #[trigger] tasks.dom().contains(k) && tasks[k].fixed_id() is Some
            ==> !ids_of(pool).contains(tasks[k].fixed_id()->0)
    &&& forall|k1: usize, k2: usize|
        tasks.dom().contains(k1) && tasks.dom().contains(k2) && k1 != k2
            && (#[trigger] tasks[k1].fixed_id()) is Some
            ==> tasks[k1].fixed_id() != (#[trigger] tasks[k2].fixed_id())
}

pub struct Runtime {
    tasks: Slab<TaskType>,
    queue: Vec<Submission>,
    backlog: VecDeque<Submission>,
    capacity: usize,
    buffers: Pool,
}

impl Runtime {
    /// The operations in flight, by id.
    pub closed spec fn in_flight(&self) -> Map<usize, TaskType> {
        slab_items(self.tasks)
    }

    /// Entries on the submission queue that the kernel has not taken yet.
    pub closed spec fn queued(&self) -> Seq<Submission> {
        self.queue@
    }

    /// Entries waiting for room on the submission queue, oldest first.
    pub closed spec fn backlogged(&self) -> Seq<Submission> {
        self.backlog@
    }

    /// The size of the submission queue.
    pub closed spec fn capacity(&self) -> nat {
        self.capacity as nat
    }

    /// The idle registered buffers.
    pub closed spec fn pool(&self) -> Seq<Fixed> {
        self.buffers@
    }

    /// Every entry not yet handed to the kernel, in the order it will go.
    pub open spec fn pending(&self) -> Seq<Submission> {
        self.queued() + self.backlogged()
    }

    /// Nothing waits in the backlog while the queue has room.
    pub open spec fn backlog_settled(&self) -> bool {
        self.backlogged().len() == 0 || self.queued().len() == self.capacity()
    }

    /// Registered buffer `i` is held neither by the pool nor by an
    /// in-flight operation.
    pub open spec fn buffer_free(&self, i: usize) -> bool {
        !ids_of(self.pool()).contains(i) && unheld_by_tasks(self.in_flight(), i)
    }

    /// What an operation that is about to be submitted must satisfy.
    pub open spec fn can_submit(&self, t: TaskType) -> bool {
        &&& t.wf()
        &&& self.in_flight().dom().len() < usize::MAX
        &&& (t.fixed_id() matches Some(i) ==> self.buffer_free(i))
    }

    pub closed spec fn wf(&self) -> bool {
        &&& self.capacity > 0
        &&& self.queue@.len() <= self.capacity
        &&& self.in_flight().dom().finite()
        &&& buffers_exclusive(self.pool(), self.in_flight())
    }

    /// `new` is `old` with operation `t` entered under `id` and its entry,
    /// ordered by `o`, queued behind every pending one.
    pub open spec fn submitted(old: Runtime, new: Runtime, t: TaskType, o: Ordering, id: TaskId) -> bool {
        &&& !old.in_flight().dom().contains(id)
        &&& new.in_flight() == old.in_flight().insert(id, t)
        &&& new.pending() == old.pending().push(
            Submission { op: t.spec_op(), user_data: id as u64, ordering: o },
        )
        &&& new.pool() == old.pool()
        &&& new.capacity() == old.capacity()
        &&& new.backlog_settled()
    }

    /// A runtime whose submission queue holds `capacity` entries.
    pub fn new(capacity: usize) -> (r: Runtime)
        requires
            capacity > 0,
        ensures
            r.wf(),
            r.in_flight().dom() == Set::<usize>::empty(),
            r.pending() == Seq::<Submission>::empty(),
            r.pool() == Seq::<Fixed>::empty(),
            r.capacity() == capacity,
    {
        let r = Runtime {
            tasks: table_new(),
            queue: Vec::new(),
            backlog: VecDeque::new(),
            capacity,
            buffers: Pool::new(),
        };
        proof {
            assert(r.pending() =~= Seq::<Submission>::empty());
            assert(ids_of(r.pool()) =~= Seq::<usize>::empty());
        }
        r
    }

    /// The number of operations in flight.
    pub fn in_flight_count(&self) -> (r: usize)
        ensures
            r == self.in_flight().dom().len(),
    {
        table_len(&self.tasks)
    }

    /// Whether `id` names an operation in flight.
    pub fn is_in_flight(&self, id: TaskId) -> (r: bool)
        ensures
            r == self.in_flight().dom().contains(id),
    {
        table_contains(&self.tasks, id)
    }

    /// The idle registered buffers.
    pub fn buffers(&self) -> (r: &Pool)
        ensures
            r@ == self.pool(),
    {
        &self.buffers
    }

    /// Returns a registered buffer that nobody else holds to the pool.
    pub fn give_buffer(&mut self, buffer: Fixed)
        requires
            old(self).wf(),
            old(self).buffer_free(buffer.spec_id()),
        ensures
            final(self).wf(),
            final(self).pool() == old(self).pool().push(buffer),
            final(self).in_flight() == old(self).in_flight(),
            final(self).queued() == old(self).queued(),
            final(self).backlogged() == old(self).backlogged(),
            final(self).capacity() == old(self).capacity(),
    {
        proof {
            assert(ids_of(self.pool().push(buffer)) =~= ids_of(self.pool()).push(buffer.spec_id()));
        }
        self.buffers.give(buffer);
        proof {
            let tasks = self.in_flight();
            assert forall|k: usize|
                #[trigger] tasks.dom().contains(k) && tasks[k].fixed_id() is Some implies
                    !ids_of(self.pool()).contains(tasks[k].fixed_id()->0) by {
                let i = tasks[k].fixed_id()->0;
                assert(ids_of(self.pool()) == ids_of(old(self).pool()).push(buffer.spec_id()));
                if ids_of(self.pool()).contains(i) {
                    let j = choose|j: int| 0 <= j < ids_of(self.pool()).len() && ids_of(self.pool())[j] == i;
                    if j < ids_of(old(self).pool()).len() {
                        assert(ids_of(old(self).pool()).contains(i));
                    }
                }
            }
        }
    }

    /// Takes the most recently returned idle buffer, if any.
    pub fn take_buffer(&mut self) -> (r: Option<Fixed>)
        requires
            old(self).wf(),
        ensures
            final(self).wf(),
            old(self).pool().len() == 0 ==> r.is_none() && final(self).pool() == old(self).pool(),
            old(self).pool().len() > 0 ==> r == Some(old(self).pool().last()) && final(self).pool()
                == old(self).pool().drop_last(),
            r matches Some(b) ==> final(self).buffer_free(b.spec_id()),
            final(self).in_flight() == old(self).in_flight(),
            final(self).queued() == old(self).queued(),
            final(self).backlogged() == old(self).backlogged(),
            final(self).capacity() == old(self).capacity(),
    {
        let r = self.buffers.take();
        proof {
            let tasks = self.in_flight();
            let old_ids = ids_of(old(self).pool());
            if old(self).pool().len() > 0 {
                assert(ids_of(self.pool()) =~= old_ids.drop_last());
                assert forall|k: usize|
                    #[trigger] tasks.dom().contains(k) && tasks[k].fixed_id() is Some implies
                        !ids_of(self.pool()).contains(tasks[k].fixed_id()->0) by {
                    let i = tasks[k].fixed_id()->0;
                    if ids_of(self.pool()).contains(i) {
                        let j = choose|j: int| 0 <= j < ids_of(self.pool()).len() && ids_of(self.pool())[j] == i;
                        assert(old_ids[j] == i);
                    }
                }
                let b = r->0;
                assert(old_ids[old_ids.len() - 1] == b.spec_id());
                assert forall|k: usize| #[trigger] tasks.dom().contains(k) implies
                    tasks[k].fixed_id() != Some(b.spec_id()) by {
                    assert(old_ids.contains(b.spec_id()));
                }
            }
        }
        r
    }

    /// Creates `count` zero-filled registered buffers of `size` bytes,
    /// indexed `0..count`, and puts them in the pool. Registering them with
    /// the kernel is the caller's part.
    pub fn prepare_buffers(&mut self, count: usize, size: usize)
        requires
            old(self).wf(),
            forall|i: usize| i < count ==> #[trigger] old(self).buffer_free(i),
        ensures
            final(self).wf(),
            final(self).pool().len() == old(self).pool().len() + count,
            final(self).pool().subrange(0, old(self).pool().len() as int) == old(self).pool(),
            forall|j: int|
                0 <= j < count ==> (#[trigger] final(self).pool()[old(self).pool().len() + j]).spec_id()
                    == j && final(self).pool()[old(self).pool().len() + j].bytes() == zeroes(size as nat),
            final(self).in_flight() == old(self).in_flight(),
            final(self).queued() == old(self).queued(),
            final(self).backlogged() == old(self).backlogged(),
            final(self).capacity() == old(self).capacity(),
    {
        let mut id: usize = 0;
        while id < count
            invariant
                id <= count,
                self.wf(),
                forall|i: usize| id <= i < count ==> #[trigger] self.buffer_free(i),
                self.pool().len() == old(self).pool().len() + id,
                self.pool().subrange(0, old(self).pool().len() as int) == old(self).pool(),
                forall|j: int|
                    0 <= j < id ==> (#[trigger] self.pool()[old(self).pool().len() + j]).spec_id() == j
                        && self.pool()[old(self).pool().len() + j].bytes() == zeroes(size as nat),
                self.in_flight() == old(self).in_flight(),
                self.queued() == old(self).queued(),
                self.backlogged() == old(self).backlogged(),
                self.capacity() == old(self).capacity(),
            decreases count - id,
        {
            let buffer = Fixed::new(id, size);
            assert(self.buffer_free(id));
            let ghost pre = *self;
            let ghost before = self.pool();
            self.give_buffer(buffer);
            proof {
                assert(self.pool() == before.push(buffer));
                assert forall|i: usize| id + 1 <= i < count implies #[trigger] self.buffer_free(i) by {
                    assert(pre.buffer_free(i));
                    let ids = ids_of(self.pool());
                    assert(ids =~= ids_of(before).push(id));
                    if ids.contains(i) {
                        let j = choose|j: int| 0 <= j < ids.len() && ids[j] == i;
                        if j < ids_of(before).len() {
                            assert(ids_of(before)[j] == i);
                        }
                    }
                }
                assert(self.pool().subrange(0, old(self).pool().len() as int) =~= old(self).pool());
            }
            id = id + 1;
        }
    }

    /// Moves backlogged entries, oldest first, onto the submission queue
    /// while it has room.
    pub fn run_backlog(&mut self)
        requires
            old(self).wf(),
        ensures
            final(self).wf(),
            final(self).pending() == old(self).pending(),
            final(self).queued().len() >= old(self).queued().len(),
            final(self).backlog_settled(),
            final(self).in_flight() == old(self).in_flight(),
            final(self).pool() == old(self).pool(),
            final(self).capacity() == old(self).capacity(),
    {
        while self.queue.len() < self.capacity && self.backlog.len() > 0
            invariant
                self.wf(),
                self.pending() == old(self).pending(),
                self.queued().len() >= old(self).queued().len(),
                self.in_flight() == old(self).in_flight(),
                self.pool() == old(self).pool(),
                self.capacity() == old(self).capacity(),
            decreases self.backlog@.len(),
        {
            let ghost q = self.queue@;
            let ghost b = self.backlog@;
            let e = self.backlog.pop_front();
            match e {
                Some(e) => {
                    self.queue.push(e);
                    assert(q.push(e) + b.subrange(1, b.len() as int) =~= q + b);
                },
                None => {},
            }
        }
    }

    /// Enters `task` in the table and queues its entry with `ordering`.
    fn run_flags(&mut self, task: TaskType, ordering: Ordering) -> (id: TaskId)
        requires
            old(self).wf(),
            old(self).can_submit(task),
        ensures
            final(self).wf(),
            Runtime::submitted(*old(self), *final(self), task, ordering, id),
    {
        self.run_backlog();
        let ghost mid = *self;
        let ghost t = task;
        let op = task.op();
        let id = table_insert(&mut self.tasks, task);
        let entry = Submission { op, user_data: id as u64, ordering };
        if self.queue.len() < self.capacity {
            self.queue.push(entry);
            assert(self.pending() =~= mid.pending().push(entry));
        } else {
            self.backlog.push_back(entry);
            assert(self.pending() =~= mid.pending().push(entry));
        }
        proof {
            let tasks = self.in_flight();
            let old_tasks = mid.in_flight();
            assert(tasks == old_tasks.insert(id, t));
            assert forall|k: usize|
                #[trigger] tasks.dom().contains(k) && tasks[k].fixed_id() is Some implies
                    !ids_of(self.pool()).contains(tasks[k].fixed_id()->0) by {
                if k != id {
                    assert(old_tasks.dom().contains(k));
                }
            }
            assert forall|k1: usize, k2: usize|
                tasks.dom().contains(k1) && tasks.dom().contains(k2) && k1 != k2
                    && (#[trigger] tasks[k1].fixed_id()) is Some
                    implies tasks[k1].fixed_id() != (#[trigger] tasks[k2].fixed_id()) by {
                if k1 == id {
                    assert(old_tasks.dom().contains(k2));
                } else if k2 == id {
                    assert(old_tasks.dom().contains(k1));
                } else {
                    assert(old_tasks.dom().contains(k1) && old_tasks.dom().contains(k2));
                }
            }
        }
        id
    }

    /// Submits `task` with no ordering against other submissions.
    pub fn run(&mut self, task: TaskType) -> (id: TaskId)
        requires
            old(self).wf(),
            old(self).can_submit(task),
        ensures
            final(self).wf(),
            Runtime::submitted(*old(self), *final(self), task, Ordering::Independent, id),
    {
        self.run_flags(task, Ordering::Independent)
    }

    /// Submits `task`; the next submission runs only if this one succeeds
    /// (a short read or write counts as a failure).
    pub fn run_then(&mut self, task: TaskType) -> (id: TaskId)
        requires
            old(self).wf(),
            old(self).can_submit(task),
        ensures
            final(self).wf(),
            Runtime::submitted(*old(self), *final(self), task, Ordering::LinkSuccess, id),
    {
        self.run_flags(task, Ordering::LinkSuccess)
    }

    /// Submits `task`; the next submission runs after it, whatever its outcome.
    pub fn run_before(&mut self, task: TaskType) -> (id: TaskId)
        requires
            old(self).wf(),
            old(self).can_submit(task),
        ensures
            final(self).wf(),
            Runtime::submitted(*old(self), *final(self), task, Ordering::LinkAny, id),
    {
        self.run_flags(task, Ordering::LinkAny)
    }

    /// Submits `task` to run after every earlier submission has completed
    /// and before any later one.
    pub fn run_drain(&mut self, task: TaskType) -> (id: TaskId)
        requires
            old(self).wf(),
            old(self).can_submit(task),
        ensures
            final(self).wf(),
            Runtime::submitted(*old(self), *final(self), task, Ordering::Drain, id),
    {
        self.run_flags(task, Ordering::Drain)
    }

    /// Accepts a connection on `socket`.
    pub fn accept(&mut self, socket: Listener) -> (id: TaskId)
        requires
            old(self).wf(),
            old(self).in_flight().dom().len() < usize::MAX,
        ensures
            final(self).wf(),
            Runtime::submitted(*old(self), *final(self), TaskType::Accept(task::Accept { socket }), Ordering::Independent, id),
    {
        self.run(TaskType::Accept(task::Accept { socket }))
    }

    /// Cancels the operation `target`.
    pub fn cancel(&mut self, target: TaskId) -> (id: TaskId)
        requires
            old(self).wf(),
            old(self).in_flight().dom().len() < usize::MAX,
        ensures
            final(self).wf(),
            Runtime::submitted(*old(self), *final(self), TaskType::Cancel(task::Cancel { id: target }), Ordering::Independent, id),
    {
        self.run(TaskType::Cancel(task::Cancel { id: target }))
    }

    /// Cancels the operation `target`; the next submission runs only if that succeeds.
    pub fn cancel_then(&mut self, target: TaskId) -> (id: TaskId)
        requires
            old(self).wf(),
            old(self).in_flight().dom().len() < usize::MAX,
        ensures
            final(self).wf(),
            Runtime::submitted(*old(self), *final(self), TaskType::Cancel(task::Cancel { id: target }), Ordering::LinkSuccess, id),
    {
        self.run_then(TaskType::Cancel(task::Cancel { id: target }))
    }

    /// Dials `addr` from `socket`.
    pub fn connect(&mut self, socket: Reader, addr: SocketAddrV4) -> (id: TaskId)
        requires
            old(self).wf(),
            old(self).in_flight().dom().len() < usize::MAX,
        ensures
            final(self).wf(),
            Runtime::submitted(*old(self), *final(self), TaskType::Connect(task::Connect { socket, addr }), Ordering::Independent, id),
    {
        self.run(TaskType::Connect(task::Connect::new(socket, addr)))
    }

    /// Dials `addr` from `socket`; the next submission runs only once connected.
    pub fn connect_then(&mut self, socket: Reader, addr: SocketAddrV4) -> (id: TaskId)
        requires
            old(self).wf(),
            old(self).in_flight().dom().len() < usize::MAX,
        ensures
            final(self).wf(),
            Runtime::submitted(*old(self), *final(self), TaskType::Connect(task::Connect { socket, addr }), Ordering::LinkSuccess, id),
    {
        self.run_then(TaskType::Connect(task::Connect::new(socket, addr)))
    }

    /// Reads from `socket` into the whole of `buffer`.
    pub fn read(&mut self, socket: Reader, buffer: Slice) -> (id: TaskId)
        requires
            old(self).wf(),
            old(self).in_flight().dom().len() < usize::MAX,
        ensures
            final(self).wf(),
            Runtime::submitted(*old(self), *final(self), TaskType::Read(task::Read { socket, buffer }), Ordering::Independent, id),
    {
        self.run(TaskType::Read(task::Read { socket, buffer }))
    }

    /// Reads from `socket` into `buffer`; the next submission runs only if the buffer is filled.
    pub fn read_then(&mut self, socket: Reader, buffer: Slice) -> (id: TaskId)
        requires
            old(self).wf(),
            old(self).in_flight().dom().len() < usize::MAX,
        ensures
            final(self).wf(),
            Runtime::submitted(*old(self), *final(self), TaskType::Read(task::Read { socket, buffer }), Ordering::LinkSuccess, id),
    {
        self.run_then(TaskType::Read(task::Read { socket, buffer }))
    }

    /// Reads from `socket` into the whole of a registered buffer.
    pub fn read_fixed(&mut self, socket: Reader, buffer: Fixed) -> (id: TaskId)
        requires
            old(self).wf(),
            old(self).in_flight().dom().len() < usize::MAX,
            old(self).buffer_free(buffer.spec_id()),
        ensures
            final(self).wf(),
            Runtime::submitted(*old(self), *final(self), TaskType::ReadFixed(task::ReadFixed { socket, buffer }), Ordering::Independent, id),
    {
        self.run(TaskType::ReadFixed(task::ReadFixed { socket, buffer }))
    }

    /// Reads from `socket` into a registered buffer; the next submission runs only if it is filled.
    pub fn read_fixed_then(&mut self, socket: Reader, buffer: Fixed) -> (id: TaskId)
        requires
            old(self).wf(),
            old(self).in_flight().dom().len() < usize::MAX,
            old(self).buffer_free(buffer.spec_id()),
        ensures
            final(self).wf(),
            Runtime::submitted(*old(self), *final(self), TaskType::ReadFixed(task::ReadFixed { socket, buffer }), Ordering::LinkSuccess, id),
    {
        self.run_then(TaskType::ReadFixed(task::ReadFixed { socket, buffer }))
    }

    /// Writes the bytes `range` of `buffer` to `socket`.
    pub fn write(&mut self, socket: Writer, buffer: Slice, range: std::ops::Range<usize>) -> (id: TaskId)
        requires
            old(self).wf(),
            old(self).in_flight().dom().len() < usize::MAX,
            range.start <= range.end <= buffer@.len(),
        ensures
            final(self).wf(),
            Runtime::submitted(*old(self), *final(self), (TaskType::Write(task::Write { socket, buffer, start: range.start, end: range.end })), Ordering::Independent, id),
    {
        self.run(TaskType::Write(task::Write::new(socket, buffer, range)))
    }

    /// Writes the bytes `range` of `buffer` to `socket`; the next submission runs only if all are written.
    pub fn write_then(&mut self, socket: Writer, buffer: Slice, range: std::ops::Range<usize>) -> (id: TaskId)
        requires
            old(self).wf(),
            old(self).in_flight().dom().len() < usize::MAX,
            range.start <= range.end <= buffer@.len(),
        ensures
            final(self).wf(),
            Runtime::submitted(*old(self), *final(self), (TaskType::Write(task::Write { socket, buffer, start: range.start, end: range.end })), Ordering::LinkSuccess, id),
    {
        self.run_then(TaskType::Write(task::Write::new(socket, buffer, range)))
    }

    /// Writes the bytes `range` of a registered buffer to `socket`.
    pub fn write_fixed(&mut self, socket: Writer, buffer: Fixed, range: std::ops::Range<usize>) -> (id: TaskId)
        requires
            old(self).wf(),
            old(self).in_flight().dom().len() < usize::MAX,
            range.start <= range.end <= buffer.bytes().len(),
            old(self).buffer_free(buffer.spec_id()),
        ensures
            final(self).wf(),
            Runtime::submitted(*old(self), *final(self), (TaskType::WriteFixed(task::WriteFixed { socket, buffer, start: range.start, end: range.end })), Ordering::Independent, id),
    {
        self.run(TaskType::WriteFixed(task::WriteFixed::new(socket, buffer, range)))
    }

    /// Writes the bytes `range` of a registered buffer to `socket`; the next submission runs only if all are written.
    pub fn write_fixed_then(&mut self, socket: Writer, buffer: Fixed, range: std::ops::Range<usize>) -> (id: TaskId)
        requires
            old(self).wf(),
            old(self).in_flight().dom().len() < usize::MAX,
            range.start <= range.end <= buffer.bytes().len(),
            old(self).buffer_free(buffer.spec_id()),
        ensures
            final(self).wf(),
            Runtime::submitted(*old(self), *final(self), (TaskType::WriteFixed(task::WriteFixed { socket, buffer, start: range.start, end: range.end })), Ordering::LinkSuccess, id),
    {
        self.run_then(TaskType::WriteFixed(task::WriteFixed::new(socket, buffer, range)))
    }

    /// A time limit of `secs` seconds and `nanos` nanoseconds on the
    /// operation submitted next, which it cancels when the time runs out.
    pub fn timeout(&mut self, secs: u64, nanos: u32) -> (id: TaskId)
        requires
            old(self).wf(),
            old(self).in_flight().dom().len() < usize::MAX,
            nanos < task::NANOS_PER_SEC,
        ensures
            final(self).wf(),
            exists|t: task::Timeout|
                t.spec_secs() == secs && t.spec_nanos() == nanos && Runtime::submitted(
                    *old(self),
                    *final(self),
                    TaskType::Timeout(t),
                    Ordering::LinkAny,
                    id,
                ),
    {
        self.run_before(TaskType::Timeout(task::Timeout::new(secs, nanos)))
    }

    /// Hands over the submission queue, filled from the backlog first, for
    /// the system call that passes it to the kernel; the queue is then empty.
    pub fn take_submissions(&mut self) -> (r: Vec<Submission>)
        requires
            old(self).wf(),
        ensures
            final(self).wf(),
            r@ + final(self).pending() == old(self).pending(),
            r@.len() == (if old(self).pending().len() < old(self).capacity() {
                old(self).pending().len()
            } else {
                old(self).capacity()
            }),
            final(self).queued().len() == 0,
            final(self).in_flight() == old(self).in_flight(),
            final(self).pool() == old(self).pool(),
            final(self).capacity() == old(self).capacity(),
    {
        self.run_backlog();
        let mut out: Vec<Submission> = Vec::new();
        std::mem::swap(&mut out, &mut self.queue);
        proof {
            assert(out@ + self.pending() =~= old(self).pending());
        }
        out
    }

    /// Takes the completed operation that `cqe` names out of the table and
    /// pairs it with the result code, then refills the queue from the
    /// backlog. A tag that names no in-flight operation is an error, and
    /// changes nothing.
    pub fn complete(&mut self, cqe: Cqe) -> (r: Result<(TaskId, CompletionType), RuntimeError>)
        requires
            old(self).wf(),
            cqe.result != i32::MIN,
        ensures
            final(self).wf(),
            final(self).capacity() == old(self).capacity(),
            final(self).pool() == old(self).pool(),
            final(self).pending() == old(self).pending(),
            match r {
                Ok((id, c)) => {
                    &&& id as u64 == cqe.user_data
                    &&& old(self).in_flight().dom().contains(id)
                    &&& c == completion_of(old(self).in_flight()[id], cqe.result)
                    &&& final(self).in_flight() == old(self).in_flight().remove(id)
                    &&& final(self).backlog_settled()
                    &&& (old(self).in_flight()[id].fixed_id() matches Some(i) ==> final(self).buffer_free(i))
                },
                Err(e) => {
                    &&& e == RuntimeError::UnknownTask(cqe.user_data)
                    &&& !(cqe.user_data <= usize::MAX && old(self).in_flight().dom().contains(
                        cqe.user_data as usize,
                    ))
                    &&& *final(self) == *old(self)
                },
            },
    {
        if cqe.user_data > usize::MAX as u64 {
            return Err(RuntimeError::UnknownTask(cqe.user_data));
        }
        let id = cqe.user_data as usize;
        if !table_contains(&self.tasks, id) {
            return Err(RuntimeError::UnknownTask(cqe.user_data));
        }
        let ghost before = self.in_flight();
        let task = table_remove(&mut self.tasks, id);
        proof {
            let tasks = self.in_flight();
            assert(tasks == before.remove(id));
            assert forall|k: usize|
                #[trigger] tasks.dom().contains(k) && tasks[k].fixed_id() is Some implies
                    !ids_of(self.pool()).contains(tasks[k].fixed_id()->0) by {
                assert(before.dom().contains(k));
            }
            assert forall|k1: usize, k2: usize|
                tasks.dom().contains(k1) && tasks.dom().contains(k2) && k1 != k2
                    && (#[trigger] tasks[k1].fixed_id()) is Some
                    implies tasks[k1].fixed_id() != (#[trigger] tasks[k2].fixed_id()) by {
                assert(before.dom().contains(k1) && before.dom().contains(k2));
            }
            if let Some(i) = task.fixed_id() {
                assert forall|k: usize| #[trigger] tasks.dom().contains(k) implies
                    tasks[k].fixed_id() != Some(i) by {
                    assert(before.dom().contains(k) && k != id);
                }
                assert(before.dom().contains(id));
            }
        }
        let completion = CompletionType::new(task, cqe.result);
        self.run_backlog();
        Ok((id, completion))
    }

    /// One step of waiting for a completion. The caller first steps at
    /// [`WaitStage::Local`] with the next completion it already holds. With
    /// none, it is asked to refresh the completion queue, which costs no
    /// system call; only when that brings nothing either is it handed the
    /// pending entries to submit with a blocking wait.
    pub fn wait_step(&mut self, stage: WaitStage, cqe: Option<Cqe>) -> (r: Result<WaitAction, RuntimeError>)
        requires
            old(self).wf(),
            cqe matches Some(c) ==> c.result != i32::MIN,
        ensures
            final(self).wf(),
            final(self).capacity() == old(self).capacity(),
            final(self).pool() == old(self).pool(),
            match cqe {
                Some(c) => match r {
                    Ok(WaitAction::Deliver(id, comp)) => {
                        &&& id as u64 == c.user_data
                        &&& old(self).in_flight().dom().contains(id)
                        &&& comp == completion_of(old(self).in_flight()[id], c.result)
                        &&& final(self).in_flight() == old(self).in_flight().remove(id)
                        &&& final(self).pending() == old(self).pending()
                        &&& final(self).backlog_settled()
                    },
                    Ok(_) => false,
                    Err(e) => {
                        &&& e == RuntimeError::UnknownTask(c.user_data)
                        &&& !(c.user_data <= usize::MAX && old(self).in_flight().dom().contains(
                            c.user_data as usize,
                        ))
                        &&& *final(self) == *old(self)
                    },
                },
                None => match stage {
                    WaitStage::Local => r matches Ok(WaitAction::Sync) && *final(self) == *old(self),
                    WaitStage::Synced => match r {
                        Ok(WaitAction::Submit(entries)) => {
                            &&& entries@ + final(self).pending() == old(self).pending()
                            &&& entries@.len() == (if old(self).pending().len() < old(self).capacity() {
                                old(self).pending().len()
                            } else {
                                old(self).capacity()
                            })
                            &&& final(self).in_flight() == old(self).in_flight()
                        },
                        _ => false,
                    },
                },
            },
    {
        match cqe {
            Some(c) => match self.complete(c) {
                Ok((id, comp)) => Ok(WaitAction::Deliver(id, comp)),
                Err(e) => Err(e),
            },
            None => match stage {
                WaitStage::Local => Ok(WaitAction::Sync),
                WaitStage::Synced => Ok(WaitAction::Submit(self.take_submissions())),
            },
        }
    }
}

/// The entry that operation `t` gets under `id` with ordering `o`.
pub open spec fn entry_for(t: TaskType, o: Ordering, id: TaskId) -> Submission {
    Submission { op: t.spec_op(), user_data: id as u64, ordering: o }
}

/// No two in-flight operations share an id: of two submissions in a row,
/// each gets an id that no operation in flight holds, the two ids differ,
/// and both operations stay in the table under them.
pub proof fn lemma_ids_unique(
    a: Runtime,
    b: Runtime,
    c: Runtime,
    t1: TaskType,
    o1: Ordering,
    id1: TaskId,
    t2: TaskType,
    o2: Ordering,
    id2: TaskId,
)
    requires
        Runtime::submitted(a, b, t1, o1, id1),
        Runtime::submitted(b, c, t2, o2, id2),
    ensures
        !a.in_flight().dom().contains(id1),
        !a.in_flight().dom().contains(id2),
        id1 != id2,
        c.in_flight().dom().contains(id1) && c.in_flight()[id1] == t1,
        c.in_flight().dom().contains(id2) && c.in_flight()[id2] == t2,
        entry_for(t1, o1, id1).user_data != entry_for(t2, o2, id2).user_data,
{
}

/// Once an operation's completion is consumed its id names nothing in
/// flight, so a later submission may be given it again.
pub proof fn lemma_id_released(b: Runtime, c: Runtime, id: TaskId)
    requires
        b.in_flight().dom().contains(id),
        c.in_flight() == b.in_flight().remove(id),
    ensures
        !c.in_flight().dom().contains(id),
        forall|k: usize| k != id ==> (c.in_flight().dom().contains(k) == b.in_flight().dom().contains(k)),
{
}

/// Entries go to the kernel in the order they were submitted and none is
/// dropped: after two submissions, the pending entries are the earlier
/// ones followed by the two new ones in order, whether they went to the
/// queue or to the backlog; and whatever a hand-over gives out, followed
/// by what stays pending, is that same sequence.
pub proof fn lemma_pending_fifo(
    a: Runtime,
    b: Runtime,
    c: Runtime,
    d: Runtime,
    t1: TaskType,
    o1: Ordering,
    id1: TaskId,
    t2: TaskType,
    o2: Ordering,
    id2: TaskId,
    out: Seq<Submission>,
)
    requires
        Runtime::submitted(a, b, t1, o1, id1),
        Runtime::submitted(b, c, t2, o2, id2),
        out + d.pending() == c.pending(),
    ensures
        c.pending() == a.pending() + seq![entry_for(t1, o1, id1), entry_for(t2, o2, id2)],
        (out + d.pending())[a.pending().len() as int] == entry_for(t1, o1, id1),
        (out + d.pending())[a.pending().len() + 1int] == entry_for(t2, o2, id2),
{
    assert(c.pending() =~= a.pending() + seq![entry_for(t1, o1, id1), entry_for(t2, o2, id2)]);
}

/// Each registered buffer is held by at most one of the pool and the
/// in-flight operations, in every state the runtime reaches.
pub proof fn lemma_buffers_exclusive(rt: Runtime)
    requires
        rt.wf(),
    ensures
        buffers_exclusive(rt.pool(), rt.in_flight()),
{
}

} // verus!
