//! The relay for one proxied connection. Bytes read from the inbound
//! (client) socket are written to the outbound (backend) socket, and bytes
//! read from the outbound socket to the inbound one. Each direction owns
//! one buffer: it reads, writes what it read (reissuing the rest after a
//! short write), and only then reads again. End of stream on a source
//! shuts down that direction's halves; any error closes both sockets.
//!
//! [`Pipe::on_event`] takes the outcome of one finished operation and
//! returns the operations and socket teardowns to perform next.

use vstd::prelude::*;

use crate::completion::OsError;
use crate::tcp::{Half, Halves, Teardown};

verus! {

/// Which way bytes flow.
#[derive(Clone, Copy, PartialEq, Eq, Structural, Debug)]
pub enum Direction {
    /// From the inbound socket to the outbound one.
    Request,
    /// From the outbound socket to the inbound one.
    Response,
}

/// Where one direction stands.
#[derive(Clone, Copy, PartialEq, Eq, Structural, Debug)]
pub enum Flow {
    /// Not started: the outbound connection is not up yet.
    Waiting,
    /// A read from the source is in flight.
    Reading,
    /// A write of the buffer's bytes `start..end` to the destination is in flight.
    Writing { start: usize, end: usize },
    /// The source reached end of stream, or the pipe was torn down.
    Done,
}

/// A finished operation of a pipe, as the relay sees it.
#[derive(Clone, Copy, Debug)]
pub enum Event {
    Connected(Result<(), OsError>),
    ReadDone(Direction, Result<usize, OsError>),
    WriteDone(Direction, Result<usize, OsError>),
}

/// What to do next.
#[derive(Clone, Copy, PartialEq, Eq, Structural, Debug)]
pub enum Action {
    /// Dial the backend from the outbound socket; the read queued right
    /// after it runs only if the dial succeeds.
    Connect { fd: i32 },
    /// Read from `fd` into the direction's whole buffer.
    Read { dir: Direction, fd: i32 },
    /// Write the direction's buffer bytes `start..end` to `fd`.
    Write { dir: Direction, fd: i32, start: usize, end: usize },
    /// Release one half of `fd` as `teardown` says.
    Release { fd: i32, teardown: Teardown },
    /// Close `fd` at once.
    Close { fd: i32 },
}

/// One proxied connection.
#[derive(Clone, Copy, PartialEq, Eq, Structural, Debug)]
pub struct Pipe {
    pub inbound: i32,
    pub outbound: i32,
    /// The size of the request direction's buffer.
    pub request_size: usize,
    /// The size of the response direction's buffer.
    pub response_size: usize,
    pub request: Flow,
    pub response: Flow,
    /// The halves of the inbound socket still held: the read half by the
    /// request direction, the write half by the response direction.
    pub inbound_halves: Halves,
    /// The halves of the outbound socket still held: the read half by the
    /// response direction, the write half by the request direction.
    pub outbound_halves: Halves,
    /// Operations of this pipe that are in flight: each event ends one.
    pub outstanding: usize,
}

/// The number of operations that `acts` start.
pub open spec fn ops_started(acts: Seq<Action>) -> nat
    decreases acts.len(),
{
    if acts.len() == 0 {
        0
    } else {
        ops_started(acts.drop_last()) + match acts.last() {
            Action::Connect { .. } | Action::Read { .. } | Action::Write { .. } => 1nat,
            _ => 0nat,
        }
    }
}

pub open spec fn flow_wf(f: Flow, size: usize) -> bool {
    match f {
        Flow::Writing { start, end } => start < end <= size,
        _ => true,
    }
}

/// The release of half `h` from `hs`.
pub open spec fn teardown_of(hs: Halves, h: Half) -> Teardown {
    if hs.held(Halves::other(h)) {
        Teardown::Shutdown(h)
    } else {
        Teardown::ShutdownAndClose(h)
    }
}

impl Pipe {
    pub open spec fn wf(&self) -> bool {
        &&& self.request != Flow::Waiting
        &&& flow_wf(self.request, self.request_size)
        &&& flow_wf(self.response, self.response_size)
        &&& self.inbound_halves.read == (self.request != Flow::Done)
        &&& self.outbound_halves.write == (self.request != Flow::Done)
        &&& self.outbound_halves.read == (self.response != Flow::Done)
        &&& self.inbound_halves.write == (self.response != Flow::Done)
    }

    pub open spec fn flow(&self, d: Direction) -> Flow {
        match d {
            Direction::Request => self.request,
            Direction::Response => self.response,
        }
    }

    pub open spec fn size(&self, d: Direction) -> usize {
        match d {
            Direction::Request => self.request_size,
            Direction::Response => self.response_size,
        }
    }

    /// The socket a direction reads from.
    pub open spec fn source(&self, d: Direction) -> i32 {
        match d {
            Direction::Request => self.inbound,
            Direction::Response => self.outbound,
        }
    }

    /// The socket a direction writes to.
    pub open spec fn dest(&self, d: Direction) -> i32 {
        match d {
            Direction::Request => self.outbound,
            Direction::Response => self.inbound,
        }
    }

    pub open spec fn with_flow(self, d: Direction, f: Flow) -> Pipe {
        match d {
            Direction::Request => Pipe { request: f, ..self },
            Direction::Response => Pipe { response: f, ..self },
        }
    }

    /// Both directions are over; nothing of the pipe is left in flight.
    pub open spec fn spec_closed(&self) -> bool {
        self.request == Flow::Done && self.response == Flow::Done
    }

    /// The pipe torn down at once: both sockets closed.
    pub open spec fn aborted(self) -> (Pipe, Seq<Action>) {
        (
            Pipe {
                request: Flow::Done,
                response: Flow::Done,
                inbound_halves: Halves { read: false, write: false },
                outbound_halves: Halves { read: false, write: false },
                ..self
            },
            seq![Action::Close { fd: self.inbound }, Action::Close { fd: self.outbound }],
        )
    }

    /// Direction `d` reached end of stream: its source's read half and its
    /// destination's write half are released.
    pub open spec fn finished(self, d: Direction) -> (Pipe, Seq<Action>) {
        match d {
            Direction::Request => (
                Pipe {
                    request: Flow::Done,
                    inbound_halves: self.inbound_halves.without(Half::Read),
                    outbound_halves: self.outbound_halves.without(Half::Write),
                    ..self
                },
                seq![
                    Action::Release { fd: self.inbound, teardown: teardown_of(self.inbound_halves, Half::Read) },
                    Action::Release { fd: self.outbound, teardown: teardown_of(self.outbound_halves, Half::Write) },
                ],
            ),
            Direction::Response => (
                Pipe {
                    response: Flow::Done,
                    outbound_halves: self.outbound_halves.without(Half::Read),
                    inbound_halves: self.inbound_halves.without(Half::Write),
                    ..self
                },
                seq![
                    Action::Release { fd: self.outbound, teardown: teardown_of(self.outbound_halves, Half::Read) },
                    Action::Release { fd: self.inbound, teardown: teardown_of(self.inbound_halves, Half::Write) },
                ],
            ),
        }
    }

    /// The flows and halves after event `e`, with the actions it calls for.
    /// An event that does not fit the state it arrives in (one for a pipe
    /// already torn down) changes nothing and calls for nothing.
    pub open spec fn step(self, e: Event) -> (Pipe, Seq<Action>) {
        match e {
            Event::Connected(res) => {
                if self.response != Flow::Waiting {
                    (self, Seq::empty())
                } else {
                    match res {
                        Ok(_) => (
                            Pipe { response: Flow::Reading, ..self },
                            seq![Action::Read { dir: Direction::Response, fd: self.outbound }],
                        ),
                        Err(_) => self.aborted(),
                    }
                }
            },
            Event::ReadDone(d, res) => {
                if self.flow(d) != Flow::Reading {
                    (self, Seq::empty())
                } else {
                    match res {
                        Ok(n) => {
                            if n == 0 {
                                self.finished(d)
                            } else if n <= self.size(d) {
                                (
                                    self.with_flow(d, Flow::Writing { start: 0, end: n }),
                                    seq![Action::Write { dir: d, fd: self.dest(d), start: 0, end: n }],
                                )
                            } else {
                                self.aborted()
                            }
                        },
                        Err(_) => self.aborted(),
                    }
                }
            },
            Event::WriteDone(d, res) => {
                match self.flow(d) {
                    Flow::Writing { start, end } => match res {
                        Ok(m) => {
                            if m < end - start {
                                (
                                    self.with_flow(d, Flow::Writing { start: (start + m) as usize, end }),
                                    seq![Action::Write { dir: d, fd: self.dest(d), start: (start + m) as usize, end }],
                                )
                            } else if m == end - start {
                                (
                                    self.with_flow(d, Flow::Reading),
                                    seq![Action::Read { dir: d, fd: self.source(d) }],
                                )
                            } else {
                                self.aborted()
                            }
                        },
                        Err(_) => self.aborted(),
                    },
                    _ => (self, Seq::empty()),
                }
            },
        }
    }

    /// The pipe after event `e`, which ends one of its operations, with the
    /// actions it calls for; the operations those actions start are
    /// counted in.
    pub open spec fn next(self, e: Event) -> (Pipe, Seq<Action>) {
        let (q, acts) = self.step(e);
        (Pipe { outstanding: (self.outstanding - 1 + ops_started(acts)) as usize, ..q }, acts)
    }

    /// Both directions are over and no operation of the pipe is in flight:
    /// nothing refers to it any more.
    pub open spec fn spec_finished(&self) -> bool {
        self.spec_closed() && self.outstanding == 0
    }

    /// A pipe for a freshly accepted inbound socket and a new outbound one:
    /// dial the backend, and read the inbound socket once that succeeds.
    pub fn open(inbound: i32, outbound: i32, request_size: usize, response_size: usize) -> (r: (Pipe, Vec<Action>))
        ensures
            r.0.wf(),
            r.0 == (Pipe {
                inbound,
                outbound,
                request_size,
                response_size,
                request: Flow::Reading,
                response: Flow::Waiting,
                inbound_halves: Halves { read: true, write: true },
                outbound_halves: Halves { read: true, write: true },
                outstanding: 2,
            }),
            r.1@ == seq![
                Action::Connect { fd: outbound },
                Action::Read { dir: Direction::Request, fd: inbound },
            ],
    {
        let p = Pipe {
            inbound,
            outbound,
            request_size,
            response_size,
            request: Flow::Reading,
            response: Flow::Waiting,
            inbound_halves: Halves::new(),
            outbound_halves: Halves::new(),
            outstanding: 2,
        };
        let acts = vec![
            Action::Connect { fd: outbound },
            Action::Read { dir: Direction::Request, fd: inbound },
        ];
        (p, acts)
    }

    pub fn is_closed(&self) -> (r: bool)
        ensures
            r == self.spec_closed(),
    {
        self.request == Flow::Done && self.response == Flow::Done
    }

    pub fn is_finished(&self) -> (r: bool)
        ensures
            r == self.spec_finished(),
    {
        self.is_closed() && self.outstanding == 0
    }

    fn flow_of(&self, d: Direction) -> (r: Flow)
        ensures
            r == self.flow(d),
    {
        match d {
            Direction::Request => self.request,
            Direction::Response => self.response,
        }
    }

    fn set_flow(&mut self, d: Direction, f: Flow)
        ensures
            *final(self) == old(self).with_flow(d, f),
    {
        match d {
            Direction::Request => self.request = f,
            Direction::Response => self.response = f,
        }
    }

    fn source_of(&self, d: Direction) -> (r: i32)
        ensures
            r == self.source(d),
    {
        match d {
            Direction::Request => self.inbound,
            Direction::Response => self.outbound,
        }
    }

    fn dest_of(&self, d: Direction) -> (r: i32)
        ensures
            r == self.dest(d),
    {
        match d {
            Direction::Request => self.outbound,
            Direction::Response => self.inbound,
        }
    }

    fn size_of(&self, d: Direction) -> (r: usize)
        ensures
            r == self.size(d),
    {
        match d {
            Direction::Request => self.request_size,
            Direction::Response => self.response_size,
        }
    }

    fn abort(&mut self) -> (r: Vec<Action>)
        ensures
            (*final(self), r@) == old(self).aborted(),
    {
        self.request = Flow::Done;
        self.response = Flow::Done;
        self.inbound_halves = Halves { read: false, write: false };
        self.outbound_halves = Halves { read: false, write: false };
        vec![Action::Close { fd: self.inbound }, Action::Close { fd: self.outbound }]
    }

    fn finish(&mut self, d: Direction) -> (r: Vec<Action>)
        requires
            old(self).wf(),
            old(self).flow(d) == Flow::Reading,
        ensures
            (*final(self), r@) == old(self).finished(d),
    {
        match d {
            Direction::Request => {
                self.request = Flow::Done;
                let a = self.inbound_halves.release(Half::Read);
                let b = self.outbound_halves.release(Half::Write);
                vec![
                    Action::Release { fd: self.inbound, teardown: a },
                    Action::Release { fd: self.outbound, teardown: b },
                ]
            },
            Direction::Response => {
                self.response = Flow::Done;
                let a = self.outbound_halves.release(Half::Read);
                let b = self.inbound_halves.release(Half::Write);
                vec![
                    Action::Release { fd: self.outbound, teardown: a },
                    Action::Release { fd: self.inbound, teardown: b },
                ]
            },
        }
    }

    fn apply(&mut self, e: Event) -> (r: Vec<Action>)
        requires
            old(self).wf(),
        ensures
            final(self).wf(),
            (*final(self), r@) == old(self).step(e),
    {
        match e {
            Event::Connected(res) => {
                if self.response != Flow::Waiting {
                    Vec::new()
                } else {
                    match res {
                        Ok(_) => {
                            self.response = Flow::Reading;
                            vec![Action::Read { dir: Direction::Response, fd: self.outbound }]
                        },
                        Err(_) => self.abort(),
                    }
                }
            },
            Event::ReadDone(d, res) => {
                if self.flow_of(d) != Flow::Reading {
                    Vec::new()
                } else {
                    match res {
                        Ok(n) => {
                            if n == 0 {
                                self.finish(d)
                            } else if n <= self.size_of(d) {
                                self.set_flow(d, Flow::Writing { start: 0, end: n });
                                vec![Action::Write { dir: d, fd: self.dest_of(d), start: 0, end: n }]
                            } else {
                                self.abort()
                            }
                        },
                        Err(_) => self.abort(),
                    }
                }
            },
            Event::WriteDone(d, res) => {
                match self.flow_of(d) {
                    Flow::Writing { start, end } => match res {
                        Ok(m) => {
                            if m < end - start {
                                self.set_flow(d, Flow::Writing { start: start + m, end });
                                vec![Action::Write { dir: d, fd: self.dest_of(d), start: start + m, end }]
                            } else if m == end - start {
                                self.set_flow(d, Flow::Reading);
                                vec![Action::Read { dir: d, fd: self.source_of(d) }]
                            } else {
                                self.abort()
                            }
                        },
                        Err(_) => self.abort(),
                    },
                    _ => Vec::new(),
                }
            },
        }
    }

    /// Applies the outcome of one finished operation of this pipe, which
    /// must have one in flight, and returns what to do next.
    pub fn on_event(&mut self, e: Event) -> (r: Vec<Action>)
        requires
            old(self).wf(),
            old(self).outstanding > 0,
        ensures
            final(self).wf(),
            (*final(self), r@) == old(self).next(e),
    {
        let before = self.outstanding;
        proof {
            lemma_step_starts_at_most_one(*self, e);
        }
        let acts = self.apply(e);
        let started = count_started(&acts);
        self.outstanding = before - 1 + started;
        acts
    }
}

proof fn lemma_step_starts_at_most_one(p: Pipe, e: Event)
    ensures
        p.step(e).1.len() <= 2,
        ops_started(p.step(e).1) <= 1,
{
    reveal_with_fuel(ops_started, 3);
}

fn count_started(acts: &Vec<Action>) -> (r: usize)
    requires
        acts@.len() <= 2,
    ensures
        r == ops_started(acts@),
{
    let mut n: usize = 0;
    let mut i: usize = 0;
    while i < acts.len()
        invariant
            i <= acts@.len() <= 2,
            n == ops_started(acts@.take(i as int)),
            n <= i,
        decreases acts@.len() - i,
    {
        assert(acts@.take(i + 1).drop_last() =~= acts@.take(i as int));
        match acts[i] {
            Action::Connect { .. } | Action::Read { .. } | Action::Write { .. } => n = n + 1,
            _ => {},
        }
        i = i + 1;
    }
    assert(acts@.take(acts@.len() as int) =~= acts@);
    n
}

/// The other direction.
pub open spec fn opposite(d: Direction) -> Direction {
    match d {
        Direction::Request => Direction::Response,
        Direction::Response => Direction::Request,
    }
}

/// The sum of a sequence of byte counts.
pub open spec fn total(ws: Seq<usize>) -> nat
    decreases ws.len(),
{
    if ws.len() == 0 {
        0
    } else {
        total(ws.drop_last()) + ws.last() as nat
    }
}

/// The pipe after the writes of direction `d` complete with the counts
/// `ws`, one after another.
pub open spec fn after_writes(p: Pipe, d: Direction, ws: Seq<usize>) -> Pipe
    decreases ws.len(),
{
    if ws.len() == 0 {
        p
    } else {
        after_writes(p, d, ws.drop_last()).next(Event::WriteDone(d, Ok(ws.last()))).0
    }
}

proof fn lemma_total_prefix_grows(ws: Seq<usize>, i: int, j: int)
    requires
        0 <= i <= j <= ws.len(),
    ensures
        total(ws.take(i)) <= total(ws.take(j)),
    decreases j - i,
{
    if i < j {
        lemma_total_prefix_grows(ws, i, j - 1);
        assert(ws.take(j).drop_last() =~= ws.take(j - 1));
    }
}

proof fn lemma_writes_prefix(p: Pipe, d: Direction, ws: Seq<usize>, i: int)
    requires
        p.wf(),
        p.flow(d) is Writing,
        ws.len() > 0,
        total(ws) == p.flow(d)->end - p.flow(d)->start,
        ws.last() > 0,
        0 <= i < ws.len(),
    ensures
        total(ws.take(i)) < p.flow(d)->end - p.flow(d)->start,
        after_writes(p, d, ws.take(i)) == p.with_flow(
            d,
            Flow::Writing {
                start: (p.flow(d)->start + total(ws.take(i))) as usize,
                end: p.flow(d)->end,
            },
        ),
    decreases i,
{
    reveal_with_fuel(ops_started, 2);
    let n = ws.len() as int;
    lemma_total_prefix_grows(ws, i, n - 1);
    assert(ws.take(n) =~= ws);
    assert(ws.take(n).drop_last() =~= ws.take(n - 1));
    if i == 0 {
        assert(ws.take(0) =~= Seq::<usize>::empty());
        match d {
            Direction::Request => assert(p.with_flow(d, p.flow(d)) == p),
            Direction::Response => assert(p.with_flow(d, p.flow(d)) == p),
        }
    } else {
        lemma_writes_prefix(p, d, ws, i - 1);
        assert(ws.take(i).drop_last() =~= ws.take(i - 1));
    }
}

/// Short writes converge: a write of N bytes whose completions report
/// counts that add up to N, the last of them non-zero, is followed after
/// each short completion by exactly one write, of the bytes that remain,
/// and after the completion that reaches N by the next read of the source.
pub proof fn lemma_partial_writes(p: Pipe, d: Direction, ws: Seq<usize>)
    requires
        p.wf(),
        p.flow(d) is Writing,
        ws.len() > 0,
        total(ws) == p.flow(d)->end - p.flow(d)->start,
        ws.last() > 0,
    ensures
        forall|i: int|
            0 <= i < ws.len() - 1 ==> (#[trigger] after_writes(p, d, ws.take(i)).next(
                Event::WriteDone(d, Ok(ws[i])),
            )).1 == seq![
                Action::Write {
                    dir: d,
                    fd: p.dest(d),
                    start: (p.flow(d)->start + total(ws.take(i + 1))) as usize,
                    end: p.flow(d)->end,
                },
            ],
        after_writes(p, d, ws.drop_last()).next(Event::WriteDone(d, Ok(ws.last()))).1 == seq![
            Action::Read { dir: d, fd: p.source(d) },
        ],
        after_writes(p, d, ws).flow(d) == Flow::Reading,
{
    let n = ws.len() as int;
    assert forall|i: int| 0 <= i < ws.len() - 1 implies (#[trigger] after_writes(p, d, ws.take(i)).next(
        Event::WriteDone(d, Ok(ws[i])),
    )).1 == seq![
        Action::Write {
            dir: d,
            fd: p.dest(d),
            start: (p.flow(d)->start + total(ws.take(i + 1))) as usize,
            end: p.flow(d)->end,
        },
    ] by {
        lemma_writes_prefix(p, d, ws, i);
        lemma_writes_prefix(p, d, ws, i + 1);
        assert(ws.take(i + 1).drop_last() =~= ws.take(i));
    }
    lemma_writes_prefix(p, d, ws, n - 1);
    assert(ws.take(n - 1) =~= ws.drop_last());
    assert(ws.take(n) =~= ws);
}

/// End of stream on one direction's source releases only that source's
/// read half and the destination's write half, which propagates the
/// half-close; the opposite direction carries on, and neither socket is
/// closed while it does.
pub proof fn lemma_half_close(p: Pipe, d: Direction)
    requires
        p.wf(),
        p.flow(d) == Flow::Reading,
        p.flow(opposite(d)) != Flow::Done,
    ensures
        p.next(Event::ReadDone(d, Ok(0))).1 == seq![
            Action::Release { fd: p.source(d), teardown: Teardown::Shutdown(Half::Read) },
            Action::Release { fd: p.dest(d), teardown: Teardown::Shutdown(Half::Write) },
        ],
        p.next(Event::ReadDone(d, Ok(0))).0.wf(),
        p.next(Event::ReadDone(d, Ok(0))).0.flow(d) == Flow::Done,
        p.next(Event::ReadDone(d, Ok(0))).0.flow(opposite(d)) == p.flow(opposite(d)),
{
}

/// Once both directions have reached end of stream, each socket has been
/// closed exactly once: the second release of each closes it.
pub proof fn lemma_both_ends_close(p: Pipe, d: Direction)
    requires
        p.wf(),
        p.flow(d) == Flow::Reading,
        p.flow(opposite(d)) == Flow::Done,
    ensures
        p.next(Event::ReadDone(d, Ok(0))).1 == seq![
            Action::Release { fd: p.source(d), teardown: Teardown::ShutdownAndClose(Half::Read) },
            Action::Release { fd: p.dest(d), teardown: Teardown::ShutdownAndClose(Half::Write) },
        ],
        p.next(Event::ReadDone(d, Ok(0))).0.spec_closed(),
        p.outstanding == 1 ==> p.next(Event::ReadDone(d, Ok(0))).0.spec_finished(),
{
    reveal_with_fuel(ops_started, 3);
}

} // verus!
