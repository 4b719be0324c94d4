use wisp::buffer::{Fixed, Slice};
use wisp::completion::{
    Accept as AcceptDone, Cancel as CancelDone, CompletionType, OsError, Read as ReadDone,
};
use wisp::task::{
    Accept, Cancel, Connect, Op, Ordering, Read, ReadFixed, Submission, TaskType, Timeout, Write,
    WriteFixed,
};
use wisp::tcp::{split, Halves, Half, Listener, SocketAddrV4, Teardown};

#[test]
fn split_names_one_descriptor() {
    let (r, w) = split(12);
    assert_eq!(r.fd, 12);
    assert_eq!(w.fd, 12);
}

#[test]
fn halves_close_on_second_release() {
    let mut h = Halves::new();
    assert!(!h.is_closed());
    assert_eq!(h.release(Half::Write), Teardown::Shutdown(Half::Write));
    assert!(!h.is_closed());
    assert_eq!(h.release(Half::Read), Teardown::ShutdownAndClose(Half::Read));
    assert!(h.is_closed());
}

#[test]
fn read_op_covers_whole_buffer() {
    let (r, _w) = split(5);
    let t = TaskType::Read(Read { socket: r, buffer: Slice::new(1024) });
    assert_eq!(t.op(), Op::Read { fd: 5, len: 1024 });
}

#[test]
fn write_op_covers_its_range() {
    let (_r, w) = split(6);
    let t = TaskType::Write(Write::new(w, Slice::new(100), 10..40));
    assert_eq!(t.op(), Op::Write { fd: 6, start: 10, len: 30 });
    let e = t.entry(3, Ordering::LinkSuccess);
    assert_eq!(
        e,
        Submission { op: Op::Write { fd: 6, start: 10, len: 30 }, user_data: 3, ordering: Ordering::LinkSuccess }
    );
}

#[test]
fn fixed_ops_carry_buffer_index() {
    let (r, w) = split(8);
    let t = TaskType::ReadFixed(ReadFixed { socket: r, buffer: Fixed::new(3, 64) });
    assert_eq!(t.op(), Op::ReadFixed { fd: 8, len: 64, buf_index: 3 });
    let t = TaskType::WriteFixed(WriteFixed::new(w, Fixed::new(4, 64), 0..20));
    assert_eq!(t.op(), Op::WriteFixed { fd: 8, start: 0, len: 20, buf_index: 4 });
}

#[test]
fn other_ops() {
    let t = TaskType::Accept(Accept { socket: Listener { fd: 3 } });
    assert_eq!(t.op(), Op::Accept { fd: 3 });
    let t = TaskType::Cancel(Cancel { id: 9 });
    assert_eq!(t.op(), Op::Cancel { target: 9 });
    let (r, _w) = split(4);
    let addr = SocketAddrV4 { ip: 0x7f00_0001, port: 9001 };
    let t = TaskType::Connect(Connect::new(r, addr));
    assert_eq!(t.op(), Op::Connect { fd: 4, addr });
    let t = TaskType::Timeout(Timeout::new(5, 250));
    assert_eq!(t.op(), Op::LinkTimeout { secs: 5, nanos: 250 });
}

#[test]
fn negative_result_is_os_error() {
    let (r, _w) = split(5);
    let d = ReadDone::new(Read { socket: r, buffer: Slice::new(4) }, -104);
    assert_eq!(d.size, Err(OsError { code: 104 }));
}

#[test]
fn short_read_is_a_count() {
    let (r, _w) = split(5);
    let d = ReadDone::new(Read { socket: r, buffer: Slice::new(4) }, 3);
    assert_eq!(d.size, Ok(3));
}

#[test]
fn accept_gives_descriptor() {
    let a = AcceptDone::new(Accept { socket: Listener { fd: 3 } }, 17);
    assert_eq!(a.socket, Ok(17));
    let a = AcceptDone::new(Accept { socket: Listener { fd: 3 } }, -24);
    assert_eq!(a.socket, Err(OsError { code: 24 }));
}

#[test]
fn cancel_of_finishing_target_succeeds() {
    let c = CancelDone::new(Cancel { id: 1 }, -114);
    assert_eq!(c.result, Ok(()));
    let c = CancelDone::new(Cancel { id: 1 }, -2);
    assert_eq!(c.result, Err(OsError { code: 2 }));
    let c = CancelDone::new(Cancel { id: 1 }, 0);
    assert_eq!(c.result, Ok(()));
}

#[test]
fn completion_type_follows_task_kind() {
    let (r, _w) = split(5);
    match CompletionType::new(TaskType::Read(Read { socket: r, buffer: Slice::new(4) }), 2) {
        CompletionType::Read(d) => assert_eq!(d.size, Ok(2)),
        _ => panic!("wrong kind"),
    }
    match CompletionType::new(TaskType::Cancel(Cancel { id: 4 }), -114) {
        CompletionType::Cancel(c) => assert_eq!(c.result, Ok(())),
        _ => panic!("wrong kind"),
    }
}

#[test]
fn constructors_keep_their_parts() {
    let a = Accept::new(Listener { fd: 3 });
    assert_eq!(a.socket, Listener { fd: 3 });
    let (r, _w) = split(5);
    let t = Read::new(r, Slice::new(12));
    assert_eq!(t.socket.fd, 5);
    assert_eq!(t.buffer.len(), 12);
}
