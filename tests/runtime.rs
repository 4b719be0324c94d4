use wisp::buffer::Slice;
use wisp::completion::{CompletionType, OsError};
use wisp::runtime::{Cqe, Runtime, RuntimeError, WaitAction, WaitStage};
use wisp::task::{Op, Ordering, Submission, TaskType, Cancel};
use wisp::tcp::{split, Listener};

fn tags(entries: &[Submission]) -> Vec<u64> {
    entries.iter().map(|e| e.user_data).collect()
}

#[test]
fn ids_of_in_flight_operations_differ() {
    let mut rt = Runtime::new(8);
    let a = rt.accept(Listener { fd: 3 });
    let b = rt.cancel(a);
    let (r, _w) = split(4);
    let c = rt.read(r, Slice::new(16));
    assert_ne!(a, b);
    assert_ne!(b, c);
    assert_ne!(a, c);
    assert_eq!(rt.in_flight_count(), 3);
    assert!(rt.is_in_flight(a) && rt.is_in_flight(b) && rt.is_in_flight(c));
}

#[test]
fn id_is_reused_after_completion() {
    let mut rt = Runtime::new(8);
    let a = rt.accept(Listener { fd: 3 });
    let _ = rt.take_submissions();
    let done = rt.complete(Cqe { user_data: a as u64, result: 9 });
    assert!(matches!(done, Ok((id, CompletionType::Accept(_))) if id == a));
    assert!(!rt.is_in_flight(a));
    let b = rt.accept(Listener { fd: 3 });
    assert!(rt.is_in_flight(b));
    assert_eq!(rt.in_flight_count(), 1);
}

#[test]
fn full_queue_defers_to_backlog_in_order() {
    let mut rt = Runtime::new(2);
    let ids: Vec<usize> = (0..5).map(|_| rt.cancel(0)).collect();
    let first = rt.take_submissions();
    assert_eq!(tags(&first), vec![ids[0] as u64, ids[1] as u64]);
    let second = rt.take_submissions();
    assert_eq!(tags(&second), vec![ids[2] as u64, ids[3] as u64]);
    let third = rt.take_submissions();
    assert_eq!(tags(&third), vec![ids[4] as u64]);
    assert!(rt.take_submissions().is_empty());
}

#[test]
fn new_submission_queues_behind_backlog() {
    let mut rt = Runtime::new(1);
    let a = rt.cancel(0);
    let b = rt.cancel(0);
    let out = rt.take_submissions();
    assert_eq!(tags(&out), vec![a as u64]);
    let c = rt.cancel(0);
    let out = rt.take_submissions();
    assert_eq!(tags(&out), vec![b as u64]);
    let out = rt.take_submissions();
    assert_eq!(tags(&out), vec![c as u64]);
}

#[test]
fn ordering_is_carried_on_the_entry() {
    let mut rt = Runtime::new(8);
    rt.run(TaskType::Cancel(Cancel { id: 1 }));
    rt.run_then(TaskType::Cancel(Cancel { id: 1 }));
    rt.run_before(TaskType::Cancel(Cancel { id: 1 }));
    rt.run_drain(TaskType::Cancel(Cancel { id: 1 }));
    let (r, _w) = split(4);
    rt.connect_then(r, wisp::tcp::SocketAddrV4 { ip: 0x7f00_0001, port: 9001 });
    rt.timeout(1, 0);
    let out = rt.take_submissions();
    let orders: Vec<Ordering> = out.iter().map(|e| e.ordering).collect();
    assert_eq!(
        orders,
        vec![
            Ordering::Independent,
            Ordering::LinkSuccess,
            Ordering::LinkAny,
            Ordering::Drain,
            Ordering::LinkSuccess,
            Ordering::LinkAny
        ]
    );
    assert_eq!(out[5].op, Op::LinkTimeout { secs: 1, nanos: 0 });
}

#[test]
fn completion_with_unknown_tag_is_refused() {
    let mut rt = Runtime::new(4);
    let a = rt.accept(Listener { fd: 3 });
    let r = rt.complete(Cqe { user_data: a as u64 + 1, result: 0 });
    assert!(matches!(r, Err(RuntimeError::UnknownTask(t)) if t == a as u64 + 1));
    assert!(rt.is_in_flight(a));
}

#[test]
fn write_completion_reports_count_and_returns_buffer() {
    let mut rt = Runtime::new(4);
    let (_r, w) = split(6);
    let mut buf = Slice::new(8);
    buf.as_mut_vec()[0] = 42;
    let id = rt.write(w, buf, 0..8);
    let out = rt.take_submissions();
    assert_eq!(out[0].op, Op::Write { fd: 6, start: 0, len: 8 });
    match rt.complete(Cqe { user_data: id as u64, result: 3 }) {
        Ok((got, CompletionType::Write(done))) => {
            assert_eq!(got, id);
            assert_eq!(done.size, Ok(3));
            assert_eq!(done.task.buffer.as_vec()[0], 42);
            assert_eq!((done.task.start, done.task.end), (0, 8));
        }
        _ => panic!("expected a write completion"),
    }
}

#[test]
fn failed_read_reports_errno() {
    let mut rt = Runtime::new(4);
    let (r, _w) = split(6);
    let id = rt.read_then(r, Slice::new(8));
    match rt.complete(Cqe { user_data: id as u64, result: -125 }) {
        Ok((_, CompletionType::Read(done))) => assert_eq!(done.size, Err(OsError { code: 125 })),
        _ => panic!("expected a read completion"),
    }
}

#[test]
fn wait_checks_locally_before_the_system_call() {
    let mut rt = Runtime::new(4);
    let a = rt.accept(Listener { fd: 3 });
    assert!(matches!(rt.wait_step(WaitStage::Local, None), Ok(WaitAction::Sync)));
    match rt.wait_step(WaitStage::Synced, None) {
        Ok(WaitAction::Submit(entries)) => assert_eq!(tags(&entries), vec![a as u64]),
        _ => panic!("expected a submit"),
    }
    match rt.wait_step(WaitStage::Synced, Some(Cqe { user_data: a as u64, result: 11 })) {
        Ok(WaitAction::Deliver(id, CompletionType::Accept(done))) => {
            assert_eq!(id, a);
            assert_eq!(done.socket, Ok(11));
        }
        _ => panic!("expected a delivery"),
    }
    assert_eq!(rt.in_flight_count(), 0);
}

#[test]
fn completion_refills_queue_from_backlog() {
    let mut rt = Runtime::new(1);
    let a = rt.cancel(0);
    let b = rt.cancel(0);
    match rt.wait_step(WaitStage::Synced, None) {
        Ok(WaitAction::Submit(entries)) => assert_eq!(tags(&entries), vec![a as u64]),
        _ => panic!("expected a submit"),
    }
    let _ = rt.complete(Cqe { user_data: a as u64, result: 0 });
    match rt.wait_step(WaitStage::Synced, None) {
        Ok(WaitAction::Submit(entries)) => assert_eq!(tags(&entries), vec![b as u64]),
        _ => panic!("expected a submit"),
    }
}

#[test]
fn prepared_buffers_are_pooled_and_lent_exclusively() {
    let mut rt = Runtime::new(4);
    rt.prepare_buffers(3, 4096);
    assert_eq!(rt.buffers().len(), 3);
    let b = rt.take_buffer().unwrap();
    assert_eq!(b.id(), 2);
    assert_eq!(b.len(), 4096);
    let (r, _w) = split(5);
    let id = rt.read_fixed(r, b);
    assert_eq!(rt.buffers().len(), 2);
    let out = rt.take_submissions();
    assert_eq!(out[0].op, Op::ReadFixed { fd: 5, len: 4096, buf_index: 2 });
    match rt.complete(Cqe { user_data: id as u64, result: 100 }) {
        Ok((_, CompletionType::ReadFixed(done))) => {
            assert_eq!(done.size, Ok(100));
            rt.give_buffer(done.task.buffer);
        }
        _ => panic!("expected a fixed read"),
    }
    assert_eq!(rt.take_buffer().map(|b| b.id()), Some(2));
}
