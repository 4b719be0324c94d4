use wisp::completion::OsError;
use wisp::proxy::{Action, Direction, Event, Flow, Pipe};
use wisp::tcp::{Half, Teardown};

const CLIENT: i32 = 10;
const BACKEND: i32 = 11;

fn connected_pipe() -> Pipe {
    let (mut p, acts) = Pipe::open(CLIENT, BACKEND, 1024, 4096);
    assert_eq!(
        acts,
        vec![
            Action::Connect { fd: BACKEND },
            Action::Read { dir: Direction::Request, fd: CLIENT }
        ]
    );
    let acts = p.on_event(Event::Connected(Ok(())));
    assert_eq!(acts, vec![Action::Read { dir: Direction::Response, fd: BACKEND }]);
    p
}

#[test]
fn relays_request_and_response() {
    let mut p = connected_pipe();
    let request = b"GET / HTTP/1";
    let acts = p.on_event(Event::ReadDone(Direction::Request, Ok(request.len())));
    assert_eq!(
        acts,
        vec![Action::Write { dir: Direction::Request, fd: BACKEND, start: 0, end: request.len() }]
    );
    let acts = p.on_event(Event::WriteDone(Direction::Request, Ok(request.len())));
    assert_eq!(acts, vec![Action::Read { dir: Direction::Request, fd: CLIENT }]);
    let acts = p.on_event(Event::ReadDone(Direction::Response, Ok(5)));
    assert_eq!(acts, vec![Action::Write { dir: Direction::Response, fd: CLIENT, start: 0, end: 5 }]);
    let acts = p.on_event(Event::WriteDone(Direction::Response, Ok(5)));
    assert_eq!(acts, vec![Action::Read { dir: Direction::Response, fd: BACKEND }]);
}

#[test]
fn short_writes_reissue_the_rest() {
    let mut p = connected_pipe();
    p.on_event(Event::ReadDone(Direction::Request, Ok(10)));
    let acts = p.on_event(Event::WriteDone(Direction::Request, Ok(4)));
    assert_eq!(acts, vec![Action::Write { dir: Direction::Request, fd: BACKEND, start: 4, end: 10 }]);
    let acts = p.on_event(Event::WriteDone(Direction::Request, Ok(0)));
    assert_eq!(acts, vec![Action::Write { dir: Direction::Request, fd: BACKEND, start: 4, end: 10 }]);
    let acts = p.on_event(Event::WriteDone(Direction::Request, Ok(5)));
    assert_eq!(acts, vec![Action::Write { dir: Direction::Request, fd: BACKEND, start: 9, end: 10 }]);
    let acts = p.on_event(Event::WriteDone(Direction::Request, Ok(1)));
    assert_eq!(acts, vec![Action::Read { dir: Direction::Request, fd: CLIENT }]);
    assert_eq!(p.request, Flow::Reading);
}

#[test]
fn client_half_close_shuts_backend_write_only() {
    let mut p = connected_pipe();
    let acts = p.on_event(Event::ReadDone(Direction::Request, Ok(0)));
    assert_eq!(
        acts,
        vec![
            Action::Release { fd: CLIENT, teardown: Teardown::Shutdown(Half::Read) },
            Action::Release { fd: BACKEND, teardown: Teardown::Shutdown(Half::Write) }
        ]
    );
    assert!(!p.is_closed());
    let acts = p.on_event(Event::ReadDone(Direction::Response, Ok(5)));
    assert_eq!(acts, vec![Action::Write { dir: Direction::Response, fd: CLIENT, start: 0, end: 5 }]);
    let acts = p.on_event(Event::WriteDone(Direction::Response, Ok(5)));
    assert_eq!(acts, vec![Action::Read { dir: Direction::Response, fd: BACKEND }]);
    let acts = p.on_event(Event::ReadDone(Direction::Response, Ok(0)));
    assert_eq!(
        acts,
        vec![
            Action::Release { fd: BACKEND, teardown: Teardown::ShutdownAndClose(Half::Read) },
            Action::Release { fd: CLIENT, teardown: Teardown::ShutdownAndClose(Half::Write) }
        ]
    );
    assert!(p.is_closed());
}

#[test]
fn backend_half_close_shuts_client_write_only() {
    let mut p = connected_pipe();
    let acts = p.on_event(Event::ReadDone(Direction::Response, Ok(0)));
    assert_eq!(
        acts,
        vec![
            Action::Release { fd: BACKEND, teardown: Teardown::Shutdown(Half::Read) },
            Action::Release { fd: CLIENT, teardown: Teardown::Shutdown(Half::Write) }
        ]
    );
    let acts = p.on_event(Event::ReadDone(Direction::Request, Ok(3)));
    assert_eq!(acts, vec![Action::Write { dir: Direction::Request, fd: BACKEND, start: 0, end: 3 }]);
}

#[test]
fn connect_failure_closes_both_sockets() {
    let (mut p, _) = Pipe::open(CLIENT, BACKEND, 1024, 4096);
    let acts = p.on_event(Event::Connected(Err(OsError { code: 111 })));
    assert_eq!(acts, vec![Action::Close { fd: CLIENT }, Action::Close { fd: BACKEND }]);
    assert!(p.is_closed());
    let acts = p.on_event(Event::ReadDone(Direction::Request, Err(OsError { code: 125 })));
    assert!(acts.is_empty());
}

#[test]
fn read_error_closes_both_sockets() {
    let mut p = connected_pipe();
    let acts = p.on_event(Event::ReadDone(Direction::Response, Err(OsError { code: 104 })));
    assert_eq!(acts, vec![Action::Close { fd: CLIENT }, Action::Close { fd: BACKEND }]);
    assert!(p.is_closed());
}

#[test]
fn write_error_closes_both_sockets() {
    let mut p = connected_pipe();
    p.on_event(Event::ReadDone(Direction::Request, Ok(7)));
    let acts = p.on_event(Event::WriteDone(Direction::Request, Err(OsError { code: 32 })));
    assert_eq!(acts, vec![Action::Close { fd: CLIENT }, Action::Close { fd: BACKEND }]);
}

#[test]
fn oversized_counts_abort() {
    let mut p = connected_pipe();
    let acts = p.on_event(Event::ReadDone(Direction::Request, Ok(1025)));
    assert_eq!(acts, vec![Action::Close { fd: CLIENT }, Action::Close { fd: BACKEND }]);
    let mut p = connected_pipe();
    p.on_event(Event::ReadDone(Direction::Request, Ok(4)));
    let acts = p.on_event(Event::WriteDone(Direction::Request, Ok(5)));
    assert_eq!(acts, vec![Action::Close { fd: CLIENT }, Action::Close { fd: BACKEND }]);
}

#[test]
fn events_that_do_not_fit_are_ignored() {
    let mut p = connected_pipe();
    let before = p;
    assert!(p.on_event(Event::WriteDone(Direction::Request, Ok(3))).is_empty());
    assert_eq!((p.request, p.response), (before.request, before.response));
    assert_eq!(p.outstanding, before.outstanding - 1);
}

#[test]
fn pipe_counts_its_operations() {
    let (mut p, _) = Pipe::open(CLIENT, BACKEND, 1024, 4096);
    assert_eq!(p.outstanding, 2);
    p.on_event(Event::Connected(Ok(())));
    assert_eq!(p.outstanding, 2);
    p.on_event(Event::ReadDone(Direction::Request, Ok(0)));
    assert_eq!(p.outstanding, 1);
    assert!(!p.is_finished());
    p.on_event(Event::ReadDone(Direction::Response, Ok(0)));
    assert_eq!(p.outstanding, 0);
    assert!(p.is_closed() && p.is_finished());
}

#[test]
fn aborted_pipe_finishes_when_last_operation_returns() {
    let (mut p, _) = Pipe::open(CLIENT, BACKEND, 1024, 4096);
    p.on_event(Event::Connected(Err(OsError { code: 111 })));
    assert!(p.is_closed());
    assert!(!p.is_finished());
    p.on_event(Event::ReadDone(Direction::Request, Err(OsError { code: 125 })));
    assert!(p.is_finished());
}
