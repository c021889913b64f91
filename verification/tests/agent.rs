use kapacitsur::agent::{Action, Agent, SessionState, QUEUE_CAPACITY};
use kapacitsur::udf::{
    request, response, BeginBatch, EdgeType, EndBatch, InfoRequest, InfoResponse, InitRequest,
    InitResponse, KeepaliveRequest, KeepaliveResponse, Point, Request, RestoreRequest,
    RestoreResponse, SnapshotRequest, SnapshotResponse,
};
use kapacitsur::{Error, Handler, PointSender, Points, Shutdown};
use std::collections::HashMap;

fn point(time: i64) -> Point {
    Point {
        time,
        name: "cpu".to_string(),
        database: String::new(),
        retention_policy: String::new(),
        group: String::new(),
        dimensions: Vec::new(),
        tags: HashMap::new(),
        fields_double: HashMap::new(),
        fields_int: HashMap::new(),
        fields_string: HashMap::new(),
        fields_bool: HashMap::new(),
        by_name: false,
    }
}

fn batch_begin() -> BeginBatch {
    BeginBatch {
        name: "b".to_string(),
        group: String::new(),
        tags: HashMap::new(),
        size: 2,
        by_name: false,
    }
}

fn batch_end() -> EndBatch {
    EndBatch {
        name: "b".to_string(),
        group: String::new(),
        tmax: 9,
        tags: HashMap::new(),
        by_name: false,
    }
}

fn request(message: request::Message) -> Request {
    Request { message: Some(message) }
}

/// Emits `copies` copies of every point, and fails where it is told to.
struct Repeater {
    copies: usize,
    pass_on_backpressure: bool,
    fail: Option<Error>,
    state: Vec<u8>,
    batches: i64,
}

impl Repeater {
    fn emitting(copies: usize) -> Repeater {
        Repeater { copies, pass_on_backpressure: false, fail: None, state: vec![1, 2, 3], batches: 0 }
    }

    fn failing(error: Error) -> Repeater {
        Repeater { copies: 1, pass_on_backpressure: false, fail: Some(error), state: Vec::new(), batches: 0 }
    }

    fn check(&self) -> Result<(), Error> {
        match &self.fail {
            Some(error) => Err(error.clone()),
            None => Ok(()),
        }
    }
}

impl Handler for Repeater {
    fn info(&self) -> Result<InfoResponse, Error> {
        self.check()?;
        Ok(InfoResponse {
            wants: EdgeType::Stream,
            provides: EdgeType::Stream,
            options: HashMap::new(),
        })
    }

    fn init(&mut self, _req: InitRequest) -> Result<InitResponse, Error> {
        self.check()?;
        Ok(InitResponse { success: true, error: String::new() })
    }

    fn snapshot(&mut self, _req: SnapshotRequest) -> Result<SnapshotResponse, Error> {
        self.check()?;
        Ok(SnapshotResponse { snapshot: self.state.clone() })
    }

    fn restore(&mut self, req: RestoreRequest) -> Result<RestoreResponse, Error> {
        self.check()?;
        self.state = req.snapshot;
        Ok(RestoreResponse { success: true, error: String::new() })
    }

    fn begin_batch(&mut self, _req: BeginBatch) -> Result<(), Error> {
        self.check()?;
        self.batches += 1;
        Ok(())
    }

    fn point(&mut self, point: Point, sender: &mut Points) -> Result<(), Error> {
        self.check()?;
        for _ in 0..self.copies {
            match sender.send(point.clone()) {
                Ok(()) => {}
                Err(e) if self.pass_on_backpressure => return Err(e),
                Err(_) => {}
            }
        }
        Ok(())
    }

    fn end_batch(&mut self, _req: EndBatch) -> Result<(), Error> {
        self.check()?;
        self.batches -= 1;
        Ok(())
    }
}

fn agent(handler: Repeater) -> Agent {
    Agent::new(Box::new(handler), Shutdown::new())
}

/// Polls until the agent asks for a request or closes; the responses that it
/// hands out on the way, in order, and the action that ended the run.
fn flush(agent: &mut Agent) -> (Vec<response::Message>, Action) {
    let mut written = Vec::new();
    loop {
        match agent.poll() {
            Action::Send(message) => written.push(message),
            last => return (written, last),
        }
    }
}

#[test]
fn new_agent_asks_for_a_request() {
    let mut agent = agent(Repeater::emitting(1));
    assert!(agent.is_receiving());
    assert!(!agent.is_closed());
    assert_eq!(agent.poll(), Action::Receive);
    assert_eq!(agent.poll(), Action::Receive);
}

#[test]
fn queue_capacity_is_128() {
    assert_eq!(QUEUE_CAPACITY, 128);
}

#[test]
fn empty_request_is_a_no_op() {
    let mut agent = agent(Repeater::emitting(1));
    assert_eq!(agent.handle_request(Request { message: None }), Ok(None));
    assert_eq!(agent.on_request(Request { message: None }), Ok(()));
    assert_eq!(flush(&mut agent), (vec![], Action::Receive));
}

#[test]
fn keepalive_is_echoed_with_its_time() {
    let mut agent = agent(Repeater::failing(Error::Protocol("never asked".to_string())));
    let ping = request(request::Message::Keepalive(KeepaliveRequest { time: 1_234_567 }));
    assert_eq!(
        agent.handle_request(ping),
        Ok(Some(response::Message::Keepalive(KeepaliveResponse { time: 1_234_567 })))
    );
    let ping = request(request::Message::Keepalive(KeepaliveRequest { time: -5 }));
    assert_eq!(agent.on_request(ping), Ok(()));
    assert_eq!(
        flush(&mut agent),
        (vec![response::Message::Keepalive(KeepaliveResponse { time: -5 })], Action::Receive)
    );
}

#[test]
fn info_is_answered_by_the_handler() {
    let mut agent = agent(Repeater::emitting(1));
    assert_eq!(
        agent.handle_request(request(request::Message::Info(InfoRequest {}))),
        Ok(Some(response::Message::Info(InfoResponse {
            wants: EdgeType::Stream,
            provides: EdgeType::Stream,
            options: HashMap::new(),
        })))
    );
}

#[test]
fn init_is_answered_by_the_handler() {
    let mut agent = agent(Repeater::emitting(1));
    let init = InitRequest { options: Vec::new(), task_id: "t".to_string(), node_id: "n".to_string() };
    assert_eq!(
        agent.handle_request(request(request::Message::Init(init))),
        Ok(Some(response::Message::Init(InitResponse { success: true, error: String::new() })))
    );
}

#[test]
fn snapshot_and_restore_go_through_the_handler() {
    let mut agent = agent(Repeater::emitting(1));
    assert_eq!(
        agent.handle_request(request(request::Message::Snapshot(SnapshotRequest {}))),
        Ok(Some(response::Message::Snapshot(SnapshotResponse { snapshot: vec![1, 2, 3] })))
    );
    assert_eq!(
        agent.handle_request(request(request::Message::Restore(RestoreRequest {
            snapshot: vec![9, 9]
        }))),
        Ok(Some(response::Message::Restore(RestoreResponse {
            success: true,
            error: String::new()
        })))
    );
    assert_eq!(
        agent.handle_request(request(request::Message::Snapshot(SnapshotRequest {}))),
        Ok(Some(response::Message::Snapshot(SnapshotResponse { snapshot: vec![9, 9] })))
    );
}

#[test]
fn batch_boundaries_have_no_response() {
    let mut agent = agent(Repeater::emitting(1));
    assert_eq!(agent.on_request(request(request::Message::Begin(batch_begin()))), Ok(()));
    assert_eq!(flush(&mut agent), (vec![], Action::Receive));
    assert_eq!(agent.on_request(request(request::Message::End(batch_end()))), Ok(()));
    assert_eq!(flush(&mut agent), (vec![], Action::Receive));
}

#[test]
fn point_has_no_response_of_its_own() {
    let mut agent = agent(Repeater::emitting(0));
    assert_eq!(agent.handle_request(request(request::Message::Point(point(1)))), Ok(None));
    assert_eq!(flush(&mut agent), (vec![], Action::Receive));
}

#[test]
fn emitted_points_are_written_in_order() {
    let mut agent = agent(Repeater::emitting(3));
    assert_eq!(agent.on_request(request(request::Message::Point(point(7)))), Ok(()));
    assert!(!agent.is_receiving());
    assert_eq!(
        flush(&mut agent),
        (
            vec![
                response::Message::Point(point(7)),
                response::Message::Point(point(7)),
                response::Message::Point(point(7)),
            ],
            Action::Receive
        )
    );
    assert!(agent.is_receiving());
}

#[test]
fn no_request_is_asked_for_while_a_response_waits() {
    let mut agent = agent(Repeater::emitting(2));
    agent.on_request(request(request::Message::Point(point(1)))).unwrap();
    assert_eq!(agent.poll(), Action::Send(response::Message::Point(point(1))));
    assert!(!agent.is_receiving());
    assert_eq!(agent.poll(), Action::Send(response::Message::Point(point(1))));
    assert!(agent.is_receiving());
    assert_eq!(agent.poll(), Action::Receive);
}

#[test]
fn handler_that_emits_too_much_meets_backpressure_and_the_session_goes_on() {
    let mut agent = agent(Repeater::emitting(QUEUE_CAPACITY + 5));
    assert_eq!(agent.on_request(request(request::Message::Point(point(3)))), Ok(()));
    let (written, last) = flush(&mut agent);
    assert_eq!(written.len(), QUEUE_CAPACITY);
    assert!(written.iter().all(|m| *m == response::Message::Point(point(3))));
    assert_eq!(last, Action::Receive);
    assert_eq!(agent.on_request(request(request::Message::Point(point(4)))), Ok(()));
    assert_eq!(flush(&mut agent).0.len(), QUEUE_CAPACITY);
}

#[test]
fn backpressure_passed_on_by_the_handler_does_not_end_the_session() {
    let mut handler = Repeater::emitting(QUEUE_CAPACITY + 1);
    handler.pass_on_backpressure = true;
    let mut agent = agent(handler);
    assert_eq!(agent.handle_request(request(request::Message::Point(point(3)))), Ok(None));
    assert!(!agent.is_closed());
    let (written, last) = flush(&mut agent);
    assert_eq!(written.len(), QUEUE_CAPACITY);
    assert_eq!(last, Action::Receive);
}

#[test]
fn handler_error_ends_the_session_without_a_write() {
    let mut agent = agent(Repeater::failing(Error::Protocol("no batches".to_string())));
    assert_eq!(
        agent.on_request(request(request::Message::Begin(batch_begin()))),
        Err(Error::Protocol("no batches".to_string()))
    );
    assert!(agent.is_closed());
    assert!(!agent.is_receiving());
    assert_eq!(flush(&mut agent), (vec![], Action::Close));
}

#[test]
fn handler_failure_of_init_is_a_negative_response() {
    let mut agent = agent(Repeater::failing(Error::HandlerFailure("missing field".to_string())));
    let init = InitRequest { options: Vec::new(), task_id: String::new(), node_id: String::new() };
    assert_eq!(agent.on_request(request(request::Message::Init(init))), Ok(()));
    assert!(!agent.is_closed());
    assert_eq!(
        flush(&mut agent),
        (
            vec![response::Message::Init(InitResponse {
                success: false,
                error: "missing field".to_string()
            })],
            Action::Receive
        )
    );
}

#[test]
fn handler_failure_of_restore_is_a_negative_response() {
    let mut agent = agent(Repeater::failing(Error::HandlerFailure("bad state".to_string())));
    assert_eq!(
        agent.handle_request(request(request::Message::Restore(RestoreRequest {
            snapshot: vec![1]
        }))),
        Ok(Some(response::Message::Restore(RestoreResponse {
            success: false,
            error: "bad state".to_string()
        })))
    );
}

#[test]
fn handler_failure_of_info_ends_the_session() {
    let mut agent = agent(Repeater::failing(Error::HandlerFailure("broken".to_string())));
    assert_eq!(
        agent.on_request(request(request::Message::Info(InfoRequest {}))),
        Err(Error::HandlerFailure("broken".to_string()))
    );
    assert!(agent.is_closed());
}

#[test]
fn other_errors_of_init_end_the_session() {
    let mut agent = agent(Repeater::failing(Error::Codec("bad option".to_string())));
    let init = InitRequest { options: Vec::new(), task_id: String::new(), node_id: String::new() };
    assert_eq!(
        agent.on_request(request(request::Message::Init(init))),
        Err(Error::Codec("bad option".to_string()))
    );
    assert!(agent.is_closed());
}

#[test]
fn handler_error_on_a_point_ends_the_session() {
    let mut agent = agent(Repeater::failing(Error::Transport("sink gone".to_string())));
    assert_eq!(
        agent.on_request(request(request::Message::Point(point(1)))),
        Err(Error::Transport("sink gone".to_string()))
    );
    assert_eq!(agent.poll(), Action::Close);
}

#[test]
fn shutdown_closes_an_idle_session() {
    let mut agent = agent(Repeater::emitting(1));
    assert_eq!(agent.poll(), Action::Receive);
    agent.on_shutdown();
    assert!(!agent.is_receiving());
    assert!(!agent.is_closed());
    assert_eq!(agent.poll(), Action::Close);
    assert!(agent.is_closed());
    assert_eq!(agent.poll(), Action::Close);
}

#[test]
fn shutdown_lets_what_waits_be_written_first() {
    let mut agent = agent(Repeater::emitting(2));
    agent.on_request(request(request::Message::Point(point(5)))).unwrap();
    agent.on_shutdown();
    assert_eq!(
        flush(&mut agent),
        (
            vec![response::Message::Point(point(5)), response::Message::Point(point(5))],
            Action::Close
        )
    );
    assert!(agent.is_closed());
}

#[test]
fn shutdown_twice_is_shutdown_once() {
    let mut agent = agent(Repeater::emitting(1));
    agent.on_shutdown();
    agent.on_shutdown();
    assert_eq!(agent.poll(), Action::Close);
    agent.on_shutdown();
    assert_eq!(agent.poll(), Action::Close);
}

#[test]
fn agent_made_with_a_latched_token_drains_at_once() {
    let mut token = Shutdown::new();
    assert!(token.recv(true));
    let mut agent = Agent::new(Box::new(Repeater::emitting(1)), token);
    assert!(!agent.is_receiving());
    assert_eq!(agent.poll(), Action::Close);
}

#[test]
fn abort_drops_what_waits() {
    let mut agent = agent(Repeater::emitting(3));
    agent.on_request(request(request::Message::Point(point(5)))).unwrap();
    assert_eq!(agent.poll(), Action::Send(response::Message::Point(point(5))));
    agent.abort();
    assert!(agent.is_closed());
    assert_eq!(flush(&mut agent), (vec![], Action::Close));
}

#[test]
fn answer_is_written_before_the_points() {
    // A handler cannot emit points for an init, so the order is shown with the
    // dispatch itself: the points of an earlier request wait behind nothing,
    // and the answer of the next comes only after them.
    let mut agent = agent(Repeater::emitting(1));
    agent.on_request(request(request::Message::Point(point(1)))).unwrap();
    let (written, _) = flush(&mut agent);
    assert_eq!(written, vec![response::Message::Point(point(1))]);
    agent
        .on_request(request(request::Message::Keepalive(KeepaliveRequest { time: 2 })))
        .unwrap();
    let (written, _) = flush(&mut agent);
    assert_eq!(written, vec![response::Message::Keepalive(KeepaliveResponse { time: 2 })]);
}

#[test]
fn session_goes_from_running_through_draining_to_closed() {
    let mut agent = agent(Repeater::emitting(1));
    assert_eq!(agent.session_state(), SessionState::Running);
    agent.on_request(request(request::Message::Point(point(1)))).unwrap();
    assert_eq!(agent.session_state(), SessionState::Running);
    agent.on_shutdown();
    assert_eq!(agent.session_state(), SessionState::Draining);
    assert_eq!(agent.poll(), Action::Send(response::Message::Point(point(1))));
    assert_eq!(agent.session_state(), SessionState::Draining);
    assert_eq!(agent.poll(), Action::Close);
    assert_eq!(agent.session_state(), SessionState::Closed);
}

#[test]
fn failed_session_goes_straight_to_closed() {
    let mut agent = agent(Repeater::failing(Error::Protocol("no".to_string())));
    assert_eq!(agent.session_state(), SessionState::Running);
    assert!(agent.on_request(request(request::Message::Info(InfoRequest {}))).is_err());
    assert_eq!(agent.session_state(), SessionState::Closed);
}

#[test]
fn dispatched_answer_is_kept_as_it_is() {
    let mut agent = agent(Repeater::emitting(1));
    let negative = response::Message::Init(InitResponse {
        success: false,
        error: "missing field".to_string(),
    });
    assert_eq!(agent.on_dispatched(Ok(Some(negative.clone()))), Ok(()));
    assert_eq!(agent.session_state(), SessionState::Running);
    assert_eq!(flush(&mut agent), (vec![negative], Action::Receive));
}

#[test]
fn dispatched_nothing_leaves_nothing_to_write() {
    let mut agent = agent(Repeater::emitting(1));
    assert_eq!(agent.on_dispatched(Ok(None)), Ok(()));
    assert!(agent.is_receiving());
    assert_eq!(flush(&mut agent), (vec![], Action::Receive));
}

#[test]
fn dispatched_answer_goes_out_before_the_points_that_wait() {
    let mut agent = agent(Repeater::emitting(2));
    assert_eq!(agent.handle_request(request(request::Message::Point(point(8)))), Ok(None));
    let answer = response::Message::Keepalive(KeepaliveResponse { time: 1 });
    assert_eq!(agent.on_dispatched(Ok(Some(answer.clone()))), Ok(()));
    assert_eq!(
        flush(&mut agent),
        (
            vec![answer, response::Message::Point(point(8)), response::Message::Point(point(8))],
            Action::Receive
        )
    );
}

#[test]
fn dispatched_error_is_handed_on_and_closes_the_session() {
    let mut agent = agent(Repeater::emitting(2));
    assert_eq!(agent.handle_request(request(request::Message::Point(point(8)))), Ok(None));
    let error = Error::Codec("bad".to_string());
    assert_eq!(agent.on_dispatched(Err(error.clone())), Err(error));
    assert_eq!(agent.session_state(), SessionState::Closed);
    assert_eq!(flush(&mut agent), (vec![], Action::Close));
}

#[test]
fn negative_init_answer_of_the_handler_reaches_the_host_unchanged() {
    let mut agent = agent(Repeater::failing(Error::HandlerFailure("refused".to_string())));
    let init = InitRequest { options: Vec::new(), task_id: String::new(), node_id: String::new() };
    assert_eq!(agent.on_request(request(request::Message::Init(init))), Ok(()));
    match agent.poll() {
        Action::Send(response::Message::Init(answer)) => {
            assert!(!answer.success);
            assert_eq!(answer.error, "refused");
        }
        other => panic!("not an init answer: {:?}", other),
    }
}
