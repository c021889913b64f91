//! The session engine: the queue of emitted points and the agent that owns
//! one session.

use crate::error::Error;
use crate::shutdown::Shutdown;
use crate::udf::request;
use crate::udf::response;
use crate::udf::{Point, Request};
use crate::{Handler, PointSender};
use std::ops::Range;
use vstd::prelude::*;

verus! {

/// The bounded queue of the points that a handler has emitted and the session
/// has not yet written. Points leave in the order in which they came.
pub struct Points {
    items: Vec<Point>,
    limit: usize,
}

impl View for Points {
    type V = Seq<Point>;

    /// The queued points, oldest first.
    closed spec fn view(&self) -> Seq<Point> {
        self.items@
    }
}

/// Whether a queue that holds `queued` points and was made for `capacity`
/// takes one more.
pub open spec fn has_room(queued: Seq<Point>, capacity: nat) -> bool {
    queued.len() < capacity
}

/// What is left of `queued` when the points from `start` up to `end` leave.
pub open spec fn without_range(queued: Seq<Point>, start: int, end: int) -> Seq<Point> {
    queued.subrange(0, start) + queued.subrange(end, queued.len() as int)
}

impl Points {
    /// The number of points that the queue was made for.
    pub closed spec fn capacity(&self) -> nat {
        self.limit as nat
    }

    /// The queue holds no more than it was made for.
    pub closed spec fn wf(&self) -> bool {
        self.items@.len() <= self.limit
    }

    /// An empty queue that takes up to `size` points.
    pub fn with_capacity(size: usize) -> (queue: Points)
        ensures
            queue.wf(),
            queue@ == Seq::<Point>::empty(),
            queue.capacity() == size,
    {
        Points { items: Vec::with_capacity(size), limit: size }
    }

    /// The number of points queued.
    pub fn len(&self) -> (n: usize)
        ensures
            n == self@.len(),
    {
        self.items.len()
    }

    /// Whether no point is queued.
    pub fn is_empty(&self) -> (empty: bool)
        ensures
            empty == (self@.len() == 0),
    {
        self.items.len() == 0
    }

    /// Takes the points of `range` out of the queue and hands them back in
    /// order. The points behind the range move up.
    pub fn drain(&mut self, range: Range<usize>) -> (drained: Vec<Point>)
        requires
            range.start <= range.end <= old(self)@.len(),
        ensures
            drained@ == old(self)@.subrange(range.start as int, range.end as int),
            final(self)@ == without_range(old(self)@, range.start as int, range.end as int),
            final(self).capacity() == old(self).capacity(),
            old(self).wf() ==> final(self).wf(),
    {
        let mut tail = self.items.split_off(range.end);
        let drained = self.items.split_off(range.start);
        self.items.append(&mut tail);
        drained
    }
}

impl PointSender for Points {
    /// Queues `point` if the queue has room, and refuses it with
    /// `Error::Backpressure` if it has none.
    fn send(&mut self, point: Point) -> (r: Result<(), Error>)
        ensures
            final(self).capacity() == old(self).capacity(),
            old(self).wf() ==> final(self).wf(),
            has_room(old(self)@, old(self).capacity()) ==> r == Ok::<(), Error>(()) && final(self)@
                == old(self)@.push(point),
            !has_room(old(self)@, old(self).capacity()) ==> r == Err::<(), Error>(
                Error::Backpressure,
            ) && final(self)@ == old(self)@,
    {
        if self.items.len() < self.limit {
            self.items.push(point);
            Ok(())
        } else {
            Err(Error::Backpressure)
        }
    }
}

/// A full queue refuses a point and is left as it was; once any point has
/// left it, it takes one again.
pub proof fn lemma_backpressure_until_flushed(queued: Seq<Point>, capacity: nat, start: int, end: int)
    requires
        queued.len() == capacity,
        0 <= start < end <= queued.len(),
    ensures
        !has_room(queued, capacity),
        has_room(without_range(queued, start, end), capacity),
{
}

/// The capacity of the point queue of every agent.
pub const QUEUE_CAPACITY: usize = 128;

/// Where a session stands.
#[derive(Debug, Clone, Copy, PartialEq, Eq)]
pub enum SessionState {
    /// Requests are read and answered.
    Running,
    /// The shutdown signal has come: what is queued is written, nothing more
    /// is read.
    Draining,
    /// The session is over.
    Closed,
}

/// What the owner of the socket has to do next for a session.
#[derive(Debug, Clone, PartialEq, Eq)]
pub enum Action {
    /// Wait for the next request or for the shutdown signal, whichever comes
    /// first, and tell the agent.
    Receive,
    /// Write this response, whole, before anything else.
    Send(response::Message),
    /// Nothing: the session is over.
    Close,
}

/// Whether `outcome` can be what the dispatch of `request` returns. A
/// keepalive and an empty request are answered by the engine. Every other
/// kind is answered as the handler decides, or ends the session as the
/// handler fails; but a failed `init` or `restore` is answered in the
/// negative, and a point lost to a full queue is no failure.
pub open spec fn answers(
    request: Request,
    outcome: Result<Option<response::Message>, Error>,
) -> bool {
    match request.message {
        None => outcome == Ok::<Option<response::Message>, Error>(None),
        Some(request::Message::Keepalive(k)) => outcome == Ok::<Option<response::Message>, Error>(
            Some(response::Message::Keepalive(crate::udf::KeepaliveResponse { time: k.time })),
        ),
        Some(request::Message::Info(_)) => match outcome {
            Ok(answer) => answer matches Some(response::Message::Info(_)),
            Err(_) => true,
        },
        Some(request::Message::Init(_)) => match outcome {
            Ok(answer) => answer matches Some(response::Message::Init(_)),
            Err(e) => !(e is HandlerFailure),
        },
        Some(request::Message::Snapshot(_)) => match outcome {
            Ok(answer) => answer matches Some(response::Message::Snapshot(_)),
            Err(_) => true,
        },
        Some(request::Message::Restore(_)) => match outcome {
            Ok(answer) => answer matches Some(response::Message::Restore(_)),
            Err(e) => !(e is HandlerFailure),
        },
        Some(request::Message::Begin(_)) | Some(request::Message::End(_)) => match outcome {
            Ok(answer) => answer is None,
            Err(_) => true,
        },
        Some(request::Message::Point(_)) => match outcome {
            Ok(answer) => answer is None,
            Err(e) => !(e is Backpressure),
        },
    }
}

/// Whether the dispatch of `request` lends the point queue to the handler.
pub open spec fn lends_queue(request: Request) -> bool {
    request.message matches Some(request::Message::Point(_))
}

/// The responses that wait to be written, in the order in which they are
/// written: the answer to the last request, then the queued points.
pub open spec fn pending_of(answer: Option<response::Message>, queued: Seq<Point>) -> Seq<
    response::Message,
> {
    let first = match answer {
        Some(message) => seq![message],
        None => Seq::<response::Message>::empty(),
    };
    first + queued.map_values(|point: Point| response::Message::Point(point))
}

/// What a session in `state` with `pending` responses does next.
pub open spec fn next_action(state: SessionState, pending: Seq<response::Message>) -> Action {
    if state is Closed {
        Action::Close
    } else if pending.len() > 0 {
        Action::Send(pending[0])
    } else if state is Running {
        Action::Receive
    } else {
        Action::Close
    }
}

/// The engine of one session. It owns the handler, the shutdown token and
/// the point queue of the session, and decides what happens next; the owner
/// of the socket reads, writes and waits as `poll` says.
pub struct Agent {
    handler: Box<dyn Handler>,
    shutdown: Shutdown,
    points: Points,
    reply: Option<response::Message>,
    closed: bool,
}

impl Agent {
    /// Where the session stands.
    pub closed spec fn state(&self) -> SessionState {
        if self.closed {
            SessionState::Closed
        } else if self.shutdown.latched() {
            SessionState::Draining
        } else {
            SessionState::Running
        }
    }

    /// The answer to the last request, while it waits to be written.
    pub closed spec fn answer(&self) -> Option<response::Message> {
        self.reply
    }

    /// The points that wait to be written, oldest first.
    pub closed spec fn queued(&self) -> Seq<Point> {
        self.points@
    }

    /// The number of points that the queue of the session takes.
    pub closed spec fn capacity(&self) -> nat {
        self.points.capacity()
    }

    /// The responses that wait to be written, in order.
    pub open spec fn pending(&self) -> Seq<response::Message> {
        pending_of(self.answer(), self.queued())
    }

    /// Whether the session may take a request: it runs and nothing waits to
    /// be written.
    pub open spec fn receiving(&self) -> bool {
        self.state() is Running && self.pending().len() == 0
    }

    /// The queue is within its capacity, which is `QUEUE_CAPACITY`, and a
    /// closed session has nothing left to write.
    pub closed spec fn wf(&self) -> bool {
        &&& self.points.wf()
        &&& self.points.capacity() == QUEUE_CAPACITY
        &&& self.closed ==> self.reply is None && self.points@.len() == 0
    }

    /// An agent for one session, with an empty queue of `QUEUE_CAPACITY`
    /// points.
    pub fn new(handler: Box<dyn Handler>, shutdown: Shutdown) -> (agent: Agent)
        ensures
            agent.wf(),
            agent.capacity() == QUEUE_CAPACITY,
            agent.pending().len() == 0,
            agent.state() == (if shutdown.latched() {
                SessionState::Draining
            } else {
                SessionState::Running
            }),
    {
        Agent {
            handler,
            shutdown,
            points: Points::with_capacity(QUEUE_CAPACITY),
            reply: None,
            closed: false,
        }
    }

    /// Whether the session may take a request.
    pub fn is_receiving(&self) -> (receiving: bool)
        ensures
            receiving == self.receiving(),
    {
        !self.closed && !self.shutdown.is_shutdown() && self.reply.is_none()
            && self.points.is_empty()
    }

    /// Where the session stands.
    pub fn session_state(&self) -> (state: SessionState)
        ensures
            state == self.state(),
    {
        if self.closed {
            SessionState::Closed
        } else if self.shutdown.is_shutdown() {
            SessionState::Draining
        } else {
            SessionState::Running
        }
    }

    /// Whether the session is over.
    pub fn is_closed(&self) -> (closed: bool)
        ensures
            closed == (self.state() is Closed),
    {
        self.closed
    }

    /// Dispatches a request to the handler method of its kind and hands back
    /// the response to write at once, if the kind has one. A keepalive is
    /// answered with its own time and an empty request with nothing, without
    /// the handler. The points that the handler emits for a point are queued
    /// behind those already there.
    pub fn handle_request(&mut self, request: Request) -> (r: Result<
        Option<response::Message>,
        Error,
    >)
        requires
            old(self).wf(),
            !(old(self).state() is Closed),
        ensures
            final(self).wf(),
            answers(request, r),
            final(self).state() == old(self).state(),
            final(self).answer() == old(self).answer(),
            old(self).queued().is_prefix_of(final(self).queued()),
            final(self).queued().len() <= QUEUE_CAPACITY,
            !lends_queue(request) ==> final(self).queued() == old(self).queued(),
    {
        match request.message {
            None => Ok(None),
            Some(message) => match message {
                request::Message::Info(_) => response::info(self.handler.info()),
                request::Message::Init(r) => response::init(self.handler.init(r)),
                request::Message::Keepalive(r) => Ok(Some(response::keepalive(r))),
                request::Message::Snapshot(r) => response::snapshot(self.handler.snapshot(r)),
                request::Message::Restore(r) => response::restore(self.handler.restore(r)),
                request::Message::Begin(r) => response::batch(self.handler.begin_batch(r)),
                request::Message::Point(r) => response::point(
                    self.handler.point(r, &mut self.points),
                ),
                request::Message::End(r) => response::batch(self.handler.end_batch(r)),
            },
        }
    }

    /// Takes a request that was read from the socket. Its answer and the
    /// points emitted for it wait to be written, in that order. If the
    /// handler fails the session is over at once and nothing is written.
    pub fn on_request(&mut self, request: Request) -> (r: Result<(), Error>)
        requires
            old(self).wf(),
            old(self).receiving(),
        ensures
            final(self).wf(),
            match r {
                Ok(_) => final(self).state() is Running && answers(
                    request,
                    Ok::<Option<response::Message>, Error>(final(self).answer()),
                ) && final(self).queued().len() <= QUEUE_CAPACITY && (!lends_queue(request)
                    ==> final(self).queued().len() == 0),
                Err(e) => final(self).state() is Closed && final(self).pending().len() == 0
                    && answers(request, Err::<Option<response::Message>, Error>(e)),
            },
    {
        let outcome = self.handle_request(request);
        self.on_dispatched(outcome)
    }

    /// Takes what the dispatch of a request returned. An answer is kept,
    /// as it is, to be written before the points that wait; the queue and
    /// the state stay as they are. An error is handed on, the session is
    /// over at once, and what waits is dropped.
    pub fn on_dispatched(&mut self, outcome: Result<Option<response::Message>, Error>) -> (r:
        Result<(), Error>)
        requires
            old(self).wf(),
            !(old(self).state() is Closed),
            old(self).answer() is None,
        ensures
            final(self).wf(),
            match outcome {
                Ok(reply) => {
                    &&& r == Ok::<(), Error>(())
                    &&& final(self).answer() == reply
                    &&& final(self).queued() == old(self).queued()
                    &&& final(self).state() == old(self).state()
                },
                Err(e) => {
                    &&& r == Err::<(), Error>(e)
                    &&& final(self).state() is Closed
                    &&& final(self).pending().len() == 0
                },
            },
    {
        match outcome {
            Ok(reply) => {
                self.reply = reply;
                Ok(())
            },
            Err(e) => {
                self.abort();
                Err(e)
            },
        }
    }

    /// Takes the shutdown signal: a running session starts to drain.
    pub fn on_shutdown(&mut self)
        requires
            old(self).wf(),
        ensures
            final(self).wf(),
            final(self).pending() == old(self).pending(),
            final(self).state() == (if old(self).state() is Running {
                SessionState::Draining
            } else {
                old(self).state()
            }),
    {
        let _ = self.shutdown.recv(true);
    }

    /// Ends the session after a failure of the stream or of the codec. What
    /// waits to be written is dropped: a broken stream takes no more writes.
    pub fn abort(&mut self)
        requires
            old(self).wf(),
        ensures
            final(self).wf(),
            final(self).state() is Closed,
            final(self).pending().len() == 0,
    {
        self.closed = true;
        self.reply = None;
        let held = self.points.len();
        let _ = self.points.drain(0..held);
    }

    /// Says what to do next, and takes the response to write out of what
    /// waits. A request is asked for only when nothing waits to be written;
    /// a draining session closes when nothing is left.
    pub fn poll(&mut self) -> (action: Action)
        requires
            old(self).wf(),
        ensures
            final(self).wf(),
            action == next_action(old(self).state(), old(self).pending()),
            final(self).pending() == (if old(self).pending().len() > 0 {
                old(self).pending().skip(1)
            } else {
                old(self).pending()
            }),
            final(self).state() == (if action is Close {
                SessionState::Closed
            } else {
                old(self).state()
            }),
            action is Receive ==> final(self).receiving(),
    {
        if self.closed {
            return Action::Close;
        }
        if self.reply.is_some() {
            let message = self.reply.take().unwrap();
            return Action::Send(message);
        }
        if !self.points.is_empty() {
            let mut first = self.points.drain(0..1);
            let point = first.pop().unwrap();
            return Action::Send(response::Message::Point(point));
        }
        if self.shutdown.is_shutdown() {
            self.closed = true;
            return Action::Close;
        }
        Action::Receive
    }
}

/// The queue of an agent takes `QUEUE_CAPACITY` points, and never holds
/// more.
pub proof fn lemma_queue_within_capacity(agent: Agent)
    requires
        agent.wf(),
    ensures
        agent.capacity() == QUEUE_CAPACITY,
        agent.queued().len() <= agent.capacity(),
{
}

/// No request is read while a response waits to be written, and none after
/// the shutdown signal.
pub proof fn lemma_receive_only_when_flushed(state: SessionState, pending: Seq<response::Message>)
    ensures
        next_action(state, pending) is Receive <==> state is Running && pending.len() == 0,
{
}

/// A draining session writes what waits, first come first written, and
/// closes when nothing is left. An idle session closes on the shutdown
/// signal at once.
pub proof fn lemma_draining_session_closes(pending: Seq<response::Message>)
    ensures
        pending.len() > 0 ==> next_action(SessionState::Draining, pending) == Action::Send(
            pending[0],
        ),
        pending.len() == 0 ==> next_action(SessionState::Draining, pending) == Action::Close,
{
}

} // verus!
