//! The listener: it takes connections, starts a session for each, and on
//! cancellation signals all sessions and waits until the last one is over.

use crate::agent::Agent;
use crate::error::Error;
use crate::shutdown::Shutdown;
use crate::Acceptor;
use vstd::prelude::*;

verus! {

/// Where a listener stands.
#[derive(Debug, Clone, Copy, PartialEq, Eq)]
pub enum Phase {
    /// Connections are taken.
    Accepting,
    /// No more connections are taken; the sessions have yet to be told.
    Cancelling,
    /// The sessions have been told; the listener waits for them to end.
    Draining,
    /// Every session is over.
    Stopped,
}

/// What the owner of the listening socket has to do next.
#[derive(Debug, Clone, Copy, PartialEq, Eq)]
pub enum Directive {
    /// Wait for a connection or for the cancellation, whichever comes first,
    /// and tell the listener.
    Accept,
    /// Send the shutdown signal to every session.
    Broadcast,
    /// Wait for a session to end, and tell the listener.
    Wait,
    /// Return: nothing is left to wait for.
    Return,
}

/// The state of a listener: its phase and the number of sessions that it
/// started and that are not over.
pub struct ListenerState {
    pub phase: Phase,
    pub live: nat,
}

impl ListenerState {
    /// Whether a connection can start a session: connections are taken and
    /// the count of sessions has room for one more.
    pub open spec fn admits(self) -> bool {
        self.phase is Accepting && self.live < usize::MAX
    }

    /// The state after a session was started.
    pub open spec fn started(self) -> ListenerState {
        ListenerState { phase: self.phase, live: self.live + 1 }
    }

    /// The state after a session ended.
    pub open spec fn ended(self) -> ListenerState {
        ListenerState { phase: self.phase, live: if self.live > 0 {
            (self.live - 1) as nat
        } else {
            0
        } }
    }

    /// The state after `k` sessions ended.
    pub open spec fn ended_times(self, k: nat) -> ListenerState
        decreases k,
    {
        if k == 0 {
            self
        } else {
            self.ended().ended_times((k - 1) as nat)
        }
    }

    /// The state after the cancellation, or after a failure to accept.
    pub open spec fn cancelled(self) -> ListenerState {
        ListenerState {
            phase: if self.phase is Accepting {
                Phase::Cancelling
            } else {
                self.phase
            },
            live: self.live,
        }
    }

    /// What is to be done in this state.
    pub open spec fn directive(self) -> Directive {
        match self.phase {
            Phase::Accepting => Directive::Accept,
            Phase::Cancelling => Directive::Broadcast,
            Phase::Draining => if self.live == 0 {
                Directive::Return
            } else {
                Directive::Wait
            },
            Phase::Stopped => Directive::Return,
        }
    }

    /// The state once the directive has been handed out.
    pub open spec fn polled(self) -> ListenerState {
        ListenerState {
            phase: match self.phase {
                Phase::Cancelling => Phase::Draining,
                Phase::Draining => if self.live == 0 {
                    Phase::Stopped
                } else {
                    Phase::Draining
                },
                phase => phase,
            },
            live: self.live,
        }
    }
}

/// The acceptor that a listener holds. Verus proves nothing of the equality
/// of two trait objects, but it does of two structs that hold them, so the
/// listener keeps its acceptor in a struct.
pub struct Held {
    pub acceptor: Box<dyn Acceptor>,
}

/// Takes connections and oversees the sessions started for them. The owner
/// of the listening socket accepts, spawns and waits as `poll` says.
pub struct Listener {
    held: Held,
    phase: Phase,
    live: usize,
}

impl View for Listener {
    type V = ListenerState;

    closed spec fn view(&self) -> ListenerState {
        ListenerState { phase: self.phase, live: self.live as nat }
    }
}

impl Listener {
    /// The acceptor that builds the agent of every session of this listener.
    pub closed spec fn acceptor(&self) -> Held {
        self.held
    }

    /// A listener that takes connections and has started no session. Its
    /// sessions are built by `acceptor`, and by no other, for as long as the
    /// listener lives.
    pub fn new(acceptor: Box<dyn Acceptor>) -> (listener: Listener)
        ensures
            listener@ == (ListenerState { phase: Phase::Accepting, live: 0 }),
            listener.acceptor() == (Held { acceptor }),
    {
        Listener { held: Held { acceptor }, phase: Phase::Accepting, live: 0 }
    }

    /// The number of sessions started and not over.
    pub fn live(&self) -> (live: usize)
        ensures
            live == self@.live,
    {
        self.live
    }

    /// Where the listener stands.
    pub fn phase(&self) -> (phase: Phase)
        ensures
            phase == self@.phase,
    {
        self.phase
    }

    /// Says what to do next. After the cancellation the signal goes out
    /// once; then the listener waits as long as a session is left, and only
    /// then returns.
    pub fn poll(&mut self) -> (directive: Directive)
        ensures
            directive == old(self)@.directive(),
            final(self)@ == old(self)@.polled(),
            final(self).acceptor() == old(self).acceptor(),
    {
        match self.phase {
            Phase::Accepting => Directive::Accept,
            Phase::Cancelling => {
                self.phase = Phase::Draining;
                Directive::Broadcast
            },
            Phase::Draining => if self.live == 0 {
                self.phase = Phase::Stopped;
                Directive::Return
            } else {
                Directive::Wait
            },
            Phase::Stopped => Directive::Return,
        }
    }

    /// Whether a connection can start a session now.
    pub fn admits(&self) -> (ok: bool)
        ensures
            ok == self@.admits(),
    {
        match self.phase {
            Phase::Accepting => self.live < usize::MAX,
            _ => false,
        }
    }

    /// Takes what the acceptor returned for a connection and hands it on
    /// unchanged. An agent is counted as a session started; an error ends
    /// accepting.
    pub fn on_accepted(&mut self, outcome: Result<Agent, Error>) -> (r: Result<Agent, Error>)
        requires
            old(self)@.admits(),
        ensures
            r == outcome,
            final(self)@ == (if outcome is Ok {
                old(self)@.started()
            } else {
                old(self)@.cancelled()
            }),
            final(self).acceptor() == old(self).acceptor(),
    {
        match outcome {
            Ok(agent) => {
                self.live = self.live + 1;
                Ok(agent)
            },
            Err(e) => {
                self.phase = Phase::Cancelling;
                Err(e)
            },
        }
    }

    /// Takes a new connection: makes a shutdown token for its session and
    /// has the acceptor build the agent, which the caller runs as a task of
    /// its own. What the acceptor returns is what comes back. If the
    /// acceptor fails, no session is started and the listener stops
    /// accepting. A listener that admits no session does not ask the
    /// acceptor: it refuses with a `Protocol` error of its own and, if it
    /// was accepting, stops.
    pub fn on_connection(&mut self) -> (r: Result<Agent, Error>)
        ensures
            match r {
                Ok(agent) => {
                    &&& agent.wf()
                    &&& old(self)@.admits()
                    &&& final(self)@ == old(self)@.started()
                },
                Err(_) => final(self)@ == old(self)@.cancelled(),
            },
            !(old(self)@.phase is Accepting) ==> (r matches Err(Error::Protocol(text)) && text@
                == "listener has stopped accepting"@),
            old(self)@.phase is Accepting && old(self)@.live == usize::MAX ==> (r matches Err(
                Error::Protocol(text),
            ) && text@ == "too many sessions"@),
            final(self).acceptor() == old(self).acceptor(),
    {
        if !self.admits() {
            return match self.phase {
                Phase::Accepting => {
                    self.phase = Phase::Cancelling;
                    Err(Error::Protocol("too many sessions".to_string()))
                },
                _ => Err(Error::Protocol("listener has stopped accepting".to_string())),
            };
        }
        let outcome = self.held.acceptor.accept(Shutdown::new());
        self.on_accepted(outcome)
    }

    /// Takes the cancellation, or a failure to accept: no more connections
    /// are taken.
    pub fn on_cancel(&mut self)
        ensures
            final(self)@ == old(self)@.cancelled(),
            final(self).acceptor() == old(self).acceptor(),
    {
        match self.phase {
            Phase::Accepting => {
                self.phase = Phase::Cancelling;
            },
            _ => {},
        }
    }

    /// Takes the end of a session.
    pub fn on_session_closed(&mut self)
        ensures
            final(self)@ == old(self)@.ended(),
            final(self).acceptor() == old(self).acceptor(),
    {
        if self.live > 0 {
            self.live = self.live - 1;
        }
    }
}

/// The listener returns only when no session is left, and never while it
/// still accepts or has the signal to send.
pub proof fn lemma_return_only_when_drained(state: ListenerState)
    ensures
        state.directive() is Return ==> (state.phase is Draining && state.live == 0)
            || state.phase is Stopped,
        state.phase is Draining && state.live > 0 ==> state.directive() is Wait
            && state.polled() == state,
{
}

/// A draining listener with `n` sessions left returns after the `n`-th of
/// them has ended, and not before.
pub proof fn lemma_drain_waits_for_every_session(state: ListenerState, k: nat)
    requires
        state.phase is Draining,
        k <= state.live,
    ensures
        state.ended_times(k).phase is Draining,
        state.ended_times(k).live == state.live - k,
        state.ended_times(k).directive() is Return <==> k == state.live,
    decreases k,
{
    if k > 0 {
        lemma_drain_waits_for_every_session(state.ended(), (k - 1) as nat);
    }
}

} // verus!
