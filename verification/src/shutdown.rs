//! The shutdown token of a session.

use vstd::prelude::*;

verus! {

/// Listens for the shutdown signal that all sessions share, and remembers
/// that it came. A token starts active and, once latched, stays latched.
///
/// The token holds the latch. Waiting for the signal is the caller's part:
/// it tells `recv` whether the signal has come.
#[derive(Debug)]
pub struct Shutdown {
    is_shutdown: bool,
}

/// The latch after one call of `recv`.
pub open spec fn latch_after(latched: bool, signalled: bool) -> bool {
    latched || signalled
}

/// The latch after a run of calls of `recv`, one for each entry of `signals`.
pub open spec fn latch_after_all(latched: bool, signals: Seq<bool>) -> bool
    decreases signals.len(),
{
    if signals.len() == 0 {
        latched
    } else {
        latch_after_all(latch_after(latched, signals[0]), signals.skip(1))
    }
}

impl Shutdown {
    /// Whether the shutdown signal has been received.
    pub closed spec fn latched(&self) -> bool {
        self.is_shutdown
    }

    /// An active token.
    pub fn new() -> (token: Shutdown)
        ensures
            !token.latched(),
    {
        Shutdown { is_shutdown: false }
    }

    /// Whether the shutdown signal has been received.
    pub fn is_shutdown(&self) -> (latched: bool)
        ensures
            latched == self.latched(),
    {
        self.is_shutdown
    }

    /// Receives the shutdown signal, if it has come.
    ///
    /// `signalled` says whether the shared signal has fired since the token
    /// was made. A latched token is ready whatever `signalled` says, so its
    /// owner need not wait at all. The result is `true` when the token is
    /// latched after the call, and `false` when the owner has to wait for the
    /// signal and call again.
    pub fn recv(&mut self, signalled: bool) -> (ready: bool)
        ensures
            final(self).latched() == latch_after(old(self).latched(), signalled),
            ready == final(self).latched(),
            old(self).latched() ==> ready,
    {
        if self.is_shutdown {
            return true;
        }
        if signalled {
            self.is_shutdown = true;
        }
        self.is_shutdown
    }
}

/// A latched token stays latched through any run of calls of `recv`, and
/// every one of them is ready at once.
pub proof fn lemma_latched_stays_latched(signals: Seq<bool>)
    ensures
        forall|i: int|
            0 <= i <= signals.len() ==> #[trigger] latch_after_all(true, signals.take(i)),
    decreases signals.len(),
{
    assert forall|i: int| 0 <= i <= signals.len() implies #[trigger] latch_after_all(
        true,
        signals.take(i),
    ) by {
        lemma_latch_after_all_latched(signals.take(i));
    }
}

/// Calls of `recv` never release a latch.
pub proof fn lemma_latch_after_all_latched(signals: Seq<bool>)
    ensures
        latch_after_all(true, signals),
    decreases signals.len(),
{
    if signals.len() > 0 {
        lemma_latch_after_all_latched(signals.skip(1));
    }
}

} // verus!
