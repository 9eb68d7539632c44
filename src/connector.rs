use vstd::prelude::*;
use crate::error::PoolError;

verus! {

/// Where a connection is made: a host name and a port.
#[derive(Debug, PartialEq, Eq)]
pub struct Endpoint {
    pub host: String,
    pub port: u16,
}

/// What one physical connection attempt reported.
#[derive(Debug, PartialEq, Eq)]
pub enum AttemptOutcome {
    /// The connection is established and the handshake completed.
    Connected,
    /// The server asked for the connection to be made at another endpoint.
    Redirected(Endpoint),
    /// The transport could not be opened.
    TransportFailed,
    /// The transport tuning callback failed on the fresh transport.
    TunerFailed,
    /// Authentication or the protocol handshake failed.
    HandshakeFailed,
}

/// What the connecting caller is to do next.
#[derive(Debug, PartialEq, Eq)]
pub enum ConnectStep {
    /// Make one more physical attempt, at this endpoint.
    Attempt(Endpoint),
    /// The last attempt succeeded: its connection is the result.
    Done,
    /// Connecting failed.
    Failed(PoolError),
}

/// The step that follows the outcome of the `attempts`-th physical attempt.
///
/// A redirect on the first attempt is followed once; any failure on the
/// first attempt is a creation failure; the redirected attempt either
/// succeeds or ends in a redirect failure, whatever it reported.
pub open spec fn next_step(attempts: nat, outcome: AttemptOutcome) -> ConnectStep {
    match outcome {
        AttemptOutcome::Connected => ConnectStep::Done,
        AttemptOutcome::Redirected(target) => if attempts == 1 {
            ConnectStep::Attempt(target)
        } else {
            ConnectStep::Failed(PoolError::RedirectFailed)
        },
        _ => if attempts == 1 {
            ConnectStep::Failed(PoolError::CreationFailed)
        } else {
            ConnectStep::Failed(PoolError::RedirectFailed)
        },
    }
}

/// Establishment of one connection, following at most one redirect.
///
/// The caller makes the first attempt at the configured endpoint, then
/// reports each outcome with `on_outcome` and does what the answer says.
#[derive(Debug)]
pub struct Connector {
    attempts: u8,
    finished: bool,
}

impl Connector {
    /// The physical attempts made so far, counting the one in flight.
    pub closed spec fn attempts(&self) -> nat {
        self.attempts as nat
    }

    /// Whether the connection has succeeded or failed for good.
    pub closed spec fn finished(&self) -> bool {
        self.finished
    }

    pub closed spec fn wf(&self) -> bool {
        1 <= self.attempts <= 2
    }

    /// A connector whose first attempt is under way.
    pub fn new() -> (r: Connector)
        ensures
            r.wf(),
            r.attempts() == 1,
            !r.finished(),
    {
        Connector { attempts: 1, finished: false }
    }

    /// Whether the connection has succeeded or failed for good.
    pub fn is_finished(&self) -> (r: bool)
        ensures
            r == self.finished(),
    {
        self.finished
    }

    /// The physical attempts made so far.
    pub fn attempt_count(&self) -> (r: u8)
        requires
            self.wf(),
        ensures
            r as nat == self.attempts(),
    {
        self.attempts
    }

    /// Takes the outcome of the attempt in flight and says what follows.
    pub fn on_outcome(&mut self, outcome: AttemptOutcome) -> (r: ConnectStep)
        requires
            old(self).wf(),
            !old(self).finished(),
        ensures
            final(self).wf(),
            r == next_step(old(self).attempts(), outcome),
            r is Attempt ==> final(self).attempts() == old(self).attempts() + 1 && !final(self).finished(),
            !(r is Attempt) ==> final(self).attempts() == old(self).attempts() && final(self).finished(),
    {
        let first = self.attempts == 1;
        match outcome {
            AttemptOutcome::Connected => {
                self.finished = true;
                ConnectStep::Done
            },
            AttemptOutcome::Redirected(target) => {
                if first {
                    self.attempts = 2;
                    ConnectStep::Attempt(target)
                } else {
                    self.finished = true;
                    ConnectStep::Failed(PoolError::RedirectFailed)
                }
            },
            _ => {
                self.finished = true;
                if first {
                    ConnectStep::Failed(PoolError::CreationFailed)
                } else {
                    ConnectStep::Failed(PoolError::RedirectFailed)
                }
            },
        }
    }
}

/// Connecting from the `attempts`-th attempt on, when the attempts made
/// report `outcomes` in order: the number of physical attempts made, and the
/// final step, or `None` while an attempt is still in flight.
pub open spec fn run_connect(attempts: nat, outcomes: Seq<AttemptOutcome>) -> (nat, Option<ConnectStep>)
    decreases outcomes.len(),
{
    if outcomes.len() == 0 {
        (attempts, None)
    } else if next_step(attempts, outcomes[0]) is Attempt {
        run_connect(attempts + 1, outcomes.drop_first())
    } else {
        (attempts, Some(next_step(attempts, outcomes[0])))
    }
}

/// A connector never makes a third attempt: whatever the attempts report,
/// at most two are made, and once two are made the connection is finished.
pub proof fn lemma_at_most_two_attempts(outcomes: Seq<AttemptOutcome>)
    ensures
        run_connect(1, outcomes).0 <= 2,
        outcomes.len() >= 2 ==> run_connect(1, outcomes).1 is Some,
{
    reveal_with_fuel(run_connect, 3);
    if outcomes.len() > 0 && next_step(1, outcomes[0]) is Attempt {
        let rest = outcomes.drop_first();
        if rest.len() > 0 {
            assert(!(next_step(2, rest[0]) is Attempt));
        }
    }
}

/// Against an endpoint that always redirects, connecting makes exactly two
/// physical attempts and then fails with `RedirectFailed`.
pub proof fn lemma_redirect_bound(outcomes: Seq<AttemptOutcome>)
    requires
        outcomes.len() >= 2,
        forall|i: int| 0 <= i < outcomes.len() ==> outcomes[i] is Redirected,
    ensures
        run_connect(1, outcomes) == (2nat, Some(ConnectStep::Failed(PoolError::RedirectFailed))),
{
    reveal_with_fuel(run_connect, 3);
    let rest = outcomes.drop_first();
    assert(rest[0] == outcomes[1]);
}

} // verus!
