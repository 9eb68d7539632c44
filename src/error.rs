use vstd::prelude::*;

verus! {

/// The ways in which an operation of the pool can fail.
#[derive(Clone, Copy, Debug, PartialEq, Eq, Structural)]
pub enum PoolError {
    /// Network, authentication or protocol failure while connecting.
    CreationFailed,
    /// The second attempt, made after a redirect, failed.
    RedirectFailed,
    /// The health check of a returned connection failed.
    ValidationFailed,
    /// A hook vetoed the transition.
    HookRejected,
    /// A deadline passed at a suspension point.
    Timeout,
    /// The pool is shutting down or has shut down.
    PoolShutdown,
    /// The lease does not name a slot that is currently leased.
    StaleLease,
}

} // verus!
