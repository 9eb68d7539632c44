use vstd::prelude::*;
use crate::pool::PoolState;

verus! {

/// The number of slots a pool has unless configured otherwise.
pub const DEFAULT_MAX_SIZE: usize = 10;

/// The configuration of a pool: its capacity and three optional deadlines,
/// in milliseconds. An absent deadline means waiting without limit.
#[derive(Clone, Copy, Debug, PartialEq, Eq, Structural)]
pub struct PoolSettings {
    /// The number of slots.
    pub max_size: usize,
    /// How long an acquire may wait for a slot.
    pub wait_timeout_ms: Option<u64>,
    /// How long one creation may take.
    pub create_timeout_ms: Option<u64>,
    /// How long one recycle may take.
    pub recycle_timeout_ms: Option<u64>,
    /// Whether a timer runtime is needed, that is, whether any deadline is set.
    pub timer_runtime: bool,
}

impl Default for PoolSettings {
    fn default() -> (r: PoolSettings)
        ensures
            r == PoolSettings::new(),
    {
        PoolSettings::new()
    }
}

impl PoolSettings {
    /// Ten slots and no deadline.
    #[verifier::when_used_as_spec(spec_new)]
    pub fn new() -> (r: PoolSettings)
        ensures
            r == PoolSettings::spec_new(),
    {
        PoolSettings {
            max_size: DEFAULT_MAX_SIZE,
            wait_timeout_ms: None,
            create_timeout_ms: None,
            recycle_timeout_ms: None,
            timer_runtime: false,
        }
    }

    pub open spec fn spec_new() -> PoolSettings {
        PoolSettings {
            max_size: DEFAULT_MAX_SIZE,
            wait_timeout_ms: None,
            create_timeout_ms: None,
            recycle_timeout_ms: None,
            timer_runtime: false,
        }
    }

    /// Sets the number of slots.
    pub fn max_size(self, value: usize) -> (r: PoolSettings)
        ensures
            r == (PoolSettings { max_size: value, ..self }),
    {
        PoolSettings { max_size: value, ..self }
    }

    /// Sets how long an acquire may wait for a slot; a deadline needs the timer runtime.
    pub fn wait_timeout(self, millis: u64) -> (r: PoolSettings)
        ensures
            r == (PoolSettings { wait_timeout_ms: Some(millis), timer_runtime: true, ..self }),
    {
        PoolSettings { wait_timeout_ms: Some(millis), timer_runtime: true, ..self }
    }

    /// Sets how long one creation may take; a deadline needs the timer runtime.
    pub fn create_timeout(self, millis: u64) -> (r: PoolSettings)
        ensures
            r == (PoolSettings { create_timeout_ms: Some(millis), timer_runtime: true, ..self }),
    {
        PoolSettings { create_timeout_ms: Some(millis), timer_runtime: true, ..self }
    }

    /// Sets how long one recycle may take; a deadline needs the timer runtime.
    pub fn recycle_timeout(self, millis: u64) -> (r: PoolSettings)
        ensures
            r == (PoolSettings { recycle_timeout_ms: Some(millis), timer_runtime: true, ..self }),
    {
        PoolSettings { recycle_timeout_ms: Some(millis), timer_runtime: true, ..self }
    }

    /// A fresh pool with `max_size` free slots.
    pub fn build(&self) -> (r: PoolState)
        ensures
            r.wf(),
            r@.slots == Seq::new(self.max_size as nat, |i: int| crate::pool::SlotState::Free),
            !r@.shut_down,
            r@.created == 0,
            r@.recycled == 0,
            r@.discarded == 0,
    {
        PoolState::new(self.max_size)
    }
}

/// How much longer a caller may wait.
#[derive(Clone, Copy, Debug, PartialEq, Eq, Structural)]
pub enum WaitBudget {
    /// No deadline is set.
    Unbounded,
    /// The deadline is this many milliseconds away.
    Remaining(u64),
    /// The deadline has passed: the caller gives up with a timeout.
    Expired,
}

/// The time elapsed between two readings of a clock, in milliseconds; a
/// clock that went backwards counts as no time.
pub open spec fn elapsed(started_ms: u64, now_ms: u64) -> int {
    if now_ms >= started_ms { now_ms - started_ms } else { 0 }
}

/// How much of `timeout_ms` is left at `now_ms` for a wait that began at
/// `started_ms`.
pub fn wait_budget(timeout_ms: Option<u64>, started_ms: u64, now_ms: u64) -> (r: WaitBudget)
    ensures
        timeout_ms is None ==> r == WaitBudget::Unbounded,
        timeout_ms matches Some(t) ==> (if elapsed(started_ms, now_ms) >= t {
            r == WaitBudget::Expired
        } else {
            r == WaitBudget::Remaining((t - elapsed(started_ms, now_ms)) as u64)
        }),
{
    match timeout_ms {
        None => WaitBudget::Unbounded,
        Some(t) => {
            let spent: u64 = if now_ms >= started_ms { now_ms - started_ms } else { 0 };
            if spent >= t {
                WaitBudget::Expired
            } else {
                WaitBudget::Remaining(t - spent)
            }
        },
    }
}

} // verus!
