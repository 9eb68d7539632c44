use vstd::prelude::*;
use crate::error::PoolError;

verus! {

/// The lifecycle state of one capacity unit of the pool.
#[derive(Clone, Copy, Debug, PartialEq, Eq, Structural)]
pub enum SlotState {
    /// No connection; the unit of capacity is available.
    Free,
    /// A connection is being established for this slot.
    Creating,
    /// The slot holds a validated connection, available for lease.
    Idle,
    /// The connection is handed to a caller.
    Leased,
    /// The connection was returned and is being checked.
    Recycling,
}

/// The number of slots in state `st`.
pub open spec fn count_state(slots: Seq<SlotState>, st: SlotState) -> nat
    decreases slots.len(),
{
    if slots.len() == 0 {
        0
    } else {
        count_state(slots.drop_last(), st) + if slots.last() == st { 1nat } else { 0nat }
    }
}

/// The number of slots that hold or are about to hold a connection.
pub open spec fn count_in_use(slots: Seq<SlotState>) -> nat {
    count_state(slots, SlotState::Idle) + count_state(slots, SlotState::Leased)
        + count_state(slots, SlotState::Creating) + count_state(slots, SlotState::Recycling)
}

/// The indices of the idle slots, in increasing order.
pub open spec fn idle_indices(slots: Seq<SlotState>) -> Seq<usize>
    decreases slots.len(),
{
    if slots.len() == 0 {
        seq![]
    } else if slots.last() == SlotState::Idle {
        idle_indices(slots.drop_last()).push((slots.len() - 1) as usize)
    } else {
        idle_indices(slots.drop_last())
    }
}

/// A counter increased by `n`, stopping at the largest value.
pub open spec fn sat_add(x: u64, n: nat) -> u64 {
    if x + n > u64::MAX { u64::MAX } else { (x + n) as u64 }
}

/// What shutting down does to one slot: idle connections are discarded.
pub open spec fn drained(s: SlotState) -> SlotState {
    if s == SlotState::Idle { SlotState::Free } else { s }
}

/// A state that no slot has is counted zero times.
pub proof fn lemma_count_absent(slots: Seq<SlotState>, st: SlotState)
    requires
        forall|j: int| 0 <= j < slots.len() ==> slots[j] != st,
    ensures
        count_state(slots, st) == 0,
    decreases slots.len(),
{
    if slots.len() > 0 {
        lemma_count_absent(slots.drop_last(), st);
    }
}

/// Every slot is in exactly one state, so the counts add up to the number of slots.
pub proof fn lemma_count_split(slots: Seq<SlotState>)
    ensures
        count_in_use(slots) + count_state(slots, SlotState::Free) == slots.len(),
    decreases slots.len(),
{
    if slots.len() > 0 {
        lemma_count_split(slots.drop_last());
    }
}

/// The abstract state of a pool.
pub struct PoolView {
    /// The state of each slot; the length is the capacity.
    pub slots: Seq<SlotState>,
    /// Whether `shutdown` has been called.
    pub shut_down: bool,
    /// Connections created so far.
    pub created: u64,
    /// Returned connections kept as idle so far.
    pub recycled: u64,
    /// Connections discarded so far.
    pub discarded: u64,
}

/// The state after `shutdown`: no new acquires, idle connections discarded.
pub open spec fn shutdown_spec(v: PoolView) -> PoolView {
    PoolView {
        slots: v.slots.map_values(|s: SlotState| drained(s)),
        shut_down: true,
        discarded: sat_add(v.discarded, count_state(v.slots, SlotState::Idle)),
        ..v
    }
}

/// Where a recycled slot ends: `Idle` when it passed its checks and the pool
/// still runs, otherwise `Free` with the connection discarded.
pub open spec fn recycle_target(healthy: bool, shut_down: bool) -> SlotState {
    if healthy && !shut_down { SlotState::Idle } else { SlotState::Free }
}

/// How the checks of a returned connection ended.
#[derive(Clone, Copy, Debug, PartialEq, Eq, Structural)]
pub enum RecycleCheck {
    /// The hooks and the health check all passed.
    Passed,
    /// A pre-recycle or post-recycle hook rejected the connection.
    Rejected,
    /// The health check failed.
    Invalid,
}

/// What `finish_recycle` answers for a recycled slot.
pub open spec fn recycle_result(check: RecycleCheck, shut_down: bool) -> Result<(), PoolError> {
    match check {
        RecycleCheck::Rejected => Err(PoolError::HookRejected),
        RecycleCheck::Invalid => Err(PoolError::ValidationFailed),
        RecycleCheck::Passed => if shut_down { Err(PoolError::PoolShutdown) } else { Ok(()) },
    }
}

/// Where a created slot ends, given how the creation went.
pub open spec fn create_target(outcome: CreateOutcome, waiting: bool, shut_down: bool) -> SlotState {
    if outcome == CreateOutcome::Created && !shut_down {
        if waiting { SlotState::Leased } else { SlotState::Idle }
    } else {
        SlotState::Free
    }
}

/// Whether a finished creation discards the connection it made.
pub open spec fn create_discards(outcome: CreateOutcome, shut_down: bool) -> bool {
    outcome == CreateOutcome::Rejected || (outcome == CreateOutcome::Created && shut_down)
}

/// A snapshot of the pool's counters.
#[derive(Clone, Copy, Debug, PartialEq, Eq, Structural)]
pub struct Metrics {
    /// Connections created since the pool was made.
    pub created: u64,
    /// Returned connections that passed their checks and went back to idle.
    pub recycled: u64,
    /// Connections that were discarded.
    pub discarded: u64,
    /// Slots currently idle.
    pub idle: usize,
    /// Slots currently leased.
    pub leased: usize,
    /// Slots with a creation or a recycle in flight.
    pub in_flight: usize,
    /// The number of slots of the pool.
    pub capacity: usize,
}

/// The right of a caller to the connection of one slot, until it is released.
#[derive(Debug)]
pub struct Lease {
    slot: usize,
}

impl Lease {
    /// The slot that this lease holds.
    pub closed spec fn id(&self) -> usize {
        self.slot
    }

    /// The slot that this lease holds.
    pub fn slot(&self) -> (r: usize)
        ensures
            r == self.id(),
    {
        self.slot
    }
}

/// What an acquiring caller is to do next.
#[derive(Debug)]
pub enum AcquireStep {
    /// An idle connection was leased to the caller.
    Granted(Lease),
    /// The caller is to create a connection for this slot and then report
    /// the outcome with `finish_create`.
    Create(usize),
    /// Every slot is in use: the caller is to wait until one is freed.
    Wait,
    /// The pool refuses the request.
    Refused(PoolError),
}

/// How an attempt to create a connection ended.
#[derive(Clone, Copy, Debug, PartialEq, Eq, Structural)]
pub enum CreateOutcome {
    /// The connection was made and accepted by every post-create hook.
    Created,
    /// The connection was made, then a post-create hook rejected it.
    Rejected,
    /// The connection could not be made.
    Failed(PoolError),
}

/// The bookkeeping of a bounded pool: one slot per unit of capacity.
///
/// All state transitions happen here; the establishment and checking of
/// connections happen outside, between the calls that start and finish them.
pub struct PoolState {
    slots: Vec<SlotState>,
    shut_down: bool,
    created: u64,
    recycled: u64,
    discarded: u64,
}

impl View for PoolState {
    type V = PoolView;

    closed spec fn view(&self) -> PoolView {
        PoolView {
            slots: self.slots@,
            shut_down: self.shut_down,
            created: self.created,
            recycled: self.recycled,
            discarded: self.discarded,
        }
    }
}

/// A pool view is well formed when a shut-down pool holds no idle slot.
pub open spec fn view_wf(v: PoolView) -> bool {
    v.shut_down ==> forall|i: int| 0 <= i < v.slots.len() ==> v.slots[i] != SlotState::Idle
}

impl PoolState {
    pub open spec fn wf(&self) -> bool {
        view_wf(self@)
    }

    /// The number of slots; it never changes.
    pub open spec fn capacity(&self) -> nat {
        self@.slots.len()
    }

    /// A pool of `capacity` free slots.
    pub fn new(capacity: usize) -> (r: PoolState)
        ensures
            r.wf(),
            r@.slots == Seq::new(capacity as nat, |i: int| SlotState::Free),
            !r@.shut_down,
            r@.created == 0,
            r@.recycled == 0,
            r@.discarded == 0,
    {
        let mut slots: Vec<SlotState> = Vec::new();
        while slots.len() < capacity
            invariant
                slots@.len() <= capacity,
                forall|i: int| 0 <= i < slots@.len() ==> slots@[i] == SlotState::Free,
            decreases capacity - slots@.len(),
        {
            slots.push(SlotState::Free);
        }
        let r = PoolState { slots, shut_down: false, created: 0, recycled: 0, discarded: 0 };
        assert(r@.slots =~= Seq::new(capacity as nat, |i: int| SlotState::Free));
        r
    }

    /// The first slot in state `st`, if any.
    fn find(&self, st: SlotState) -> (r: Option<usize>)
        ensures
            match r {
                Some(i) => i < self@.slots.len() && self@.slots[i as int] == st
                    && forall|j: int| 0 <= j < i ==> self@.slots[j] != st,
                None => forall|j: int| 0 <= j < self@.slots.len() ==> self@.slots[j] != st,
            },
    {
        let mut i: usize = 0;
        while i < self.slots.len()
            invariant
                i <= self.slots@.len(),
                forall|j: int| 0 <= j < i ==> self.slots@[j] != st,
            decreases self.slots@.len() - i,
        {
            if self.slots[i] == st {
                return Some(i);
            }
            i = i + 1;
        }
        None
    }

    /// Admits one acquire request.
    ///
    /// A shut-down pool refuses it. Otherwise the first idle slot is leased at
    /// once; failing that, the first free slot is reserved for a creation;
    /// failing that, every slot is in use and the caller waits.
    pub fn acquire(&mut self) -> (r: AcquireStep)
        requires
            old(self).wf(),
        ensures
            final(self).wf(),
            final(self)@.shut_down == old(self)@.shut_down,
            final(self)@.created == old(self)@.created,
            final(self)@.recycled == old(self)@.recycled,
            final(self)@.discarded == old(self)@.discarded,
            old(self)@.shut_down ==> r == AcquireStep::Refused(PoolError::PoolShutdown)
                && final(self)@.slots == old(self)@.slots,
            !old(self)@.shut_down ==> match r {
                AcquireStep::Granted(l) => l.id() < old(self)@.slots.len()
                    && old(self)@.slots[l.id() as int] == SlotState::Idle
                    && (forall|j: int| 0 <= j < l.id() ==> old(self)@.slots[j] != SlotState::Idle)
                    && final(self)@.slots == old(self)@.slots.update(l.id() as int, SlotState::Leased),
                AcquireStep::Create(i) => i < old(self)@.slots.len()
                    && (forall|j: int| 0 <= j < old(self)@.slots.len() ==> old(self)@.slots[j] != SlotState::Idle)
                    && count_state(old(self)@.slots, SlotState::Idle) == 0
                    && old(self)@.slots[i as int] == SlotState::Free
                    && (forall|j: int| 0 <= j < i ==> old(self)@.slots[j] != SlotState::Free)
                    && final(self)@.slots == old(self)@.slots.update(i as int, SlotState::Creating),
                AcquireStep::Wait => (forall|j: int| 0 <= j < old(self)@.slots.len()
                        ==> old(self)@.slots[j] != SlotState::Idle && old(self)@.slots[j] != SlotState::Free)
                    && count_in_use(old(self)@.slots) == old(self)@.slots.len()
                    && final(self)@.slots == old(self)@.slots,
                AcquireStep::Refused(_) => false,
            },
    {
        proof {
            lemma_count_split(self@.slots);
        }
        if self.shut_down {
            return AcquireStep::Refused(PoolError::PoolShutdown);
        }
        match self.find(SlotState::Idle) {
            Some(i) => {
                self.slots.set(i, SlotState::Leased);
                AcquireStep::Granted(Lease { slot: i })
            },
            None => {
                proof {
                    lemma_count_absent(self@.slots, SlotState::Idle);
                }
                match self.find(SlotState::Free) {
                    Some(i) => {
                        self.slots.set(i, SlotState::Creating);
                        AcquireStep::Create(i)
                    },
                    None => {
                        proof {
                            lemma_count_absent(self@.slots, SlotState::Free);
                        }
                        AcquireStep::Wait
                    },
                }
            },
        }
    }

    /// Whether `slot` names a slot in state `st`.
    pub open spec fn slot_is(&self, slot: usize, st: SlotState) -> bool {
        slot < self@.slots.len() && self@.slots[slot as int] == st
    }

    /// Reports how the creation for `slot` ended. `waiting` tells whether the
    /// caller that asked for it is still waiting for the connection.
    ///
    /// A connection that was made is counted as created. It is leased to a
    /// waiting caller, kept idle when nobody waits any more, and discarded
    /// when the pool has shut down meanwhile or a hook rejected it. A failed
    /// creation frees the slot, so that the next acquire may try again.
    pub fn finish_create(&mut self, slot: usize, outcome: CreateOutcome, waiting: bool) -> (r: Result<Option<Lease>, PoolError>)
        requires
            old(self).wf(),
        ensures
            final(self).wf(),
            final(self)@.shut_down == old(self)@.shut_down,
            final(self)@.recycled == old(self)@.recycled,
            !old(self).slot_is(slot, SlotState::Creating) ==> r == Err::<Option<Lease>, PoolError>(PoolError::StaleLease)
                && final(self)@ == old(self)@,
            old(self).slot_is(slot, SlotState::Creating) ==> {
                &&& final(self)@.slots == old(self)@.slots.update(slot as int,
                    create_target(outcome, waiting, old(self)@.shut_down))
                &&& final(self)@.created == (if outcome is Failed { old(self)@.created } else { sat_add(old(self)@.created, 1) })
                &&& final(self)@.discarded == (if create_discards(outcome, old(self)@.shut_down) {
                        sat_add(old(self)@.discarded, 1)
                    } else {
                        old(self)@.discarded
                    })
                &&& outcome matches CreateOutcome::Failed(e) ==> r == Err::<Option<Lease>, PoolError>(e)
                &&& outcome == CreateOutcome::Rejected ==> r == Err::<Option<Lease>, PoolError>(PoolError::HookRejected)
                &&& outcome == CreateOutcome::Created && old(self)@.shut_down
                    ==> r == Err::<Option<Lease>, PoolError>(PoolError::PoolShutdown)
                &&& outcome == CreateOutcome::Created && !old(self)@.shut_down && waiting
                    ==> (r matches Ok(Some(l)) && l.id() == slot)
                &&& outcome == CreateOutcome::Created && !old(self)@.shut_down && !waiting
                    ==> r == Ok::<Option<Lease>, PoolError>(None)
            },
    {
        if slot >= self.slots.len() || self.slots[slot] != SlotState::Creating {
            return Err(PoolError::StaleLease);
        }
        match outcome {
            CreateOutcome::Failed(e) => {
                self.slots.set(slot, SlotState::Free);
                Err(e)
            },
            CreateOutcome::Rejected => {
                self.created = self.created.saturating_add(1);
                self.discarded = self.discarded.saturating_add(1);
                self.slots.set(slot, SlotState::Free);
                Err(PoolError::HookRejected)
            },
            CreateOutcome::Created => {
                self.created = self.created.saturating_add(1);
                if self.shut_down {
                    self.discarded = self.discarded.saturating_add(1);
                    self.slots.set(slot, SlotState::Free);
                    Err(PoolError::PoolShutdown)
                } else if waiting {
                    self.slots.set(slot, SlotState::Leased);
                    Ok(Some(Lease { slot }))
                } else {
                    self.slots.set(slot, SlotState::Idle);
                    Ok(None)
                }
            },
        }
    }

    /// Hands a leased connection back for recycling: its slot goes from
    /// `Leased` to `Recycling`. A lease whose slot is not leased is refused.
    pub fn release(&mut self, lease: Lease) -> (r: Result<usize, PoolError>)
        requires
            old(self).wf(),
        ensures
            final(self).wf(),
            old(self).slot_is(lease.id(), SlotState::Leased) ==> r == Ok::<usize, PoolError>(lease.id())
                && final(self)@ == (PoolView {
                    slots: old(self)@.slots.update(lease.id() as int, SlotState::Recycling),
                    ..old(self)@
                }),
            !old(self).slot_is(lease.id(), SlotState::Leased) ==> r == Err::<usize, PoolError>(PoolError::StaleLease)
                && final(self)@ == old(self)@,
    {
        let slot = lease.slot;
        if slot >= self.slots.len() || self.slots[slot] != SlotState::Leased {
            return Err(PoolError::StaleLease);
        }
        self.slots.set(slot, SlotState::Recycling);
        Ok(slot)
    }

    /// Reports the checks of a returned connection. A connection that passed
    /// them all goes back to idle while the pool runs; any other is
    /// discarded and its slot freed, and the error says why.
    pub fn finish_recycle(&mut self, slot: usize, check: RecycleCheck) -> (r: Result<(), PoolError>)
        requires
            old(self).wf(),
        ensures
            final(self).wf(),
            !old(self).slot_is(slot, SlotState::Recycling) ==> r == Err::<(), PoolError>(PoolError::StaleLease)
                && final(self)@ == old(self)@,
            old(self).slot_is(slot, SlotState::Recycling) ==> {
                let kept = check == RecycleCheck::Passed && !old(self)@.shut_down;
                &&& r == recycle_result(check, old(self)@.shut_down)
                &&& final(self)@ == (PoolView {
                    slots: old(self)@.slots.update(slot as int,
                        recycle_target(check == RecycleCheck::Passed, old(self)@.shut_down)),
                    recycled: if kept { sat_add(old(self)@.recycled, 1) } else { old(self)@.recycled },
                    discarded: if kept { old(self)@.discarded } else { sat_add(old(self)@.discarded, 1) },
                    ..old(self)@
                })
            },
    {
        if slot >= self.slots.len() || self.slots[slot] != SlotState::Recycling {
            return Err(PoolError::StaleLease);
        }
        let result = match check {
            RecycleCheck::Rejected => Err(PoolError::HookRejected),
            RecycleCheck::Invalid => Err(PoolError::ValidationFailed),
            RecycleCheck::Passed => if self.shut_down {
                Err(PoolError::PoolShutdown)
            } else {
                Ok(())
            },
        };
        if result.is_ok() {
            self.recycled = self.recycled.saturating_add(1);
            self.slots.set(slot, SlotState::Idle);
        } else {
            self.discarded = self.discarded.saturating_add(1);
            self.slots.set(slot, SlotState::Free);
        }
        result
    }

    /// Stops the pool: later acquires are refused and every idle connection
    /// is discarded. Returns the slots whose connections are to be closed.
    /// Leased and in-flight slots are left alone; they end free when they
    /// come back.
    pub fn shutdown(&mut self) -> (r: Vec<usize>)
        requires
            old(self).wf(),
        ensures
            final(self).wf(),
            final(self)@ == shutdown_spec(old(self)@),
            r@ == idle_indices(old(self)@.slots),
    {
        let ghost before = self.slots@;
        let mut closed: Vec<usize> = Vec::new();
        let mut i: usize = 0;
        while i < self.slots.len()
            invariant
                i <= self.slots@.len(),
                self.slots@.len() == before.len(),
                forall|j: int| 0 <= j < i ==> self.slots@[j] == drained(before[j]),
                forall|j: int| i <= j < before.len() ==> self.slots@[j] == before[j],
                closed@ == idle_indices(before.take(i as int)),
                self.discarded == sat_add(old(self)@.discarded, count_state(before.take(i as int), SlotState::Idle)),
                self.created == old(self)@.created,
                self.recycled == old(self)@.recycled,
            decreases before.len() - i,
        {
            proof {
                assert(before.take(i + 1).drop_last() =~= before.take(i as int));
            }
            if self.slots[i] == SlotState::Idle {
                self.slots.set(i, SlotState::Free);
                self.discarded = self.discarded.saturating_add(1);
                closed.push(i);
            }
            i = i + 1;
        }
        self.shut_down = true;
        proof {
            assert(before.take(before.len() as int) =~= before);
            assert(self.slots@ =~= before.map_values(|s: SlotState| drained(s)));
        }
        closed
    }

    /// Whether every slot is free: nothing leased, idle or in flight.
    pub fn is_drained(&self) -> (r: bool)
        ensures
            r == (forall|j: int| 0 <= j < self@.slots.len() ==> self@.slots[j] == SlotState::Free),
    {
        let mut i: usize = 0;
        while i < self.slots.len()
            invariant
                i <= self.slots@.len(),
                forall|j: int| 0 <= j < i ==> self.slots@[j] == SlotState::Free,
            decreases self.slots@.len() - i,
        {
            if self.slots[i] != SlotState::Free {
                return false;
            }
            i = i + 1;
        }
        true
    }

    /// Whether the pool has been shut down.
    pub fn is_shut_down(&self) -> (r: bool)
        ensures
            r == self@.shut_down,
    {
        self.shut_down
    }

    /// The state of one slot, or `None` for an index past the last slot.
    pub fn slot_state(&self, slot: usize) -> (r: Option<SlotState>)
        ensures
            slot < self@.slots.len() ==> r == Some(self@.slots[slot as int]),
            slot >= self@.slots.len() ==> r is None,
    {
        if slot < self.slots.len() {
            Some(self.slots[slot])
        } else {
            None
        }
    }

    /// A snapshot of the counters and of how many slots are in each state.
    pub fn metrics(&self) -> (r: Metrics)
        ensures
            r.created == self@.created,
            r.recycled == self@.recycled,
            r.discarded == self@.discarded,
            r.idle == count_state(self@.slots, SlotState::Idle),
            r.leased == count_state(self@.slots, SlotState::Leased),
            r.in_flight == count_state(self@.slots, SlotState::Creating)
                + count_state(self@.slots, SlotState::Recycling),
            r.capacity == self@.slots.len(),
    {
        let mut idle: usize = 0;
        let mut leased: usize = 0;
        let mut in_flight: usize = 0;
        let mut i: usize = 0;
        while i < self.slots.len()
            invariant
                i <= self.slots@.len(),
                idle == count_state(self.slots@.take(i as int), SlotState::Idle),
                leased == count_state(self.slots@.take(i as int), SlotState::Leased),
                in_flight == count_state(self.slots@.take(i as int), SlotState::Creating)
                    + count_state(self.slots@.take(i as int), SlotState::Recycling),
                idle + leased + in_flight <= i,
            decreases self.slots@.len() - i,
        {
            proof {
                assert(self.slots@.take(i + 1).drop_last() =~= self.slots@.take(i as int));
            }
            match self.slots[i] {
                SlotState::Idle => idle = idle + 1,
                SlotState::Leased => leased = leased + 1,
                SlotState::Creating => in_flight = in_flight + 1,
                SlotState::Recycling => in_flight = in_flight + 1,
                SlotState::Free => {},
            }
            i = i + 1;
        }
        proof {
            assert(self.slots@.take(self.slots@.len() as int) =~= self.slots@);
        }
        Metrics {
            created: self.created,
            recycled: self.recycled,
            discarded: self.discarded,
            idle,
            leased,
            in_flight,
            capacity: self.slots.len(),
        }
    }
}

/// Slots that are all non-idle have no idle indices.
proof fn lemma_idle_indices_absent(slots: Seq<SlotState>)
    requires
        forall|j: int| 0 <= j < slots.len() ==> slots[j] != SlotState::Idle,
    ensures
        idle_indices(slots) == Seq::<usize>::empty(),
    decreases slots.len(),
{
    if slots.len() > 0 {
        lemma_idle_indices_absent(slots.drop_last());
    }
}

/// The number of slots that are idle, leased, being created or being
/// recycled never exceeds the capacity of the pool.
pub proof fn lemma_in_use_within_capacity(p: &PoolState)
    ensures
        count_in_use(p@.slots) <= p.capacity(),
{
    lemma_count_split(p@.slots);
}

/// A release always resolves: the released slot goes to `Recycling`, from
/// which `finish_recycle` accepts it whatever the checks found, and it then
/// ends `Idle` or `Free`, never in flight.
pub proof fn lemma_release_resolves(v: PoolView, slot: usize, check: RecycleCheck)
    requires
        slot < v.slots.len(),
        v.slots[slot as int] == SlotState::Leased,
    ensures
        ({
            let released = v.slots.update(slot as int, SlotState::Recycling);
            let target = recycle_target(check == RecycleCheck::Passed, v.shut_down);
            &&& released[slot as int] == SlotState::Recycling
            &&& target == SlotState::Idle || target == SlotState::Free
            &&& released.update(slot as int, target)[slot as int] == target
        }),
{
}

/// A creation always resolves too: whatever its outcome, whether its caller
/// still waits and whether the pool has shut down, `finish_create` leaves
/// the slot leased, idle or free, never in flight.
pub proof fn lemma_create_resolves(outcome: CreateOutcome, waiting: bool, shut_down: bool)
    ensures
        ({
            let target = create_target(outcome, waiting, shut_down);
            target != SlotState::Creating && target != SlotState::Recycling
        }),
{
}

/// Shutting down twice has the effect of shutting down once: the second
/// time finds no idle connection, discards nothing and changes nothing.
pub proof fn lemma_shutdown_idempotent(v: PoolView)
    ensures
        shutdown_spec(shutdown_spec(v)) == shutdown_spec(v),
        idle_indices(shutdown_spec(v).slots) == Seq::<usize>::empty(),
        view_wf(shutdown_spec(v)),
{
    let once = shutdown_spec(v);
    assert forall|j: int| 0 <= j < once.slots.len() implies once.slots[j] != SlotState::Idle by {}
    lemma_count_absent(once.slots, SlotState::Idle);
    lemma_idle_indices_absent(once.slots);
    assert(once.slots.map_values(|s: SlotState| drained(s)) =~= once.slots);
}

} // verus!
