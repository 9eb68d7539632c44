use vstd::prelude::*;

verus! {

/// The lifecycle event at which a hook runs.
#[derive(Clone, Copy, Debug, PartialEq, Eq, Structural)]
pub enum HookPhase {
    /// Right after a connection was created.
    PostCreate,
    /// Before a returned connection is health-checked.
    PreRecycle,
    /// After a returned connection passed its health check.
    PostRecycle,
}

/// Whether a hook's callback completes at once or is awaited.
#[derive(Clone, Copy, Debug, PartialEq, Eq, Structural)]
pub enum HookKind {
    Sync,
    Async,
}

/// One registered hook.
#[derive(Clone, Copy, Debug, PartialEq, Eq, Structural)]
pub struct HookRecord {
    pub phase: HookPhase,
    pub kind: HookKind,
}

/// What a hook's callback answered.
#[derive(Clone, Copy, Debug, PartialEq, Eq, Structural)]
pub enum HookVerdict {
    /// Let the transition go on.
    Continue,
    /// Veto the transition: the connection is discarded.
    Reject,
}

/// The identifiers of the hooks registered for `phase`, in registration order.
pub open spec fn ids_in_phase(records: Seq<HookRecord>, phase: HookPhase) -> Seq<usize>
    decreases records.len(),
{
    if records.len() == 0 {
        seq![]
    } else if records.last().phase == phase {
        ids_in_phase(records.drop_last(), phase).push((records.len() - 1) as usize)
    } else {
        ids_in_phase(records.drop_last(), phase)
    }
}

/// The registered hooks of a pool. A hook's identifier is its position in
/// registration order; the callbacks themselves are kept by the caller
/// under that identifier.
#[derive(Debug)]
pub struct Hooks {
    records: Vec<HookRecord>,
}

impl View for Hooks {
    type V = Seq<HookRecord>;

    closed spec fn view(&self) -> Seq<HookRecord> {
        self.records@
    }
}

impl Default for Hooks {
    fn default() -> (r: Hooks)
        ensures
            r@ == Seq::<HookRecord>::empty(),
    {
        Hooks::new()
    }
}

impl Hooks {
    /// No hooks.
    pub fn new() -> (r: Hooks)
        ensures
            r@ == Seq::<HookRecord>::empty(),
    {
        Hooks { records: Vec::new() }
    }

    /// Registers a hook for `phase` after the ones already there and returns
    /// its identifier.
    pub fn register(&mut self, phase: HookPhase, kind: HookKind) -> (id: usize)
        ensures
            id == old(self)@.len(),
            final(self)@ == old(self)@.push(HookRecord { phase, kind }),
    {
        let id = self.records.len();
        self.records.push(HookRecord { phase, kind });
        id
    }

    /// The number of registered hooks, over all phases.
    pub fn len(&self) -> (r: usize)
        ensures
            r == self@.len(),
    {
        self.records.len()
    }

    /// The hook registered under `id`.
    pub fn record(&self, id: usize) -> (r: Option<HookRecord>)
        ensures
            id < self@.len() ==> r == Some(self@[id as int]),
            id >= self@.len() ==> r is None,
    {
        if id < self.records.len() {
            Some(self.records[id])
        } else {
            None
        }
    }

    /// The identifiers of the hooks of `phase`, in registration order.
    pub fn phase_hooks(&self, phase: HookPhase) -> (r: Vec<usize>)
        ensures
            r@ == ids_in_phase(self@, phase),
    {
        let mut ids: Vec<usize> = Vec::new();
        let mut i: usize = 0;
        while i < self.records.len()
            invariant
                i <= self.records@.len(),
                ids@ == ids_in_phase(self.records@.take(i as int), phase),
            decreases self.records@.len() - i,
        {
            proof {
                assert(self.records@.take(i + 1).drop_last() =~= self.records@.take(i as int));
            }
            if self.records[i].phase == phase {
                ids.push(i);
            }
            i = i + 1;
        }
        proof {
            assert(self.records@.take(self.records@.len() as int) =~= self.records@);
        }
        ids
    }
}

/// What the caller running a phase is to do next.
#[derive(Clone, Copy, Debug, PartialEq, Eq, Structural)]
pub enum PhaseStep {
    /// Invoke the hook with this identifier and report its verdict.
    Call(usize),
    /// The phase is over, with this result.
    Finished(HookVerdict),
}

/// The abstract state of a phase being run.
pub struct PhaseView {
    /// The hooks of the phase, in the order they run.
    pub ids: Seq<usize>,
    /// How many of them have been invoked.
    pub next: nat,
    /// Whether one of them rejected.
    pub rejected: bool,
}

/// What `PhaseRun::step` answers in state `v`.
pub open spec fn step_spec(v: PhaseView) -> PhaseStep {
    if v.rejected {
        PhaseStep::Finished(HookVerdict::Reject)
    } else if v.next < v.ids.len() {
        PhaseStep::Call(v.ids[v.next as int])
    } else {
        PhaseStep::Finished(HookVerdict::Continue)
    }
}

/// The state after the hook that `step_spec(v)` called answered `verdict`.
pub open spec fn report_spec(v: PhaseView, verdict: HookVerdict) -> PhaseView {
    PhaseView { next: v.next + 1, rejected: verdict == HookVerdict::Reject, ..v }
}

/// The state reached from `v` when the hooks called from there answer
/// `verdicts`, one verdict per call, in order.
pub open spec fn drive(v: PhaseView, verdicts: Seq<HookVerdict>) -> PhaseView
    decreases verdicts.len(),
{
    if verdicts.len() > 0 && step_spec(v) is Call {
        drive(report_spec(v, verdicts[0]), verdicts.drop_first())
    } else {
        v
    }
}

/// The hooks that have been invoked in state `v`, in order.
pub open spec fn invoked(v: PhaseView) -> Seq<usize> {
    v.ids.take(v.next as int)
}

/// One run of the hooks of a phase: in registration order, stopping at the
/// first rejection.
#[derive(Debug)]
pub struct PhaseRun {
    ids: Vec<usize>,
    next: usize,
    rejected: bool,
}

impl View for PhaseRun {
    type V = PhaseView;

    closed spec fn view(&self) -> PhaseView {
        PhaseView { ids: self.ids@, next: self.next as nat, rejected: self.rejected }
    }
}

impl PhaseRun {
    pub closed spec fn wf(&self) -> bool {
        self.next <= self.ids@.len()
    }

    /// A run of the hooks of `phase`, none invoked yet.
    pub fn start(hooks: &Hooks, phase: HookPhase) -> (r: PhaseRun)
        ensures
            r.wf(),
            r@ == (PhaseView { ids: ids_in_phase(hooks@, phase), next: 0, rejected: false }),
    {
        PhaseRun { ids: hooks.phase_hooks(phase), next: 0, rejected: false }
    }

    /// The next thing to do: invoke a hook, or take the phase's result.
    pub fn step(&self) -> (r: PhaseStep)
        requires
            self.wf(),
        ensures
            r == step_spec(self@),
    {
        if self.rejected {
            PhaseStep::Finished(HookVerdict::Reject)
        } else if self.next < self.ids.len() {
            PhaseStep::Call(self.ids[self.next])
        } else {
            PhaseStep::Finished(HookVerdict::Continue)
        }
    }

    /// Reports the verdict of the hook that `step` asked for.
    pub fn report(&mut self, verdict: HookVerdict)
        requires
            old(self).wf(),
            step_spec(old(self)@) is Call,
        ensures
            final(self).wf(),
            final(self)@ == report_spec(old(self)@, verdict),
    {
        if self.next < self.ids.len() {
            self.next = self.next + 1;
        }
        self.rejected = verdict == HookVerdict::Reject;
    }
}

/// A rejection stops the phase: when the hooks from the current one on
/// answer `Continue` up to position `k`, which rejects, exactly the hooks up
/// to and including that one are invoked, and the phase rejects.
pub proof fn lemma_reject_short_circuits(v: PhaseView, verdicts: Seq<HookVerdict>, k: int)
    requires
        !v.rejected,
        0 <= k < verdicts.len(),
        v.next + k < v.ids.len(),
        verdicts[k] == HookVerdict::Reject,
        forall|j: int| 0 <= j < k ==> verdicts[j] == HookVerdict::Continue,
    ensures
        invoked(drive(v, verdicts)) == v.ids.take(v.next + k + 1),
        step_spec(drive(v, verdicts)) == PhaseStep::Finished(HookVerdict::Reject),
    decreases k,
{
    let w = report_spec(v, verdicts[0]);
    if k > 0 {
        assert forall|j: int| 0 <= j < k - 1 implies verdicts.drop_first()[j] == HookVerdict::Continue by {
            assert(verdicts.drop_first()[j] == verdicts[j + 1]);
        }
        lemma_reject_short_circuits(w, verdicts.drop_first(), k - 1);
    } else {
        assert(drive(w, verdicts.drop_first()) == w);
    }
}

/// When every hook of the phase continues, all of them are invoked, in
/// registration order, and the phase continues.
pub proof fn lemma_all_continue(v: PhaseView, verdicts: Seq<HookVerdict>)
    requires
        !v.rejected,
        v.next <= v.ids.len(),
        v.next + verdicts.len() == v.ids.len(),
        forall|j: int| 0 <= j < verdicts.len() ==> verdicts[j] == HookVerdict::Continue,
    ensures
        invoked(drive(v, verdicts)) == v.ids,
        step_spec(drive(v, verdicts)) == PhaseStep::Finished(HookVerdict::Continue),
    decreases verdicts.len(),
{
    if verdicts.len() > 0 {
        let w = report_spec(v, verdicts[0]);
        assert forall|j: int| 0 <= j < verdicts.len() - 1 implies verdicts.drop_first()[j] == HookVerdict::Continue by {
            assert(verdicts.drop_first()[j] == verdicts[j + 1]);
        }
        lemma_all_continue(w, verdicts.drop_first());
    } else {
        assert(v.ids.take(v.next as int) =~= v.ids);
    }
}

} // verus!
