use vstd::prelude::*;
use crate::error::PoolError;
use crate::hooks::HookVerdict;
use crate::pool::{CreateOutcome, RecycleCheck};

verus! {

/// How a creation ended, from the connection attempt and the verdict of the
/// post-create hooks (which run only on a connection that was made).
pub fn create_outcome(connect: Result<(), PoolError>, post_create: HookVerdict) -> (r: CreateOutcome)
    ensures
        connect matches Err(e) ==> r == CreateOutcome::Failed(e),
        connect is Ok && post_create == HookVerdict::Continue ==> r == CreateOutcome::Created,
        connect is Ok && post_create == HookVerdict::Reject ==> r == CreateOutcome::Rejected,
{
    match connect {
        Err(e) => CreateOutcome::Failed(e),
        Ok(()) => match post_create {
            HookVerdict::Continue => CreateOutcome::Created,
            HookVerdict::Reject => CreateOutcome::Rejected,
        },
    }
}

/// The checks that a returned connection goes through, in order.
#[derive(Clone, Copy, Debug, PartialEq, Eq, Structural)]
pub enum RecycleStage {
    /// Run the pre-recycle hooks.
    PreRecycle,
    /// Run the health check.
    Validate,
    /// Run the post-recycle hooks.
    PostRecycle,
    /// The checks are over, with this result.
    Done(RecycleCheck),
}

/// The stage that follows `stage` when its check `passed`: the first failed
/// check ends the recycle, with the kind of check that failed.
pub open spec fn recycle_next_spec(stage: RecycleStage, passed: bool) -> RecycleStage {
    match stage {
        RecycleStage::PreRecycle => if passed {
            RecycleStage::Validate
        } else {
            RecycleStage::Done(RecycleCheck::Rejected)
        },
        RecycleStage::Validate => if passed {
            RecycleStage::PostRecycle
        } else {
            RecycleStage::Done(RecycleCheck::Invalid)
        },
        RecycleStage::PostRecycle => if passed {
            RecycleStage::Done(RecycleCheck::Passed)
        } else {
            RecycleStage::Done(RecycleCheck::Rejected)
        },
        RecycleStage::Done(c) => RecycleStage::Done(c),
    }
}

/// The stage that follows `stage` when its check `passed`.
pub fn recycle_next(stage: RecycleStage, passed: bool) -> (r: RecycleStage)
    ensures
        r == recycle_next_spec(stage, passed),
{
    match stage {
        RecycleStage::PreRecycle => if passed {
            RecycleStage::Validate
        } else {
            RecycleStage::Done(RecycleCheck::Rejected)
        },
        RecycleStage::Validate => if passed {
            RecycleStage::PostRecycle
        } else {
            RecycleStage::Done(RecycleCheck::Invalid)
        },
        RecycleStage::PostRecycle => if passed {
            RecycleStage::Done(RecycleCheck::Passed)
        } else {
            RecycleStage::Done(RecycleCheck::Rejected)
        },
        RecycleStage::Done(c) => RecycleStage::Done(c),
    }
}

/// A returned connection passes only when all three checks pass, in order;
/// otherwise the first failing check names the result.
pub proof fn lemma_recycle_healthy_iff_all_pass(pre: bool, valid: bool, post: bool)
    ensures
        ({
            let s1 = recycle_next_spec(RecycleStage::PreRecycle, pre);
            let s2 = if s1 is Done { s1 } else { recycle_next_spec(s1, valid) };
            let s3 = if s2 is Done { s2 } else { recycle_next_spec(s2, post) };
            &&& (s3 == RecycleStage::Done(RecycleCheck::Passed) <==> pre && valid && post)
            &&& (!pre ==> s3 == RecycleStage::Done(RecycleCheck::Rejected))
            &&& (pre && !valid ==> s3 == RecycleStage::Done(RecycleCheck::Invalid))
            &&& (pre && valid && !post ==> s3 == RecycleStage::Done(RecycleCheck::Rejected))
        }),
{
}

} // verus!
