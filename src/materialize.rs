use vstd::prelude::*;

verus! {

/// Where a call that materializes a tagged directory stands: the next
/// filesystem step its driver must perform, or the call's outcome.
///
/// The directory is built under a private staging name and published by one
/// rename, so the target path never shows a directory without its tag file.
pub enum MkdirStep<E> {
    /// Find out whether anything exists at the target path.
    CheckTarget,
    /// Make the target path absolute, against the current working directory.
    ResolveTarget,
    /// Create a fresh, uniquely named staging directory beside the target.
    CreateStaging,
    /// Add the tag file to the staging directory, create-only.
    TagStaging,
    /// Rename the staging directory onto the target path.
    Publish,
    /// The rename failed with this error: find out whether the target path
    /// is now a directory, put there by a concurrent caller.
    RecheckTarget(E),
    /// The call is over: `Ok(true)` when this call created the target,
    /// `Ok(false)` when the target was there already or another caller
    /// published it first. A staging directory still left is to be removed.
    Finished(Result<bool, E>),
}

/// The outcome of the step a driver just performed.
pub enum MkdirEvent<E> {
    /// The answer to `CheckTarget` (anything exists) or to `RecheckTarget`
    /// (a directory exists).
    Observed(bool),
    /// The outcome of any other step.
    Completed(Result<(), E>),
}

/// Whether `event` is the kind of outcome that `step` produces.
pub open spec fn answers<E>(step: MkdirStep<E>, event: MkdirEvent<E>) -> bool {
    match step {
        MkdirStep::CheckTarget | MkdirStep::RecheckTarget(_) => event is Observed,
        MkdirStep::Finished(_) => false,
        _ => event is Completed,
    }
}

/// The step that follows `step` once `event` has been observed.
pub open spec fn mkdir_transition<E>(step: MkdirStep<E>, event: MkdirEvent<E>) -> MkdirStep<E> {
    match (step, event) {
        (MkdirStep::CheckTarget, MkdirEvent::Observed(exists)) => if exists {
            MkdirStep::Finished(Ok(false))
        } else {
            MkdirStep::ResolveTarget
        },
        (MkdirStep::ResolveTarget, MkdirEvent::Completed(Ok(()))) => MkdirStep::CreateStaging,
        (MkdirStep::CreateStaging, MkdirEvent::Completed(Ok(()))) => MkdirStep::TagStaging,
        (MkdirStep::TagStaging, MkdirEvent::Completed(Ok(()))) => MkdirStep::Publish,
        (MkdirStep::Publish, MkdirEvent::Completed(Ok(()))) => MkdirStep::Finished(Ok(true)),
        (MkdirStep::Publish, MkdirEvent::Completed(Err(e))) => MkdirStep::RecheckTarget(e),
        (MkdirStep::RecheckTarget(e), MkdirEvent::Observed(is_dir)) => if is_dir {
            MkdirStep::Finished(Ok(false))
        } else {
            MkdirStep::Finished(Err(e))
        },
        (_, MkdirEvent::Completed(Err(e))) => MkdirStep::Finished(Err(e)),
        (s, _) => s,
    }
}

/// The first step of a call.
pub fn mkdir_atomic_start<E>() -> (r: MkdirStep<E>)
    ensures
        r is CheckTarget,
{
    MkdirStep::CheckTarget
}

/// Advances a call by one step, given the outcome of the step just performed.
/// A failure of resolving, staging or tagging ends the call with that error;
/// a failed rename ends it with `Ok(false)` if the target has become a
/// directory, and with the rename's error otherwise.
pub fn mkdir_atomic_next<E>(step: MkdirStep<E>, event: MkdirEvent<E>) -> (r: MkdirStep<E>)
    requires
        answers(step, event),
    ensures
        r == mkdir_transition(step, event),
{
    match (step, event) {
        (MkdirStep::CheckTarget, MkdirEvent::Observed(exists)) => {
            if exists {
                MkdirStep::Finished(Ok(false))
            } else {
                MkdirStep::ResolveTarget
            }
        },
        (MkdirStep::ResolveTarget, MkdirEvent::Completed(Ok(()))) => MkdirStep::CreateStaging,
        (MkdirStep::CreateStaging, MkdirEvent::Completed(Ok(()))) => MkdirStep::TagStaging,
        (MkdirStep::TagStaging, MkdirEvent::Completed(Ok(()))) => MkdirStep::Publish,
        (MkdirStep::Publish, MkdirEvent::Completed(Ok(()))) => MkdirStep::Finished(Ok(true)),
        (MkdirStep::Publish, MkdirEvent::Completed(Err(e))) => MkdirStep::RecheckTarget(e),
        (MkdirStep::RecheckTarget(e), MkdirEvent::Observed(is_dir)) => {
            if is_dir {
                MkdirStep::Finished(Ok(false))
            } else {
                MkdirStep::Finished(Err(e))
            }
        },
        (_, MkdirEvent::Completed(Err(e))) => MkdirStep::Finished(Err(e)),
        (other, _) => other,
    }
}

} // verus!
