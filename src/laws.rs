use vstd::prelude::*;

use crate::materialize::{answers, mkdir_transition, MkdirEvent, MkdirStep};
use crate::tag::{
    ensure_outcome, probe_state, probe_tagged, tag_header, ErrorKind, Failure, TagProbe, TagState,
};

verus! {

/// A directory without a tag file is `Absent` when it exists, and an error
/// when it does not: probing nothing is not the same as finding no tag.
pub proof fn lemma_missing_tag_file<E>(error: E, directory_is_dir: bool)
    ensures
        probe_state(
            TagProbe::OpenFailed {
                failure: Failure { kind: ErrorKind::NotFound, error },
                directory_is_dir,
            },
        ) == if directory_is_dir {
            Ok::<TagState, E>(TagState::Absent)
        } else {
            Err::<TagState, E>(error)
        },
{
}

/// A tag file that is shorter than the header, or holds anything but the
/// header, is `WrongHeader`, and the directory is not tagged.
pub proof fn lemma_other_content_wrong_header<E>(bytes: Vec<u8>)
    requires
        bytes@.len() < tag_header().len() || bytes@ != tag_header(),
    ensures
        probe_state(TagProbe::<E>::Read(bytes)) == Ok::<TagState, E>(TagState::WrongHeader),
        probe_tagged(TagProbe::<E>::Read(bytes)) == Ok::<bool, E>(false),
{
}

/// A tag file holding exactly the header is `Present`, and the directory is
/// tagged.
pub proof fn lemma_header_present<E>(bytes: Vec<u8>)
    requires
        bytes@ == tag_header(),
    ensures
        probe_state(TagProbe::<E>::Read(bytes)) == Ok::<TagState, E>(TagState::Present),
        probe_tagged(TagProbe::<E>::Read(bytes)) == Ok::<bool, E>(true),
{
}

/// Ensuring a tag twice in a row succeeds both times: the first call either
/// adds the tag or finds one, and the second finds the one now there.
pub proof fn lemma_ensure_tag_twice<E>(first: Result<(), Failure<E>>, second: Failure<E>)
    requires
        first is Ok || first->Err_0.kind == ErrorKind::AlreadyExists,
        second.kind == ErrorKind::AlreadyExists,
    ensures
        ensure_outcome(first) == Ok::<(), E>(()),
        ensure_outcome(Err::<(), Failure<E>>(second)) == Ok::<(), E>(()),
{
}

/// A target path that already exists ends the call at once with
/// `Ok(false)`: nothing is staged, tagged or renamed.
pub proof fn lemma_existing_target_untouched<E>()
    ensures
        mkdir_transition(MkdirStep::<E>::CheckTarget, MkdirEvent::Observed(true))
            == MkdirStep::<E>::Finished(Ok(false)),
{
}

/// A call reports that it created the target exactly when its own rename of
/// the tagged staging directory onto the target succeeded.
pub proof fn lemma_created_only_by_publish<E>(step: MkdirStep<E>, event: MkdirEvent<E>)
    requires
        answers(step, event),
    ensures
        mkdir_transition(step, event) == MkdirStep::<E>::Finished(Ok(true)) <==> (step is Publish
            && event == MkdirEvent::<E>::Completed(Ok(()))),
{
    if let MkdirEvent::Completed(Ok(unit)) = event {
        assert(unit == ());
    }
}

/// A call reports `Ok(false)` exactly when it found something at the target
/// before starting, or found a directory there after losing the rename.
pub proof fn lemma_not_created_only_when_target_exists<E>(
    step: MkdirStep<E>,
    event: MkdirEvent<E>,
)
    requires
        answers(step, event),
    ensures
        mkdir_transition(step, event) == MkdirStep::<E>::Finished(Ok(false)) <==> ((step is CheckTarget
            || step is RecheckTarget) && event == MkdirEvent::<E>::Observed(true)),
{
}

/// A failure to resolve the target, to create the staging directory or to
/// tag it ends the call with that very error; so does a failed rename when
/// no directory has appeared at the target.
pub proof fn lemma_failures_propagate<E>(step: MkdirStep<E>, error: E)
    requires
        step is ResolveTarget || step is CreateStaging || step is TagStaging,
    ensures
        mkdir_transition(step, MkdirEvent::Completed(Err(error))) == MkdirStep::<E>::Finished(
            Err(error),
        ),
        mkdir_transition(MkdirStep::<E>::Publish, MkdirEvent::Completed(Err(error)))
            == MkdirStep::<E>::RecheckTarget(error),
        mkdir_transition(MkdirStep::<E>::RecheckTarget(error), MkdirEvent::Observed(false))
            == MkdirStep::<E>::Finished(Err(error)),
{
}

} // verus!
