//! What holds of the delegation controller in every state and over
//! several steps.

use crate::delegation::{
    access_of, after_commit, after_delegation, batch_after_commit, batch_arrived,
    batch_committing, batch_in_flight, batch_returnable, committing, delegate_verdict,
    delegating, may_mutate, state_of,
    undelegate_verdict, Access, DelegationError, DelegationRecordView, DelegationState,
    ExecutionContext, Phase,
};
use vstd::prelude::*;

verus! {

/// A resource has at most one writer: in no state may both contexts write,
/// while a handoff is under way neither may, and otherwise exactly one may.
pub proof fn law_single_writer(state: DelegationState)
    ensures
        !(may_mutate(state, ExecutionContext::Base) && may_mutate(
            state,
            ExecutionContext::Ephemeral,
        )),
        state == DelegationState::Transitioning ==> !may_mutate(state, ExecutionContext::Base)
            && !may_mutate(state, ExecutionContext::Ephemeral),
        state != DelegationState::Transitioning ==> (may_mutate(state, ExecutionContext::Base)
            || may_mutate(state, ExecutionContext::Ephemeral)),
{
}

/// A context that is not let in is told to come back exactly when a
/// handoff is under way.
pub proof fn law_retry_only_in_transit(state: DelegationState, context: ExecutionContext)
    ensures
        access_of(state, context) == Access::Granted <==> may_mutate(state, context),
        access_of(state, context) == Access::Retry <==> state == DelegationState::Transitioning,
{
}

/// Delegation starts from the base context only: for a resource in any
/// other state it is refused as already delegated, whatever the seeds.
pub proof fn law_delegate_from_resident_only(record: DelegationRecordView, seeds: Seq<Seq<u8>>)
    requires
        record.state() != DelegationState::Resident,
    ensures
        delegate_verdict(record, seeds) == Err::<(), DelegationError>(
            DelegationError::AlreadyDelegated,
        ),
{
}

/// The return of a resource that the base context owns is refused as not
/// delegated.
pub proof fn law_undelegate_needs_delegated(record: DelegationRecordView)
    requires
        record.state() == DelegationState::Resident,
    ensures
        undelegate_verdict(record) == Err::<(), DelegationError>(DelegationError::NotDelegated),
{
}

/// A full cycle keeps the key: a resource that is delegated and comes back
/// is found under the key it left with, and holds the value that the
/// ephemeral context committed.
pub proof fn law_cycle_keeps_key(record: DelegationRecordView, seeds: Seq<Seq<u8>>, value: Seq<u8>)
    requires
        delegate_verdict(record, seeds) is Ok,
    ensures
        ({
            let delegated = after_delegation(delegating(record), true);
            let back = after_commit(committing(delegated), Some(value));
            &&& delegated.state() == DelegationState::Delegated
            &&& undelegate_verdict(delegated) is Ok
            &&& back.state() == DelegationState::Resident
            &&& back.key == record.key
            &&& back.value == value
            &&& delegate_verdict(back, seeds) is Ok
        }),
{
}

/// A delegation that the collaborator could not carry out leaves the
/// resource with the base context, as it was before.
pub proof fn law_failed_delegation_restores(record: DelegationRecordView)
    requires
        record.phase == Phase::Resident,
    ensures
        after_delegation(delegating(record), false) == record,
{
}

/// A commit can be asked for again: for a resource whose return is under
/// way the request is accepted and leaves it on its way, and a commit
/// that did not go through changes nothing.
pub proof fn law_commit_repeatable(record: DelegationRecordView)
    requires
        record.phase == Phase::Committing,
    ensures
        undelegate_verdict(record) is Ok,
        committing(record) == record,
        after_commit(record, None) == record,
{
}

/// A batch whose return is asked for is on its way as a whole, and may be
/// asked for again.
pub proof fn law_batch_in_flight(records: Seq<DelegationRecordView>)
    ensures
        batch_in_flight(batch_committing(records)),
        batch_returnable(batch_committing(records)),
        batch_committing(batch_committing(records)) == batch_committing(records),
{
    assert(batch_committing(batch_committing(records)) =~= batch_committing(records));
}

/// A batch comes back all or nothing: after the report on a batch that was
/// on its way, either every resource is back with the base context, or
/// every resource is still on its way. No report leaves some here and some
/// there.
pub proof fn law_batch_all_or_nothing(
    records: Seq<DelegationRecordView>,
    outcomes: Seq<Option<Seq<u8>>>,
)
    requires
        batch_in_flight(records),
    ensures
        batch_after_commit(records, outcomes).len() == records.len(),
        batch_arrived(records, outcomes) ==> forall|i: int|
            0 <= i < records.len() ==> (#[trigger] batch_after_commit(records, outcomes)[i]).phase
                == Phase::Resident && batch_after_commit(records, outcomes)[i].value
                == outcomes[i]->0 && batch_after_commit(records, outcomes)[i].key
                == records[i].key,
        !batch_arrived(records, outcomes) ==> batch_after_commit(records, outcomes) == records,
        (forall|i: int|
            0 <= i < records.len() ==> state_of(
                (#[trigger] batch_after_commit(records, outcomes)[i]).phase,
            ) == DelegationState::Resident) || (forall|i: int|
            0 <= i < records.len() ==> state_of(
                (#[trigger] batch_after_commit(records, outcomes)[i]).phase,
            ) == DelegationState::Transitioning),
{
    if batch_arrived(records, outcomes) {
        assert forall|i: int| 0 <= i < records.len() implies (#[trigger] batch_after_commit(
            records,
            outcomes,
        )[i]).phase == Phase::Resident by {
            assert(outcomes[i] is Some);
        }
    }
}

} // verus!
