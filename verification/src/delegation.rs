//! The delegation controller.
//!
//! A resource is owned by one of two execution contexts: the base context,
//! where it lives, or the ephemeral context, to which it can be handed for
//! a while. The controller keeps, for each resource, who owns it, and
//! decides every step of the handoff. The handoff itself is done by a
//! collaborator outside: the controller hands out a request, and is told
//! how it ended.

pub mod laws;

use crate::identity::Identity;
use crate::key::{copy_bytes, derive_key, framed, seed_views, ResourceKey};
use vstd::prelude::*;

verus! {

/// The two execution contexts.
#[derive(Clone, Copy, Debug, PartialEq, Eq, Structural)]
pub enum ExecutionContext {
    /// The persistent context in which every resource starts.
    Base,
    /// The fast context to which a resource can be delegated.
    Ephemeral,
}

/// Who owns a resource.
#[derive(Clone, Copy, Debug, PartialEq, Eq, Structural)]
pub enum DelegationState {
    /// The base context owns the resource.
    Resident,
    /// The ephemeral context owns the resource.
    Delegated,
    /// A handoff is under way: neither context may write.
    Transitioning,
}

/// Where a resource stands in the cycle of handoffs.
#[derive(Clone, Copy, Debug, PartialEq, Eq, Structural)]
pub enum Phase {
    /// Owned by the base context.
    Resident,
    /// On its way to the ephemeral context.
    Delegating,
    /// Owned by the ephemeral context.
    Delegated,
    /// On its way back to the base context.
    Committing,
}

/// What a context is told when it asks to write a resource.
#[derive(Clone, Copy, Debug, PartialEq, Eq, Structural)]
pub enum Access {
    /// The context owns the resource and may write.
    Granted,
    /// A handoff is under way: ask again later.
    Retry,
    /// The other context owns the resource.
    Refused,
}

/// Why a step of the handoff was refused.
#[derive(Clone, Copy, Debug, PartialEq, Eq, Structural)]
pub enum DelegationError {
    /// The resource is not owned by the base context.
    AlreadyDelegated,
    /// The resource is not owned by the ephemeral context.
    NotDelegated,
    /// The seeds do not derive the key of the resource.
    SeedMismatch,
    /// No handoff of this kind is under way for the resource.
    NotTransitioning,
    /// The context does not own the resource.
    NotOwner,
}

/// How a commit ended.
#[derive(Clone, Copy, Debug, PartialEq, Eq, Structural)]
pub enum CommitStatus {
    /// Every resource of the batch is back in the base context.
    Complete,
    /// The commit did not go through: every resource of the batch is still
    /// on its way, and the same commit can be asked for again.
    Incomplete,
}

/// The state of `phase` as the two contexts see it.
pub open spec fn state_of(phase: Phase) -> DelegationState {
    match phase {
        Phase::Resident => DelegationState::Resident,
        Phase::Delegated => DelegationState::Delegated,
        Phase::Delegating => DelegationState::Transitioning,
        Phase::Committing => DelegationState::Transitioning,
    }
}

/// Whether the context may write a resource in the given state.
pub open spec fn may_mutate(state: DelegationState, context: ExecutionContext) -> bool {
    match context {
        ExecutionContext::Base => state == DelegationState::Resident,
        ExecutionContext::Ephemeral => state == DelegationState::Delegated,
    }
}

/// What a context that asks to write a resource in the given state is told.
pub open spec fn access_of(state: DelegationState, context: ExecutionContext) -> Access {
    if may_mutate(state, context) {
        Access::Granted
    } else if state == DelegationState::Transitioning {
        Access::Retry
    } else {
        Access::Refused
    }
}

/// What the controller keeps of one resource: its key, where it stands in
/// the cycle, and the value of its authoritative copy.
#[derive(Debug)]
pub struct DelegationRecord {
    pub key: ResourceKey,
    pub phase: Phase,
    pub value: Vec<u8>,
}

pub struct DelegationRecordView {
    pub key: Seq<u8>,
    pub phase: Phase,
    pub value: Seq<u8>,
}

impl View for DelegationRecord {
    type V = DelegationRecordView;

    open spec fn view(&self) -> DelegationRecordView {
        DelegationRecordView { key: self.key@, phase: self.phase, value: self.value@ }
    }
}

impl DelegationRecordView {
    /// The state of the resource.
    pub open spec fn state(self) -> DelegationState {
        state_of(self.phase)
    }
}

/// What the collaborator needs to hand a resource to the ephemeral
/// context: the key, the seeds that derive it, who pays, and the value
/// that is handed over.
#[derive(Debug)]
pub struct DelegationTicket {
    pub key: ResourceKey,
    pub seeds: Vec<Vec<u8>>,
    pub payer: Identity,
    pub value: Vec<u8>,
}

/// What the collaborator needs to bring resources back to the base
/// context: their keys, in the order of the batch, and who pays.
#[derive(Debug)]
pub struct CommitRequest {
    pub keys: Vec<ResourceKey>,
    pub payer: Identity,
}

/// The keys that a list of keys holds.
pub open spec fn key_views(keys: Seq<ResourceKey>) -> Seq<Seq<u8>> {
    keys.map_values(|key: ResourceKey| key@)
}

impl DelegationRecord {
    /// The record of a resource that starts in the base context with the
    /// given value.
    pub fn new(key: ResourceKey, value: Vec<u8>) -> (record: DelegationRecord)
        ensures
            record@ == (DelegationRecordView { key: key@, phase: Phase::Resident, value: value@ }),
    {
        DelegationRecord { key, phase: Phase::Resident, value }
    }

    /// The state of the resource.
    pub fn state(&self) -> (state: DelegationState)
        ensures
            state == self@.state(),
    {
        match self.phase {
            Phase::Resident => DelegationState::Resident,
            Phase::Delegated => DelegationState::Delegated,
            Phase::Delegating => DelegationState::Transitioning,
            Phase::Committing => DelegationState::Transitioning,
        }
    }

    /// What the context is told when it asks to write the resource: it
    /// may, it should ask again later, or it may not.
    pub fn access(&self, context: ExecutionContext) -> (access: Access)
        ensures
            access == access_of(self@.state(), context),
    {
        match (self.state(), context) {
            (DelegationState::Resident, ExecutionContext::Base) => Access::Granted,
            (DelegationState::Delegated, ExecutionContext::Ephemeral) => Access::Granted,
            (DelegationState::Transitioning, _) => Access::Retry,
            _ => Access::Refused,
        }
    }

    /// Writes a new value of the resource from the given context. Only
    /// the owner may write. A refused write changes nothing.
    pub fn write(&mut self, context: ExecutionContext, value: Vec<u8>) -> (result: Result<
        (),
        DelegationError,
    >)
        ensures
            result is Ok <==> may_mutate(old(self)@.state(), context),
            result is Err ==> result == Err::<(), DelegationError>(DelegationError::NotOwner)
                && *final(self) == *old(self),
            result is Ok ==> final(self)@ == (DelegationRecordView {
                value: value@,
                ..old(self)@
            }),
    {
        match self.access(context) {
            Access::Granted => {
                self.value = value;
                Ok(())
            },
            _ => Err(DelegationError::NotOwner),
        }
    }
}

/// The record of a resource that is on its way to the ephemeral context.
pub open spec fn delegating(record: DelegationRecordView) -> DelegationRecordView {
    DelegationRecordView { phase: Phase::Delegating, ..record }
}

/// The record of a resource that is on its way back to the base context.
pub open spec fn committing(record: DelegationRecordView) -> DelegationRecordView {
    DelegationRecordView { phase: Phase::Committing, ..record }
}

/// Whether the ticket is the one for the delegation of the resource under
/// the seeds, paid by the payer: it names the key of the resource, the
/// seeds, the payer, and the value that is handed over.
pub open spec fn ticket_for(
    ticket: DelegationTicket,
    record: DelegationRecordView,
    seeds: Seq<Seq<u8>>,
    payer: Identity,
) -> bool {
    &&& ticket.key@ == record.key
    &&& seed_views(ticket.seeds@) == seeds
    &&& ticket.payer == payer
    &&& ticket.value@ == record.value
}

/// Whether the request is the one for the return of the resources with the
/// given keys, in their order, paid by the payer.
pub open spec fn request_for(request: CommitRequest, keys: Seq<Seq<u8>>, payer: Identity) -> bool {
    key_views(request.keys@) == keys && request.payer == payer
}

/// Whether a resource may be delegated under the given seeds, and why not:
/// it is not owned by the base context, or else the seeds do not derive
/// its key.
pub open spec fn delegate_verdict(record: DelegationRecordView, seeds: Seq<Seq<u8>>) -> Result<
    (),
    DelegationError,
> {
    if record.phase != Phase::Resident {
        Err(DelegationError::AlreadyDelegated)
    } else if !crate::key::derivable(seeds) || framed(seeds) != record.key {
        Err(DelegationError::SeedMismatch)
    } else {
        Ok(())
    }
}

/// Starts the handoff of a resource to the ephemeral context. The resource
/// must be owned by the base context, and the seeds must derive its key, so
/// that it is found under the same key on the other side. From here on
/// neither context may write it. Returns what the collaborator needs to
/// carry the handoff out. A refused call changes nothing.
pub fn request_delegation(
    record: &mut DelegationRecord,
    payer: Identity,
    seeds: Vec<Vec<u8>>,
) -> (result: Result<DelegationTicket, DelegationError>)
    ensures
        delegate_verdict(old(record)@, seed_views(seeds@)) matches Err(error) ==> result == Err::<
            DelegationTicket,
            DelegationError,
        >(error) && *final(record) == *old(record),
        delegate_verdict(old(record)@, seed_views(seeds@)) is Ok ==> result is Ok && final(record)@
            == delegating(old(record)@) && ticket_for(
            result->Ok_0,
            old(record)@,
            seed_views(seeds@),
            payer,
        ),
{
    match record.phase {
        Phase::Resident => {},
        _ => {
            return Err(DelegationError::AlreadyDelegated);
        },
    }
    match derive_key(&seeds) {
        Some(derived) => {
            if derived != record.key {
                return Err(DelegationError::SeedMismatch);
            }
        },
        None => {
            return Err(DelegationError::SeedMismatch);
        },
    }
    record.phase = Phase::Delegating;
    Ok(
        DelegationTicket {
            key: record.key.clone(),
            seeds,
            payer,
            value: copy_bytes(record.value.as_slice()),
        },
    )
}

/// The record after the collaborator has reported on a delegation that
/// was under way: owned by the ephemeral context if the handoff went
/// through, back with the base context if it did not.
pub open spec fn after_delegation(record: DelegationRecordView, handed_over: bool) -> DelegationRecordView {
    DelegationRecordView {
        phase: if handed_over {
            Phase::Delegated
        } else {
            Phase::Resident
        },
        ..record
    }
}

/// Ends the handoff of a resource to the ephemeral context with what the
/// collaborator reports. A call for a resource that is not on its way
/// there is refused and changes nothing.
pub fn settle_delegation(record: &mut DelegationRecord, handed_over: bool) -> (result: Result<
    DelegationState,
    DelegationError,
>)
    ensures
        old(record)@.phase != Phase::Delegating ==> result == Err::<
            DelegationState,
            DelegationError,
        >(DelegationError::NotTransitioning) && *final(record) == *old(record),
        old(record)@.phase == Phase::Delegating ==> final(record)@ == after_delegation(
            old(record)@,
            handed_over,
        ) && result == Ok::<DelegationState, DelegationError>(final(record)@.state()),
{
    match record.phase {
        Phase::Delegating => {},
        _ => {
            return Err(DelegationError::NotTransitioning);
        },
    }
    if handed_over {
        record.phase = Phase::Delegated;
        Ok(DelegationState::Delegated)
    } else {
        record.phase = Phase::Resident;
        Ok(DelegationState::Resident)
    }
}

/// Whether the return of a resource may be asked for, and why not. It may
/// for a resource that the ephemeral context owns, and again for one
/// whose return is under way.
pub open spec fn undelegate_verdict(record: DelegationRecordView) -> Result<(), DelegationError> {
    if record.phase == Phase::Delegated || record.phase == Phase::Committing {
        Ok(())
    } else {
        Err(DelegationError::NotDelegated)
    }
}

/// Starts, or starts again, the return of a resource to the base context.
/// From here on neither context may write it. A refused call changes
/// nothing.
pub fn request_undelegation(record: &mut DelegationRecord, payer: Identity) -> (result: Result<
    CommitRequest,
    DelegationError,
>)
    ensures
        undelegate_verdict(old(record)@) matches Err(error) ==> result == Err::<
            CommitRequest,
            DelegationError,
        >(error) && *final(record) == *old(record),
        undelegate_verdict(old(record)@) is Ok ==> result is Ok && final(record)@ == committing(
            old(record)@,
        ) && request_for(result->Ok_0, seq![old(record)@.key], payer),
{
    match record.phase {
        Phase::Delegated => {},
        Phase::Committing => {},
        _ => {
            return Err(DelegationError::NotDelegated);
        },
    }
    record.phase = Phase::Committing;
    let mut keys: Vec<ResourceKey> = Vec::new();
    keys.push(record.key.clone());
    assert(key_views(keys@) =~= seq![old(record)@.key]);
    Ok(CommitRequest { keys, payer })
}

/// The record after the collaborator has reported on a return that was
/// under way: back with the base context, with the value that the
/// ephemeral context held, if that value arrived; unchanged if it did not.
pub open spec fn after_commit(record: DelegationRecordView, committed: Option<Seq<u8>>) -> DelegationRecordView {
    match committed {
        Some(value) => DelegationRecordView { phase: Phase::Resident, value, ..record },
        None => record,
    }
}

/// The model of what the collaborator reports of one resource.
pub open spec fn outcome_view(committed: Option<Vec<u8>>) -> Option<Seq<u8>> {
    match committed {
        Some(value) => Some(value@),
        None => None,
    }
}

/// Ends the return of a resource with what the collaborator reports: the
/// value that the ephemeral context held, or nothing if the commit did
/// not go through. A call for a resource that is not on its way back is
/// refused and changes nothing.
pub fn settle_undelegation(record: &mut DelegationRecord, committed: Option<Vec<u8>>) -> (result:
    Result<CommitStatus, DelegationError>)
    ensures
        old(record)@.phase != Phase::Committing ==> result == Err::<CommitStatus, DelegationError>(
            DelegationError::NotTransitioning,
        ) && *final(record) == *old(record),
        old(record)@.phase == Phase::Committing ==> final(record)@ == after_commit(
            old(record)@,
            outcome_view(committed),
        ) && result == Ok::<CommitStatus, DelegationError>(
            if committed is Some {
                CommitStatus::Complete
            } else {
                CommitStatus::Incomplete
            },
        ),
{
    match record.phase {
        Phase::Committing => {},
        _ => {
            return Err(DelegationError::NotTransitioning);
        },
    }
    match committed {
        Some(value) => {
            record.value = value;
            record.phase = Phase::Resident;
            Ok(CommitStatus::Complete)
        },
        None => Ok(CommitStatus::Incomplete),
    }
}

/// The models of the records of a batch, in order.
pub open spec fn records_view(records: Seq<DelegationRecord>) -> Seq<DelegationRecordView> {
    records.map_values(|record: DelegationRecord| record@)
}

/// The models of what the collaborator reports of a batch, in order.
pub open spec fn outcomes_view(outcomes: Seq<Option<Vec<u8>>>) -> Seq<Option<Seq<u8>>> {
    outcomes.map_values(|committed: Option<Vec<u8>>| outcome_view(committed))
}

/// Whether the return of every resource of a batch may be asked for.
pub open spec fn batch_returnable(records: Seq<DelegationRecordView>) -> bool {
    forall|i: int| 0 <= i < records.len() ==> undelegate_verdict(#[trigger] records[i]) is Ok
}

/// Whether the return of every resource of a batch is under way.
pub open spec fn batch_in_flight(records: Seq<DelegationRecordView>) -> bool {
    forall|i: int| 0 <= i < records.len() ==> (#[trigger] records[i]).phase == Phase::Committing
}

/// Whether the value of every resource of a batch has arrived.
pub open spec fn batch_arrived(
    records: Seq<DelegationRecordView>,
    outcomes: Seq<Option<Seq<u8>>>,
) -> bool {
    outcomes.len() == records.len() && forall|i: int|
        0 <= i < outcomes.len() ==> (#[trigger] outcomes[i]) is Some
}

/// The keys of the resources of a batch, in order.
pub open spec fn batch_keys(records: Seq<DelegationRecordView>) -> Seq<Seq<u8>> {
    Seq::new(records.len(), |i: int| records[i].key)
}

/// A batch whose return was asked for: every resource is on its way back.
pub open spec fn batch_committing(records: Seq<DelegationRecordView>) -> Seq<DelegationRecordView> {
    Seq::new(records.len(), |i: int| committing(records[i]))
}

/// A batch after the collaborator has reported on its return: if every
/// value arrived, every resource is back with the base context and holds
/// its value; if one did not, the whole batch is as it was.
pub open spec fn batch_after_commit(
    records: Seq<DelegationRecordView>,
    outcomes: Seq<Option<Seq<u8>>>,
) -> Seq<DelegationRecordView> {
    if batch_arrived(records, outcomes) {
        Seq::new(records.len(), |i: int| after_commit(records[i], outcomes[i]))
    } else {
        records
    }
}

/// Starts, or starts again, the return of a batch of resources to the
/// base context. Either the return of all of them is asked for, or, if
/// one of them is not with the ephemeral context, of none.
pub fn request_undelegation_batch(records: &mut Vec<DelegationRecord>, payer: Identity) -> (result:
    Result<CommitRequest, DelegationError>)
    ensures
        !batch_returnable(records_view(old(records)@)) ==> result == Err::<
            CommitRequest,
            DelegationError,
        >(DelegationError::NotDelegated) && *final(records) == *old(records),
        batch_returnable(records_view(old(records)@)) ==> result is Ok && records_view(
            final(records)@,
        ) == batch_committing(records_view(old(records)@)) && request_for(
            result->Ok_0,
            batch_keys(records_view(old(records)@)),
            payer,
        ),
{
    let ghost before = records_view(records@);
    let mut i: usize = 0;
    while i < records.len()
        invariant
            i <= records.len(),
            *records == *old(records),
            before == records_view(records@),
            forall|j: int| 0 <= j < i ==> undelegate_verdict(#[trigger] before[j]) is Ok,
        decreases records.len() - i,
    {
        assert(before[i as int] == records@[i as int]@);
        match records[i].phase {
            Phase::Delegated => {},
            Phase::Committing => {},
            _ => {
                assert(!(undelegate_verdict(before[i as int]) is Ok));
                return Err(DelegationError::NotDelegated);
            },
        }
        i += 1;
    }
    let mut keys: Vec<ResourceKey> = Vec::new();
    let mut k: usize = 0;
    while k < records.len()
        invariant
            k <= records.len(),
            records@.len() == before.len(),
            keys@.len() == k,
            forall|j: int| 0 <= j < k ==> (#[trigger] keys@[j])@ == before[j].key,
            forall|j: int| 0 <= j < k ==> (#[trigger] records@[j])@ == committing(before[j]),
            forall|j: int| k <= j < records.len() ==> (#[trigger] records@[j])@ == before[j],
        decreases records.len() - k,
    {
        keys.push(records[k].key.clone());
        records[k].phase = Phase::Committing;
        k += 1;
    }
    assert(records_view(records@) =~= batch_committing(before));
    assert(key_views(keys@) =~= batch_keys(before));
    Ok(CommitRequest { keys, payer })
}

/// Ends the return of a batch with what the collaborator reports of each
/// resource, in the order of the batch. The batch comes back as a whole:
/// if the value of every resource arrived, all of them are back with the
/// base context; if one is missing, all of them stay on their way and the
/// same commit can be asked for again. A call for a batch of which some
/// resource is not on its way back is refused and changes nothing.
pub fn settle_undelegation_batch(
    records: &mut Vec<DelegationRecord>,
    outcomes: &Vec<Option<Vec<u8>>>,
) -> (result: Result<CommitStatus, DelegationError>)
    ensures
        !batch_in_flight(records_view(old(records)@)) ==> result == Err::<
            CommitStatus,
            DelegationError,
        >(DelegationError::NotTransitioning) && *final(records) == *old(records),
        batch_in_flight(records_view(old(records)@)) ==> records_view(final(records)@)
            == batch_after_commit(records_view(old(records)@), outcomes_view(outcomes@))
            && result == Ok::<CommitStatus, DelegationError>(
            if batch_arrived(records_view(old(records)@), outcomes_view(outcomes@)) {
                CommitStatus::Complete
            } else {
                CommitStatus::Incomplete
            },
        ),
        batch_in_flight(records_view(old(records)@)) && !batch_arrived(
            records_view(old(records)@),
            outcomes_view(outcomes@),
        ) ==> *final(records) == *old(records),
{
    let ghost before = records_view(records@);
    let ghost reported = outcomes_view(outcomes@);
    let mut i: usize = 0;
    while i < records.len()
        invariant
            i <= records.len(),
            *records == *old(records),
            before == records_view(records@),
            forall|j: int| 0 <= j < i ==> (#[trigger] before[j]).phase == Phase::Committing,
        decreases records.len() - i,
    {
        assert(before[i as int] == records@[i as int]@);
        match records[i].phase {
            Phase::Committing => {},
            _ => {
                return Err(DelegationError::NotTransitioning);
            },
        }
        i += 1;
    }
    assert(batch_in_flight(before));
    if outcomes.len() != records.len() {
        return Ok(CommitStatus::Incomplete);
    }
    let mut n: usize = 0;
    while n < outcomes.len()
        invariant
            n <= outcomes.len(),
            *records == *old(records),
            before == records_view(records@),
            batch_in_flight(before),
            reported == outcomes_view(outcomes@),
            forall|j: int| 0 <= j < n ==> (#[trigger] reported[j]) is Some,
        decreases outcomes.len() - n,
    {
        assert(reported[n as int] == outcome_view(outcomes@[n as int]));
        if outcomes[n].is_none() {
            return Ok(CommitStatus::Incomplete);
        }
        n += 1;
    }
    assert(batch_arrived(before, reported));
    let mut k: usize = 0;
    while k < records.len()
        invariant
            k <= records.len(),
            records@.len() == before.len(),
            outcomes@.len() == before.len(),
            reported == outcomes_view(outcomes@),
            batch_arrived(before, reported),
            forall|j: int|
                0 <= j < k ==> (#[trigger] records@[j])@ == after_commit(before[j], reported[j]),
            forall|j: int| k <= j < records.len() ==> (#[trigger] records@[j])@ == before[j],
        decreases records.len() - k,
    {
        assert(reported[k as int] == outcome_view(outcomes@[k as int]));
        match &outcomes[k] {
            Some(value) => {
                records[k].value = copy_bytes(value.as_slice());
                records[k].phase = Phase::Resident;
            },
            None => {},
        }
        k += 1;
    }
    assert(records_view(records@) =~= batch_after_commit(before, reported));
    Ok(CommitStatus::Complete)
}

/// What a context is told when it asks to write several resources in one
/// step: it may not if the other context owns one of them; else it should
/// ask again later if one of them is on its way; else it may.
pub open spec fn batch_access_of(records: Seq<DelegationRecordView>, context: ExecutionContext) -> Access {
    if exists|i: int|
        0 <= i < records.len() && access_of((#[trigger] records[i]).state(), context)
            == Access::Refused {
        Access::Refused
    } else if exists|i: int|
        0 <= i < records.len() && access_of((#[trigger] records[i]).state(), context)
            == Access::Retry {
        Access::Retry
    } else {
        Access::Granted
    }
}

/// What the context is told when it asks to write all the given resources
/// in one step. An operation that writes several resources is let in only
/// if the context owns every one of them.
pub fn batch_access(records: &Vec<DelegationRecord>, context: ExecutionContext) -> (access: Access)
    ensures
        access == batch_access_of(records_view(records@), context),
        access == Access::Granted <==> forall|i: int|
            0 <= i < records@.len() ==> may_mutate(
                (#[trigger] records_view(records@)[i]).state(),
                context,
            ),
{
    let ghost views = records_view(records@);
    let mut busy = false;
    let mut i: usize = 0;
    while i < records.len()
        invariant
            i <= records.len(),
            views == records_view(records@),
            forall|j: int|
                0 <= j < i ==> access_of((#[trigger] views[j]).state(), context)
                    != Access::Refused,
            busy <==> exists|j: int|
                0 <= j < i && access_of((#[trigger] views[j]).state(), context) == Access::Retry,
        decreases records.len() - i,
    {
        assert(views[i as int] == records@[i as int]@);
        match records[i].access(context) {
            Access::Refused => {
                return Access::Refused;
            },
            Access::Retry => {
                busy = true;
            },
            Access::Granted => {},
        }
        i += 1;
    }
    if busy {
        Access::Retry
    } else {
        Access::Granted
    }
}

} // verus!
