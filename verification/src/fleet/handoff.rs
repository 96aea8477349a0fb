//! Handing the registry to the ephemeral context and bringing it back.

use crate::delegation::{
    committing, delegate_verdict, delegating, request_delegation, request_for,
    request_undelegation, ticket_for, undelegate_verdict, CommitRequest, DelegationError,
    DelegationRecord, DelegationTicket,
};
use crate::identity::Identity;
use crate::key::{cluster_parts, cluster_seeds};
use vstd::prelude::*;

verus! {

/// What a delegation works on: who pays, and the record of the resource.
#[derive(Debug)]
pub struct DelegateInput {
    pub payer: Identity,
    pub pda: DelegationRecord,
}

/// What a return works on: who pays, and the record of the resource.
#[derive(Debug)]
pub struct UndelegateAccounts {
    pub payer: Identity,
    pub pda: DelegationRecord,
}

/// Starts the handoff of the registry to the ephemeral context, under the
/// seeds of the registry. It must be owned by the base context and stand
/// under the key that those seeds derive. Returns what the collaborator
/// needs to carry the handoff out. A refused call changes nothing.
pub fn delegate(ctx: &mut DelegateInput) -> (result: Result<DelegationTicket, DelegationError>)
    ensures
        delegate_verdict(old(ctx).pda@, cluster_parts()) matches Err(error) ==> result == Err::<
            DelegationTicket,
            DelegationError,
        >(error) && *final(ctx) == *old(ctx),
        delegate_verdict(old(ctx).pda@, cluster_parts()) is Ok ==> result is Ok && final(ctx).pda@
            == delegating(old(ctx).pda@) && final(ctx).payer == old(ctx).payer && ticket_for(
            result->Ok_0,
            old(ctx).pda@,
            cluster_parts(),
            old(ctx).payer,
        ),
{
    let payer = ctx.payer;
    request_delegation(&mut ctx.pda, payer, cluster_seeds())
}

/// Starts, or starts again, the return of the resource to the base
/// context. It must be owned by the ephemeral context or be on its way
/// back already. A refused call changes nothing.
pub fn undelegate(ctx: &mut UndelegateAccounts) -> (result: Result<CommitRequest, DelegationError>)
    ensures
        undelegate_verdict(old(ctx).pda@) matches Err(error) ==> result == Err::<
            CommitRequest,
            DelegationError,
        >(error) && *final(ctx) == *old(ctx),
        undelegate_verdict(old(ctx).pda@) is Ok ==> result is Ok && final(ctx).pda@ == committing(
            old(ctx).pda@,
        ) && final(ctx).payer == old(ctx).payer && request_for(
            result->Ok_0,
            seq![old(ctx).pda@.key],
            old(ctx).payer,
        ),
{
    let payer = ctx.payer;
    request_undelegation(&mut ctx.pda, payer)
}

} // verus!
