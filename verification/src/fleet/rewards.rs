//! Reward accounting: the balance that uploads and uses build up, and the
//! claim that pays it out.

use crate::fleet::accounts::{ClaimRewards, ClaimRewardsView};
use crate::fleet::state::{gate, gate_verdict, ErrorCode, MachineView};
use crate::identity::{authorize, authorized};
use vstd::prelude::*;

verus! {

/// Whether a claim is accepted, and why not. Of several reasons the first
/// in this order is given: the caller does not own the machine; the balance
/// is zero; the executing context does not own the working set.
pub open spec fn claim_verdict(ctx: ClaimRewardsView) -> Result<(), ErrorCode> {
    if !authorized(ctx.user, ctx.machine.owner) {
        Err(ErrorCode::Unauthorized)
    } else if ctx.machine.rewards_earned == 0 {
        Err(ErrorCode::NoRewardsAvailable)
    } else {
        gate_verdict(ctx.access)
    }
}

/// The working set after an accepted claim: the balance is zero.
pub open spec fn after_claim(ctx: ClaimRewardsView) -> ClaimRewardsView {
    ClaimRewardsView { machine: MachineView { rewards_earned: 0, ..ctx.machine }, ..ctx }
}

/// Pays out the balance of a machine to its owner: returns the amount and
/// sets the balance to zero in the same step, so that no accrual is paid
/// twice. Moving the value is left to the caller. A refused claim changes
/// nothing.
pub fn claim_rewards(ctx: &mut ClaimRewards) -> (result: Result<u64, ErrorCode>)
    ensures
        claim_verdict(old(ctx)@) matches Err(error) ==> result == Err::<u64, ErrorCode>(error)
            && *final(ctx) == *old(ctx),
        claim_verdict(old(ctx)@) is Ok ==> result == Ok::<u64, ErrorCode>(
            old(ctx).machine.rewards_earned,
        ) && final(ctx)@ == after_claim(old(ctx)@),
{
    if !authorize(&ctx.user, &ctx.machine.owner) {
        return Err(ErrorCode::Unauthorized);
    }
    let rewards = ctx.machine.rewards_earned;
    if rewards == 0 {
        return Err(ErrorCode::NoRewardsAvailable);
    }
    match gate(ctx.access) {
        Err(error) => {
            return Err(error);
        },
        Ok(_) => {},
    }
    ctx.machine.rewards_earned = 0;
    Ok(rewards)
}

} // verus!
