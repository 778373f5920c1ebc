use vstd::prelude::*;

use crate::errors::{EscrowError, InstructionError};
use crate::state::{fits_i64, settles, Context, EscrowAccount, EscrowState, Pubkey, Status};

verus! {

/// The accounts of `complete_job`: the freelancer who signs, and the escrow.
pub struct CompleteJob {
    pub freelancer: Pubkey,
    pub escrow: EscrowAccount,
}

/// Whether the escrow passes the account constraints of `complete_job` that
/// stand before its time gate.
pub open spec fn complete_job_admits(escrow: EscrowAccount, freelancer: Pubkey) -> bool {
    escrow.state.freelancer@ == freelancer@ && escrow.state.status == Status::Accepted
}

/// The freelancer named in the escrow marks an accepted job delivered, no
/// later than the deadline plus the grace period; the time of delivery is the
/// clock's time, not a caller's.
pub open spec fn complete_job_spec(escrow: EscrowAccount, freelancer: Pubkey, now: i64) -> Result<EscrowAccount, InstructionError> {
    if escrow.state.freelancer@ != freelancer@ {
        Err(InstructionError::ConstraintHasOne)
    } else if escrow.state.status != Status::Accepted {
        Err(InstructionError::ConstraintRaw)
    } else if now > escrow.state.deadline + escrow.state.grace_period {
        Err(InstructionError::Escrow(EscrowError::TooLateToSetToComplete))
    } else {
        Ok(escrow.with_state(EscrowState { completed_at: now, status: Status::Completed, ..escrow.state }))
    }
}

/// Marks the job complete at time `now`.
pub fn handle_complete_job(ctx: &mut Context<CompleteJob>, now: i64) -> (r: Result<(), InstructionError>)
    requires
        complete_job_admits(old(ctx).accounts.escrow, old(ctx).accounts.freelancer) ==> fits_i64(
            old(ctx).accounts.escrow.state.deadline + old(ctx).accounts.escrow.state.grace_period,
        ),
    ensures
        final(ctx).program_id == old(ctx).program_id,
        final(ctx).accounts.freelancer == old(ctx).accounts.freelancer,
        settles(
            r,
            old(ctx).accounts.escrow,
            final(ctx).accounts.escrow,
            complete_job_spec(old(ctx).accounts.escrow, old(ctx).accounts.freelancer, now),
        ),
{
    if !ctx.accounts.escrow.state.freelancer.same_key(&ctx.accounts.freelancer) {
        return Err(InstructionError::ConstraintHasOne);
    }
    if ctx.accounts.escrow.state.status != Status::Accepted {
        return Err(InstructionError::ConstraintRaw);
    }
    let last_moment = ctx.accounts.escrow.state.deadline + ctx.accounts.escrow.state.grace_period;
    if now > last_moment {
        return Err(InstructionError::Escrow(EscrowError::TooLateToSetToComplete));
    }
    ctx.accounts.escrow.state.completed_at = now;
    ctx.accounts.escrow.state.status = Status::Completed;
    Ok(())
}

} // verus!
