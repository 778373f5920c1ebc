use vstd::prelude::*;

use crate::errors::{EscrowError, InstructionError};
use crate::state::{settles, Context, EscrowAccount, Pubkey, Status};

verus! {

/// The accounts of `accept_job`: the freelancer who signs, and the escrow.
pub struct AcceptJob {
    pub freelancer: Pubkey,
    pub escrow: EscrowAccount,
}

/// The freelancer named in the escrow agrees to the terms of a funded escrow
/// while its deadline lies ahead.
pub open spec fn accept_job_spec(escrow: EscrowAccount, freelancer: Pubkey, now: i64) -> Result<EscrowAccount, InstructionError> {
    if escrow.state.freelancer@ != freelancer@ {
        Err(InstructionError::ConstraintHasOne)
    } else if escrow.state.status != Status::Funded {
        Err(InstructionError::ConstraintRaw)
    } else if now >= escrow.state.deadline {
        Err(InstructionError::Escrow(EscrowError::TooLateToSetToComplete))
    } else {
        Ok(escrow.with_state(escrow.state.with_status(Status::Accepted)))
    }
}

/// Accepts the job at time `now`.
pub fn handle_accept_job(ctx: &mut Context<AcceptJob>, now: i64) -> (r: Result<(), InstructionError>)
    ensures
        final(ctx).program_id == old(ctx).program_id,
        final(ctx).accounts.freelancer == old(ctx).accounts.freelancer,
        settles(
            r,
            old(ctx).accounts.escrow,
            final(ctx).accounts.escrow,
            accept_job_spec(old(ctx).accounts.escrow, old(ctx).accounts.freelancer, now),
        ),
{
    if !ctx.accounts.escrow.state.freelancer.same_key(&ctx.accounts.freelancer) {
        return Err(InstructionError::ConstraintHasOne);
    }
    if ctx.accounts.escrow.state.status != Status::Funded {
        return Err(InstructionError::ConstraintRaw);
    }
    if now >= ctx.accounts.escrow.state.deadline {
        return Err(InstructionError::Escrow(EscrowError::TooLateToSetToComplete));
    }
    ctx.accounts.escrow.state.status = Status::Accepted;
    Ok(())
}

} // verus!
